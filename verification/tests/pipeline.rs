use barrel_migrations::BarrelMigration;
use barrel_migrations::MemoryConnection;
use barrel_migrations::MigrationError;
use barrel_migrations::MigrationPath;
use barrel_migrations::entry_point_text;
use barrel_migrations::initial_stub_text;
use barrel_migrations::interpret_build_outcome;
use barrel_migrations::manifest_text;
use barrel_migrations::migration_from;
use barrel_migrations::parse_output;
use barrel_migrations::run_barrel_migration_wrapper;
use barrel_migrations::version_from_path;
use barrel_migrations::ENTRY_POINT_HEAD;
use barrel_migrations::ENTRY_POINT_TAIL;

fn path_of(segments: &[&str]) -> MigrationPath {
    MigrationPath::new(segments.iter().map(|s| s.to_string()).collect())
}

#[test]
fn version_resolves_prefix_before_underscore() {
    let path = path_of(&["migrations", "20240101120000_create_users"]);
    assert_eq!(version_from_path(&path), Ok("20240101120000".to_string()));
}

#[test]
fn version_strips_hyphens_from_prefix() {
    let path = path_of(&["migrations", "2024-01-01-1200_add_index"]);
    assert_eq!(version_from_path(&path), Ok("202401011200".to_string()));
}

#[test]
fn version_without_underscore_is_whole_segment() {
    let path = path_of(&["migrations", "2024-01-01"]);
    assert_eq!(version_from_path(&path), Ok("20240101".to_string()));
}

#[test]
fn version_of_root_path_fails() {
    let path = path_of(&[]);
    assert_eq!(
        version_from_path(&path),
        Err(MigrationError::VersionResolutionError)
    );
}

#[test]
fn version_of_empty_segment_is_empty() {
    let path = path_of(&["migrations", ""]);
    assert_eq!(version_from_path(&path), Ok(String::new()));
}

#[test]
fn parse_empty_output_fails() {
    assert_eq!(parse_output(""), Err(MigrationError::MalformedOutputError));
}

#[test]
fn parse_single_line_fails() {
    assert_eq!(
        parse_output("CREATE TABLE \"users\" ();"),
        Err(MigrationError::MalformedOutputError)
    );
}

#[test]
fn parse_two_lines_in_order() {
    let parsed = parse_output("apply sql\nrevert sql\n").unwrap();
    assert_eq!(parsed.0, "apply sql");
    assert_eq!(parsed.1, "revert sql");
}

#[test]
fn parse_without_trailing_newline() {
    let parsed = parse_output("apply\nrevert").unwrap();
    assert_eq!(parsed.0, "apply");
    assert_eq!(parsed.1, "revert");
}

#[test]
fn parse_ignores_lines_after_the_second() {
    let parsed = parse_output("a\nb\nstray diagnostic\n").unwrap();
    assert_eq!(parsed.0, "a");
    assert_eq!(parsed.1, "b");
}

#[test]
fn absent_logic_file_is_no_migration() {
    let path = path_of(&["migrations", "20240101120000_create_users"]);
    assert_eq!(migration_from(&path, None), Ok(None));
}

#[test]
fn create_users_scenario() {
    let path = path_of(&["migrations", "20240101120000_create_users"]);
    let captured =
        "CREATE TABLE \"users\" (\"id\" SERIAL PRIMARY KEY);\nDROP TABLE \"users\";\n".to_string();
    let migration = migration_from(&path, Some(&captured)).unwrap().unwrap();
    assert_eq!(migration.version(), "20240101120000");
    assert!(migration.up.contains("CREATE TABLE"));
    assert!(migration.up.contains("users"));
    assert!(migration.down.contains("DROP TABLE"));
    assert!(migration.down.contains("users"));
    assert_eq!(migration.file_path().unwrap(), &path);
}

#[test]
fn malformed_output_yields_no_descriptor() {
    let path = path_of(&["migrations", "20240101120000_create_users"]);
    let captured = "only one line, no break".to_string();
    assert_eq!(
        migration_from(&path, Some(&captured)),
        Err(MigrationError::MalformedOutputError)
    );
}

#[test]
fn wrapper_reports_malformed_output_before_version() {
    let path = path_of(&[]);
    assert_eq!(
        run_barrel_migration_wrapper(&path, "no line break"),
        Err(MigrationError::MalformedOutputError)
    );
}

#[test]
fn wrapper_reports_unresolvable_version() {
    let path = path_of(&[]);
    assert_eq!(
        run_barrel_migration_wrapper(&path, "up\ndown\n"),
        Err(MigrationError::VersionResolutionError)
    );
}

#[test]
fn apply_then_revert_records_both_batches_in_order() {
    let migration = BarrelMigration {
        path: path_of(&["migrations", "20240101120000_create_users"]),
        version: "20240101120000".to_string(),
        up: "CREATE TABLE \"users\" ();".to_string(),
        down: "DROP TABLE \"users\";".to_string(),
    };
    let mut conn = MemoryConnection::new();
    migration.run(&mut conn).unwrap();
    migration.revert(&mut conn).unwrap();
    assert_eq!(
        conn.log,
        vec![
            "CREATE TABLE \"users\" ();".to_string(),
            "DROP TABLE \"users\";".to_string(),
        ]
    );
}

#[test]
fn rejected_batch_surfaces_as_run_error() {
    let migration = BarrelMigration {
        path: path_of(&["migrations", "1_a"]),
        version: "1".to_string(),
        up: "CREATE TABLE \"a\" ();".to_string(),
        down: "DROP TABLE \"a\";".to_string(),
    };
    let mut conn = MemoryConnection::failing();
    assert_eq!(
        migration.run(&mut conn),
        Err(MigrationError::MigrationRunError("batch rejected".to_string()))
    );
    assert_eq!(
        migration.revert(&mut conn),
        Err(MigrationError::MigrationRunError("batch rejected".to_string()))
    );
    assert!(conn.log.is_empty());
}

#[test]
fn distinct_output_lines_give_distinct_apply_and_revert() {
    let path = path_of(&["migrations", "2_add_age"]);
    let captured = "ALTER TABLE \"users\" ADD COLUMN \"age\" INTEGER;\nALTER TABLE \"users\" DROP COLUMN \"age\";\n"
        .to_string();
    let migration = migration_from(&path, Some(&captured)).unwrap().unwrap();
    assert_ne!(migration.up, migration.down);
}

#[test]
fn build_success_passes_captured_stdout_through() {
    assert_eq!(
        interpret_build_outcome(true, "up\ndown\n".to_string(), String::new()),
        Ok("up\ndown\n".to_string())
    );
}

#[test]
fn build_failure_carries_diagnostic_text() {
    assert_eq!(
        interpret_build_outcome(false, String::new(), "compile error in logic file".to_string()),
        Err(MigrationError::BuildExecutionError(
            "compile error in logic file".to_string()
        ))
    );
}

#[test]
fn entry_point_inlines_the_user_logic() {
    let logic = "fn up(migr: &mut Migration) {}\nfn down(migr: &mut Migration) {}\n";
    let text = entry_point_text(logic);
    assert_eq!(text, format!("{}{}{}", ENTRY_POINT_HEAD, logic, ENTRY_POINT_TAIL));
    assert!(text.contains(logic));
    assert!(text.contains("fn main()"));
}

#[test]
fn manifest_declares_the_schema_builder_dependency() {
    let manifest = manifest_text();
    assert!(manifest.contains("[dependencies]"));
    assert!(manifest.contains("barrel"));
    assert!(manifest.contains("\"pg\""));
    assert!(manifest.contains("version = \"0.0.0\""));
}

#[test]
fn initial_stub_holds_empty_up_and_down() {
    let stub = initial_stub_text();
    assert!(stub.contains("fn up(migr: &mut Migration) {}"));
    assert!(stub.contains("fn down(migr: &mut Migration) {}"));
}
