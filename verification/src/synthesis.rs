//! The ephemeral project synthesizer and the build-outcome decision.
//!
//! The synthesizer produces the exact text of the two files of a disposable
//! build project: a manifest that depends on the schema-builder library with
//! the active backend feature, and an entry point that inlines the user's
//! migration logic, applies its `up` and `down` transforms to two fresh
//! accumulators, and prints the rendered SQL of each on its own line, apply
//! first.  The host writes these texts to a temporary directory and runs the
//! build toolchain there; the texts themselves are fixed here and verified.

use vstd::prelude::*;
use vstd::string::StringExecFns;
use crate::errors::MigrationError;

verus! {

/// The manifest of the ephemeral build project.
pub const MANIFEST_SOURCE: &'static str = "[package]\nname = \"barrel-migration-runner\"\ndescription = \"Renders one schema migration to SQL\"\nversion = \"0.0.0\"\nedition = \"2018\"\n\n[dependencies]\nbarrel = { git = \"https://github.com/spacekookie/barrel\", features = [\"pg\"] }\n";

/// The entry point text in front of the inlined user logic.
pub const ENTRY_POINT_HEAD: &'static str = "use barrel::Migration;\nuse barrel::backend::Pg;\nuse std::io::Write;\n\n";

/// The entry point text after the inlined user logic: a `main` that runs
/// `up` and `down` on fresh accumulators and prints the two renderings,
/// apply first, one per line.
pub const ENTRY_POINT_TAIL: &'static str = "\nfn main() {\n    let mut m_up = Migration::new();\n    up(&mut m_up);\n    let mut m_down = Migration::new();\n    down(&mut m_down);\n    let mut text = String::new();\n    text.push_str(&m_up.make::<Pg>());\n    text.push('\\n');\n    text.push_str(&m_down.make::<Pg>());\n    text.push('\\n');\n    std::io::stdout().write_all(text.as_bytes()).unwrap();\n}\n";

/// The stub logic file written for a freshly scaffolded migration: an empty
/// `up` and an empty `down` transform for the developer to fill in.
pub const INITIAL_STUB_SOURCE: &'static str = "/// Handle up migrations \nfn up(migr: &mut Migration) {} \n\n/// Handle down migrations \nfn down(migr: &mut Migration) {} \n";

/// The entry point of the ephemeral project for the given user logic: the
/// fixed head, the logic text itself, and the fixed `main`.
pub open spec fn entry_point_source(logic: Seq<char>) -> Seq<char> {
    ENTRY_POINT_HEAD@ + logic + ENTRY_POINT_TAIL@
}

/// The manifest of the ephemeral build project, as an owned string.
pub fn manifest_text() -> (r: String)
    ensures
        r@ == MANIFEST_SOURCE@,
{
    String::from_str(MANIFEST_SOURCE)
}

/// The entry point of the ephemeral build project, with the user's logic
/// file inlined between the fixed head and the fixed `main`.
pub fn entry_point_text(logic_source: &str) -> (r: String)
    ensures
        r@ == entry_point_source(logic_source@),
{
    let mut r = String::from_str(ENTRY_POINT_HEAD);
    r.append(logic_source);
    r.append(ENTRY_POINT_TAIL);
    r
}

/// The stub logic file for a freshly scaffolded migration, as an owned
/// string.
pub fn initial_stub_text() -> (r: String)
    ensures
        r@ == INITIAL_STUB_SOURCE@,
{
    String::from_str(INITIAL_STUB_SOURCE)
}

/// Decides what the orchestrator hands on after the external build: the
/// captured standard output on success, a `BuildExecutionError` carrying
/// the captured diagnostic text on launch failure or non-zero exit.
pub fn interpret_build_outcome(success: bool, captured_stdout: String, diagnostic: String) -> (r:
    Result<String, MigrationError>)
    ensures
        success ==> r == Ok::<String, MigrationError>(captured_stdout),
        !success ==> r == Err::<String, MigrationError>(
            MigrationError::BuildExecutionError(diagnostic),
        ),
{
    if success {
        Ok(captured_stdout)
    } else {
        Err(MigrationError::BuildExecutionError(diagnostic))
    }
}

} // verus!
