//! Turns declarative schema-change logic into concrete SQL migrations.
//!
//! A migration lives in a directory whose name carries a version prefix and
//! which holds one logic file with an `up` and a `down` transform.  The
//! library resolves the version from the path, synthesizes the text of a
//! disposable build project that runs the logic against a schema builder,
//! parses the two-line output of that project (apply SQL, then revert SQL),
//! and wraps the result in a versioned, reversible migration descriptor.
//!
//! Filesystem and process work (creating the temporary project, running the
//! build toolchain, scanning directories) is left to the host; every decision
//! and every piece of text handled here is verified.

mod connection;
mod descriptor;
mod errors;
mod migration_path;
mod output;
mod synthesis;
mod text;
mod version;

pub use connection::DbConnection;
pub use connection::MemoryConnection;
pub use descriptor::BarrelMigration;
pub use descriptor::descriptor_for;
pub use descriptor::lemma_apply_then_revert_history;
pub use descriptor::migration_from;
pub use descriptor::run_barrel_migration_wrapper;
pub use errors::MigrationError;
pub use migration_path::MigrationPath;
pub use output::first_line;
pub use output::has_two_lines;
pub use output::parse_output;
pub use output::second_line;
pub use synthesis::entry_point_source;
pub use synthesis::entry_point_text;
pub use synthesis::initial_stub_text;
pub use synthesis::interpret_build_outcome;
pub use synthesis::manifest_text;
pub use synthesis::ENTRY_POINT_HEAD;
pub use synthesis::ENTRY_POINT_TAIL;
pub use synthesis::INITIAL_STUB_SOURCE;
pub use synthesis::MANIFEST_SOURCE;
pub use text::contains_char;
pub use text::first_index;
pub use text::prefix_before;
pub use text::without_char;
pub use version::lemma_version_no_underscore;
pub use version::lemma_version_with_underscore;
pub use version::version_from_path;
pub use version::version_of;
