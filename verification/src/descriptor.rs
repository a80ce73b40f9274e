//! The migration descriptor: a versioned, reversible schema change, and
//! its assembly from a migration path and the captured output of the build
//! project.
//!
//! The host scans a migrations root, checks each directory for the logic
//! file, runs the synthesized project for those that have one, and hands
//! the captured output here.  Everything from that point on — parsing,
//! version resolution, assembly, apply and revert — is decided and proved
//! in this module.

use vstd::prelude::*;
use crate::connection::DbConnection;
use crate::errors::MigrationError;
use crate::migration_path::MigrationPath;
use crate::output::has_two_lines;
use crate::output::first_line;
use crate::output::second_line;
use crate::output::parse_output;
use crate::version::version_of;
use crate::version::version_from_path;

verus! {

/// A migration run against the host framework: the originating path, the
/// resolved version, the apply SQL and the revert SQL.
#[derive(Debug, Clone, PartialEq, Eq)]
pub struct BarrelMigration {
    /// The migration directory this descriptor was generated from.
    pub path: MigrationPath,
    /// The version token resolved from the path's final segment.
    pub version: String,
    /// The SQL batch that applies the change.
    pub up: String,
    /// The SQL batch that reverts the change.
    pub down: String,
}

impl BarrelMigration {
    /// The originating migration directory, for diagnostics and ordering.
    pub fn file_path(&self) -> (r: Option<&MigrationPath>)
        ensures
            r matches Some(p) && *p == self.path,
    {
        Some(&self.path)
    }

    /// The resolved version token, the host's ordering and tracking key.
    pub fn version(&self) -> (r: &String)
        ensures
            *r == self.version,
    {
        &self.version
    }

    /// Applies the migration: executes the apply SQL as a single batch on
    /// the given connection.  A rejected batch surfaces as
    /// `MigrationRunError` carrying the connection's message.
    pub fn run<C: DbConnection>(&self, conn: &mut C) -> (r: Result<(), MigrationError>)
        ensures
            r is Ok ==> final(conn).batches() == old(conn).batches().push(self.up@),
            r matches Err(e) ==> e matches MigrationError::MigrationRunError(_),
    {
        match conn.batch_execute(self.up.as_str()) {
            Ok(()) => Ok(()),
            Err(message) => Err(MigrationError::MigrationRunError(message)),
        }
    }

    /// Reverts the migration: executes the revert SQL as a single batch on
    /// the given connection.  A rejected batch surfaces as
    /// `MigrationRunError` carrying the connection's message.
    pub fn revert<C: DbConnection>(&self, conn: &mut C) -> (r: Result<(), MigrationError>)
        ensures
            r is Ok ==> final(conn).batches() == old(conn).batches().push(self.down@),
            r matches Err(e) ==> e matches MigrationError::MigrationRunError(_),
    {
        match conn.batch_execute(self.down.as_str()) {
            Ok(()) => Ok(()),
            Err(message) => Err(MigrationError::MigrationRunError(message)),
        }
    }
}

/// Law: a successful `run` followed immediately by a successful `revert`
/// hands the connection exactly the apply batch and then the revert batch —
/// the premises are what the two `ensures` clauses give on success, and the
/// history grows by the pair `[up, down]` and by nothing else.  Whether the
/// revert batch is the semantic inverse of the apply batch is the user
/// logic's business: SQL text is opaque to this library, so the schema-level
/// round trip is checked against a connection, not proved here.
pub proof fn lemma_apply_then_revert_history(
    m: BarrelMigration,
    before: Seq<Seq<char>>,
    between: Seq<Seq<char>>,
    after: Seq<Seq<char>>,
)
    requires
        between == before.push(m.up@),
        after == between.push(m.down@),
    ensures
        after == before + seq![m.up@, m.down@],
{
    assert(after =~= before + seq![m.up@, m.down@]);
}

/// Whether `m` is the descriptor that belongs to `path` and the captured
/// output `raw`: the path itself, the version of its final segment, and the
/// two lines of `raw` in order.
pub open spec fn descriptor_for(m: BarrelMigration, path: MigrationPath, raw: Seq<char>) -> bool {
    &&& m.path@ == path@
    &&& m.version@ == version_of(path@.last())
    &&& m.up@ == first_line(raw)
    &&& m.down@ == second_line(raw)
}

/// Assembles the migration descriptor for a path from the captured output
/// of its build project: line one becomes the apply SQL, line two the
/// revert SQL, and the path's final segment yields the version.
///
/// Fails with `MalformedOutputError` when the output holds fewer than two
/// lines, and with `VersionResolutionError` when the path has no final
/// segment; otherwise it succeeds.
pub fn run_barrel_migration_wrapper(path: &MigrationPath, captured: &str) -> (r: Result<
    BarrelMigration,
    MigrationError,
>)
    ensures
        !has_two_lines(captured@) ==> r == Err::<BarrelMigration, MigrationError>(
            MigrationError::MalformedOutputError,
        ),
        has_two_lines(captured@) && path@.len() == 0 ==> r == Err::<
            BarrelMigration,
            MigrationError,
        >(MigrationError::VersionResolutionError),
        has_two_lines(captured@) && path@.len() > 0 ==> (r matches Ok(m) && descriptor_for(
            m,
            *path,
            captured@,
        )),
{
    let (up, down) = match parse_output(captured) {
        Ok(lines) => lines,
        Err(e) => {
            return Err(e);
        },
    };
    let version = match version_from_path(path) {
        Ok(v) => v,
        Err(e) => {
            return Err(e);
        },
    };
    Ok(BarrelMigration { path: path.duplicate(), version, up, down })
}

/// Generates the migration of one scanned directory, given the captured
/// output of its build project, or `None` when the directory held no logic
/// file (`captured` is `None`): a missing logic file means "no migration
/// here", never an error.
pub fn migration_from(path: &MigrationPath, captured: Option<&String>) -> (r: Result<
    Option<BarrelMigration>,
    MigrationError,
>)
    ensures
        captured is None <==> r == Ok::<Option<BarrelMigration>, MigrationError>(None),
        captured matches Some(raw) ==> {
            &&& !has_two_lines(raw@) ==> r == Err::<Option<BarrelMigration>, MigrationError>(
                MigrationError::MalformedOutputError,
            )
            &&& has_two_lines(raw@) && path@.len() == 0 ==> r == Err::<
                Option<BarrelMigration>,
                MigrationError,
            >(MigrationError::VersionResolutionError)
            &&& has_two_lines(raw@) && path@.len() > 0 ==> (r matches Ok(Some(m))
                && descriptor_for(m, *path, raw@))
        },
{
    match captured {
        None => Ok(None),
        Some(raw) => match run_barrel_migration_wrapper(path, raw.as_str()) {
            Ok(m) => Ok(Some(m)),
            Err(e) => Err(e),
        },
    }
}

} // verus!
