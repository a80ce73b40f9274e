//! The error taxonomy of the migration pipeline.
//!
//! Every stage fails fast: each variant belongs to exactly one stage, and a
//! failing stage surfaces its variant to the immediate caller unchanged.

use vstd::prelude::*;

verus! {

/// What can go wrong while turning one migration directory into SQL and
/// running it.
#[derive(Debug, Clone, PartialEq, Eq)]
pub enum MigrationError {
    /// The migration path has no final segment to derive a version from.
    VersionResolutionError,
    /// A filesystem operation failed while materializing the ephemeral
    /// build project; carries the underlying diagnostic text.
    SynthesisError(String),
    /// The external build toolchain could not be launched or finished with
    /// a non-zero exit state; carries the captured diagnostic text.
    BuildExecutionError(String),
    /// The captured output of the build project held fewer than two lines.
    MalformedOutputError,
    /// The connection capability rejected an SQL batch at apply or revert
    /// time; carries the connection's own message.
    MigrationRunError(String),
}

} // verus!
