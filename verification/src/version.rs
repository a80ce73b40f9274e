//! The version resolver: a pure function from a migration path to its
//! version token, the text of the final segment before the first underscore
//! with every hyphen removed.

use vstd::prelude::*;
use crate::errors::MigrationError;
use crate::migration_path::MigrationPath;
use crate::text::contains_char;
use crate::text::prefix_before;
use crate::text::without_char;
use crate::text::lemma_first_index;
use crate::text::lemma_first_index_unique;
use crate::text::take_until;
use crate::text::strip_char;

verus! {

/// The version derived from one path segment: the text before the first
/// underscore (the whole segment when it has none), hyphens removed.
pub open spec fn version_of(segment: Seq<char>) -> Seq<char> {
    without_char(prefix_before(segment, '_'), '-')
}

/// Resolves the version token of a migration path.
///
/// Succeeds exactly when the path has a final segment; a root path (no
/// segments at all) is the one unresolvable shape.  An empty final segment
/// still resolves, to the empty version.
pub fn version_from_path(path: &MigrationPath) -> (r: Result<String, MigrationError>)
    ensures
        path@.len() == 0 <==> r == Err::<String, MigrationError>(
            MigrationError::VersionResolutionError,
        ),
        path@.len() > 0 ==> (r matches Ok(v) && v@ == version_of(path@.last())),
{
    match path.final_segment() {
        None => Err(MigrationError::VersionResolutionError),
        Some(segment) => {
            let fragment = take_until(segment.as_str(), '_');
            Ok(strip_char(fragment.as_str(), '-'))
        },
    }
}

/// For a segment whose first underscore stands at index `k`, the resolved
/// version is the text in front of that underscore with hyphens removed.
pub proof fn lemma_version_with_underscore(segment: Seq<char>, k: int)
    requires
        0 <= k < segment.len(),
        segment[k] == '_',
        forall|j: int| 0 <= j < k ==> segment[j] != '_',
    ensures
        version_of(segment) == without_char(segment.take(k), '-'),
{
    lemma_first_index_unique(segment, '_', k);
    lemma_first_index(segment, '_');
}

/// For a segment with no underscore at all, the resolved version is the
/// whole segment with hyphens removed.
pub proof fn lemma_version_no_underscore(segment: Seq<char>)
    requires
        !contains_char(segment, '_'),
    ensures
        version_of(segment) == without_char(segment, '-'),
{
    assert(forall|j: int| 0 <= j < segment.len() ==> segment[j] != '_');
    lemma_first_index_unique(segment, '_', segment.len() as int);
    lemma_first_index(segment, '_');
    assert(segment.take(segment.len() as int) =~= segment);
}

} // verus!
