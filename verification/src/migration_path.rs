//! The library's model of a migration location: the segments of a
//! filesystem path, outermost first.  The host hands the library a path
//! already split into plain strings; the library never touches the
//! filesystem itself.

use vstd::prelude::*;

verus! {

/// A filesystem location identifying a single migration unit, as a sequence
/// of path segments.  A root path has no segments; the final segment is the
/// directory or file name the version is derived from.
#[derive(Debug, Clone, PartialEq, Eq)]
pub struct MigrationPath {
    /// The path's segments, outermost first.
    pub segments: Vec<String>,
}

impl View for MigrationPath {
    type V = Seq<Seq<char>>;

    open spec fn view(&self) -> Seq<Seq<char>> {
        self.segments.deep_view()
    }
}

impl MigrationPath {
    /// Wraps ready-made segments as a migration path.
    pub fn new(segments: Vec<String>) -> (r: MigrationPath)
        ensures
            r.segments == segments,
    {
        MigrationPath { segments }
    }

    /// An owned copy of this path, segment for segment.
    pub fn duplicate(&self) -> (r: MigrationPath)
        ensures
            r.segments@ == self.segments@,
            r@ == self@,
    {
        let mut segments: Vec<String> = Vec::new();
        let mut i: usize = 0;
        while i < self.segments.len()
            invariant
                i <= self.segments.len(),
                segments@ == self.segments@.take(i as int),
            decreases self.segments.len() - i,
        {
            segments.push(self.segments[i].clone());
            proof {
                assert(self.segments@.take(i + 1) =~= self.segments@.take(i as int).push(
                    self.segments@[i as int],
                ));
            }
            i += 1;
        }
        proof {
            assert(self.segments@.take(self.segments@.len() as int) =~= self.segments@);
        }
        MigrationPath { segments }
    }

    /// The last segment of the path, or `None` for a path with no segments.
    pub fn final_segment(&self) -> (r: Option<&String>)
        ensures
            self@.len() == 0 <==> r is None,
            r matches Some(s) ==> self@.len() > 0 && s@ == self@.last(),
    {
        if self.segments.len() == 0 {
            None
        } else {
            Some(&self.segments[self.segments.len() - 1])
        }
    }
}

} // verus!
