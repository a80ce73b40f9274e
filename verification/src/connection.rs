//! The connection capability a migration is applied through.
//!
//! The host framework supplies the real database connection; the library
//! only demands the one operation it uses, executing an SQL batch, and a
//! ghost history of the batches a connection has accepted so far.  The
//! in-memory connection below implements the capability for tests and for
//! hosts that want a dry run: it records every batch instead of executing
//! it.

use vstd::prelude::*;
use vstd::string::StringExecFns;

verus! {

/// A capability that executes SQL batches, with a ghost history of the
/// batches accepted so far.
pub trait DbConnection {
    /// The batches this connection has accepted, oldest first.
    spec fn batches(&self) -> Seq<Seq<char>>;

    /// Executes `sql` as a single batch.  On success the batch is appended
    /// to the connection's history; on failure the error message of the
    /// connection layer is returned.
    fn batch_execute(&mut self, sql: &str) -> (r: Result<(), String>)
        ensures
            r is Ok ==> final(self).batches() == old(self).batches().push(sql@),
    ;
}

/// An in-memory connection: records every accepted batch in order and,
/// when `fail` is set, rejects every batch and records nothing.
#[derive(Debug, Clone, PartialEq, Eq)]
pub struct MemoryConnection {
    /// The accepted batches, oldest first.
    pub log: Vec<String>,
    /// When set, every batch is rejected.
    pub fail: bool,
}

impl MemoryConnection {
    /// A fresh connection that accepts every batch.
    pub fn new() -> (r: MemoryConnection)
        ensures
            r.log@ == Seq::<String>::empty(),
            !r.fail,
    {
        MemoryConnection { log: Vec::new(), fail: false }
    }

    /// A connection that rejects every batch, for exercising failure paths.
    pub fn failing() -> (r: MemoryConnection)
        ensures
            r.log@ == Seq::<String>::empty(),
            r.fail,
    {
        MemoryConnection { log: Vec::new(), fail: true }
    }
}

impl DbConnection for MemoryConnection {
    open spec fn batches(&self) -> Seq<Seq<char>> {
        self.log.deep_view()
    }

    fn batch_execute(&mut self, sql: &str) -> (r: Result<(), String>)
        ensures
            old(self).fail ==> r is Err && *final(self) == *old(self),
            !old(self).fail ==> r is Ok,
            final(self).fail == old(self).fail,
    {
        if self.fail {
            Err(String::from_str("batch rejected"))
        } else {
            self.log.push(String::from_str(sql));
            proof {
                assert(self.log.deep_view() =~= old(self).log.deep_view().push(sql@));
            }
            Ok(())
        }
    }
}

} // verus!
