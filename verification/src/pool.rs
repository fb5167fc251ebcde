//! The connection pool manager: a bounded set of reusable connections,
//! lent out one per operation and returned on every exit path. Only the
//! accounting is modelled here; establishing the physical connection is
//! the embedding program's concern.

use vstd::prelude::*;

use crate::model::RepoError;

verus! {

/// A connection lent out by the pool. Repository operations borrow one
/// for the duration of a single call; holding a value of this type is
/// the only way to reach the storage table.
#[derive(Debug)]
pub struct Connection {
    mark: (),
}

/// A bounded pool of connections. At most `cap()` connections are lent
/// out at any time; a further acquisition fails rather than blocks.
pub struct Pool {
    capacity: usize,
    lent: usize,
}

impl Pool {
    /// The bound the pool was created with.
    pub closed spec fn cap(self) -> int {
        self.capacity as int
    }

    /// How many connections are currently lent out.
    pub closed spec fn lent(self) -> int {
        self.lent as int
    }

    /// The pool never lends more connections than its bound.
    pub open spec fn wf(self) -> bool {
        &&& 1 <= self.cap()
        &&& 0 <= self.lent() <= self.cap()
    }

    /// Creates a pool of at most `capacity` connections. Sizing comes
    /// from process configuration, which the embedding program reads
    /// at startup and must fail fast on when absent.
    pub fn new(capacity: usize) -> (r: Pool)
        requires
            1 <= capacity,
        ensures
            r.wf(),
            r.cap() == capacity,
            r.lent() == 0,
    {
        Pool { capacity, lent: 0 }
    }

    /// Lends a connection, scoped to one repository call. When every
    /// connection is already lent out the acquisition fails as a
    /// storage-level fault for this request; there is no retry.
    pub fn acquire(&mut self) -> (r: Result<Connection, RepoError>)
        requires
            old(self).wf(),
        ensures
            final(self).wf(),
            final(self).cap() == old(self).cap(),
            old(self).lent() < old(self).cap() ==> r is Ok && final(self).lent() == old(
                self,
            ).lent() + 1,
            old(self).lent() == old(self).cap() ==> r == Err::<Connection, RepoError>(
                RepoError::StorageError,
            ) && final(self).lent() == old(self).lent(),
    {
        if self.lent < self.capacity {
            self.lent = self.lent + 1;
            Ok(Connection { mark: () })
        } else {
            Err(RepoError::StorageError)
        }
    }

    /// Takes a lent connection back. The caller gives the connection
    /// up, so it cannot be used after release.
    pub fn release(&mut self, conn: Connection)
        requires
            old(self).wf(),
            1 <= old(self).lent(),
        ensures
            final(self).wf(),
            final(self).cap() == old(self).cap(),
            final(self).lent() == old(self).lent() - 1,
    {
        self.lent = self.lent - 1;
    }
}

} // verus!
