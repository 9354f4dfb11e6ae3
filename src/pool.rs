//! A bounded store of idle connections to the persistence backend.
//!
//! Taking a connection never waits: an idle one is handed out if there is
//! one, and otherwise the caller establishes a new one. A returned
//! connection is kept only while fewer than the capacity are idle; beyond
//! that it is handed back to be closed.

use vstd::prelude::*;

verus! {

/// Idle connections, at most `capacity` of them.
pub struct ConnectionPool<C> {
    idle: Vec<C>,
    capacity: usize,
}

impl<C> ConnectionPool<C> {
    /// The idle connections, in the order they were returned.
    pub closed spec fn idle(&self) -> Seq<C> {
        self.idle@
    }

    /// The most idle connections the pool keeps.
    pub closed spec fn capacity(&self) -> nat {
        self.capacity as nat
    }

    /// The pool never holds more idle connections than its capacity.
    pub open spec fn wf(&self) -> bool {
        self.idle().len() <= self.capacity()
    }

    /// An empty pool that keeps at most `size` idle connections.
    pub fn new(size: usize) -> (r: Self)
        ensures
            r.wf(),
            r.idle().len() == 0,
            r.capacity() == size,
    {
        ConnectionPool { idle: Vec::new(), capacity: size }
    }

    /// The number of idle connections.
    pub fn idle_count(&self) -> (r: usize)
        ensures
            r == self.idle().len(),
    {
        self.idle.len()
    }

    /// Takes an idle connection, the one returned earliest. `None` when
    /// none is idle: the caller then establishes a fresh connection.
    pub fn get(&mut self) -> (r: Option<C>)
        requires
            old(self).wf(),
        ensures
            final(self).wf(),
            final(self).capacity() == old(self).capacity(),
            old(self).idle().len() == 0 ==> r is None && final(self).idle() == old(self).idle(),
            old(self).idle().len() > 0 ==> r == Some(old(self).idle()[0])
                && final(self).idle() == old(self).idle().drop_first(),
    {
        if self.idle.len() == 0 {
            None
        } else {
            let conn = self.idle.remove(0);
            assert(self.idle@ =~= old(self).idle@.drop_first());
            Some(conn)
        }
    }

    /// Gives back a connection after use. It is kept when fewer than the
    /// capacity are idle; otherwise it is returned to the caller to close.
    pub fn recycle(&mut self, conn: C) -> (r: Option<C>)
        requires
            old(self).wf(),
        ensures
            final(self).wf(),
            final(self).capacity() == old(self).capacity(),
            old(self).idle().len() < old(self).capacity() ==> r is None && final(self).idle()
                == old(self).idle().push(conn),
            old(self).idle().len() >= old(self).capacity() ==> r == Some(conn)
                && final(self).idle() == old(self).idle(),
    {
        if self.idle.len() < self.capacity {
            self.idle.push(conn);
            None
        } else {
            Some(conn)
        }
    }
}

} // verus!
