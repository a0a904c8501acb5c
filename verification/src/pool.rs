use vstd::prelude::*;

verus! {

/// A leased, exclusively owned data-store connection. A handle is returned by
/// [`Pool::acquire`], is held by exactly one in-flight call at a time, and is
/// given back through [`Pool::release`] on every exit path. Its one field is
/// private, so only `acquire` can mint a handle, and releasing consumes it:
/// neither a forged release nor a double release can compile.
pub struct ConnectionHandle {
    leased: (),
}

/// Accounting model of the bounded connection pool: how many connections may
/// exist at most, and how many are currently leased out. The pool is created
/// once at process startup and lives for the process lifetime.
pub struct Pool {
    max_size: usize,
    leased: usize,
}

impl Pool {
    /// Configured maximum number of connections.
    pub closed spec fn max(self) -> nat {
        self.max_size as nat
    }

    /// Number of connections currently leased out.
    pub closed spec fn leased_count(self) -> nat {
        self.leased as nat
    }

    /// The pool's connection count never exceeds its configured maximum.
    pub open spec fn wf(self) -> bool {
        self.leased_count() <= self.max()
    }

    /// Creates a pool with the given maximum size and no leases. Connections
    /// themselves are established lazily, on first demand, so nothing beyond
    /// the bookkeeping exists at this point.
    pub fn new(max_size: usize) -> (p: Pool)
        ensures
            p.wf(),
            p.max() == max_size,
            p.leased_count() == 0,
    {
        Pool { max_size, leased: 0 }
    }

    /// Number of connections still available for lease.
    pub fn available(&self) -> (n: usize)
        requires
            self.wf(),
        ensures
            n == self.max() - self.leased_count(),
    {
        self.max_size - self.leased
    }

    /// Leases one connection. The caller must know a connection is free; a
    /// saturated pool blocks the caller outside this model, so the lease
    /// itself never oversubscribes the pool.
    pub fn acquire(&mut self) -> (h: ConnectionHandle)
        requires
            old(self).wf(),
            old(self).leased_count() < old(self).max(),
        ensures
            final(self).wf(),
            final(self).max() == old(self).max(),
            final(self).leased_count() == old(self).leased_count() + 1,
    {
        self.leased = self.leased + 1;
        ConnectionHandle { leased: () }
    }

    /// Returns a leased connection to the free set, consuming the handle.
    pub fn release(&mut self, _handle: ConnectionHandle)
        requires
            old(self).wf(),
            old(self).leased_count() > 0,
        ensures
            final(self).wf(),
            final(self).max() == old(self).max(),
            final(self).leased_count() == old(self).leased_count() - 1,
    {
        self.leased = self.leased - 1;
    }
}

} // verus!
