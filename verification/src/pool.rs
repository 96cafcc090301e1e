//! The bounded connection pool and the per-request extractor: how many
//! connections may be on loan at once, what one poll of a pending acquire
//! decides, and the guarantee that a checked-out connection comes back.

use vstd::prelude::*;

use crate::status::{error_response, spec_message_of, spec_status_of, ServiceError};

verus! {

/// What one poll of a pending acquire decides.
#[derive(Clone, Copy, Debug, PartialEq, Eq, Structural)]
pub enum AcquirePoll {
    /// A connection was idle: the caller now holds it.
    Granted,
    /// Every connection is on loan and the timeout has not elapsed: keep
    /// waiting for a release.
    Wait,
    /// Every connection is on loan and the timeout has elapsed: give up.
    TimedOut,
}

/// A bounded set of live connections: at most `capacity` may be on loan at
/// once, and a caller that cannot be served within `acquire_timeout_ms` is
/// turned away rather than kept forever.
#[derive(Debug)]
pub struct Pool {
    capacity: usize,
    checked_out: usize,
    acquire_timeout_ms: u64,
}

/// The decision one poll of an acquire takes against the pool's state: grant
/// where a connection is idle, otherwise wait until the configured timeout
/// has elapsed and only then fail.
pub open spec fn spec_poll(p: Pool, elapsed_ms: int) -> AcquirePoll {
    if p.has_idle() {
        AcquirePoll::Granted
    } else if elapsed_ms < p.spec_timeout_ms() {
        AcquirePoll::Wait
    } else {
        AcquirePoll::TimedOut
    }
}

impl Pool {
    /// How many connections the pool was sized for.
    pub closed spec fn spec_capacity(&self) -> int {
        self.capacity as int
    }

    /// How many connections are on loan right now.
    pub closed spec fn spec_checked_out(&self) -> int {
        self.checked_out as int
    }

    /// How long an acquire may wait before it fails.
    pub closed spec fn spec_timeout_ms(&self) -> int {
        self.acquire_timeout_ms as int
    }

    /// The pool's invariant: never more connections on loan than it was sized
    /// for.
    pub open spec fn wf(&self) -> bool {
        0 <= self.spec_checked_out() <= self.spec_capacity()
    }

    /// Whether an acquire would be granted now.
    pub open spec fn has_idle(&self) -> bool {
        self.spec_checked_out() < self.spec_capacity()
    }

    /// The same connections on loan under the same configuration: what a
    /// request that returned everything it took leaves behind.
    pub open spec fn same_state(&self, other: &Pool) -> bool {
        &&& self.spec_capacity() == other.spec_capacity()
        &&& self.spec_checked_out() == other.spec_checked_out()
        &&& self.spec_timeout_ms() == other.spec_timeout_ms()
    }

    /// A pool sized for `max_connections`, with nothing on loan yet.
    pub fn new(max_connections: usize, acquire_timeout_ms: u64) -> (pool: Pool)
        ensures
            pool.wf(),
            pool.spec_capacity() == max_connections,
            pool.spec_checked_out() == 0,
            pool.spec_timeout_ms() == acquire_timeout_ms,
    {
        Pool { capacity: max_connections, checked_out: 0, acquire_timeout_ms }
    }

    /// Hand out a connection where one is idle; never block.
    pub fn try_acquire(&mut self) -> (granted: bool)
        requires
            old(self).wf(),
        ensures
            final(self).wf(),
            granted == old(self).has_idle(),
            granted ==> final(self).spec_checked_out() == old(self).spec_checked_out() + 1,
            !granted ==> *final(self) == *old(self),
            final(self).spec_capacity() == old(self).spec_capacity(),
            final(self).spec_timeout_ms() == old(self).spec_timeout_ms(),
    {
        if self.checked_out < self.capacity {
            self.checked_out = self.checked_out + 1;
            true
        } else {
            false
        }
    }

    /// One step of a blocking acquire, decided from the pool's state and the
    /// time already spent waiting; the caller performs the waiting itself and
    /// hands the elapsed time back in.
    pub fn poll_acquire(&mut self, elapsed_ms: u64) -> (poll: AcquirePoll)
        requires
            old(self).wf(),
        ensures
            final(self).wf(),
            poll == spec_poll(*old(self), elapsed_ms as int),
            poll is Granted ==> final(self).spec_checked_out() == old(self).spec_checked_out()
                + 1,
            poll !is Granted ==> *final(self) == *old(self),
            final(self).spec_capacity() == old(self).spec_capacity(),
            final(self).spec_timeout_ms() == old(self).spec_timeout_ms(),
    {
        if self.checked_out < self.capacity {
            self.checked_out = self.checked_out + 1;
            AcquirePoll::Granted
        } else if elapsed_ms < self.acquire_timeout_ms {
            AcquirePoll::Wait
        } else {
            AcquirePoll::TimedOut
        }
    }

    /// Return a connection to the idle set; afterwards at least one acquire
    /// can be granted again.
    pub fn release(&mut self)
        requires
            old(self).wf(),
            old(self).spec_checked_out() > 0,
        ensures
            final(self).wf(),
            final(self).spec_checked_out() == old(self).spec_checked_out() - 1,
            final(self).spec_capacity() == old(self).spec_capacity(),
            final(self).spec_timeout_ms() == old(self).spec_timeout_ms(),
            final(self).has_idle(),
    {
        self.checked_out = self.checked_out - 1;
    }
}

/// A connection checked out for exactly one request: the token the extractor
/// hands the handler, given back to the pool when the request is done.
#[derive(Debug)]
pub struct DatabaseConnection;

impl DatabaseConnection {
    /// Check one connection out before the handler body runs. An exhausted
    /// pool surfaces as an internal error carrying the pool's message.
    pub fn extract(pool: &mut Pool) -> (result: Result<DatabaseConnection, (u16, String)>)
        requires
            old(pool).wf(),
        ensures
            final(pool).wf(),
            final(pool).spec_capacity() == old(pool).spec_capacity(),
            final(pool).spec_timeout_ms() == old(pool).spec_timeout_ms(),
            result is Ok <==> old(pool).has_idle(),
            result is Ok ==> final(pool).spec_checked_out() == old(pool).spec_checked_out() + 1,
            result matches Err(e) ==> {
                &&& *final(pool) == *old(pool)
                &&& e.0 == spec_status_of(ServiceError::PoolExhausted)
                &&& e.1@ == spec_message_of(ServiceError::PoolExhausted)
            },
    {
        if pool.try_acquire() {
            Ok(DatabaseConnection)
        } else {
            Err(error_response(&ServiceError::PoolExhausted))
        }
    }

    /// Give the connection back; every exit path of a handler ends here.
    pub fn release(self, pool: &mut Pool)
        requires
            old(pool).wf(),
            old(pool).spec_checked_out() > 0,
        ensures
            final(pool).wf(),
            final(pool).spec_checked_out() == old(pool).spec_checked_out() - 1,
            final(pool).spec_capacity() == old(pool).spec_capacity(),
            final(pool).spec_timeout_ms() == old(pool).spec_timeout_ms(),
            final(pool).has_idle(),
    {
        pool.release();
    }
}

/// Law: an acquire never pushes the pool past its capacity — a grant happens
/// only below the cap, and a full pool grants nothing, whatever the elapsed
/// time.
pub proof fn lemma_acquire_never_exceeds_capacity(p: Pool, elapsed_ms: int)
    requires
        p.wf(),
    ensures
        spec_poll(p, elapsed_ms) is Granted ==> p.spec_checked_out() + 1 <= p.spec_capacity(),
        p.spec_checked_out() == p.spec_capacity() ==> spec_poll(p, elapsed_ms) !is Granted,
{
}

/// Law: against a full pool an acquire never deadlocks silently — every poll
/// before the configured timeout waits, and the first poll at or past it
/// fails with the timeout outcome.
pub proof fn lemma_full_pool_waits_then_times_out(p: Pool, elapsed_ms: int)
    requires
        p.wf(),
        !p.has_idle(),
    ensures
        elapsed_ms < p.spec_timeout_ms() ==> spec_poll(p, elapsed_ms) is Wait,
        elapsed_ms >= p.spec_timeout_ms() ==> spec_poll(p, elapsed_ms) is TimedOut,
{
}

/// Law: a release unblocks a waiting acquire — after any release, as `release`
/// ensures, a connection is idle again, so the very next poll is granted.
pub proof fn lemma_release_unblocks_acquire(before: Pool, after: Pool, elapsed_ms: int)
    requires
        before.wf(),
        before.spec_checked_out() > 0,
        after.spec_capacity() == before.spec_capacity(),
        after.spec_checked_out() == before.spec_checked_out() - 1,
    ensures
        spec_poll(after, elapsed_ms) is Granted,
{
}

} // verus!
