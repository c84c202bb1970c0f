//! Binary semaphores and the pool that lends them out.
//!
//! A binary semaphore carries one signal to one wait. The pool follows every
//! semaphore through that life and refuses each use that would break it: a
//! second wait on one signal, a wait without a signal, and handing a
//! semaphore back while a signal or a wait on it is still outstanding.

use vstd::prelude::*;

verus! {

/// Names one semaphore of a pool by the slot it occupies.
#[derive(Clone, Copy, Debug, PartialEq, Eq, Structural)]
pub struct SemaphoreId {
    pub slot: usize,
}

/// Where a semaphore stands in its life.
#[derive(Clone, Copy, Debug, PartialEq, Eq, Structural)]
pub enum SemaphoreState {
    /// In the pool, lent to nobody.
    Free,
    /// Lent out, unsignaled, with nothing queued on it.
    Idle,
    /// An operation that signals it has been queued; nothing waits on it yet.
    Signaled,
    /// Its signal has been matched by one wait; both may still be executing.
    Waited,
}

/// Why the pool refused an operation.
#[derive(Clone, Copy, Debug, PartialEq, Eq, Structural)]
pub enum SyncError {
    /// Every slot is lent out and the pool may not grow.
    Exhausted,
    /// The semaphore is not lent out.
    NotLent,
    /// A signal is already queued on the semaphore.
    AlreadySignaled,
    /// A wait needs a signal, and none is queued.
    NotSignaled,
    /// The signal has been consumed by an earlier wait.
    AlreadyWaited,
    /// The queued signal has not been consumed by a wait.
    SignalPending,
    /// Signal and wait are queued but not known to have completed.
    InFlight,
}

/// A semaphore, or one of the two sync points that the owner of the shared
/// image brings to a submission.
#[derive(Clone, Copy, Debug, PartialEq, Eq, Structural)]
pub enum SyncPoint {
    /// Reached when the shared image is ready to be written.
    SharedReady,
    /// To be reached when the shared image may be handed on.
    SharedRelease,
    /// A binary semaphore of the bridge's own pool.
    Binary(SemaphoreId),
}

/// The state of `id` in `slots`; a slot that does not exist counts as free.
pub open spec fn state_of(slots: Seq<SemaphoreState>, id: SemaphoreId) -> SemaphoreState {
    if id.slot < slots.len() {
        slots[id.slot as int]
    } else {
        SemaphoreState::Free
    }
}

/// `i` is the lowest free slot of `slots`, or their number if none is free.
pub open spec fn is_lowest_free(slots: Seq<SemaphoreState>, i: int) -> bool {
    &&& 0 <= i <= slots.len()
    &&& i < slots.len() ==> slots[i] == SemaphoreState::Free
    &&& forall|j: int| 0 <= j < i ==> slots[j] != SemaphoreState::Free
}

/// The lowest free slot of `slots`, or their number if none is free.
pub open spec fn lowest_free(slots: Seq<SemaphoreState>) -> int {
    choose|i: int| is_lowest_free(slots, i)
}

/// What lending a semaphore out of `slots` gives: the lowest free slot, else a
/// new slot while fewer than `limit` exist, else a refusal.
pub open spec fn lend_outcome(slots: Seq<SemaphoreState>, limit: nat) -> Result<
    (Seq<SemaphoreState>, SemaphoreId),
    SyncError,
> {
    let i = lowest_free(slots);
    if i < slots.len() {
        Ok((slots.update(i, SemaphoreState::Idle), SemaphoreId { slot: i as usize }))
    } else if slots.len() < limit {
        Ok((slots.push(SemaphoreState::Idle), SemaphoreId { slot: slots.len() as usize }))
    } else {
        Err(SyncError::Exhausted)
    }
}

/// What queueing a signal on `id` gives.
pub open spec fn signal_outcome(slots: Seq<SemaphoreState>, id: SemaphoreId) -> Result<
    Seq<SemaphoreState>,
    SyncError,
> {
    match state_of(slots, id) {
        SemaphoreState::Free => Err(SyncError::NotLent),
        SemaphoreState::Idle => Ok(slots.update(id.slot as int, SemaphoreState::Signaled)),
        SemaphoreState::Signaled => Err(SyncError::AlreadySignaled),
        SemaphoreState::Waited => Err(SyncError::InFlight),
    }
}

/// What queueing a wait on `id` gives.
pub open spec fn wait_outcome(slots: Seq<SemaphoreState>, id: SemaphoreId) -> Result<
    Seq<SemaphoreState>,
    SyncError,
> {
    match state_of(slots, id) {
        SemaphoreState::Free => Err(SyncError::NotLent),
        SemaphoreState::Idle => Err(SyncError::NotSignaled),
        SemaphoreState::Signaled => Ok(slots.update(id.slot as int, SemaphoreState::Waited)),
        SemaphoreState::Waited => Err(SyncError::AlreadyWaited),
    }
}

/// What handing `id` back to the pool gives.
pub open spec fn recycle_outcome(slots: Seq<SemaphoreState>, id: SemaphoreId) -> Result<
    Seq<SemaphoreState>,
    SyncError,
> {
    match state_of(slots, id) {
        SemaphoreState::Free => Err(SyncError::NotLent),
        SemaphoreState::Idle => Ok(slots.update(id.slot as int, SemaphoreState::Free)),
        SemaphoreState::Signaled => Err(SyncError::SignalPending),
        SemaphoreState::Waited => Err(SyncError::InFlight),
    }
}

/// The slots once the queue has run dry: every matched pair of signal and
/// wait has completed, which leaves its semaphore unsignaled again.
pub open spec fn drained(slots: Seq<SemaphoreState>) -> Seq<SemaphoreState> {
    Seq::new(
        slots.len(),
        |i: int|
            if slots[i] == SemaphoreState::Waited {
                SemaphoreState::Idle
            } else {
                slots[i]
            },
    )
}

/// The slots after an operation: its result where it was accepted, the
/// unchanged slots where it was refused.
pub open spec fn settled(
    slots: Seq<SemaphoreState>,
    outcome: Result<Seq<SemaphoreState>, SyncError>,
) -> Seq<SemaphoreState> {
    match outcome {
        Ok(after) => after,
        Err(_) => slots,
    }
}

/// A slot that meets the description of the lowest free slot is that slot.
pub proof fn lemma_lowest_free(slots: Seq<SemaphoreState>, i: int)
    requires
        is_lowest_free(slots, i),
    ensures
        lowest_free(slots) == i,
{
    let k = lowest_free(slots);
    assert(is_lowest_free(slots, k));
    if k < i {
        assert(slots[k] != SemaphoreState::Free);
    } else if i < k {
        assert(slots[i] != SemaphoreState::Free);
    }
}

/// One signal feeds one wait: once a wait has been accepted, a second wait on
/// that semaphore is refused, and so is handing it back, until the queue has
/// drained.
pub proof fn law_signal_consumed_once(slots: Seq<SemaphoreState>, id: SemaphoreId)
    requires
        wait_outcome(slots, id) is Ok,
    ensures
        wait_outcome(wait_outcome(slots, id)->Ok_0, id) == Err::<Seq<SemaphoreState>, SyncError>(
            SyncError::AlreadyWaited,
        ),
        recycle_outcome(wait_outcome(slots, id)->Ok_0, id) == Err::<
            Seq<SemaphoreState>,
            SyncError,
        >(SyncError::InFlight),
        recycle_outcome(drained(wait_outcome(slots, id)->Ok_0), id) is Ok,
{
}

/// A semaphore whose signal nobody has waited for cannot be handed back, not
/// even after the queue has drained.
pub proof fn law_pending_signal_pins(slots: Seq<SemaphoreState>, id: SemaphoreId)
    requires
        signal_outcome(slots, id) is Ok,
    ensures
        recycle_outcome(signal_outcome(slots, id)->Ok_0, id) == Err::<
            Seq<SemaphoreState>,
            SyncError,
        >(SyncError::SignalPending),
        recycle_outcome(drained(signal_outcome(slots, id)->Ok_0), id) == Err::<
            Seq<SemaphoreState>,
            SyncError,
        >(SyncError::SignalPending),
{
}

/// A pool of binary semaphores with a fixed upper bound on their number.
pub struct SemaphorePool {
    slots: Vec<SemaphoreState>,
    capacity: usize,
}

impl View for SemaphorePool {
    type V = Seq<SemaphoreState>;

    closed spec fn view(&self) -> Seq<SemaphoreState> {
        self.slots@
    }
}

impl SemaphorePool {
    /// The largest number of semaphores the pool may hold.
    pub closed spec fn limit(&self) -> nat {
        self.capacity as nat
    }

    /// An empty pool that may grow to `capacity` semaphores.
    pub fn new(capacity: usize) -> (pool: SemaphorePool)
        ensures
            pool@ == Seq::<SemaphoreState>::empty(),
            pool.limit() == capacity,
    {
        SemaphorePool { slots: Vec::new(), capacity }
    }

    /// The largest number of semaphores the pool may hold.
    pub fn capacity(&self) -> (n: usize)
        ensures
            n == self.limit(),
    {
        self.capacity
    }

    /// The number of semaphores created so far, lent out or not.
    pub fn len(&self) -> (n: usize)
        ensures
            n == self@.len(),
    {
        self.slots.len()
    }

    /// The state of one semaphore.
    pub fn state(&self, id: SemaphoreId) -> (s: SemaphoreState)
        ensures
            s == state_of(self@, id),
    {
        if id.slot < self.slots.len() {
            self.slots[id.slot]
        } else {
            SemaphoreState::Free
        }
    }

    /// Lends out a semaphore: the lowest free one, or a new one while the
    /// pool may still grow.
    pub fn allocate(&mut self) -> (r: Result<SemaphoreId, SyncError>)
        ensures
            final(self).limit() == old(self).limit(),
            match lend_outcome(old(self)@, old(self).limit()) {
                Ok((slots, id)) => r == Ok::<SemaphoreId, SyncError>(id) && final(self)@ == slots,
                Err(e) => r == Err::<SemaphoreId, SyncError>(e) && final(self)@ == old(self)@,
            },
    {
        let mut i: usize = 0;
        while i < self.slots.len()
            invariant
                i <= self.slots.len(),
                *self == *old(self),
                forall|j: int| 0 <= j < i ==> self.slots@[j] != SemaphoreState::Free,
            decreases self.slots.len() - i,
        {
            if self.slots[i] == SemaphoreState::Free {
                proof {
                    lemma_lowest_free(self@, i as int);
                }
                self.slots.set(i, SemaphoreState::Idle);
                return Ok(SemaphoreId { slot: i });
            }
            i += 1;
        }
        proof {
            lemma_lowest_free(self@, i as int);
        }
        if self.slots.len() < self.capacity {
            self.slots.push(SemaphoreState::Idle);
            Ok(SemaphoreId { slot: i })
        } else {
            Err(SyncError::Exhausted)
        }
    }

    /// Records that an operation which signals `id` has been queued.
    pub fn signal(&mut self, id: SemaphoreId) -> (r: Result<(), SyncError>)
        ensures
            final(self).limit() == old(self).limit(),
            final(self)@ == settled(old(self)@, signal_outcome(old(self)@, id)),
            match signal_outcome(old(self)@, id) {
                Ok(_) => r is Ok,
                Err(e) => r == Err::<(), SyncError>(e),
            },
    {
        match self.state(id) {
            SemaphoreState::Free => Err(SyncError::NotLent),
            SemaphoreState::Idle => {
                self.slots.set(id.slot, SemaphoreState::Signaled);
                Ok(())
            },
            SemaphoreState::Signaled => Err(SyncError::AlreadySignaled),
            SemaphoreState::Waited => Err(SyncError::InFlight),
        }
    }

    /// Records that an operation which waits on `id` has been queued.
    pub fn wait(&mut self, id: SemaphoreId) -> (r: Result<(), SyncError>)
        ensures
            final(self).limit() == old(self).limit(),
            final(self)@ == settled(old(self)@, wait_outcome(old(self)@, id)),
            match wait_outcome(old(self)@, id) {
                Ok(_) => r is Ok,
                Err(e) => r == Err::<(), SyncError>(e),
            },
    {
        match self.state(id) {
            SemaphoreState::Free => Err(SyncError::NotLent),
            SemaphoreState::Idle => Err(SyncError::NotSignaled),
            SemaphoreState::Signaled => {
                self.slots.set(id.slot, SemaphoreState::Waited);
                Ok(())
            },
            SemaphoreState::Waited => Err(SyncError::AlreadyWaited),
        }
    }

    /// Takes `id` back into the pool.
    pub fn recycle(&mut self, id: SemaphoreId) -> (r: Result<(), SyncError>)
        ensures
            final(self).limit() == old(self).limit(),
            final(self)@ == settled(old(self)@, recycle_outcome(old(self)@, id)),
            match recycle_outcome(old(self)@, id) {
                Ok(_) => r is Ok,
                Err(e) => r == Err::<(), SyncError>(e),
            },
    {
        match self.state(id) {
            SemaphoreState::Free => Err(SyncError::NotLent),
            SemaphoreState::Idle => {
                self.slots.set(id.slot, SemaphoreState::Free);
                Ok(())
            },
            SemaphoreState::Signaled => Err(SyncError::SignalPending),
            SemaphoreState::Waited => Err(SyncError::InFlight),
        }
    }

    /// Records that the queue has run dry, which completes every wait.
    pub fn drain(&mut self)
        ensures
            final(self).limit() == old(self).limit(),
            final(self)@ == drained(old(self)@),
    {
        let mut i: usize = 0;
        while i < self.slots.len()
            invariant
                i <= self.slots.len(),
                self.capacity == old(self).capacity,
                self.slots@.len() == old(self).slots@.len(),
                forall|j: int| 0 <= j < i ==> self.slots@[j] == drained(old(self).slots@)[j],
                forall|j: int| i <= j < self.slots@.len() ==> self.slots@[j] == old(self).slots@[j],
            decreases self.slots.len() - i,
        {
            if self.slots[i] == SemaphoreState::Waited {
                self.slots.set(i, SemaphoreState::Idle);
            }
            i += 1;
        }
        assert(self.slots@ =~= drained(old(self).slots@));
    }
}

} // verus!
