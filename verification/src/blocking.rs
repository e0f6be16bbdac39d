//! The blocking adapter: a ring together with one closed flag and one
//! binary semaphore per side, and the decision logic of the blocking loops.
//!
//! The core never sleeps.  A step function reports `MustWait` when no
//! progress is possible, and the unverified shell around the core parks the
//! thread on a real semaphore until the opposite side gives it or the
//! remaining timeout — computed here, free of underflow — runs out.

use vstd::prelude::*;

use crate::local::LocalRb;
use crate::traits::{RingBufferBase, RingBufferRead, RingBufferWrite};

verus! {

/// The state of a binary semaphore: a one-bit latch.
pub struct SemaphoreState {
    signalled: bool,
}

impl SemaphoreState {
    pub closed spec fn is_signalled(&self) -> bool {
        self.signalled
    }

    pub fn new() -> (r: Self)
        ensures
            !r.is_signalled(),
    {
        SemaphoreState { signalled: false }
    }

    /// Sets the latch; idempotent when already given.
    pub fn give(&mut self)
        ensures
            final(self).is_signalled(),
    {
        self.signalled = true;
    }

    /// Clears the latch and reports whether it had been set.
    pub fn try_take(&mut self) -> (r: bool)
        ensures
            r == old(self).is_signalled(),
            !final(self).is_signalled(),
    {
        let w = self.signalled;
        self.signalled = false;
        w
    }
}

/// The remaining-timeout sequence of a blocking call: before each wait it
/// yields either "wait forever" (`Some(None)`), the remaining slice of the
/// original timeout (`Some(Some(left))`), or reports expiry (`None`).
/// Durations are in the caller's clock ticks.
pub struct TimeoutIterator {
    timeout: Option<u64>,
}

impl TimeoutIterator {
    pub closed spec fn timeout_spec(&self) -> Option<u64> {
        self.timeout
    }

    /// `None` means no timeout: wait forever.
    pub fn new(timeout: Option<u64>) -> (r: Self)
        ensures
            r.timeout_spec() == timeout,
    {
        TimeoutIterator { timeout }
    }

    /// The next wait bound, given the ticks elapsed since the call began.
    pub fn next(&self, elapsed: u64) -> (r: Option<Option<u64>>)
        ensures
            self.timeout_spec() is None ==> r == Some(Option::<u64>::None),
            self.timeout_spec() matches Some(dur) ==> (dur > elapsed ==> r == Some(
                Some((dur - elapsed) as u64),
            )) && (dur <= elapsed ==> r is None),
    {
        match self.timeout {
            Some(dur) => {
                if dur > elapsed {
                    Some(Some(dur - elapsed))
                } else {
                    None
                }
            },
            None => Some(None),
        }
    }
}

/// Outcome of one blocking-push decision step.
pub enum PushStep<T> {
    /// The item went in.
    Done,
    /// The consumer half is gone; the item comes back.
    Closed(T),
    /// The buffer is full; the item comes back and the caller must wait on
    /// the producer-side semaphore before retrying.
    MustWait(T),
}

/// Outcome of one blocking-pop decision step.
pub enum PopStep<T> {
    /// The oldest item.
    Got(T),
    /// The buffer is empty and the producer half is gone.
    Closed,
    /// The buffer is empty; the caller must wait on the consumer-side
    /// semaphore before retrying.
    MustWait,
}

/// A ring with the blocking rendezvous state of both sides.
pub struct BlockingRb<T> {
    rb: LocalRb<T>,
    /// Set once the consumer half is dropped; observed by the producer.
    prod_closed: bool,
    /// Set once the producer half is dropped; observed by the consumer.
    cons_closed: bool,
    /// Given by the consumer whenever the read position advances.
    prod_sem: SemaphoreState,
    /// Given by the producer whenever the write position advances.
    cons_sem: SemaphoreState,
}

impl<T> BlockingRb<T> {
    pub closed spec fn wf(&self) -> bool {
        self.rb.wf()
    }

    pub closed spec fn cap(&self) -> int {
        self.rb.cap()
    }

    pub closed spec fn items(&self) -> Seq<T> {
        self.rb.items()
    }

    /// The producer observes that the consumer half is gone.
    pub closed spec fn producer_closed(&self) -> bool {
        self.prod_closed
    }

    /// The consumer observes that the producer half is gone.
    pub closed spec fn consumer_closed(&self) -> bool {
        self.cons_closed
    }

    /// The producer-side semaphore is signalled.
    pub closed spec fn producer_signalled(&self) -> bool {
        self.prod_sem.is_signalled()
    }

    /// The consumer-side semaphore is signalled.
    pub closed spec fn consumer_signalled(&self) -> bool {
        self.cons_sem.is_signalled()
    }

    pub fn new(rb: LocalRb<T>) -> (r: Self)
        requires
            rb.wf(),
        ensures
            r.wf(),
            r.cap() == rb.cap(),
            r.items() == rb.items(),
            !r.producer_closed(),
            !r.consumer_closed(),
            !r.producer_signalled(),
            !r.consumer_signalled(),
    {
        BlockingRb {
            rb,
            prod_closed: false,
            cons_closed: false,
            prod_sem: SemaphoreState::new(),
            cons_sem: SemaphoreState::new(),
        }
    }

    pub fn capacity(&self) -> (r: usize)
        requires
            self.wf(),
        ensures
            r == self.cap(),
    {
        self.rb.capacity()
    }

    pub fn occupied_len(&self) -> (r: usize)
        requires
            self.wf(),
        ensures
            r == self.items().len(),
    {
        self.rb.occupied_len()
    }

    /// Clears the producer-side latch before a wait; reports whether it had
    /// been given since it was last taken.
    pub fn take_producer_signal(&mut self) -> (r: bool)
        ensures
            r == old(self).producer_signalled(),
            !final(self).producer_signalled(),
            final(self).consumer_signalled() == old(self).consumer_signalled(),
            final(self).producer_closed() == old(self).producer_closed(),
            final(self).consumer_closed() == old(self).consumer_closed(),
            final(self).wf() == old(self).wf(),
            final(self).cap() == old(self).cap(),
            final(self).items() == old(self).items(),
    {
        self.prod_sem.try_take()
    }

    /// Clears the consumer-side latch before a wait.
    pub fn take_consumer_signal(&mut self) -> (r: bool)
        ensures
            r == old(self).consumer_signalled(),
            !final(self).consumer_signalled(),
            final(self).producer_signalled() == old(self).producer_signalled(),
            final(self).producer_closed() == old(self).producer_closed(),
            final(self).consumer_closed() == old(self).consumer_closed(),
            final(self).wf() == old(self).wf(),
            final(self).cap() == old(self).cap(),
            final(self).items() == old(self).items(),
    {
        self.cons_sem.try_take()
    }

    /// One decision step of the blocking push loop: push when room exists
    /// (giving the consumer-side semaphore), report closure, or tell the
    /// caller to wait.
    pub fn push_step(&mut self, item: T) -> (r: PushStep<T>)
        requires
            old(self).wf(),
        ensures
            final(self).wf(),
            final(self).cap() == old(self).cap(),
            final(self).producer_closed() == old(self).producer_closed(),
            final(self).consumer_closed() == old(self).consumer_closed(),
            final(self).producer_signalled() == old(self).producer_signalled(),
            old(self).items().len() < old(self).cap() ==> {
                &&& r is Done
                &&& final(self).items() == old(self).items().push(item)
                &&& final(self).consumer_signalled()
            },
            old(self).items().len() == old(self).cap() && old(self).producer_closed() ==> {
                &&& r == PushStep::Closed(item)
                &&& final(self).items() == old(self).items()
                &&& final(self).consumer_signalled() == old(self).consumer_signalled()
            },
            old(self).items().len() == old(self).cap() && !old(self).producer_closed() ==> {
                &&& r == PushStep::MustWait(item)
                &&& final(self).items() == old(self).items()
                &&& final(self).consumer_signalled() == old(self).consumer_signalled()
            },
    {
        match self.rb.try_push(item) {
            Ok(()) => {
                self.cons_sem.give();
                PushStep::Done
            },
            Err(item) => {
                if self.prod_closed {
                    PushStep::Closed(item)
                } else {
                    PushStep::MustWait(item)
                }
            },
        }
    }

    /// One decision step of the blocking pop loop: pop when an item exists
    /// (giving the producer-side semaphore), report closure once drained, or
    /// tell the caller to wait.
    pub fn pop_step(&mut self) -> (r: PopStep<T>)
        requires
            old(self).wf(),
        ensures
            final(self).wf(),
            final(self).cap() == old(self).cap(),
            final(self).producer_closed() == old(self).producer_closed(),
            final(self).consumer_closed() == old(self).consumer_closed(),
            final(self).consumer_signalled() == old(self).consumer_signalled(),
            old(self).items().len() > 0 ==> {
                &&& r == PopStep::Got(old(self).items()[0])
                &&& final(self).items() == old(self).items().skip(1)
                &&& final(self).producer_signalled()
            },
            old(self).items().len() == 0 && old(self).consumer_closed() ==> {
                &&& r is Closed
                &&& final(self).items() == old(self).items()
                &&& final(self).producer_signalled() == old(self).producer_signalled()
            },
            old(self).items().len() == 0 && !old(self).consumer_closed() ==> {
                &&& r is MustWait
                &&& final(self).items() == old(self).items()
                &&& final(self).producer_signalled() == old(self).producer_signalled()
            },
    {
        match self.rb.try_pop() {
            Some(item) => {
                self.prod_sem.give();
                PopStep::Got(item)
            },
            None => {
                if self.cons_closed {
                    PopStep::Closed
                } else {
                    PopStep::MustWait
                }
            },
        }
    }

    /// The producer half is being dropped: marks the consumer's side closed
    /// (at most once) and gives the consumer-side semaphore one final time
    /// to release a waiter.
    pub fn close_by_producer(&mut self)
        ensures
            final(self).consumer_closed(),
            final(self).wf() == old(self).wf(),
            final(self).cap() == old(self).cap(),
            final(self).items() == old(self).items(),
            final(self).producer_closed() == old(self).producer_closed(),
            final(self).producer_signalled() == old(self).producer_signalled(),
            !old(self).consumer_closed() ==> final(self).consumer_signalled(),
            old(self).consumer_closed() ==> final(self).consumer_signalled()
                == old(self).consumer_signalled(),
    {
        if !self.cons_closed {
            self.cons_closed = true;
            self.cons_sem.give();
        }
    }

    /// The consumer half is being dropped: marks the producer's side closed
    /// (at most once) and gives the producer-side semaphore one final time
    /// to release a waiter.
    pub fn close_by_consumer(&mut self)
        ensures
            final(self).producer_closed(),
            final(self).wf() == old(self).wf(),
            final(self).cap() == old(self).cap(),
            final(self).items() == old(self).items(),
            final(self).consumer_closed() == old(self).consumer_closed(),
            final(self).consumer_signalled() == old(self).consumer_signalled(),
            !old(self).producer_closed() ==> final(self).producer_signalled(),
            old(self).producer_closed() ==> final(self).producer_signalled()
                == old(self).producer_signalled(),
    {
        if !self.prod_closed {
            self.prod_closed = true;
            self.prod_sem.give();
        }
    }
}

} // verus!
