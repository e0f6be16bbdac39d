//! The asynchronous adapter: a ring together with one closed flag and one
//! waker slot per side, and the poll-step logic of the future family.
//!
//! The futures here are state machines.  Each `poll` takes the ring for the
//! duration of one step, registers the calling side's waker first, then
//! attempts the operation, and finally decides between `Ready` and
//! `Pending` — the check-register-recheck order that rules out lost
//! wake-ups.  Every step that advances an index reports in its second
//! result whether the opposite side's waker must now be invoked; the
//! unverified shell around the core owns the actual waker values and calls
//! them exactly when told to.

use vstd::prelude::*;

use crate::local::LocalRb;
use crate::traits::{RingBufferBase, RingBufferRead, RingBufferWrite};

verus! {

/// Outcome of one poll step.
#[derive(Debug, PartialEq, Eq)]
pub enum PollResult<A> {
    Pending,
    Ready(A),
}

/// A ring with the asynchronous rendezvous state of both sides.
pub struct AsyncRb<T> {
    rb: LocalRb<T>,
    /// Set once the consumer half is dropped; observed by the producer.
    prod_closed: bool,
    /// Set once the producer half is dropped; observed by the consumer.
    cons_closed: bool,
    /// A waker is registered in the producer-side slot.
    prod_waker: bool,
    /// A waker is registered in the consumer-side slot.
    cons_waker: bool,
}

impl<T> AsyncRb<T> {
    pub closed spec fn wf(&self) -> bool {
        self.rb.wf()
    }

    pub closed spec fn cap(&self) -> int {
        self.rb.cap()
    }

    pub closed spec fn items(&self) -> Seq<T> {
        self.rb.items()
    }

    /// The producer observes that the consumer half is gone.
    pub closed spec fn producer_closed(&self) -> bool {
        self.prod_closed
    }

    /// The consumer observes that the producer half is gone.
    pub closed spec fn consumer_closed(&self) -> bool {
        self.cons_closed
    }

    /// A waker is registered on the producer side.
    pub closed spec fn producer_waker(&self) -> bool {
        self.prod_waker
    }

    /// A waker is registered on the consumer side.
    pub closed spec fn consumer_waker(&self) -> bool {
        self.cons_waker
    }

    pub fn new(rb: LocalRb<T>) -> (r: Self)
        requires
            rb.wf(),
        ensures
            r.wf(),
            r.cap() == rb.cap(),
            r.items() == rb.items(),
            !r.producer_closed(),
            !r.consumer_closed(),
            !r.producer_waker(),
            !r.consumer_waker(),
    {
        AsyncRb { rb, prod_closed: false, cons_closed: false, prod_waker: false, cons_waker: false }
    }

    pub fn capacity(&self) -> (r: usize)
        requires
            self.wf(),
        ensures
            r == self.cap(),
    {
        self.rb.capacity()
    }

    pub fn occupied_len(&self) -> (r: usize)
        requires
            self.wf(),
        ensures
            r == self.items().len(),
    {
        self.rb.occupied_len()
    }

    pub fn vacant_len(&self) -> (r: usize)
        requires
            self.wf(),
        ensures
            r == self.cap() - self.items().len(),
    {
        self.rb.vacant_len()
    }

    pub fn is_empty(&self) -> (r: bool)
        requires
            self.wf(),
        ensures
            r == (self.items().len() == 0),
    {
        self.rb.is_empty()
    }

    pub fn is_full(&self) -> (r: bool)
        requires
            self.wf(),
        ensures
            r == (self.items().len() == self.cap()),
    {
        self.rb.is_full()
    }

    /// The producer observes whether the consumer half is gone.
    pub fn producer_is_closed(&self) -> (r: bool)
        ensures
            r == self.producer_closed(),
    {
        self.prod_closed
    }

    /// The consumer observes whether the producer half is gone.
    pub fn consumer_is_closed(&self) -> (r: bool)
        ensures
            r == self.consumer_closed(),
    {
        self.cons_closed
    }

    /// Stores the current producer-side waker, replacing any prior one.
    pub fn register_producer_waker(&mut self)
        ensures
            final(self).producer_waker(),
            final(self).consumer_waker() == old(self).consumer_waker(),
            final(self).producer_closed() == old(self).producer_closed(),
            final(self).consumer_closed() == old(self).consumer_closed(),
            final(self).wf() == old(self).wf(),
            final(self).cap() == old(self).cap(),
            final(self).items() == old(self).items(),
    {
        self.prod_waker = true;
    }

    /// Stores the current consumer-side waker, replacing any prior one.
    pub fn register_consumer_waker(&mut self)
        ensures
            final(self).consumer_waker(),
            final(self).producer_waker() == old(self).producer_waker(),
            final(self).producer_closed() == old(self).producer_closed(),
            final(self).consumer_closed() == old(self).consumer_closed(),
            final(self).wf() == old(self).wf(),
            final(self).cap() == old(self).cap(),
            final(self).items() == old(self).items(),
    {
        self.cons_waker = true;
    }

    /// Takes the producer-side waker out of its slot; the caller must invoke
    /// the waker it stands for exactly when `true` comes back.
    fn take_producer_waker(&mut self) -> (r: bool)
        ensures
            r == old(self).prod_waker,
            final(self).rb == old(self).rb,
            final(self).prod_closed == old(self).prod_closed,
            final(self).cons_closed == old(self).cons_closed,
            !final(self).prod_waker,
            final(self).cons_waker == old(self).cons_waker,
    {
        let w = self.prod_waker;
        self.prod_waker = false;
        w
    }

    /// Takes the consumer-side waker out of its slot.
    fn take_consumer_waker(&mut self) -> (r: bool)
        ensures
            r == old(self).cons_waker,
            final(self).rb == old(self).rb,
            final(self).prod_closed == old(self).prod_closed,
            final(self).cons_closed == old(self).cons_closed,
            final(self).prod_waker == old(self).prod_waker,
            !final(self).cons_waker,
    {
        let w = self.cons_waker;
        self.cons_waker = false;
        w
    }

    /// The producer half is being dropped: marks the consumer's side closed
    /// (at most once) and reports whether the consumer's waker must be
    /// invoked for a final time.
    pub fn close_by_producer(&mut self) -> (wake: bool)
        ensures
            final(self).consumer_closed(),
            final(self).wf() == old(self).wf(),
            final(self).cap() == old(self).cap(),
            final(self).items() == old(self).items(),
            final(self).producer_closed() == old(self).producer_closed(),
            final(self).producer_waker() == old(self).producer_waker(),
            !old(self).consumer_closed() ==> wake == old(self).consumer_waker()
                && !final(self).consumer_waker(),
            old(self).consumer_closed() ==> !wake
                && final(self).consumer_waker() == old(self).consumer_waker(),
    {
        if self.cons_closed {
            false
        } else {
            self.cons_closed = true;
            self.take_consumer_waker()
        }
    }

    /// The consumer half is being dropped: marks the producer's side closed
    /// (at most once) and reports whether the producer's waker must be
    /// invoked for a final time.
    pub fn close_by_consumer(&mut self) -> (wake: bool)
        ensures
            final(self).producer_closed(),
            final(self).wf() == old(self).wf(),
            final(self).cap() == old(self).cap(),
            final(self).items() == old(self).items(),
            final(self).consumer_closed() == old(self).consumer_closed(),
            final(self).consumer_waker() == old(self).consumer_waker(),
            !old(self).producer_closed() ==> wake == old(self).producer_waker()
                && !final(self).producer_waker(),
            old(self).producer_closed() ==> !wake
                && final(self).producer_waker() == old(self).producer_waker(),
    {
        if self.prod_closed {
            false
        } else {
            self.prod_closed = true;
            self.take_producer_waker()
        }
    }

    /// Builds a future that resolves once at least `count` cells are vacant
    /// or the consumer half is gone.
    pub fn wait_vacant(&self, count: usize) -> (r: WaitVacantFuture)
        requires
            self.wf(),
            count <= self.cap(),
        ensures
            r.count_spec() == count,
            !r.done_spec(),
    {
        WaitVacantFuture { count, done: false }
    }

    /// Builds a future that resolves once at least `count` items are stored
    /// or the producer half is gone.
    pub fn wait_occupied(&self, count: usize) -> (r: WaitOccupiedFuture)
        requires
            self.wf(),
            count <= self.cap(),
        ensures
            r.count_spec() == count,
            !r.done_spec(),
    {
        WaitOccupiedFuture { count, done: false }
    }
}

/// Future of an asynchronous single-item push.
///
/// Resolves `Ok(())` once the item fits, and `Err(item)` — handing the item
/// back — when the consumer half is gone before it did.
pub struct PushFuture<T> {
    item: Option<T>,
}

impl<T> PushFuture<T> {
    /// The item still waiting to be delivered; `None` once resolved.
    pub closed spec fn pending_item(&self) -> Option<T> {
        self.item
    }

    pub fn new(item: T) -> (r: Self)
        ensures
            r.pending_item() == Some(item),
    {
        PushFuture { item: Some(item) }
    }

    /// A resolved future must not be polled again.
    pub fn is_terminated(&self) -> (r: bool)
        ensures
            r == (self.pending_item() is None),
    {
        self.item.is_none()
    }

    /// One poll step; the second result tells the caller to invoke the
    /// consumer-side waker.
    pub fn poll(&mut self, rb: &mut AsyncRb<T>) -> (r: (PollResult<Result<(), T>>, bool))
        requires
            old(self).pending_item() is Some,
            old(rb).wf(),
        ensures
            final(rb).wf(),
            final(rb).cap() == old(rb).cap(),
            final(rb).producer_closed() == old(rb).producer_closed(),
            final(rb).consumer_closed() == old(rb).consumer_closed(),
            final(rb).producer_waker(),
            old(rb).producer_closed() ==> {
                &&& r.0 == PollResult::Ready(Err::<(), T>(old(self).pending_item().unwrap()))
                &&& !r.1
                &&& final(self).pending_item() is None
                &&& final(rb).items() == old(rb).items()
                &&& final(rb).consumer_waker() == old(rb).consumer_waker()
            },
            !old(rb).producer_closed() && old(rb).items().len() < old(rb).cap() ==> {
                &&& r.0 == PollResult::Ready(Ok::<(), T>(()))
                &&& r.1 == old(rb).consumer_waker()
                &&& final(self).pending_item() is None
                &&& final(rb).items() == old(rb).items().push(old(self).pending_item().unwrap())
                &&& !final(rb).consumer_waker()
            },
            !old(rb).producer_closed() && old(rb).items().len() == old(rb).cap() ==> {
                &&& r.0 == PollResult::<Result<(), T>>::Pending
                &&& !r.1
                &&& final(self).pending_item() == old(self).pending_item()
                &&& final(rb).items() == old(rb).items()
                &&& final(rb).consumer_waker() == old(rb).consumer_waker()
            },
    {
        rb.register_producer_waker();
        let item = self.item.take().unwrap();
        if rb.producer_is_closed() {
            (PollResult::Ready(Err(item)), false)
        } else {
            match rb.rb.try_push(item) {
                Ok(()) => {
                    let wake = rb.take_consumer_waker();
                    (PollResult::Ready(Ok(())), wake)
                },
                Err(item) => {
                    self.item = Some(item);
                    (PollResult::Pending, false)
                },
            }
        }
    }
}

/// Future of an asynchronous bulk push of a caller-held slice.
///
/// Resolves `Ok(())` once every item is delivered, and `Err(count)` — with
/// the number already delivered — when the consumer half is gone first.
pub struct PushSliceFuture {
    count: usize,
    done: bool,
}

impl PushSliceFuture {
    /// How many items of the slice have been delivered so far.
    pub closed spec fn count_spec(&self) -> int {
        self.count as int
    }

    pub closed spec fn done_spec(&self) -> bool {
        self.done
    }

    pub fn new() -> (r: Self)
        ensures
            r.count_spec() == 0,
            !r.done_spec(),
    {
        PushSliceFuture { count: 0, done: false }
    }

    /// A resolved future must not be polled again.
    pub fn is_terminated(&self) -> (r: bool)
        ensures
            r == self.done_spec(),
    {
        self.done
    }

    /// One poll step pushing from `elems[count..]`; the same `elems` must be
    /// handed to every poll of one future.  The second result tells the
    /// caller to invoke the consumer-side waker.
    pub fn poll<T: Copy>(&mut self, rb: &mut AsyncRb<T>, elems: &Vec<T>) -> (r: (PollResult<
        Result<(), usize>,
    >, bool))
        requires
            !old(self).done_spec(),
            old(self).count_spec() <= elems@.len(),
            old(rb).wf(),
        ensures
            final(rb).wf(),
            final(rb).cap() == old(rb).cap(),
            final(rb).producer_closed() == old(rb).producer_closed(),
            final(rb).consumer_closed() == old(rb).consumer_closed(),
            final(rb).producer_waker(),
            old(rb).producer_closed() ==> {
                &&& r.0 == PollResult::Ready(Err::<(), usize>(old(self).count_spec() as usize))
                &&& !r.1
                &&& final(self).done_spec()
                &&& final(self).count_spec() == old(self).count_spec()
                &&& final(rb).items() == old(rb).items()
                &&& final(rb).consumer_waker() == old(rb).consumer_waker()
            },
            !old(rb).producer_closed() ==> ({
                let n = vstd::math::min(
                    elems@.len() - old(self).count_spec(),
                    old(rb).cap() - old(rb).items().len(),
                );
                &&& final(self).count_spec() == old(self).count_spec() + n
                &&& final(rb).items() == old(rb).items() + elems@.subrange(
                    old(self).count_spec(),
                    old(self).count_spec() + n,
                )
                &&& r.1 == (n > 0 && old(rb).consumer_waker())
                &&& final(rb).consumer_waker() == (old(rb).consumer_waker() && n == 0)
                &&& (final(self).count_spec() == elems@.len() ==> r.0 == PollResult::Ready(
                    Ok::<(), usize>(()),
                ) && final(self).done_spec())
                &&& (final(self).count_spec() < elems@.len() ==> r.0 == PollResult::<Result<(), usize>>::Pending
                    && !final(self).done_spec())
            }),
    {
        rb.register_producer_waker();
        if rb.producer_is_closed() {
            self.done = true;
            (PollResult::Ready(Err(self.count)), false)
        } else {
            let n = rb.rb.push_iter(elems, self.count);
            let total = elems.len();
            self.count += n;
            let wake = if n > 0 {
                rb.take_consumer_waker()
            } else {
                false
            };
            if self.count == total {
                self.done = true;
                (PollResult::Ready(Ok(())), wake)
            } else {
                (PollResult::Pending, wake)
            }
        }
    }
}

/// Future of an asynchronous push that drains a caller-held source.
///
/// Resolves `true` once the source is exhausted, and `false` when the
/// consumer half is gone first.
pub struct PushIterFuture {
    pos: usize,
    done: bool,
}

impl PushIterFuture {
    /// How many items of the source have been delivered so far.
    pub closed spec fn pos_spec(&self) -> int {
        self.pos as int
    }

    pub closed spec fn done_spec(&self) -> bool {
        self.done
    }

    pub fn new() -> (r: Self)
        ensures
            r.pos_spec() == 0,
            !r.done_spec(),
    {
        PushIterFuture { pos: 0, done: false }
    }

    /// A resolved future must not be polled again.
    pub fn is_terminated(&self) -> (r: bool)
        ensures
            r == self.done_spec(),
    {
        self.done
    }

    /// One poll step draining `src[pos..]`; the same `src` must be handed to
    /// every poll of one future.  The second result tells the caller to
    /// invoke the consumer-side waker.
    pub fn poll<T: Copy>(&mut self, rb: &mut AsyncRb<T>, src: &Vec<T>) -> (r: (PollResult<bool>,
        bool,
    ))
        requires
            !old(self).done_spec(),
            old(self).pos_spec() <= src@.len(),
            old(rb).wf(),
        ensures
            final(rb).wf(),
            final(rb).cap() == old(rb).cap(),
            final(rb).producer_closed() == old(rb).producer_closed(),
            final(rb).consumer_closed() == old(rb).consumer_closed(),
            final(rb).producer_waker(),
            old(rb).producer_closed() ==> {
                &&& r.0 == PollResult::Ready(false)
                &&& !r.1
                &&& final(self).done_spec()
                &&& final(self).pos_spec() == old(self).pos_spec()
                &&& final(rb).items() == old(rb).items()
                &&& final(rb).consumer_waker() == old(rb).consumer_waker()
            },
            !old(rb).producer_closed() ==> ({
                let n = vstd::math::min(
                    src@.len() - old(self).pos_spec(),
                    old(rb).cap() - old(rb).items().len(),
                );
                &&& final(self).pos_spec() == old(self).pos_spec() + n
                &&& final(rb).items() == old(rb).items() + src@.subrange(
                    old(self).pos_spec(),
                    old(self).pos_spec() + n,
                )
                &&& r.1 == (n > 0 && old(rb).consumer_waker())
                &&& final(rb).consumer_waker() == (old(rb).consumer_waker() && n == 0)
                &&& (final(self).pos_spec() == src@.len() ==> r.0 == PollResult::Ready(true)
                    && final(self).done_spec())
                &&& (final(self).pos_spec() < src@.len() ==> r.0 == PollResult::<bool>::Pending
                    && !final(self).done_spec())
            }),
    {
        rb.register_producer_waker();
        if rb.producer_is_closed() {
            self.done = true;
            (PollResult::Ready(false), false)
        } else {
            let n = rb.rb.push_iter(src, self.pos);
            let total = src.len();
            self.pos += n;
            let wake = if n > 0 {
                rb.take_consumer_waker()
            } else {
                false
            };
            if self.pos == total {
                self.done = true;
                (PollResult::Ready(true), wake)
            } else {
                (PollResult::Pending, wake)
            }
        }
    }
}

/// Future that resolves once enough cells are vacant, or the consumer half
/// is gone.
pub struct WaitVacantFuture {
    count: usize,
    done: bool,
}

impl WaitVacantFuture {
    pub closed spec fn count_spec(&self) -> int {
        self.count as int
    }

    pub closed spec fn done_spec(&self) -> bool {
        self.done
    }

    /// A resolved future must not be polled again.
    pub fn is_terminated(&self) -> (r: bool)
        ensures
            r == self.done_spec(),
    {
        self.done
    }

    /// One poll step: ready exactly when the vacancy demand is met or the
    /// consumer half is gone.
    pub fn poll<T>(&mut self, rb: &mut AsyncRb<T>) -> (r: PollResult<()>)
        requires
            !old(self).done_spec(),
            old(rb).wf(),
        ensures
            final(rb).wf(),
            final(rb).cap() == old(rb).cap(),
            final(rb).items() == old(rb).items(),
            final(rb).producer_closed() == old(rb).producer_closed(),
            final(rb).consumer_closed() == old(rb).consumer_closed(),
            final(rb).consumer_waker() == old(rb).consumer_waker(),
            final(rb).producer_waker(),
            final(self).count_spec() == old(self).count_spec(),
            ({
                let ready = old(self).count_spec() <= old(rb).cap() - old(rb).items().len()
                    || old(rb).producer_closed();
                &&& ready ==> r == PollResult::Ready(()) && final(self).done_spec()
                &&& !ready ==> r == PollResult::<()>::Pending && !final(self).done_spec()
            }),
    {
        rb.register_producer_waker();
        let closed = rb.producer_is_closed();
        if self.count <= rb.vacant_len() || closed {
            self.done = true;
            PollResult::Ready(())
        } else {
            PollResult::Pending
        }
    }
}

/// Future of an asynchronous single-item pop.
///
/// Resolves `Some(item)` once an item is available, and `None` when the
/// buffer is empty and the producer half is gone.
pub struct PopFuture {
    done: bool,
}

impl PopFuture {
    pub closed spec fn done_spec(&self) -> bool {
        self.done
    }

    pub fn new() -> (r: Self)
        ensures
            !r.done_spec(),
    {
        PopFuture { done: false }
    }

    /// A resolved future must not be polled again.
    pub fn is_terminated(&self) -> (r: bool)
        ensures
            r == self.done_spec(),
    {
        self.done
    }

    /// One poll step; the second result tells the caller to invoke the
    /// producer-side waker.
    pub fn poll<T>(&mut self, rb: &mut AsyncRb<T>) -> (r: (PollResult<Option<T>>, bool))
        requires
            !old(self).done_spec(),
            old(rb).wf(),
        ensures
            final(rb).wf(),
            final(rb).cap() == old(rb).cap(),
            final(rb).producer_closed() == old(rb).producer_closed(),
            final(rb).consumer_closed() == old(rb).consumer_closed(),
            final(rb).consumer_waker(),
            old(rb).items().len() > 0 ==> {
                &&& r.0 == PollResult::Ready(Some(old(rb).items()[0]))
                &&& r.1 == old(rb).producer_waker()
                &&& final(self).done_spec()
                &&& final(rb).items() == old(rb).items().skip(1)
                &&& !final(rb).producer_waker()
            },
            old(rb).items().len() == 0 && old(rb).consumer_closed() ==> {
                &&& r.0 == PollResult::Ready(Option::<T>::None)
                &&& !r.1
                &&& final(self).done_spec()
                &&& final(rb).items() == old(rb).items()
                &&& final(rb).producer_waker() == old(rb).producer_waker()
            },
            old(rb).items().len() == 0 && !old(rb).consumer_closed() ==> {
                &&& r.0 == PollResult::<Option<T>>::Pending
                &&& !r.1
                &&& !final(self).done_spec()
                &&& final(rb).items() == old(rb).items()
                &&& final(rb).producer_waker() == old(rb).producer_waker()
            },
    {
        rb.register_consumer_waker();
        let closed = rb.consumer_is_closed();
        match rb.rb.try_pop() {
            Some(item) => {
                self.done = true;
                let wake = rb.take_producer_waker();
                (PollResult::Ready(Some(item)), wake)
            },
            None => {
                if closed {
                    self.done = true;
                    (PollResult::Ready(None), false)
                } else {
                    (PollResult::Pending, false)
                }
            },
        }
    }
}

/// Future of an asynchronous bulk pop into a caller-held buffer.
///
/// Resolves `Ok(())` once the buffer is fully filled, and `Err(count)` —
/// with the number of cells filled — when the producer half is gone and the
/// ring has drained.
pub struct PopSliceFuture {
    count: usize,
    done: bool,
}

impl PopSliceFuture {
    /// How many cells of the output have been filled so far.
    pub closed spec fn count_spec(&self) -> int {
        self.count as int
    }

    pub closed spec fn done_spec(&self) -> bool {
        self.done
    }

    pub fn new() -> (r: Self)
        ensures
            r.count_spec() == 0,
            !r.done_spec(),
    {
        PopSliceFuture { count: 0, done: false }
    }

    /// A resolved future must not be polled again.
    pub fn is_terminated(&self) -> (r: bool)
        ensures
            r == self.done_spec(),
    {
        self.done
    }

    /// One poll step filling `out[count..]`; the same `out` must be handed
    /// to every poll of one future.  The second result tells the caller to
    /// invoke the producer-side waker.
    pub fn poll<T: Copy>(&mut self, rb: &mut AsyncRb<T>, out: &mut Vec<T>) -> (r: (PollResult<
        Result<(), usize>,
    >, bool))
        requires
            !old(self).done_spec(),
            old(self).count_spec() <= old(out)@.len(),
            old(rb).wf(),
        ensures
            final(rb).wf(),
            final(rb).cap() == old(rb).cap(),
            final(rb).producer_closed() == old(rb).producer_closed(),
            final(rb).consumer_closed() == old(rb).consumer_closed(),
            final(rb).consumer_waker(),
            final(out)@.len() == old(out)@.len(),
            ({
                let n = vstd::math::min(
                    old(out)@.len() - old(self).count_spec(),
                    old(rb).items().len() as int,
                );
                &&& final(self).count_spec() == old(self).count_spec() + n
                &&& final(rb).items() == old(rb).items().skip(n)
                &&& forall|j: int|
                    old(self).count_spec() <= j < old(self).count_spec() + n ==> final(out)@[j]
                        == old(rb).items()[j - old(self).count_spec()]
                &&& forall|j: int|
                    0 <= j < old(out)@.len() && !(old(self).count_spec() <= j < old(self).count_spec()
                        + n) ==> final(out)@[j] == old(out)@[j]
                &&& r.1 == (n > 0 && old(rb).producer_waker())
                &&& final(rb).producer_waker() == (old(rb).producer_waker() && n == 0)
                &&& (old(self).count_spec() + n == old(out)@.len() ==> r.0 == PollResult::Ready(
                    Ok::<(), usize>(()),
                ) && final(self).done_spec())
                &&& (old(self).count_spec() + n < old(out)@.len() && old(rb).consumer_closed()
                    ==> r.0 == PollResult::Ready(
                    Err::<(), usize>((old(self).count_spec() + n) as usize),
                ) && final(self).done_spec())
                &&& (old(self).count_spec() + n < old(out)@.len() && !old(rb).consumer_closed()
                    ==> r.0 == PollResult::<Result<(), usize>>::Pending && !final(self).done_spec())
            }),
    {
        rb.register_consumer_waker();
        let closed = rb.consumer_is_closed();
        let n = rb.rb.pop_into(out, self.count);
        let total = out.len();
        self.count += n;
        let wake = if n > 0 {
            rb.take_producer_waker()
        } else {
            false
        };
        if self.count == total {
            self.done = true;
            (PollResult::Ready(Ok(())), wake)
        } else if closed {
            self.done = true;
            (PollResult::Ready(Err(self.count)), wake)
        } else {
            (PollResult::Pending, wake)
        }
    }
}

/// Future that resolves once enough items are stored, or the producer half
/// is gone.
pub struct WaitOccupiedFuture {
    count: usize,
    done: bool,
}

impl WaitOccupiedFuture {
    pub closed spec fn count_spec(&self) -> int {
        self.count as int
    }

    pub closed spec fn done_spec(&self) -> bool {
        self.done
    }

    /// A resolved future must not be polled again.
    pub fn is_terminated(&self) -> (r: bool)
        ensures
            r == self.done_spec(),
    {
        self.done
    }

    /// One poll step: ready exactly when the occupancy demand is met or the
    /// producer half is gone.
    pub fn poll<T>(&mut self, rb: &mut AsyncRb<T>) -> (r: PollResult<()>)
        requires
            !old(self).done_spec(),
            old(rb).wf(),
        ensures
            final(rb).wf(),
            final(rb).cap() == old(rb).cap(),
            final(rb).items() == old(rb).items(),
            final(rb).producer_closed() == old(rb).producer_closed(),
            final(rb).consumer_closed() == old(rb).consumer_closed(),
            final(rb).producer_waker() == old(rb).producer_waker(),
            final(rb).consumer_waker(),
            final(self).count_spec() == old(self).count_spec(),
            ({
                let ready = old(self).count_spec() <= old(rb).items().len()
                    || old(rb).consumer_closed();
                &&& ready ==> r == PollResult::Ready(()) && final(self).done_spec()
                &&& !ready ==> r == PollResult::<()>::Pending && !final(self).done_spec()
            }),
    {
        rb.register_consumer_waker();
        let closed = rb.consumer_is_closed();
        if self.count <= rb.occupied_len() || closed {
            self.done = true;
            PollResult::Ready(())
        } else {
            PollResult::Pending
        }
    }
}

} // verus!
