//! The algebraic laws of the ring: FIFO order over whole histories, the
//! bulk round trip, and the capacity-one boundary.

use vstd::prelude::*;
use vstd::seq_lib::*;

use crate::local::LocalRb;
use crate::traits::{RingBufferBase, RingBufferRead, RingBufferWrite};

verus! {

/// One operation of a single-threaded history.
#[derive(Clone, Copy)]
pub enum RingOp<T> {
    TryPush(T),
    TryPop,
}

/// The history model: the queue contents together with the log of every
/// item pushed successfully and every item popped successfully.
pub struct FifoTrace<T> {
    pub queue: Seq<T>,
    pub pushed: Seq<T>,
    pub popped: Seq<T>,
}

pub open spec fn fifo_init<T>() -> FifoTrace<T> {
    FifoTrace { queue: Seq::empty(), pushed: Seq::empty(), popped: Seq::empty() }
}

/// A failed push or pop (full or empty buffer) leaves the state unchanged.
pub open spec fn fifo_step<T>(cap: int, s: FifoTrace<T>, op: RingOp<T>) -> FifoTrace<T> {
    match op {
        RingOp::TryPush(x) => if s.queue.len() < cap {
            FifoTrace { queue: s.queue.push(x), pushed: s.pushed.push(x), popped: s.popped }
        } else {
            s
        },
        RingOp::TryPop => if s.queue.len() > 0 {
            FifoTrace { queue: s.queue.skip(1), pushed: s.pushed, popped: s.popped.push(s.queue[0]) }
        } else {
            s
        },
    }
}

pub open spec fn fifo_run<T>(cap: int, ops: Seq<RingOp<T>>) -> FifoTrace<T>
    decreases ops.len(),
{
    if ops.len() == 0 {
        fifo_init()
    } else {
        fifo_step(cap, fifo_run(cap, ops.drop_last()), ops.last())
    }
}

/// At every point of a history, what was pushed is what was popped followed
/// by what is still queued.
pub proof fn lemma_fifo_invariant<T>(cap: int, ops: Seq<RingOp<T>>)
    ensures
        fifo_run(cap, ops).pushed =~= fifo_run(cap, ops).popped + fifo_run(cap, ops).queue,
    decreases ops.len(),
{
    if ops.len() == 0 {
    } else {
        lemma_fifo_invariant(cap, ops.drop_last());
        let s = fifo_run(cap, ops.drop_last());
        match ops.last() {
            RingOp::TryPush(x) => {
                if s.queue.len() < cap {
                    assert(s.pushed.push(x) =~= s.popped + s.queue.push(x));
                }
            },
            RingOp::TryPop => {
                if s.queue.len() > 0 {
                    assert(s.pushed =~= s.popped.push(s.queue[0]) + s.queue.skip(1));
                }
            },
        }
    }
}

/// FIFO order: over any history of pushes and pops, the sequence of items
/// popped successfully is a prefix of the sequence of items pushed
/// successfully.
pub proof fn lemma_fifo_order<T>(cap: int, ops: Seq<RingOp<T>>)
    ensures
        fifo_run(cap, ops).popped.is_prefix_of(fifo_run(cap, ops).pushed),
{
    lemma_fifo_invariant(cap, ops);
    let s = fifo_run(cap, ops);
    assert(s.popped =~= s.pushed.take(s.popped.len() as int));
}

/// Runs a history of operations against a ring, proving that the ring's
/// contents follow the history model step by step: the concrete ring
/// refines `fifo_run`.
pub fn run_history<T: Copy>(rb: &mut LocalRb<T>, ops: &Vec<RingOp<T>>)
    requires
        old(rb).wf(),
        old(rb).items().len() == 0,
    ensures
        final(rb).wf(),
        final(rb).cap() == old(rb).cap(),
        final(rb).items() == fifo_run(old(rb).cap(), ops@).queue,
{
    let mut i: usize = 0;
    while i < ops.len()
        invariant
            i <= ops@.len(),
            old(rb).wf(),
            rb.wf(),
            rb.cap() == old(rb).cap(),
            rb.items() == fifo_run(old(rb).cap(), ops@.take(i as int)).queue,
        decreases ops@.len() - i,
    {
        let ghost pre = fifo_run(old(rb).cap(), ops@.take(i as int));
        let ghost op = ops@[i as int];
        proof {
            assert(ops@.take(i + 1).drop_last() =~= ops@.take(i as int));
            assert(ops@.take(i + 1).last() == op);
            assert(fifo_run(old(rb).cap(), ops@.take(i + 1)) == fifo_step(
                old(rb).cap(),
                pre,
                op,
            ));
            rb.wf_implies_indices();
        }
        match ops[i] {
            RingOp::TryPush(x) => {
                let _ = rb.try_push(x);
            },
            RingOp::TryPop => {
                let _ = rb.try_pop();
            },
        }
        i += 1;
    }
    proof {
        assert(ops@.take(ops@.len() as int) =~= ops@);
    }
}

/// The bulk round trip: pushing a whole slice into an empty ring with room
/// for it and popping the same number of items returns exactly the slice.
pub fn slice_round_trip<T: Copy>(rb: &mut LocalRb<T>, buf: &Vec<T>) -> (out: Vec<T>)
    requires
        old(rb).wf(),
        old(rb).items().len() == 0,
        buf@.len() <= old(rb).cap(),
    ensures
        final(rb).wf(),
        final(rb).items().len() == 0,
        out@ == buf@,
{
    let n = rb.push_slice(buf);
    proof {
        assert(buf@.take(n as int) =~= buf@);
        assert(old(rb).items() + buf@ =~= buf@);
    }
    let mut out: Vec<T> = Vec::new();
    let mut i: usize = 0;
    while i < n
        invariant
            i <= n,
            n == buf@.len(),
            rb.wf(),
            rb.items() == buf@.skip(i as int),
            out@ == buf@.take(i as int),
        decreases n - i,
    {
        let x = rb.try_pop().unwrap();
        out.push(x);
        proof {
            assert(buf@.skip(i as int).skip(1) =~= buf@.skip(i + 1));
            assert(buf@.take(i as int).push(buf@[i as int]) =~= buf@.take(i + 1));
        }
        i += 1;
    }
    proof {
        assert(out@ =~= buf@);
        assert(buf@.skip(buf@.len() as int) =~= Seq::<T>::empty());
    }
    out
}

/// The capacity-one boundary: a ring of capacity one is always either empty
/// or full, so every successful push fills it and every successful pop
/// empties it.
pub proof fn lemma_capacity_one<T>(rb: LocalRb<T>)
    requires
        rb.wf(),
        rb.cap() == 1,
    ensures
        rb.items().len() == 0 || rb.items().len() == 1,
{
    rb.wf_implies_indices();
}

} // verus!
