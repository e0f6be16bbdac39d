//! The capability traits of the ring buffer and the index algebra they are
//! specified with.
//!
//! Positions (`head`, `tail`) are counted modulo `2 * cap` rather than `cap`,
//! so that an empty buffer (`head == tail`) and a full one
//! (`head != tail`, same physical offset) stay distinguishable without an
//! extra flag.  The cell for logical position `p` sits at physical offset
//! `p mod cap`.

use vstd::prelude::*;

verus! {

/// Number of occupied cells for positions `head` and `tail` modulo `2 * cap`.
pub open spec fn ring_occupied_len(head: int, tail: int, cap: int) -> int {
    if tail >= head {
        tail - head
    } else {
        tail - head + 2 * cap
    }
}

/// Physical offset of a position `pos` in `[0, 2 * cap)`: `pos mod cap`.
pub open spec fn ring_wrap_offset(pos: int, cap: int) -> int {
    if pos < cap {
        pos
    } else {
        pos - cap
    }
}

/// Physical offset of the cell `k` places after position `head`,
/// for `0 <= k <= cap`.
pub open spec fn ring_offset(head: int, cap: int, k: int) -> int {
    let hm = ring_wrap_offset(head, cap);
    if hm + k < cap {
        hm + k
    } else {
        hm + k - cap
    }
}

/// Inverse of `ring_offset`: the `k` in `[0, cap)` with
/// `ring_offset(head, cap, k) == i`, for a physical offset `i` in `[0, cap)`.
pub open spec fn ring_cell_slot(head: int, cap: int, i: int) -> int {
    let hm = ring_wrap_offset(head, cap);
    if i >= hm {
        i - hm
    } else {
        i - hm + cap
    }
}

/// A physical offset `i` lies in the occupied range.
pub open spec fn ring_cell_occupied(head: int, tail: int, cap: int, i: int) -> bool {
    ring_cell_slot(head, cap, i) < ring_occupied_len(head, tail, cap)
}

/// A position advanced by `count`, reduced modulo `2 * cap`
/// (valid for `0 <= pos < 2 * cap` and `0 <= count <= 2 * cap`).
pub open spec fn ring_advance(pos: int, count: int, cap: int) -> int {
    if pos + count < 2 * cap {
        pos + count
    } else {
        pos + count - 2 * cap
    }
}

/// `head` and `tail` lie on the same lap of the doubled index circle
/// (`head div cap == tail div cap`); then the occupied range does not wrap
/// the physical array.
pub open spec fn ring_same_lap(head: int, tail: int, cap: int) -> bool {
    (head < cap) == (tail < cap)
}

/// The basic shape of a well-formed index pair.
pub open spec fn ring_indices_wf(head: int, tail: int, cap: int) -> bool {
    &&& 1 <= cap
    &&& 2 * cap <= usize::MAX
    &&& 0 <= head < 2 * cap
    &&& 0 <= tail < 2 * cap
    &&& ring_occupied_len(head, tail, cap) <= cap
}

/// Status queries shared by every view of a ring buffer.
pub trait RingBufferBase<T>: Sized {
    /// Well-formedness: indices in range, occupancy bounded by capacity,
    /// and (for a concrete ring) each cell initialized exactly when it lies
    /// in the occupied range.
    spec fn wf(&self) -> bool;

    /// Capacity of the ring.
    spec fn cap(&self) -> int;

    /// The read position, in `[0, 2 * cap)`.
    spec fn head_pos(&self) -> int;

    /// The write position, in `[0, 2 * cap)`.
    spec fn tail_pos(&self) -> int;

    /// The occupied items in order from oldest to newest.
    spec fn items(&self) -> Seq<T>;

    /// A well-formed ring has well-formed indices, and holds exactly
    /// `ring_occupied_len` items.
    proof fn wf_implies_indices(&self)
        requires
            self.wf(),
        ensures
            ring_indices_wf(self.head_pos(), self.tail_pos(), self.cap()),
            self.items().len() == ring_occupied_len(self.head_pos(), self.tail_pos(), self.cap()),
    ;

    fn capacity(&self) -> (r: usize)
        requires
            self.wf(),
        ensures
            r == self.cap(),
    ;

    fn head(&self) -> (r: usize)
        requires
            self.wf(),
        ensures
            r == self.head_pos(),
    ;

    fn tail(&self) -> (r: usize)
        requires
            self.wf(),
        ensures
            r == self.tail_pos(),
    ;

    /// The modulus of the two positions: `2 * cap`.
    fn modulus(&self) -> (r: usize)
        requires
            self.wf(),
        ensures
            r == 2 * self.cap(),
    ;

    fn occupied_len(&self) -> (r: usize)
        requires
            self.wf(),
        ensures
            r == self.items().len(),
    ;

    /// The number of free cells; together with `occupied_len` it always
    /// sums to the capacity.
    fn vacant_len(&self) -> (r: usize)
        requires
            self.wf(),
        ensures
            r == self.cap() - self.items().len(),
    ;

    fn is_empty(&self) -> (r: bool)
        requires
            self.wf(),
        ensures
            r == (self.items().len() == 0),
    ;

    fn is_full(&self) -> (r: bool)
        requires
            self.wf(),
        ensures
            r == (self.items().len() == self.cap()),
    ;
}

/// The read end: removal of the oldest items.
pub trait RingBufferRead<T>: RingBufferBase<T> {
    /// Removes and returns the oldest item, or `None` when the buffer
    /// is empty.
    fn try_pop(&mut self) -> (r: Option<T>)
        requires
            old(self).wf(),
        ensures
            final(self).wf(),
            final(self).cap() == old(self).cap(),
            old(self).items().len() > 0 ==> {
                &&& r == Some(old(self).items()[0])
                &&& final(self).items() == old(self).items().skip(1)
                &&& final(self).tail_pos() == old(self).tail_pos()
                &&& final(self).head_pos() == ring_advance(
                    old(self).head_pos(),
                    1,
                    old(self).cap(),
                )
            },
            old(self).items().len() == 0 ==> r is None && *final(self) == *old(self),
    ;

    /// Drops the `count` oldest items and moves the read position past them.
    fn advance_head(&mut self, count: usize)
        requires
            old(self).wf(),
            count <= old(self).items().len(),
        ensures
            final(self).wf(),
            final(self).cap() == old(self).cap(),
            final(self).items() == old(self).items().skip(count as int),
            final(self).tail_pos() == old(self).tail_pos(),
            final(self).head_pos() == ring_advance(
                old(self).head_pos(),
                count as int,
                old(self).cap(),
            ),
    ;

    /// The occupied range, decomposed into at most two physical spans
    /// `[r.0.0, r.0.1)` then `[r.1.0, r.1.1)`, oldest items first.
    fn occupied_ranges(&self) -> (r: ((usize, usize), (usize, usize)))
        requires
            self.wf(),
        ensures
            ({
                let h = self.head_pos();
                let t = self.tail_pos();
                let c = self.cap();
                let occ = self.items().len() as int;
                &&& r.0.0 == ring_wrap_offset(h, c)
                &&& r.0.0 <= r.0.1 <= c
                &&& r.1.0 == 0
                &&& r.1.1 <= c
                &&& (r.0.1 - r.0.0) + (r.1.1 - r.1.0) == occ
                &&& ring_same_lap(h, t, c) ==> r.0.1 == ring_wrap_offset(t, c) && r.1.1 == 0
                &&& !ring_same_lap(h, t, c) ==> r.0.1 == c && r.1.1 == ring_wrap_offset(t, c)
                &&& forall|k: int|
                    0 <= k < occ ==> #[trigger] ring_offset(h, c, k) == (if k < r.0.1 - r.0.0 {
                        r.0.0 + k
                    } else {
                        r.1.0 + k - (r.0.1 - r.0.0)
                    })
            }),
    ;

    /// Drops every occupied item; returns how many were dropped.
    fn clear(&mut self) -> (r: usize)
        requires
            old(self).wf(),
        ensures
            final(self).wf(),
            final(self).cap() == old(self).cap(),
            final(self).items().len() == 0,
            final(self).tail_pos() == old(self).tail_pos(),
            r == old(self).items().len(),
    ;
}

/// The write end: insertion of new items.
pub trait RingBufferWrite<T>: RingBufferBase<T> {
    /// Appends an item; when the buffer is full, hands it back unchanged.
    fn try_push(&mut self, x: T) -> (r: Result<(), T>)
        requires
            old(self).wf(),
        ensures
            final(self).wf(),
            final(self).cap() == old(self).cap(),
            old(self).items().len() < old(self).cap() ==> {
                &&& r is Ok
                &&& final(self).items() == old(self).items().push(x)
                &&& final(self).head_pos() == old(self).head_pos()
                &&& final(self).tail_pos() == ring_advance(
                    old(self).tail_pos(),
                    1,
                    old(self).cap(),
                )
            },
            old(self).items().len() == old(self).cap() ==> r == Err::<(), T>(x) && *final(self)
                == *old(self),
    ;

    /// The vacant range, decomposed into at most two physical spans
    /// `[r.0.0, r.0.1)` then `[r.1.0, r.1.1)`, in the order the producer
    /// fills them.
    fn vacant_ranges(&self) -> (r: ((usize, usize), (usize, usize)))
        requires
            self.wf(),
        ensures
            ({
                let h = self.head_pos();
                let t = self.tail_pos();
                let c = self.cap();
                let vac = c - self.items().len() as int;
                &&& r.0.0 == ring_wrap_offset(t, c)
                &&& r.0.0 <= r.0.1 <= c
                &&& r.1.0 == 0
                &&& r.1.1 <= c
                &&& (r.0.1 - r.0.0) + (r.1.1 - r.1.0) == vac
                &&& ring_same_lap(h, t, c) ==> r.0.1 == c && r.1.1 == ring_wrap_offset(h, c)
                &&& !ring_same_lap(h, t, c) ==> r.0.1 == ring_wrap_offset(h, c) && r.1.1 == 0
                &&& forall|j: int|
                    0 <= j < vac ==> #[trigger] ring_offset(t, c, j) == (if j < r.0.1 - r.0.0 {
                        r.0.0 + j
                    } else {
                        r.1.0 + j - (r.0.1 - r.0.0)
                    })
            }),
    ;
}

/// A handle that owns both ends at once.
pub trait RingBuffer<T>: RingBufferRead<T> + RingBufferWrite<T> {

}

} // verus!
