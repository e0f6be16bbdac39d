//! The concrete ring buffer: a block of `cap` cells, each holding an item
//! exactly when it lies in the occupied range, and the two positions counted
//! modulo `2 * cap`.

use vstd::prelude::*;
use vstd::pervasive::VecAdditionalExecFns;

use crate::traits::{
    ring_advance, ring_cell_occupied, ring_cell_slot, ring_indices_wf, ring_occupied_len,
    ring_offset, RingBuffer, RingBufferBase, RingBufferRead, RingBufferWrite,
};

verus! {

/// A ring buffer owned by a single handle.
///
/// The cell at physical offset `i` holds `Some` exactly when `i` lies in the
/// occupied range; advancing the read position drops cells back to `None`.
pub struct LocalRb<T> {
    data: Vec<Option<T>>,
    head: usize,
    tail: usize,
}

impl<T> LocalRb<T> {
    /// Builds an empty ring of the given capacity.
    pub fn new(capacity: usize) -> (r: Self)
        requires
            1 <= capacity,
            2 * capacity <= usize::MAX,
        ensures
            r.wf(),
            r.cap() == capacity,
            r.items().len() == 0,
            r.head_pos() == 0,
            r.tail_pos() == 0,
    {
        let mut data: Vec<Option<T>> = Vec::new();
        let mut i: usize = 0;
        while i < capacity
            invariant
                i <= capacity,
                data@.len() == i,
                forall|j: int| 0 <= j < i ==> (#[trigger] data@[j]) is None,
            decreases capacity - i,
        {
            data.push(None);
            i += 1;
        }
        let r = LocalRb { data, head: 0, tail: 0 };
        proof {
            assert(forall|j: int|
                0 <= j < capacity ==> !ring_cell_occupied(0, 0, capacity as int, j));
        }
        r
    }
}

impl<T: Copy> LocalRb<T> {
    /// Appends items from `src`, starting at index `from`, until either the
    /// source or the vacant space runs out; returns how many were appended.
    pub fn push_iter(&mut self, src: &Vec<T>, from: usize) -> (r: usize)
        requires
            old(self).wf(),
            from <= src@.len(),
        ensures
            final(self).wf(),
            final(self).cap() == old(self).cap(),
            final(self).head_pos() == old(self).head_pos(),
            r == vstd::math::min(
                src@.len() - from,
                old(self).cap() - old(self).items().len(),
            ),
            final(self).items() == old(self).items() + src@.subrange(
                from as int,
                from + r,
            ),
    {
        let vac = self.vacant_len();
        let avail = src.len() - from;
        let n = if avail < vac {
            avail
        } else {
            vac
        };
        let mut i: usize = 0;
        while i < n
            invariant
                i <= n,
                old(self).wf(),
                self.wf(),
                self.cap() == old(self).cap(),
                self.head_pos() == old(self).head_pos(),
                from + n <= src@.len(),
                from + n <= usize::MAX,
                n <= old(self).cap() - old(self).items().len(),
                self.items() == old(self).items() + src@.subrange(from as int, from + i),
            decreases n - i,
        {
            let _ = self.try_push(src[from + i]);
            proof {
                assert(old(self).items() + src@.subrange(from as int, from + i as int) + seq![
                    src@[from + i],
                ] =~= old(self).items() + src@.subrange(from as int, from + i + 1));
            }
            i += 1;
        }
        n
    }

    /// Appends as much of `elems` as fits; returns how many items were
    /// appended.
    pub fn push_slice(&mut self, elems: &Vec<T>) -> (r: usize)
        requires
            old(self).wf(),
        ensures
            final(self).wf(),
            final(self).cap() == old(self).cap(),
            final(self).head_pos() == old(self).head_pos(),
            r == vstd::math::min(elems@.len() as int, old(self).cap() - old(self).items().len()),
            final(self).items() == old(self).items() + elems@.take(r as int),
    {
        let n = self.push_iter(elems, 0);
        proof {
            assert(elems@.subrange(0, n as int) =~= elems@.take(n as int));
        }
        n
    }

    /// Pops items into `out[from..]` until either the occupied items or the
    /// room in `out` run out; returns how many cells of `out` were filled.
    pub fn pop_into(&mut self, out: &mut Vec<T>, from: usize) -> (r: usize)
        requires
            old(self).wf(),
            from <= old(out)@.len(),
        ensures
            final(self).wf(),
            final(self).cap() == old(self).cap(),
            final(self).tail_pos() == old(self).tail_pos(),
            r == vstd::math::min(old(out)@.len() - from, old(self).items().len() as int),
            final(out)@.len() == old(out)@.len(),
            forall|j: int|
                from <= j < from + r ==> final(out)@[j] == old(self).items()[j - from],
            forall|j: int|
                0 <= j < old(out)@.len() && !(from <= j < from + r) ==> final(out)@[j] == old(
                    out,
                )@[j],
            final(self).items() == old(self).items().skip(r as int),
    {
        let occ = self.occupied_len();
        let room = out.len() - from;
        let n = if occ < room {
            occ
        } else {
            room
        };
        let mut i: usize = 0;
        while i < n
            invariant
                i <= n,
                old(self).wf(),
                self.wf(),
                self.cap() == old(self).cap(),
                self.tail_pos() == old(self).tail_pos(),
                from + n <= old(out)@.len(),
                from + n <= usize::MAX,
                n <= old(self).items().len(),
                out@.len() == old(out)@.len(),
                self.items() == old(self).items().skip(i as int),
                forall|j: int| from <= j < from + i ==> out@[j] == old(self).items()[j - from],
                forall|j: int|
                    0 <= j < old(out)@.len() && !(from <= j < from + i) ==> out@[j] == old(
                        out,
                    )@[j],
            decreases n - i,
        {
            let x = self.try_pop().unwrap();
            out.set(from + i, x);
            proof {
                assert(old(self).items().skip(i as int).skip(1) =~= old(self).items().skip(
                    i as int + 1,
                ));
            }
            i += 1;
        }
        n
    }

    /// Pops items into a prefix of `out`; returns how many cells were filled.
    pub fn pop_slice(&mut self, out: &mut Vec<T>) -> (r: usize)
        requires
            old(self).wf(),
        ensures
            final(self).wf(),
            final(self).cap() == old(self).cap(),
            final(self).tail_pos() == old(self).tail_pos(),
            r == vstd::math::min(old(out)@.len() as int, old(self).items().len() as int),
            final(out)@.len() == old(out)@.len(),
            final(out)@ == old(self).items().take(r as int) + old(out)@.skip(r as int),
            final(self).items() == old(self).items().skip(r as int),
    {
        let n = self.pop_into(out, 0);
        proof {
            assert(out@ =~= old(self).items().take(n as int) + old(out)@.skip(n as int));
        }
        n
    }
}

impl<T> RingBufferBase<T> for LocalRb<T> {
    closed spec fn wf(&self) -> bool {
        &&& self.data@.len() >= 1
        &&& ring_indices_wf(self.head as int, self.tail as int, self.data@.len() as int)
        &&& forall|i: int|
            0 <= i < self.data@.len() ==> ((#[trigger] self.data@[i]) is Some <==> ring_cell_occupied(
                self.head as int,
                self.tail as int,
                self.data@.len() as int,
                i,
            ))
    }

    closed spec fn cap(&self) -> int {
        self.data@.len() as int
    }

    closed spec fn head_pos(&self) -> int {
        self.head as int
    }

    closed spec fn tail_pos(&self) -> int {
        self.tail as int
    }

    closed spec fn items(&self) -> Seq<T> {
        Seq::new(
            ring_occupied_len(self.head as int, self.tail as int, self.data@.len() as int) as nat,
            |k: int| self.data@[ring_offset(self.head as int, self.data@.len() as int, k)].unwrap(),
        )
    }

    proof fn wf_implies_indices(&self) {
    }

    fn capacity(&self) -> (r: usize) {
        self.data.len()
    }

    fn head(&self) -> (r: usize) {
        self.head
    }

    fn tail(&self) -> (r: usize) {
        self.tail
    }

    fn modulus(&self) -> (r: usize) {
        2 * self.data.len()
    }

    fn occupied_len(&self) -> (r: usize) {
        if self.tail >= self.head {
            self.tail - self.head
        } else {
            let m = 2 * self.data.len();
            self.tail + (m - self.head)
        }
    }

    fn vacant_len(&self) -> (r: usize) {
        self.data.len() - self.occupied_len()
    }

    fn is_empty(&self) -> (r: bool) {
        self.head == self.tail
    }

    fn is_full(&self) -> (r: bool) {
        self.vacant_len() == 0
    }
}

impl<T> RingBufferRead<T> for LocalRb<T> {
    fn try_pop(&mut self) -> (r: Option<T>) {
        if self.head == self.tail {
            None
        } else {
            let c = self.data.len();
            let hm = if self.head < c {
                self.head
            } else {
                self.head - c
            };
            let x = self.data[hm].take();
            let m = 2 * c;
            self.head = if self.head + 1 < m {
                self.head + 1
            } else {
                0
            };
            proof {
                let oh = old(self).head as int;
                let t = self.tail as int;
                let ci = c as int;
                let occ = ring_occupied_len(oh, t, ci);
                assert(ring_cell_slot(oh, ci, hm as int) == 0);
                assert forall|i: int| 0 <= i < ci implies ((#[trigger] self.data@[i]) is Some
                    <==> ring_cell_occupied(self.head as int, t, ci, i)) by {
                    assert(ring_cell_slot(self.head as int, ci, i) == (
                    if ring_cell_slot(oh, ci, i) >= 1 {
                        ring_cell_slot(oh, ci, i) - 1
                    } else {
                        ci - 1
                    }));
                }
                assert(self.items() =~= old(self).items().skip(1)) by {
                    assert forall|k: int| 0 <= k < occ - 1 implies self.items()[k]
                        == old(self).items()[k + 1] by {
                        assert(ring_offset(self.head as int, ci, k) == ring_offset(oh, ci, k + 1));
                        assert(ring_offset(oh, ci, k + 1) != hm as int);
                    }
                }
            }
            x
        }
    }

    fn advance_head(&mut self, count: usize) {
        let mut i: usize = 0;
        while i < count
            invariant
                i <= count,
                count <= old(self).items().len(),
                old(self).wf(),
                self.wf(),
                self.cap() == old(self).cap(),
                self.tail_pos() == old(self).tail_pos(),
                self.head_pos() == ring_advance(old(self).head_pos(), i as int, old(self).cap()),
                self.items() == old(self).items().skip(i as int),
            decreases count - i,
        {
            proof {
                old(self).wf_implies_indices();
            }
            let _ = self.try_pop();
            proof {
                assert(old(self).items().skip(i as int).skip(1) =~= old(self).items().skip(
                    i as int + 1,
                ));
            }
            i += 1;
        }
    }

    fn occupied_ranges(&self) -> (r: ((usize, usize), (usize, usize))) {
        let c = self.data.len();
        let hm = if self.head < c {
            self.head
        } else {
            self.head - c
        };
        let tm = if self.tail < c {
            self.tail
        } else {
            self.tail - c
        };
        if (self.head < c) == (self.tail < c) {
            ((hm, tm), (0, 0))
        } else {
            ((hm, c), (0, tm))
        }
    }

    fn clear(&mut self) -> (r: usize) {
        let n = self.occupied_len();
        self.advance_head(n);
        proof {
            assert(old(self).items().skip(old(self).items().len() as int) =~= Seq::<T>::empty());
        }
        n
    }
}

impl<T> RingBufferWrite<T> for LocalRb<T> {
    fn try_push(&mut self, x: T) -> (r: Result<(), T>) {
        if self.is_full() {
            Err(x)
        } else {
            let c = self.data.len();
            let tm = if self.tail < c {
                self.tail
            } else {
                self.tail - c
            };
            self.data.set(tm, Some(x));
            let m = 2 * c;
            self.tail = if self.tail + 1 < m {
                self.tail + 1
            } else {
                0
            };
            proof {
                let h = self.head as int;
                let ot = old(self).tail as int;
                let ci = c as int;
                let occ = ring_occupied_len(h, ot, ci);
                assert(tm as int == ring_offset(h, ci, occ));
                assert(ring_cell_slot(h, ci, tm as int) == occ);
                assert forall|i: int| 0 <= i < ci implies ((#[trigger] self.data@[i]) is Some
                    <==> ring_cell_occupied(h, self.tail as int, ci, i)) by {
                    assert(self.data@[i] == (if i == tm as int {
                        Some(x)
                    } else {
                        old(self).data@[i]
                    }));
                }
                assert(self.items() =~= old(self).items().push(x)) by {
                    assert forall|k: int| 0 <= k < occ implies self.items()[k]
                        == old(self).items()[k] by {
                        assert(ring_offset(h, ci, k) != tm as int);
                    }
                    assert(self.items()[occ as int] == x);
                }
            }
            Ok(())
        }
    }

    fn vacant_ranges(&self) -> (r: ((usize, usize), (usize, usize))) {
        let c = self.data.len();
        let hm = if self.head < c {
            self.head
        } else {
            self.head - c
        };
        let tm = if self.tail < c {
            self.tail
        } else {
            self.tail - c
        };
        if (self.head < c) == (self.tail < c) {
            ((tm, c), (0, hm))
        } else {
            ((tm, hm), (0, 0))
        }
    }
}

impl<T> RingBuffer<T> for LocalRb<T> {

}

} // verus!
