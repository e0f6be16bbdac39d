//! The three views over a ring: observer, producer and consumer.
//!
//! Each half owns its ring here; a pair of halves that share one ring across
//! threads is assembled outside the verified core, which only ever hands a
//! half exclusive access for the duration of one operation.

use vstd::prelude::*;

use crate::local::LocalRb;
use crate::traits::{RingBufferBase, RingBufferRead, RingBufferWrite};
use crate::transfer::transfer;

verus! {

/// Observer of a ring buffer: status queries only.
pub struct Obs<T> {
    rb: LocalRb<T>,
}

/// Producer half: appends items.
pub struct LocalProducer<T> {
    rb: LocalRb<T>,
}

/// Consumer half: removes items.
pub struct LocalConsumer<T> {
    rb: LocalRb<T>,
}

impl<T> Obs<T> {
    pub closed spec fn wf(&self) -> bool {
        self.rb.wf()
    }

    pub closed spec fn cap(&self) -> int {
        self.rb.cap()
    }

    pub closed spec fn items(&self) -> Seq<T> {
        self.rb.items()
    }

    pub fn new(rb: LocalRb<T>) -> (r: Self)
        requires
            rb.wf(),
        ensures
            r.wf(),
            r.cap() == rb.cap(),
            r.items() == rb.items(),
    {
        Obs { rb }
    }

    /// Borrows the ring.
    pub fn rb_ref(&self) -> (r: &LocalRb<T>)
        requires
            self.wf(),
        ensures
            r.wf(),
            r.cap() == self.cap(),
            r.items() == self.items(),
    {
        &self.rb
    }

    /// Gives the ring back.
    pub fn into_rb_ref(self) -> (r: LocalRb<T>)
        requires
            self.wf(),
        ensures
            r.wf(),
            r.cap() == self.cap(),
            r.items() == self.items(),
    {
        self.rb
    }

    pub fn capacity(&self) -> (r: usize)
        requires
            self.wf(),
        ensures
            r == self.cap(),
    {
        self.rb.capacity()
    }

    pub fn occupied_len(&self) -> (r: usize)
        requires
            self.wf(),
        ensures
            r == self.items().len(),
    {
        self.rb.occupied_len()
    }

    pub fn vacant_len(&self) -> (r: usize)
        requires
            self.wf(),
        ensures
            r == self.cap() - self.items().len(),
    {
        self.rb.vacant_len()
    }

    pub fn is_empty(&self) -> (r: bool)
        requires
            self.wf(),
        ensures
            r == (self.items().len() == 0),
    {
        self.rb.is_empty()
    }

    pub fn is_full(&self) -> (r: bool)
        requires
            self.wf(),
        ensures
            r == (self.items().len() == self.cap()),
    {
        self.rb.is_full()
    }
}

impl<T> LocalProducer<T> {
    pub closed spec fn wf(&self) -> bool {
        self.rb.wf()
    }

    pub closed spec fn cap(&self) -> int {
        self.rb.cap()
    }

    pub closed spec fn items(&self) -> Seq<T> {
        self.rb.items()
    }

    pub fn new(rb: LocalRb<T>) -> (r: Self)
        requires
            rb.wf(),
        ensures
            r.wf(),
            r.cap() == rb.cap(),
            r.items() == rb.items(),
    {
        LocalProducer { rb }
    }

    /// Borrows the ring.
    pub fn rb_ref(&self) -> (r: &LocalRb<T>)
        requires
            self.wf(),
        ensures
            r.wf(),
            r.cap() == self.cap(),
            r.items() == self.items(),
    {
        &self.rb
    }

    /// Gives the ring back, for example to hand it to a consumer.
    pub fn into_rb_ref(self) -> (r: LocalRb<T>)
        requires
            self.wf(),
        ensures
            r.wf(),
            r.cap() == self.cap(),
            r.items() == self.items(),
    {
        self.rb
    }

    pub fn capacity(&self) -> (r: usize)
        requires
            self.wf(),
        ensures
            r == self.cap(),
    {
        self.rb.capacity()
    }

    pub fn is_empty(&self) -> (r: bool)
        requires
            self.wf(),
        ensures
            r == (self.items().len() == 0),
    {
        self.rb.is_empty()
    }

    pub fn is_full(&self) -> (r: bool)
        requires
            self.wf(),
        ensures
            r == (self.items().len() == self.cap()),
    {
        self.rb.is_full()
    }

    /// The number of items currently stored.
    pub fn len(&self) -> (r: usize)
        requires
            self.wf(),
        ensures
            r == self.items().len(),
    {
        self.rb.occupied_len()
    }

    /// The number of free places remaining.
    pub fn remaining(&self) -> (r: usize)
        requires
            self.wf(),
        ensures
            r == self.cap() - self.items().len(),
    {
        self.rb.vacant_len()
    }

    /// Appends an item; hands it back when the buffer is full.
    pub fn push(&mut self, elem: T) -> (r: Result<(), T>)
        requires
            old(self).wf(),
        ensures
            final(self).wf(),
            final(self).cap() == old(self).cap(),
            old(self).items().len() < old(self).cap() ==> r is Ok
                && final(self).items() == old(self).items().push(elem),
            old(self).items().len() == old(self).cap() ==> r == Err::<(), T>(elem)
                && final(self).items() == old(self).items(),
    {
        self.rb.try_push(elem)
    }

    /// Removes at most `count` items from `consumer` (all that fit when
    /// `count` is `None`) and appends them here; returns how many moved.
    pub fn transfer_from(&mut self, consumer: &mut LocalConsumer<T>, count: Option<usize>) -> (r:
        usize)
        requires
            old(self).wf(),
            old(consumer).wf(),
        ensures
            final(self).wf(),
            final(consumer).wf(),
            final(self).cap() == old(self).cap(),
            final(consumer).cap() == old(consumer).cap(),
            r == ({
                let bulk = vstd::math::min(
                    old(consumer).items().len() as int,
                    old(self).cap() - old(self).items().len(),
                );
                match count {
                    Some(c) => vstd::math::min(c as int, bulk),
                    None => bulk,
                }
            }),
            final(consumer).items() == old(consumer).items().skip(r as int),
            final(self).items() == old(self).items() + old(consumer).items().take(r as int),
    {
        transfer(&mut consumer.rb, &mut self.rb, count)
    }
}

impl<T: Copy> LocalProducer<T> {
    /// Appends as much of `elems` as fits; returns how many were appended.
    pub fn push_slice(&mut self, elems: &Vec<T>) -> (r: usize)
        requires
            old(self).wf(),
        ensures
            final(self).wf(),
            final(self).cap() == old(self).cap(),
            r == vstd::math::min(elems@.len() as int, old(self).cap() - old(self).items().len()),
            final(self).items() == old(self).items() + elems@.take(r as int),
    {
        self.rb.push_slice(elems)
    }

    /// Appends items from `src`, starting at `from`, until the source or the
    /// vacant space runs out; returns how many were appended.
    pub fn push_iter(&mut self, src: &Vec<T>, from: usize) -> (r: usize)
        requires
            old(self).wf(),
            from <= src@.len(),
        ensures
            final(self).wf(),
            final(self).cap() == old(self).cap(),
            r == vstd::math::min(src@.len() - from, old(self).cap() - old(self).items().len()),
            final(self).items() == old(self).items() + src@.subrange(from as int, from + r),
    {
        self.rb.push_iter(src, from)
    }
}

impl LocalProducer<u8> {
    /// The byte-stream shim: pushes as many bytes as fit.  Reports failure
    /// exactly when the buffer is full and the caller offered at least one
    /// byte; otherwise returns how many bytes were accepted.
    pub fn write(&mut self, buf: &Vec<u8>) -> (r: Result<usize, ()>)
        requires
            old(self).wf(),
        ensures
            final(self).wf(),
            final(self).cap() == old(self).cap(),
            r is Err <==> old(self).items().len() == old(self).cap() && buf@.len() > 0,
            r is Err ==> final(self).items() == old(self).items(),
            r matches Ok(n) ==> n == vstd::math::min(
                buf@.len() as int,
                old(self).cap() - old(self).items().len(),
            ) && final(self).items() == old(self).items() + buf@.take(n as int),
    {
        let n = self.push_slice(buf);
        if n == 0 && buf.len() > 0 {
            proof {
                assert(self.items() =~= old(self).items());
            }
            Err(())
        } else {
            Ok(n)
        }
    }
}

impl<T> LocalConsumer<T> {
    pub closed spec fn wf(&self) -> bool {
        self.rb.wf()
    }

    pub closed spec fn cap(&self) -> int {
        self.rb.cap()
    }

    pub closed spec fn items(&self) -> Seq<T> {
        self.rb.items()
    }

    pub fn new(rb: LocalRb<T>) -> (r: Self)
        requires
            rb.wf(),
        ensures
            r.wf(),
            r.cap() == rb.cap(),
            r.items() == rb.items(),
    {
        LocalConsumer { rb }
    }

    /// Borrows the ring.
    pub fn rb_ref(&self) -> (r: &LocalRb<T>)
        requires
            self.wf(),
        ensures
            r.wf(),
            r.cap() == self.cap(),
            r.items() == self.items(),
    {
        &self.rb
    }

    /// Gives the ring back, for example to hand it to a producer.
    pub fn into_rb_ref(self) -> (r: LocalRb<T>)
        requires
            self.wf(),
        ensures
            r.wf(),
            r.cap() == self.cap(),
            r.items() == self.items(),
    {
        self.rb
    }

    pub fn capacity(&self) -> (r: usize)
        requires
            self.wf(),
        ensures
            r == self.cap(),
    {
        self.rb.capacity()
    }

    pub fn is_empty(&self) -> (r: bool)
        requires
            self.wf(),
        ensures
            r == (self.items().len() == 0),
    {
        self.rb.is_empty()
    }

    /// The number of items currently stored.
    pub fn len(&self) -> (r: usize)
        requires
            self.wf(),
        ensures
            r == self.items().len(),
    {
        self.rb.occupied_len()
    }

    /// Removes and returns the oldest item, or `None` when empty.
    pub fn pop(&mut self) -> (r: Option<T>)
        requires
            old(self).wf(),
        ensures
            final(self).wf(),
            final(self).cap() == old(self).cap(),
            old(self).items().len() > 0 ==> r == Some(old(self).items()[0]) && final(self).items()
                == old(self).items().skip(1),
            old(self).items().len() == 0 ==> r is None && final(self).items() == old(self).items(),
    {
        self.rb.try_pop()
    }

    /// Drops every stored item; returns how many were dropped.
    pub fn clear(&mut self) -> (r: usize)
        requires
            old(self).wf(),
        ensures
            final(self).wf(),
            final(self).cap() == old(self).cap(),
            final(self).items().len() == 0,
            r == old(self).items().len(),
    {
        self.rb.clear()
    }
}

impl<T: Copy> LocalConsumer<T> {
    /// Pops items into a prefix of `out`; returns how many cells were filled.
    pub fn pop_slice(&mut self, out: &mut Vec<T>) -> (r: usize)
        requires
            old(self).wf(),
        ensures
            final(self).wf(),
            final(self).cap() == old(self).cap(),
            r == vstd::math::min(old(out)@.len() as int, old(self).items().len() as int),
            final(out)@.len() == old(out)@.len(),
            final(out)@ == old(self).items().take(r as int) + old(out)@.skip(r as int),
            final(self).items() == old(self).items().skip(r as int),
    {
        self.rb.pop_slice(out)
    }
}

impl LocalConsumer<u8> {
    /// The byte-stream shim: pops as many bytes as are available into a
    /// prefix of `buf`.  Reports failure exactly when the buffer is empty
    /// and the caller asked for at least one byte.
    pub fn read(&mut self, buf: &mut Vec<u8>) -> (r: Result<usize, ()>)
        requires
            old(self).wf(),
        ensures
            final(self).wf(),
            final(self).cap() == old(self).cap(),
            r is Err <==> old(self).items().len() == 0 && old(buf)@.len() > 0,
            r is Err ==> final(self).items() == old(self).items() && final(buf)@ == old(buf)@,
            r matches Ok(n) ==> n == vstd::math::min(
                old(buf)@.len() as int,
                old(self).items().len() as int,
            ) && final(buf)@ == old(self).items().take(n as int) + old(buf)@.skip(n as int)
                && final(self).items() == old(self).items().skip(n as int),
    {
        let n = self.pop_slice(buf);
        if n == 0 && buf.len() > 0 {
            proof {
                assert(self.items() =~= old(self).items());
                assert(buf@ =~= old(buf)@);
            }
            Err(())
        } else {
            Ok(n)
        }
    }
}

} // verus!
