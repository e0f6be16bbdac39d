//! Moving items from the read end of one ring into the write end of another
//! (or of the same ring) without an intermediate buffer.

use vstd::prelude::*;

use crate::local::LocalRb;
use crate::traits::{RingBufferBase, RingBufferRead, RingBufferWrite};

verus! {

/// Removes at most `count` items (all of them when `count` is `None`) from
/// `src` and appends them to `dst`, oldest first; returns how many moved.
pub fn transfer<T>(src: &mut LocalRb<T>, dst: &mut LocalRb<T>, count: Option<usize>) -> (r: usize)
    requires
        old(src).wf(),
        old(dst).wf(),
    ensures
        final(src).wf(),
        final(dst).wf(),
        final(src).cap() == old(src).cap(),
        final(dst).cap() == old(dst).cap(),
        r == ({
            let bulk = vstd::math::min(
                old(src).items().len() as int,
                old(dst).cap() - old(dst).items().len(),
            );
            match count {
                Some(c) => vstd::math::min(c as int, bulk),
                None => bulk,
            }
        }),
        final(src).items() == old(src).items().skip(r as int),
        final(dst).items() == old(dst).items() + old(src).items().take(r as int),
{
    let occ = src.occupied_len();
    let vac = dst.vacant_len();
    let bulk = if occ < vac {
        occ
    } else {
        vac
    };
    let n = match count {
        Some(c) => if c < bulk {
            c
        } else {
            bulk
        },
        None => bulk,
    };
    let mut i: usize = 0;
    while i < n
        invariant
            i <= n,
            old(src).wf(),
            old(dst).wf(),
            src.wf(),
            dst.wf(),
            src.cap() == old(src).cap(),
            dst.cap() == old(dst).cap(),
            n <= old(src).items().len(),
            n <= old(dst).cap() - old(dst).items().len(),
            src.items() == old(src).items().skip(i as int),
            dst.items() == old(dst).items() + old(src).items().take(i as int),
        decreases n - i,
    {
        let x = src.try_pop().unwrap();
        let _ = dst.try_push(x);
        proof {
            assert(old(src).items().skip(i as int).skip(1) =~= old(src).items().skip(i + 1));
            assert(old(dst).items() + old(src).items().take(i as int) + seq![
                old(src).items()[i as int],
            ] =~= old(dst).items() + old(src).items().take(i + 1));
        }
        i += 1;
    }
    n
}

} // verus!
