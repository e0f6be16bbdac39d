//! End-to-end walks through the ring's frontends on concrete values.

use ringbuf::traits::{RingBufferBase, RingBufferRead, RingBufferWrite};
use ringbuf::{
    AsyncRb, LocalRb, PollResult, PopFuture, PopSliceFuture, PopStep, PushFuture, PushStep,
    BlockingRb, TimeoutIterator,
};

#[test]
fn single_handle_fill_drain_refill() {
    // A buffer that holds three items: fill it, drain one, top it up, and
    // check that the rejected item comes back and the order is kept.
    let mut rb: LocalRb<u32> = LocalRb::new(3);
    assert_eq!(rb.try_push(1), Ok(()));
    assert_eq!(rb.try_push(2), Ok(()));
    assert_eq!(rb.try_push(3), Ok(()));
    assert_eq!(rb.try_pop(), Some(1));
    assert_eq!(rb.try_push(4), Ok(()));
    assert_eq!(rb.try_push(5), Err(5));
    assert_eq!(rb.try_pop(), Some(2));
    assert_eq!(rb.try_pop(), Some(3));
    assert_eq!(rb.try_pop(), Some(4));
    assert_eq!(rb.try_pop(), None);
    assert_eq!(rb.occupied_len(), 0);
}

#[test]
fn single_threaded_split_alternation() {
    // capacity 2: the two sides of one ring alternate in one thread.
    let mut rb: AsyncRb<u32> = AsyncRb::new(LocalRb::new(2));
    let mut p1 = PushFuture::new(10);
    assert_eq!(p1.poll(&mut rb).0, PollResult::Ready(Ok(())));
    let mut p2 = PushFuture::new(20);
    assert_eq!(p2.poll(&mut rb).0, PollResult::Ready(Ok(())));
    let mut c1 = PopFuture::new();
    assert_eq!(c1.poll(&mut rb).0, PollResult::Ready(Some(10)));
    let mut p3 = PushFuture::new(30);
    assert_eq!(p3.poll(&mut rb).0, PollResult::Ready(Ok(())));
    let mut c2 = PopFuture::new();
    assert_eq!(c2.poll(&mut rb).0, PollResult::Ready(Some(20)));
    let mut c3 = PopFuture::new();
    assert_eq!(c3.poll(&mut rb).0, PollResult::Ready(Some(30)));
    // nothing left: a further pop pends until the producer goes away
    let mut c4 = PopFuture::new();
    assert_eq!(c4.poll(&mut rb).0, PollResult::Pending);
    let woke = rb.close_by_producer();
    assert!(woke);
    assert_eq!(c4.poll(&mut rb).0, PollResult::Ready(None));
}

#[test]
fn byte_stream_hello() {
    // capacity 3 and the bytes of "hello" through the bulk paths.
    let mut rb: LocalRb<u8> = LocalRb::new(3);
    let hello = b"hello".to_vec();
    assert_eq!(rb.push_slice(&hello), 3); // "hel" is in the buffer
    let mut out = vec![0u8; 2];
    assert_eq!(rb.pop_slice(&mut out), 2);
    assert_eq!(out, b"he".to_vec());
    let lo = b"lo".to_vec();
    assert_eq!(rb.push_slice(&lo), 2); // buffer now holds "llo"
    let mut rest = vec![0u8; 3];
    assert_eq!(rb.pop_slice(&mut rest), 3);
    assert_eq!(rest, b"llo".to_vec());
    assert!(rb.is_empty());
}

#[test]
fn async_rendezvous_on_capacity_one() {
    // capacity 1: the first push resolves at once, the second pends until
    // the other side pops, which wakes the producer.
    let mut rb: AsyncRb<u32> = AsyncRb::new(LocalRb::new(1));
    let mut a1 = PushFuture::new(42);
    let (r, _) = a1.poll(&mut rb);
    assert_eq!(r, PollResult::Ready(Ok(())));
    let mut a2 = PushFuture::new(43);
    let (r, _) = a2.poll(&mut rb);
    assert_eq!(r, PollResult::Pending);
    let mut b = PopFuture::new();
    let (r, wake) = b.poll(&mut rb);
    assert_eq!(r, PollResult::Ready(Some(42)));
    assert!(wake); // task A is woken
    let (r, _) = a2.poll(&mut rb);
    assert_eq!(r, PollResult::Ready(Ok(())));
}

#[test]
fn async_bulk_pop_sees_partial_fill_on_close() {
    // capacity 2: a four-slot bulk pop is outstanding; the producer
    // delivers two items and goes away; the pop resolves with the count.
    let mut rb: AsyncRb<u8> = AsyncRb::new(LocalRb::new(2));
    let mut out = vec![0u8; 4];
    let mut fut = PopSliceFuture::new();
    let (r, _) = fut.poll(&mut rb, &mut out);
    assert_eq!(r, PollResult::Pending);
    let mut p1 = PushFuture::new(1);
    let (_, wake1) = p1.poll(&mut rb);
    assert!(wake1);
    let mut p2 = PushFuture::new(2);
    let (_, _) = p2.poll(&mut rb);
    let _ = rb.close_by_producer();
    let (r, _) = fut.poll(&mut rb, &mut out);
    assert_eq!(r, PollResult::Ready(Err(2)));
    assert_eq!(out, vec![1, 2, 0, 0]);
}

#[test]
fn blocking_pop_times_out_then_succeeds() {
    // capacity 1, no producer activity: a pop with a bounded timeout asks
    // to wait, and the timeout sequence expires; after a push the pop
    // returns the value.
    let mut rb: BlockingRb<u8> = BlockingRb::new(LocalRb::new(1));
    let timeouts = TimeoutIterator::new(Some(10));
    let mut got: Option<u8> = None;
    let mut elapsed: u64 = 0;
    loop {
        match rb.pop_step() {
            PopStep::Got(x) => {
                got = Some(x);
                break;
            }
            PopStep::Closed => break,
            PopStep::MustWait => match timeouts.next(elapsed) {
                Some(_bound) => {
                    // the shell would park here; no producer gives the
                    // semaphore, so the full wait elapses
                    elapsed += 10;
                    let _ = rb.take_consumer_signal();
                }
                None => break, // timed out
            },
        }
    }
    assert_eq!(got, None);
    assert!(elapsed >= 10);
    // a producer appears and the next pop succeeds
    match rb.push_step(7) {
        PushStep::Done => {}
        _ => panic!("push into an empty buffer must succeed"),
    }
    match rb.pop_step() {
        PopStep::Got(x) => assert_eq!(x, 7),
        _ => panic!("pop after a push must return the item"),
    }
}
