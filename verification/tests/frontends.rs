use ringbuf::{
    AsyncRb, BlockingRb, LocalRb, PollResult, PopFuture, PopSliceFuture, PopStep, PushFuture,
    PushIterFuture, PushSliceFuture, PushStep, SemaphoreState, TimeoutIterator,
};

fn async_ring<T>(capacity: usize) -> AsyncRb<T> {
    AsyncRb::new(LocalRb::new(capacity))
}

#[test]
fn push_future_resolves_when_room_exists() {
    let mut rb = async_ring::<u32>(1);
    let mut fut = PushFuture::new(42);
    assert!(!fut.is_terminated());
    let (r, wake) = fut.poll(&mut rb);
    assert_eq!(r, PollResult::Ready(Ok(())));
    assert!(!wake); // no consumer waker was registered
    assert!(fut.is_terminated());
    assert_eq!(rb.occupied_len(), 1);
}

#[test]
fn push_future_pends_on_full_then_resumes_after_pop() {
    let mut rb = async_ring::<u32>(1);
    let mut first = PushFuture::new(42);
    let (r, _) = first.poll(&mut rb);
    assert_eq!(r, PollResult::Ready(Ok(())));
    let mut second = PushFuture::new(43);
    let (r, wake) = second.poll(&mut rb);
    assert_eq!(r, PollResult::Pending);
    assert!(!wake);
    // the opposite side pops: the registered producer waker must fire
    let mut pop = PopFuture::new();
    let (r, wake) = pop.poll(&mut rb);
    assert_eq!(r, PollResult::Ready(Some(42)));
    assert!(wake); // no lost wake: the pending push is woken
    let (r, _) = second.poll(&mut rb);
    assert_eq!(r, PollResult::Ready(Ok(())));
}

#[test]
fn push_future_returns_item_on_close() {
    let mut rb = async_ring::<u32>(1);
    let wake = rb.close_by_producer();
    assert!(!wake);
    let mut fut = PushFuture::new(5);
    // the producer observes closure only through its own flag
    assert!(!rb.producer_is_closed());
    let _ = rb.close_by_consumer();
    assert!(rb.producer_is_closed());
    let (r, wake) = fut.poll(&mut rb);
    assert_eq!(r, PollResult::Ready(Err(5)));
    assert!(!wake);
}

#[test]
fn pop_future_pends_then_sees_close() {
    // producer drops while the consumer awaits: the consumer is woken and
    // observes the close, returning no item.
    let mut rb = async_ring::<u8>(2);
    let mut pop = PopFuture::new();
    let (r, wake) = pop.poll(&mut rb);
    assert_eq!(r, PollResult::Pending);
    assert!(!wake);
    let wake = rb.close_by_producer();
    assert!(wake); // the registered consumer waker fires
    let (r, wake) = pop.poll(&mut rb);
    assert_eq!(r, PollResult::Ready(None));
    assert!(!wake);
    assert!(pop.is_terminated());
}

#[test]
fn pop_drains_before_reporting_close() {
    let mut rb = async_ring::<u8>(2);
    let mut push = PushFuture::new(9);
    let (_, _) = push.poll(&mut rb);
    let _ = rb.close_by_producer();
    let mut pop = PopFuture::new();
    let (r, _) = pop.poll(&mut rb);
    assert_eq!(r, PollResult::Ready(Some(9)));
    let mut pop2 = PopFuture::new();
    let (r, _) = pop2.poll(&mut rb);
    assert_eq!(r, PollResult::Ready(None));
}

#[test]
fn push_slice_future_partial_then_err_on_close() {
    // the consumer drops while a bulk push is under way: the producer
    // resumes with the count already delivered.
    let mut rb = async_ring::<u8>(2);
    let elems = vec![1, 2, 3, 4, 5];
    let mut fut = PushSliceFuture::new();
    let (r, wake) = fut.poll(&mut rb, &elems);
    assert_eq!(r, PollResult::Pending);
    assert!(!wake);
    assert_eq!(rb.occupied_len(), 2);
    let wake = rb.close_by_consumer();
    assert!(wake); // the pending producer is woken
    let (r, _) = fut.poll(&mut rb, &elems);
    assert_eq!(r, PollResult::Ready(Err(2)));
    assert!(fut.is_terminated());
}

#[test]
fn push_iter_future_drains_source() {
    let mut rb = async_ring::<u8>(3);
    let src = vec![7, 8];
    let mut fut = PushIterFuture::new();
    let (r, _) = fut.poll(&mut rb, &src);
    assert_eq!(r, PollResult::Ready(true));
    assert_eq!(rb.occupied_len(), 2);
}

#[test]
fn push_iter_future_reports_close() {
    let mut rb = async_ring::<u8>(1);
    let _ = rb.close_by_consumer();
    let src = vec![7, 8];
    let mut fut = PushIterFuture::new();
    let (r, _) = fut.poll(&mut rb, &src);
    assert_eq!(r, PollResult::Ready(false));
    assert_eq!(rb.occupied_len(), 0);
}

#[test]
fn wait_vacant_full_demand_on_empty_is_immediate() {
    let mut rb = async_ring::<u8>(4);
    let mut fut = rb.wait_vacant(4);
    let r = fut.poll(&mut rb);
    assert_eq!(r, PollResult::Ready(()));
    assert!(fut.is_terminated());
}

#[test]
fn wait_occupied_zero_demand_is_immediate() {
    let mut rb = async_ring::<u8>(4);
    let mut fut = rb.wait_occupied(0);
    let r = fut.poll(&mut rb);
    assert_eq!(r, PollResult::Ready(()));
}

#[test]
fn wait_occupied_pends_until_enough_items() {
    let mut rb = async_ring::<u8>(2);
    let mut fut = rb.wait_occupied(2);
    assert_eq!(fut.poll(&mut rb), PollResult::Pending);
    let mut p1 = PushFuture::new(1);
    let (_, wake) = p1.poll(&mut rb);
    assert!(wake); // the waiting consumer is woken to re-check
    assert_eq!(fut.poll(&mut rb), PollResult::Pending);
    let mut p2 = PushFuture::new(2);
    let (_, _) = p2.poll(&mut rb);
    assert_eq!(fut.poll(&mut rb), PollResult::Ready(()));
}

#[test]
fn close_is_idempotent() {
    let mut rb = async_ring::<u8>(1);
    let mut pop = PopFuture::new();
    let (r, _) = pop.poll(&mut rb); // registers the consumer waker
    assert_eq!(r, PollResult::Pending);
    let first = rb.close_by_producer();
    assert!(first); // the waker fires once
    let second = rb.close_by_producer();
    assert!(!second); // a repeated drop has no further effect
    assert!(rb.consumer_is_closed());
}

#[test]
fn semaphore_latch_is_binary() {
    let mut sem = SemaphoreState::new();
    assert!(!sem.try_take());
    sem.give();
    sem.give(); // idempotent
    assert!(sem.try_take());
    assert!(!sem.try_take());
}

#[test]
fn timeout_iterator_yields_remaining_slices() {
    let it = TimeoutIterator::new(Some(10));
    assert_eq!(it.next(0), Some(Some(10)));
    assert_eq!(it.next(3), Some(Some(7)));
    assert_eq!(it.next(10), None);
    assert_eq!(it.next(12), None);
    let forever = TimeoutIterator::new(None);
    assert_eq!(forever.next(0), Some(None));
    assert_eq!(forever.next(1_000_000), Some(None));
}

#[test]
fn blocking_push_pop_steps() {
    let mut rb: BlockingRb<u8> = BlockingRb::new(LocalRb::new(1));
    match rb.pop_step() {
        PopStep::MustWait => {}
        _ => panic!("empty open buffer must ask the consumer to wait"),
    }
    match rb.push_step(7) {
        PushStep::Done => {}
        _ => panic!("push into an empty buffer must succeed"),
    }
    // the producer's advance gave the consumer-side semaphore
    assert!(rb.take_consumer_signal());
    match rb.push_step(8) {
        PushStep::MustWait(item) => assert_eq!(item, 8),
        _ => panic!("push into a full open buffer must ask the producer to wait"),
    }
    match rb.pop_step() {
        PopStep::Got(item) => assert_eq!(item, 7),
        _ => panic!("pop from a non-empty buffer must succeed"),
    }
    assert!(rb.take_producer_signal());
}

#[test]
fn blocking_close_releases_waiters() {
    let mut rb: BlockingRb<u8> = BlockingRb::new(LocalRb::new(1));
    rb.close_by_producer();
    match rb.pop_step() {
        PopStep::Closed => {}
        _ => panic!("pop after the producer is gone must report closure"),
    }
    rb.close_by_consumer();
    match rb.push_step(1) {
        PushStep::MustWait(_) => panic!("push after the consumer is gone must not wait"),
        PushStep::Done => {} // room still exists: the item goes in
        PushStep::Closed(_) => panic!("push with room reports closure only when full"),
    }
    match rb.push_step(2) {
        PushStep::Closed(item) => assert_eq!(item, 2),
        _ => panic!("full and closed must hand the item back"),
    }
}
