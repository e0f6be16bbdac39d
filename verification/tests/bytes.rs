//! The byte-stream shim over the bulk paths.

use ringbuf::traits::{RingBufferBase, RingBufferRead, RingBufferWrite};
use ringbuf::{LocalConsumer, LocalProducer, LocalRb};

#[test]
fn write_accepts_what_fits() {
    let mut prod = LocalProducer::new(LocalRb::new(3));
    assert_eq!(prod.write(&b"hi".to_vec()), Ok(2));
    assert_eq!(prod.write(&b"world".to_vec()), Ok(1));
    assert_eq!(prod.len(), 3);
}

#[test]
fn write_reports_would_block_only_when_full_and_asked() {
    let mut prod = LocalProducer::new(LocalRb::new(1));
    assert_eq!(prod.write(&Vec::new()), Ok(0)); // zero bytes: no error
    assert_eq!(prod.write(&b"a".to_vec()), Ok(1));
    assert_eq!(prod.write(&b"b".to_vec()), Err(())); // full and asked
    assert_eq!(prod.write(&Vec::new()), Ok(0)); // full but asked for nothing
}

#[test]
fn read_pops_what_is_available() {
    let mut rb: LocalRb<u8> = LocalRb::new(4);
    let _ = rb.push_slice(&b"abc".to_vec());
    let mut cons = LocalConsumer::new(rb);
    let mut buf = vec![0u8; 2];
    assert_eq!(cons.read(&mut buf), Ok(2));
    assert_eq!(buf, b"ab".to_vec());
    let mut rest = vec![0u8; 4];
    assert_eq!(cons.read(&mut rest), Ok(1));
    assert_eq!(rest, vec![b'c', 0, 0, 0]);
}

#[test]
fn read_reports_would_block_only_when_empty_and_asked() {
    let mut cons: LocalConsumer<u8> = LocalConsumer::new(LocalRb::new(2));
    let mut empty: Vec<u8> = Vec::new();
    assert_eq!(cons.read(&mut empty), Ok(0)); // asked for nothing
    let mut buf = vec![0u8; 1];
    assert_eq!(cons.read(&mut buf), Err(())); // empty and asked
}

#[test]
fn pop_into_fills_a_window() {
    let mut rb: LocalRb<u8> = LocalRb::new(4);
    let _ = rb.push_slice(&vec![1, 2, 3]);
    let mut out = vec![9, 9, 9, 9, 9];
    let n = rb.pop_into(&mut out, 1);
    assert_eq!(n, 3);
    assert_eq!(out, vec![9, 1, 2, 3, 9]);
    assert!(rb.is_empty());
}

#[test]
fn pop_slice_keeps_the_tail_of_the_output() {
    let mut rb: LocalRb<u8> = LocalRb::new(4);
    let _ = rb.push_slice(&vec![5, 6]);
    let mut out = vec![0, 0, 0, 0];
    assert_eq!(rb.pop_slice(&mut out), 2);
    assert_eq!(out, vec![5, 6, 0, 0]);
}
