use voice_call_core::ring::SampleBuffer;

#[test]
fn starts_empty() {
    let mut b = SampleBuffer::new(8);
    assert!(b.is_empty());
    assert_eq!(b.len(), 0);
    assert_eq!(b.pop(), None);
}

#[test]
fn fifo_order_preserved() {
    let mut b = SampleBuffer::new(8);
    let s1 = 0.25f32.to_bits();
    let s2 = (-0.5f32).to_bits();
    let s3 = 1.0f32.to_bits();
    assert!(b.push(s1));
    assert!(b.push(s2));
    assert!(b.push(s3));
    assert_eq!(b.pop(), Some(s1));
    assert_eq!(b.pop(), Some(s2));
    assert_eq!(b.pop(), Some(s3));
    assert_eq!(b.pop(), None);
}

#[test]
fn overflow_drops_only_the_newest() {
    let mut b = SampleBuffer::new(4);
    assert!(b.push(1));
    assert!(b.push(2));
    assert!(b.push(3));
    assert!(b.push(4));
    // full: the incoming (newest) sample is discarded, the old ones kept
    assert!(!b.push(5));
    assert_eq!(b.len(), 4);
    assert_eq!(b.pop(), Some(1));
    assert_eq!(b.pop(), Some(2));
    assert_eq!(b.pop(), Some(3));
    assert_eq!(b.pop(), Some(4));
    assert_eq!(b.pop(), None);
}

#[test]
fn underflow_yields_silence() {
    let mut b = SampleBuffer::new(4);
    assert_eq!(b.pop_or_silence(), 0);
    assert_eq!(f32::from_bits(b.pop_or_silence()), 0.0);
    b.push(7);
    assert_eq!(b.pop_or_silence(), 7);
    assert_eq!(b.pop_or_silence(), 0);
}

#[test]
fn interleaved_pushes_and_pops_keep_order() {
    let mut b = SampleBuffer::new(2);
    assert!(b.push(10));
    assert!(b.push(11));
    assert!(!b.push(12)); // overflow: 12 dropped
    assert_eq!(b.pop(), Some(10));
    assert!(b.push(13));
    assert_eq!(b.pop(), Some(11));
    assert_eq!(b.pop(), Some(13));
    assert_eq!(b.pop_or_silence(), 0);
    assert!(b.push(14));
    assert_eq!(b.pop(), Some(14));
}

#[test]
fn wraps_around_capacity_many_times() {
    let mut b = SampleBuffer::new(3);
    for round in 0u32..10 {
        assert!(b.push(round * 2));
        assert!(b.push(round * 2 + 1));
        assert_eq!(b.pop(), Some(round * 2));
        assert_eq!(b.pop(), Some(round * 2 + 1));
    }
    assert!(b.is_empty());
}

#[test]
fn capacity_one_buffer() {
    let mut b = SampleBuffer::new(1);
    assert!(b.push(5));
    assert!(!b.push(6));
    assert_eq!(b.pop(), Some(5));
    assert_eq!(b.pop(), None);
}
