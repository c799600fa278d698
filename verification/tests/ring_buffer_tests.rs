use floodnet::ring_buffer::RingBuffer;

#[test]
fn test1() {
    let mut rb: RingBuffer<(u64, u64)> = RingBuffer::with_capacity(64);
    rb.insert((0, 0));
    rb.insert((1, 0));
    rb.insert((2, 0));
    rb.insert((3, 0));
    rb.insert((4, 0));
    rb.insert((5, 0));
    rb.insert((6, 0));

    assert!(rb.contains(&(0, 0)));
    assert!(rb.contains(&(6, 0)));
    assert!(rb.contains(&(4, 0)));
    assert!(!rb.contains(&(0, 1)));
    assert!(!rb.contains(&(0, 2)));
    assert!(!rb.contains(&(0, 3)));
}

#[test]
fn test2() {
    let mut rb: RingBuffer<(u64, u64)> = RingBuffer::with_capacity(64);
    rb.insert((0, 0));
    rb.insert((1, 0));
    rb.insert((2, 0));
    rb.insert((3, 0));
    rb.insert((4, 0));
    rb.insert((5, 0));
    rb.insert((6, 0));

    assert_eq!(rb.pop(), Some((0, 0)));
    assert_eq!(rb.pop(), Some((1, 0)));
    assert_eq!(rb.pop(), Some((2, 0)));
    assert_eq!(rb.pop(), Some((3, 0)));
    assert_eq!(rb.pop(), Some((4, 0)));
    assert_eq!(rb.pop(), Some((5, 0)));
    assert_eq!(rb.pop(), Some((6, 0)));
    assert!(rb.pop().is_none());
}

#[test]
fn test3() {
    let mut rb: RingBuffer<(u64, u64)> = RingBuffer::with_capacity(64);
    for i in 0..101 {
        rb.insert((i, 0));
    }

    for i in 0..64 {
        assert_eq!(rb.pop(), Some((i + 37, 0)));
    }

    assert!(rb.pop().is_none())
}

// Capacity 3, four distinct ids: only the three most recent stay, the
// oldest is evicted first.
#[test]
fn capacity_evicts_oldest_first() {
    let mut rb: RingBuffer<(u64, u64)> = RingBuffer::with_capacity(3);
    assert_eq!(rb.insert((1, 0)), None);
    assert_eq!(rb.insert((2, 0)), None);
    assert_eq!(rb.insert((3, 0)), None);
    assert!(rb.is_full());
    assert_eq!(rb.insert((4, 0)), Some((1, 0)));

    assert!(!rb.contains(&(1, 0)));
    assert!(rb.contains(&(2, 0)));
    assert!(rb.contains(&(3, 0)));
    assert!(rb.contains(&(4, 0)));
    assert!(rb.is_full());
}

// An inserted id answers `contains` until enough later insertions push it
// out.
#[test]
fn round_trip_until_evicted() {
    let mut rb: RingBuffer<(u64, u64)> = RingBuffer::with_capacity(2);
    rb.insert((7, 7));
    assert!(rb.contains(&(7, 7)));
    rb.insert((8, 8));
    assert!(rb.contains(&(7, 7)));
    rb.insert((9, 9));
    assert!(!rb.contains(&(7, 7)));
}

#[test]
fn empty_and_full_track_the_size() {
    let mut rb: RingBuffer<(u64, u64)> = RingBuffer::with_capacity(1);
    assert!(rb.is_empty());
    assert!(!rb.is_full());
    rb.insert((5, 5));
    assert!(!rb.is_empty());
    assert!(rb.is_full());
    assert_eq!(rb.pop(), Some((5, 5)));
    assert!(rb.is_empty());
}

// A capacity-0 buffer stores nothing: every insert hands the element
// straight back and the buffer stays empty.
#[test]
fn capacity_zero_stores_nothing() {
    let mut rb: RingBuffer<(u64, u64)> = RingBuffer::with_capacity(0);
    assert!(rb.is_empty());
    assert!(rb.is_full());
    assert_eq!(rb.insert((1, 1)), Some((1, 1)));
    assert!(rb.is_empty());
    assert!(!rb.contains(&(1, 1)));
    assert_eq!(rb.insert((2, 2)), Some((2, 2)));
    assert!(rb.is_empty());
    assert!(rb.pop().is_none());
}
