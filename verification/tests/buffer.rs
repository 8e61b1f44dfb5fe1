use ps2_keyboard::buffer::{BufferFull, RingBuffer, MAX_BUFFER_LEN};

#[test]
fn new_buffer_is_empty() {
    let mut buffer = RingBuffer::new();
    assert_eq!(buffer.count(), 0);
    assert_eq!(buffer.head(), 0);
    assert_eq!(buffer.tail(), 0);
    assert!(buffer.is_empty());
    assert!(!buffer.is_full());
    assert_eq!(buffer.pop(), None);
}

#[test]
fn capacity_is_255() {
    assert_eq!(MAX_BUFFER_LEN, 255);
}

#[test]
fn pushes_count_and_pop_in_order() {
    let mut buffer = RingBuffer::new();
    let bytes = [b'h', b'e', b'l', b'l', b'o'];
    for (i, b) in bytes.iter().enumerate() {
        assert_eq!(buffer.push(*b), Ok(()));
        assert_eq!(buffer.count(), i + 1);
    }
    for b in bytes.iter() {
        assert_eq!(buffer.pop(), Some(*b));
    }
    assert_eq!(buffer.pop(), None);
    assert_eq!(buffer.count(), 0);
}

#[test]
fn fill_to_capacity_then_drain() {
    let mut buffer = RingBuffer::new();
    for i in 0..MAX_BUFFER_LEN {
        assert_eq!(buffer.push(i as u8), Ok(()));
    }
    assert_eq!(buffer.count(), MAX_BUFFER_LEN);
    assert!(buffer.is_full());
    for i in 0..MAX_BUFFER_LEN {
        assert_eq!(buffer.pop(), Some(i as u8));
    }
    assert!(buffer.is_empty());
}

#[test]
fn push_on_full_fails_and_changes_nothing() {
    let mut buffer = RingBuffer::new();
    for i in 0..MAX_BUFFER_LEN {
        buffer.push((i % 251) as u8).unwrap();
    }
    let head = buffer.head();
    let tail = buffer.tail();
    assert_eq!(buffer.push(0xEE), Err(BufferFull));
    assert_eq!(buffer.push(0xEF), Err(BufferFull));
    assert_eq!(buffer.count(), MAX_BUFFER_LEN);
    assert_eq!(buffer.head(), head);
    assert_eq!(buffer.tail(), tail);
    for i in 0..MAX_BUFFER_LEN {
        assert_eq!(buffer.pop(), Some((i % 251) as u8));
    }
    assert_eq!(buffer.pop(), None);
}

#[test]
fn pop_on_empty_changes_nothing() {
    let mut buffer = RingBuffer::new();
    buffer.push(1).unwrap();
    buffer.push(2).unwrap();
    assert_eq!(buffer.pop(), Some(1));
    assert_eq!(buffer.pop(), Some(2));
    let head = buffer.head();
    let tail = buffer.tail();
    assert_eq!(buffer.pop(), None);
    assert_eq!(buffer.pop(), None);
    assert_eq!(buffer.count(), 0);
    assert_eq!(buffer.head(), head);
    assert_eq!(buffer.tail(), tail);
    assert_eq!(buffer.push(3), Ok(()));
    assert_eq!(buffer.pop(), Some(3));
}

#[test]
fn push_then_pop_round_trip() {
    for byte in [0u8, 1, b'a', 0x7F, 0x80, 0xFF] {
        let mut buffer = RingBuffer::new();
        assert_eq!(buffer.push(byte), Ok(()));
        assert_eq!(buffer.pop(), Some(byte));
        assert!(buffer.is_empty());
    }
}

#[test]
fn indices_wrap_around() {
    let mut buffer = RingBuffer::new();
    let total = 3 * MAX_BUFFER_LEN + 7;
    for i in 0..total {
        assert_eq!(buffer.push((i % 256) as u8), Ok(()));
        assert_eq!(buffer.count(), 1);
        assert!(buffer.head() < MAX_BUFFER_LEN);
        assert!(buffer.tail() < MAX_BUFFER_LEN);
        assert_eq!(buffer.head(), i % MAX_BUFFER_LEN);
        assert_eq!(buffer.tail(), (i + 1) % MAX_BUFFER_LEN);
        assert_eq!(buffer.pop(), Some((i % 256) as u8));
        assert_eq!(buffer.count(), 0);
        assert_eq!(buffer.head(), buffer.tail());
    }
}

#[test]
fn wraparound_keeps_order_with_backlog() {
    let mut buffer = RingBuffer::new();
    for i in 0..200usize {
        buffer.push(i as u8).unwrap();
    }
    for i in 0..150usize {
        assert_eq!(buffer.pop(), Some(i as u8));
    }
    // 50 queued; 120 more cross the end of the ring
    for i in 200..320usize {
        buffer.push((i % 256) as u8).unwrap();
    }
    assert_eq!(buffer.count(), 170);
    assert_eq!(buffer.head(), 150);
    assert_eq!(buffer.tail(), 320 % MAX_BUFFER_LEN);
    for i in 150..320usize {
        assert_eq!(buffer.pop(), Some((i % 256) as u8));
    }
    assert_eq!(buffer.pop(), None);
    assert_eq!(buffer.head(), buffer.tail());
}

#[test]
fn overflow_drops_newest() {
    let mut buffer = RingBuffer::new();
    let mut accepted = 0usize;
    for i in 0..300usize {
        if buffer.push((i % 256) as u8).is_ok() {
            accepted += 1;
        }
    }
    assert_eq!(accepted, MAX_BUFFER_LEN);
    assert_eq!(buffer.count(), accepted);
    assert_eq!(buffer.pop(), Some(0));
    assert_eq!(buffer.push(0xAB), Ok(()));
    for i in 1..MAX_BUFFER_LEN {
        assert_eq!(buffer.pop(), Some(i as u8));
    }
    assert_eq!(buffer.pop(), Some(0xAB));
    assert_eq!(buffer.pop(), None);
}
