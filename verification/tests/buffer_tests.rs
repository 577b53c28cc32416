use voicegate::buffer::UtteranceBuffer;

#[test]
fn append_within_capacity_keeps_everything() {
    let mut b = UtteranceBuffer::new(8);
    b.append(&vec![1, 2, 3]);
    b.append(&vec![4, 5]);
    assert_eq!(b.len(), 5);
    assert_eq!(b.drain_all(), vec![1, 2, 3, 4, 5]);
}

#[test]
fn append_past_capacity_keeps_last_capacity_samples() {
    // Capacity 4, append 4 + 3 samples: exactly the last 4 remain, in order.
    let mut b = UtteranceBuffer::new(4);
    b.append(&vec![1, 2, 3, 4, 5, 6, 7]);
    assert_eq!(b.len(), 4);
    assert_eq!(b.drain_all(), vec![4, 5, 6, 7]);
}

#[test]
fn append_past_capacity_across_calls() {
    let mut b = UtteranceBuffer::new(4);
    b.append(&vec![1, 2, 3]);
    b.append(&vec![4, 5, 6]);
    assert_eq!(b.drain_all(), vec![3, 4, 5, 6]);
}

#[test]
fn drain_on_empty_is_empty_and_idempotent() {
    let mut b = UtteranceBuffer::new(4);
    assert_eq!(b.drain_all(), Vec::<i16>::new());
    assert_eq!(b.drain_all(), Vec::<i16>::new());
    assert_eq!(b.len(), 0);
}

#[test]
fn drain_empties_the_buffer() {
    let mut b = UtteranceBuffer::new(4);
    b.append(&vec![9, 8]);
    assert_eq!(b.drain_all(), vec![9, 8]);
    assert_eq!(b.len(), 0);
    assert_eq!(b.drain_all(), Vec::<i16>::new());
}

#[test]
fn zero_capacity_buffer_stays_empty() {
    let mut b = UtteranceBuffer::new(0);
    b.append(&vec![1, 2, 3]);
    assert_eq!(b.len(), 0);
    assert_eq!(b.drain_all(), Vec::<i16>::new());
}
