use libfabric_rs::buffer::resize;
use libfabric_rs::{LoanedBuffer, RecvBuffer, SendBuffer};

#[test]
fn send_buffer_keeps_its_bytes() {
    let buffer = SendBuffer::new(vec![1, 2, 3]);
    assert_eq!(buffer.len(), 3);
    assert_eq!(buffer.as_ptr(), &[1, 2, 3]);
}

#[test]
fn send_buffer_may_be_empty() {
    let buffer = SendBuffer::new(Vec::new());
    assert_eq!(buffer.len(), 0);
    assert!(buffer.as_ptr().is_empty());
}

#[test]
fn send_buffer_does_not_move_its_bytes() {
    let data = vec![7u8; 32];
    let place = data.as_ptr();
    let buffer = SendBuffer::new(data);
    assert_eq!(buffer.as_ptr().as_ptr(), place);
}

#[test]
fn recv_buffer_starts_zeroed() {
    let buffer = RecvBuffer::new(5);
    assert_eq!(buffer.len(), 5);
    assert_eq!(buffer.as_slice(5), &[0, 0, 0, 0, 0]);
}

#[test]
fn recv_buffer_shows_a_prefix_of_what_was_written() {
    let mut buffer = RecvBuffer::new(4);
    buffer.as_mut_ptr().copy_from_slice(&[9, 8, 7, 6]);
    assert_eq!(buffer.as_slice(0), &[] as &[u8]);
    assert_eq!(buffer.as_slice(3), &[9, 8, 7]);
    assert_eq!(buffer.as_slice(4), &[9, 8, 7, 6]);
    assert_eq!(buffer.len(), 4);
}

#[test]
fn loan_gives_the_buffer_back() {
    let data = vec![3u8, 1, 4, 1, 5];
    let place = data.as_ptr();
    let loan = LoanedBuffer::new(data);
    assert_eq!(loan.len(), 5);
    let back = loan.into_vec();
    assert_eq!(back, vec![3, 1, 4, 1, 5]);
    assert_eq!(back.as_ptr(), place);
}

#[test]
fn memory_is_cut_filled_up_or_left_alone() {
    assert_eq!(resize(vec![1, 2, 3], 2), vec![1, 2]);
    assert_eq!(resize(vec![1, 2, 3], 5), vec![1, 2, 3, 0, 0]);
    let memory = vec![1u8, 2, 3];
    let place = memory.as_ptr();
    let same = resize(memory, 3);
    assert_eq!(same, vec![1, 2, 3]);
    assert_eq!(same.as_ptr(), place);
}
