use fthis::buffer::{command_buffer, Buffer, BufferError, CONDUIT_CAPACITY};

#[test]
fn new_buffer_is_empty() {
    let b = Buffer::<16>::new();
    assert_eq!(b.len(), 0);
    assert_eq!(b.capacity(), 16);
    assert_eq!(b.remaining(), 16);
    assert!(b.peek().is_empty());
}

#[test]
fn write_str_appends_at_cursor() {
    let mut b = Buffer::<16>::new();
    assert_eq!(b.write_str("echo "), Ok(()));
    assert_eq!(b.write_str("hi"), Ok(()));
    assert_eq!(b.peek(), b"echo hi");
    assert_eq!(b.len(), 7);
    assert_eq!(b.remaining(), 9);
}

#[test]
fn write_str_overflow_leaves_cursor_at_zero() {
    let mut b = Buffer::<8>::new();
    assert_eq!(b.write_str("echo asdf\n"), Err(BufferError::CapacityExceeded));
    assert_eq!(b.len(), 0);
    assert!(b.peek().is_empty());
}

#[test]
fn write_str_overflow_keeps_earlier_content() {
    let mut b = Buffer::<8>::new();
    assert_eq!(b.write_str("abcde"), Ok(()));
    assert_eq!(b.write_str("fghi"), Err(BufferError::CapacityExceeded));
    assert_eq!(b.peek(), b"abcde");
    assert_eq!(b.len(), 5);
}

#[test]
fn write_str_exact_fit() {
    let mut b = Buffer::<4>::new();
    assert_eq!(b.write_str("abcd"), Ok(()));
    assert_eq!(b.remaining(), 0);
    assert_eq!(b.write_str(""), Ok(()));
    assert_eq!(b.write_str("e"), Err(BufferError::CapacityExceeded));
    assert_eq!(b.peek(), b"abcd");
}

#[test]
fn write_str_counts_utf8_bytes() {
    let mut b = Buffer::<3>::new();
    assert_eq!(b.write_str("\u{e9}"), Ok(()));
    assert_eq!(b.peek(), &[0xc3u8, 0xa9][..]);
    assert_eq!(b.write_str("\u{e9}"), Err(BufferError::CapacityExceeded));
    assert_eq!(b.len(), 2);
}

#[test]
fn read_from_takes_in_one_read() {
    let mut b = Buffer::<8>::new();
    assert_eq!(b.read_from(b"asdf\n"), Ok(()));
    assert_eq!(b.read_from(b""), Ok(()));
    assert_eq!(b.peek(), b"asdf\n");
    assert_eq!(b.read_from(b"1234"), Err(BufferError::CapacityExceeded));
    assert_eq!(b.peek(), b"asdf\n");
}

#[test]
fn pull_then_peek_is_empty() {
    let mut b = Buffer::<16>::new();
    assert_eq!(b.write_str("echo asdf\n"), Ok(()));
    assert_eq!(b.pull(), b"echo asdf\n");
    assert!(b.peek().is_empty());
    assert!(b.pull().is_empty());
    assert_eq!(b.len(), 0);
}

#[test]
fn buffer_is_reused_after_pull() {
    let mut b = Buffer::<10>::new();
    assert_eq!(b.write_str("echo asdf\n"), Ok(()));
    assert_eq!(b.pull().len(), 10);
    assert_eq!(b.read_from(b"asdf\n"), Ok(()));
    assert_eq!(b.pull(), b"asdf\n");
}

#[test]
fn command_buffer_holds_the_command() {
    let mut b = command_buffer();
    assert_eq!(b.capacity(), CONDUIT_CAPACITY);
    assert_eq!(b.pull(), b"echo asdf\n");
}
