use rustyline_async::{SharedWriter, WriteError};

fn channel(capacity: usize) -> (SharedWriter, thingbuf::mpsc::Receiver<Vec<u8>>) {
    let (tx, rx) = thingbuf::mpsc::channel::<Vec<u8>>(capacity);
    (SharedWriter::new(tx), rx)
}

fn recv(rx: &thingbuf::mpsc::Receiver<Vec<u8>>) -> Option<Vec<u8>> {
    rx.try_recv_ref().ok().map(|r| r.clone())
}

#[test]
fn chunks_are_buffered_until_a_line_is_complete() {
    let (mut writer, rx) = channel(8);

    assert_eq!(writer.write(b"abc"), Ok(3));
    assert!(recv(&rx).is_none());

    assert_eq!(writer.write(b"def\n"), Ok(4));
    assert_eq!(recv(&rx), Some(b"abcdef\n".to_vec()));
    assert!(recv(&rx).is_none());
}

#[test]
fn complete_lines_arrive_as_separate_chunks_in_order() {
    let (mut writer, rx) = channel(8);

    assert_eq!(writer.write(b"x\n"), Ok(2));
    assert_eq!(writer.write(b"y\n"), Ok(2));

    assert_eq!(recv(&rx), Some(b"x\n".to_vec()));
    assert_eq!(recv(&rx), Some(b"y\n".to_vec()));
    assert!(recv(&rx).is_none());
}

#[test]
fn full_channel_would_block_and_a_retry_preserves_byte_order() {
    let (mut writer, rx) = channel(1);

    assert_eq!(writer.write(b"x\n"), Ok(2));
    // The channel is at capacity: the next complete line is refused without
    // losing or corrupting anything.
    assert_eq!(writer.write(b"y\n"), Err(WriteError::WouldBlock));

    // Draining one slot makes the verbatim retry succeed, in order.
    assert_eq!(recv(&rx), Some(b"x\n".to_vec()));
    assert_eq!(writer.write(b"y\n"), Ok(2));
    assert_eq!(recv(&rx), Some(b"y\n".to_vec()));
}

#[test]
fn writing_after_the_consumer_is_gone_reports_closed() {
    let (mut writer, rx) = channel(4);
    drop(rx);
    assert_eq!(writer.write(b"x\n"), Err(WriteError::Closed));
}

#[test]
fn clones_share_the_channel_but_not_the_buffer() {
    let (mut writer, rx) = channel(8);
    let mut clone = writer.clone();

    // Each handle buffers its own partial line.
    assert_eq!(writer.write(b"from-a "), Ok(7));
    assert_eq!(clone.write(b"from-b\n"), Ok(7));

    assert_eq!(recv(&rx), Some(b"from-b\n".to_vec()));
    assert!(recv(&rx).is_none());

    assert_eq!(writer.write(b"done\n"), Ok(5));
    assert_eq!(recv(&rx), Some(b"from-a done\n".to_vec()));
}

#[test]
fn take_buffer_hands_over_an_incomplete_line() {
    let (mut writer, _rx) = channel(8);
    assert_eq!(writer.write(b"partial"), Ok(7));
    assert_eq!(writer.take_buffer(), b"partial".to_vec());
    assert_eq!(writer.take_buffer(), Vec::<u8>::new());
}

#[test]
fn buffer_append_reports_when_a_flush_is_due() {
    let (mut writer, _rx) = channel(8);
    assert!(!writer.buffer_append(b"abc"));
    assert!(writer.buffer_append(b"def\n"));
    assert_eq!(writer.take_buffer(), b"abcdef\n".to_vec());
}
