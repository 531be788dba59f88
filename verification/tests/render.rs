use ets_log::render_line;
use ets_log::render_record;
use ets_log::Severity;
use ets_log::MSG_CAPACITY;

#[test]
fn hello_world_fits_capacity_16() {
    // capacity 16: message region of 14 bytes, 13-byte message fits
    let line = render_line(b"Hello, world!", 14);
    assert_eq!(line, b"Hello, world!\n\0".to_vec());
    assert_eq!(line.len(), 15);
}

#[test]
fn long_message_truncated_capacity_16() {
    // capacity 16: the message overflows the 14-byte region, which is
    // filled exactly, its last three visible bytes replaced by the marker
    let line = render_line(b"This message is far too long", 14);
    assert_eq!(line, b"This messag...\n\0".to_vec());
    assert_eq!(line.len(), 16);
}

#[test]
fn empty_message() {
    let line = render_line(b"", 14);
    assert_eq!(line, b"\n\0".to_vec());
}

#[test]
fn message_exactly_at_region_boundary() {
    let line = render_line(b"AAAAAAAAAAAAAA", 14);
    assert_eq!(line, b"AAAAAAAAAAAAAA\n\0".to_vec());
}

#[test]
fn message_one_past_region_boundary() {
    let line = render_line(b"AAAAAAAAAAAAAAB", 14);
    assert_eq!(line, b"AAAAAAAAAAA...\n\0".to_vec());
}

#[test]
fn rendering_twice_is_byte_identical() {
    let first = render_line(b"same record, rendered twice", 14);
    let second = render_line(b"same record, rendered twice", 14);
    assert_eq!(first, second);
    let first = render_line(b"short", 64);
    let second = render_line(b"short", 64);
    assert_eq!(first, second);
}

#[test]
fn full_size_region_fits_long_line() {
    let msg: Vec<u8> = vec![0x61u8; MSG_CAPACITY];
    let line = render_line(&msg, MSG_CAPACITY);
    assert_eq!(line.len(), MSG_CAPACITY + 2);
    assert_eq!(&line[..MSG_CAPACITY], &msg[..]);
    assert_eq!(&line[MSG_CAPACITY..], b"\n\0");
}

#[test]
fn full_size_region_truncates_oversized_line() {
    let msg: Vec<u8> = vec![0x62u8; MSG_CAPACITY + 1];
    let line = render_line(&msg, MSG_CAPACITY);
    assert_eq!(line.len(), MSG_CAPACITY + 2);
    assert_eq!(&line[..MSG_CAPACITY - 3], &msg[..MSG_CAPACITY - 3]);
    assert_eq!(&line[MSG_CAPACITY - 3..], b"...\n\0");
}

#[test]
fn record_below_threshold_renders_nothing() {
    assert_eq!(render_record(Severity::Debug, Severity::Info, b"dropped"), None);
    assert_eq!(render_record(Severity::Trace, Severity::Info, b"dropped"), None);
}

#[test]
fn record_at_or_above_threshold_renders_one_line() {
    let expected = render_line(b"kept", MSG_CAPACITY);
    assert_eq!(render_record(Severity::Info, Severity::Info, b"kept"), Some(expected.clone()));
    assert_eq!(render_record(Severity::Error, Severity::Info, b"kept"), Some(expected));
}
