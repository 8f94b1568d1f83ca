//! Tests of the record decoder and the record predicates, on crafted
//! buffers: no kernel involved.
use inotify::record::{decode_record, Event};
use inotify::{Error, IN_CLOSE_WRITE, IN_CREATE, IN_ISDIR, IN_Q_OVERFLOW};

fn header(wd: i32, mask: u32, cookie: u32, len: u32) -> Vec<u8> {
    let mut out = Vec::new();
    out.extend_from_slice(&wd.to_le_bytes());
    out.extend_from_slice(&mask.to_le_bytes());
    out.extend_from_slice(&cookie.to_le_bytes());
    out.extend_from_slice(&len.to_le_bytes());
    out
}

#[test]
fn zero_length_name_ignores_trailing_bytes() {
    let mut buf = header(1, IN_CREATE, 0, 0);
    buf.extend_from_slice(b"garbage that is no name");
    let (ev, used) = decode_record(&buf).unwrap();
    assert_eq!(used, 16);
    assert_eq!(ev.wd, 1);
    assert_eq!(ev.mask, IN_CREATE);
    assert_eq!(ev.name().unwrap(), "");
}

#[test]
fn padded_name_is_trimmed() {
    let mut buf = header(3, IN_CREATE, 0, 12);
    buf.extend_from_slice(b"file.txt\0\0\0\0");
    let (ev, used) = decode_record(&buf).unwrap();
    assert_eq!(used, 28);
    assert_eq!(ev.wd, 3);
    assert_eq!(ev.name().unwrap(), "file.txt");
}

#[test]
fn unpadded_name_is_kept_whole() {
    let mut buf = header(3, IN_CREATE, 0, 8);
    buf.extend_from_slice(b"file.txt");
    let (ev, used) = decode_record(&buf).unwrap();
    assert_eq!(used, 24);
    assert_eq!(ev.name().unwrap(), "file.txt");
}

#[test]
fn header_fields_are_little_endian() {
    let mut buf = header(0x01020304, 0x05060708, 0x090a0b0c, 0);
    buf.push(0xff);
    let (ev, _) = decode_record(&buf).unwrap();
    assert_eq!(ev.wd, 0x01020304);
    assert_eq!(ev.mask, 0x05060708);
    assert_eq!(ev.cookie, 0x090a0b0c);
}

#[test]
fn negative_watch_identifier_survives_decoding() {
    let buf = header(-1, IN_Q_OVERFLOW, 0, 0);
    let (ev, _) = decode_record(&buf).unwrap();
    assert_eq!(ev.wd, -1);
    assert!(ev.queue_overflow());
}

#[test]
fn truncated_buffer_is_a_contract_violation() {
    let buf: Vec<u8> = vec![0u8; 10];
    assert_eq!(
        decode_record(&buf).unwrap_err(),
        Error::InternalInvariantViolation
    );
}

#[test]
fn truncated_name_is_a_contract_violation() {
    let mut buf = header(1, 0, 0, 100);
    buf.extend_from_slice(b"shrt");
    assert_eq!(
        decode_record(&buf).unwrap_err(),
        Error::InternalInvariantViolation
    );
}

#[test]
fn invalid_utf8_name_is_invalid_encoding() {
    let mut buf = header(1, IN_CREATE, 0, 4);
    buf.extend_from_slice(&[0xff, 0xfe, 0xff, 0xff]);
    let (ev, _) = decode_record(&buf).unwrap();
    assert_eq!(ev.name().unwrap_err(), Error::InvalidEncoding);
}

#[test]
fn two_records_packed_in_one_buffer() {
    let mut buf = header(1, IN_CREATE, 0, 4);
    buf.extend_from_slice(b"a\0\0\0");
    buf.extend(header(2, IN_CLOSE_WRITE, 7, 4));
    buf.extend_from_slice(b"bb\0\0");
    let (first, used) = decode_record(&buf).unwrap();
    assert_eq!(first.wd, 1);
    assert_eq!(first.name().unwrap(), "a");
    let rest: Vec<u8> = buf[used..].to_vec();
    let (second, used2) = decode_record(&rest).unwrap();
    assert_eq!(used2, rest.len());
    assert_eq!(second.wd, 2);
    assert_eq!(second.cookie, 7);
    assert_eq!(second.name().unwrap(), "bb");
}

#[test]
fn union_predicates_follow_their_members() {
    let ev = Event::new(0, IN_CLOSE_WRITE | IN_ISDIR, 0, Vec::new());
    assert!(ev.close_write());
    assert!(ev.is_dir());
    assert!(!ev.close_nowrite());
    assert!(ev.close());
    assert!(!ev.moved());
    assert!(!ev.create());
}

#[test]
fn constructor_trims_at_first_nul() {
    let ev = Event::new(5, 0, 9, b"abc\0def".to_vec());
    assert_eq!(ev.wd, 5);
    assert_eq!(ev.cookie, 9);
    assert_eq!(ev.name().unwrap(), "abc");
}
