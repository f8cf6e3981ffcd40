use udp_relay::frame::{build_package, decode_size, encode_size, keepalive_frame};
use udp_relay::reader::{
    after_command_body, after_command_header, after_package_body, after_package_header, Command,
    FrameStep, ReadError, ReadEvent,
};

#[test]
fn size_header_is_big_endian() {
    assert_eq!(encode_size(0), [0, 0, 0, 0]);
    assert_eq!(encode_size(5), [0, 0, 0, 5]);
    assert_eq!(encode_size(0x0102_0304), [1, 2, 3, 4]);
    assert_eq!(encode_size(65535), [0, 0, 0xff, 0xff]);
}

#[test]
fn size_header_matches_i32_big_endian() {
    for len in [0usize, 1, 17, 300, 70_000, 0x7fff_ffff, 0x8000_0000, 0xffff_ffff] {
        assert_eq!(encode_size(len), (len as i32).to_be_bytes());
    }
}

#[test]
fn size_header_keeps_low_32_bits() {
    if usize::BITS == 64 {
        let len = (1usize << 32) + 5;
        assert_eq!(encode_size(len), [0, 0, 0, 5]);
    }
}

#[test]
fn decode_size_is_signed_big_endian() {
    assert_eq!(decode_size([0, 0, 1, 0]), 256);
    assert_eq!(decode_size([0x7f, 0xff, 0xff, 0xff]), i32::MAX);
    assert_eq!(decode_size([0xff, 0xff, 0xff, 0xff]), -1);
    assert_eq!(decode_size([0x80, 0, 0, 0]), i32::MIN);
    assert_eq!(decode_size(encode_size(12345)), 12345);
}

#[test]
fn keepalive_is_zero_header() {
    assert_eq!(keepalive_frame(), [0, 0, 0, 0]);
    assert_eq!(keepalive_frame(), 0i32.to_be_bytes());
}

#[test]
fn package_layout() {
    let wire = build_package(b"hi".to_vec(), "1.2.3.4:5");
    let mut expected = vec![0, 0, 0, 9];
    expected.extend_from_slice(b"1.2.3.4:5");
    expected.extend_from_slice(&[0, 0, 0, 2]);
    expected.extend_from_slice(b"hi");
    assert_eq!(wire, expected);
}

#[test]
fn identity_package_has_empty_payload() {
    let wire = build_package(Vec::new(), "[::1]:80");
    assert_eq!(wire.len(), 4 + 8 + 4);
    assert_eq!(&wire[12..], &[0, 0, 0, 0]);
}

#[test]
fn package_header_steps() {
    assert_eq!(after_package_header(ReadEvent::Read(4), [0, 0, 0, 3]), FrameStep::ReadBody(3));
    assert_eq!(after_package_header(ReadEvent::Read(4), [0, 0, 0, 0]), FrameStep::ReadBody(0));
    assert_eq!(
        after_package_header(ReadEvent::Read(0), [0, 0, 0, 3]),
        FrameStep::Fail(ReadError::NotConnected)
    );
    assert_eq!(after_package_header(ReadEvent::Failed, [0, 0, 0, 3]), FrameStep::Fail(ReadError::Header));
}

#[test]
fn command_header_steps() {
    assert_eq!(after_command_header(ReadEvent::Read(4), [0, 0, 0, 0]), FrameStep::KeepAlive);
    assert_eq!(after_command_header(ReadEvent::Read(4), [0, 0, 0, 14]), FrameStep::ReadBody(14));
    assert_eq!(
        after_command_header(ReadEvent::Read(0), [0, 0, 0, 0]),
        FrameStep::Fail(ReadError::NotConnected)
    );
    assert_eq!(after_command_header(ReadEvent::Elapsed, [0, 0, 0, 1]), FrameStep::Fail(ReadError::Header));
    assert_eq!(after_command_header(ReadEvent::Failed, [0, 0, 0, 1]), FrameStep::Fail(ReadError::Header));
}

#[test]
fn body_steps() {
    assert_eq!(after_package_body(ReadEvent::Read(2), 2, vec![7, 8]), Ok(vec![7, 8]));
    assert_eq!(after_package_body(ReadEvent::Failed, 2, vec![0, 0]), Err(ReadError::Body { size: 2 }));
    match after_command_body(ReadEvent::Read(3), 3, b"a:1".to_vec()) {
        Ok(Command::Ctrl(b)) => assert_eq!(b, b"a:1".to_vec()),
        other => panic!("unexpected {:?}", other),
    }
    match after_command_body(ReadEvent::Elapsed, 3, vec![0, 0, 0]) {
        Err(e) => assert_eq!(e, ReadError::Body { size: 3 }),
        other => panic!("unexpected {:?}", other),
    }
}

fn header_of(bytes: &[u8]) -> [u8; 4] {
    [bytes[0], bytes[1], bytes[2], bytes[3]]
}

#[test]
fn announce_read_back_by_client() {
    let wire = build_package(b"payload!".to_vec(), "203.0.113.7:4000");
    let first = after_command_header(ReadEvent::Read(4), header_of(&wire[0..4]));
    let n = match first {
        FrameStep::ReadBody(n) => n,
        other => panic!("unexpected {:?}", other),
    };
    assert_eq!(&wire[4..4 + n], b"203.0.113.7:4000");
    let second = after_package_header(ReadEvent::Read(4), header_of(&wire[4 + n..8 + n]));
    let m = match second {
        FrameStep::ReadBody(m) => m,
        other => panic!("unexpected {:?}", other),
    };
    assert_eq!(&wire[8 + n..8 + n + m], b"payload!");
    assert_eq!(wire.len(), 8 + n + m);
}

#[test]
fn keepalive_read_back_by_client() {
    assert_eq!(after_command_header(ReadEvent::Read(4), keepalive_frame()), FrameStep::KeepAlive);
}

#[test]
fn empty_address_reads_as_keepalive() {
    let wire = build_package(b"x".to_vec(), "");
    assert_eq!(after_command_header(ReadEvent::Read(4), header_of(&wire[0..4])), FrameStep::KeepAlive);
}

#[test]
fn package_framing_is_unambiguous() {
    let a = build_package(b"xy".to_vec(), "1.1.1.1:1");
    let b = build_package(b"y".to_vec(), "1.1.1.1:1x");
    assert_ne!(a, b);
    assert_eq!(a, build_package(b"xy".to_vec(), "1.1.1.1:1"));
}

#[test]
fn package_read_leaves_rest() {
    let mut wire = build_package(b"pay".to_vec(), "a:1");
    wire.extend_from_slice(&[9, 9]);
    let n = match after_package_header(ReadEvent::Read(4), header_of(&wire[0..4])) {
        FrameStep::ReadBody(n) => n,
        other => panic!("unexpected {:?}", other),
    };
    let m = match after_package_header(ReadEvent::Read(4), header_of(&wire[4 + n..8 + n])) {
        FrameStep::ReadBody(m) => m,
        other => panic!("unexpected {:?}", other),
    };
    assert_eq!(&wire[4..4 + n], b"a:1");
    assert_eq!(&wire[8 + n..8 + n + m], b"pay");
    assert_eq!(&wire[8 + n + m..], &[9, 9]);
}
