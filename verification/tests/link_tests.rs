use udp_relay::channel::{LinkAction, LinkPhase, PeerLink, TunnelAction, TunnelLink, TunnelPhase};
use udp_relay::client::{after_first_payload, command_target, FirstPayload, FirstRead, Reconnect};
use udp_relay::control::{heartbeat_alive, key_accepted};
use udp_relay::echo::{echo_reply, reply_text};
use udp_relay::reader::{ReadError, ReadEvent};

#[test]
fn peer_link_full_sequence() {
    let mut link = PeerLink::new();
    assert!(matches!(link.on_frame(Some(b"9.9.9.9:9".to_vec())), LinkAction::Continue));
    match link.on_frame(Some(Vec::new())) {
        LinkAction::Connected(d) => assert_eq!(d, "9.9.9.9:9"),
        other => panic!("unexpected {:?}", other),
    }
    assert!(matches!(link.on_frame(Some(b"9.9.9.9:9".to_vec())), LinkAction::Continue));
    match link.on_frame(Some(b"data".to_vec())) {
        LinkAction::Deliver { dest, payload } => {
            assert_eq!(dest, "9.9.9.9:9");
            assert_eq!(payload, b"data".to_vec());
        }
        other => panic!("unexpected {:?}", other),
    }
    assert_eq!(link.phase(), LinkPhase::Identity);
    match link.on_frame(None) {
        LinkAction::Close(d) => assert_eq!(d, "9.9.9.9:9"),
        other => panic!("unexpected {:?}", other),
    }
    assert_eq!(link.phase(), LinkPhase::Closed);
}

#[test]
fn peer_link_greeting_failure_gives_up() {
    let mut link = PeerLink::new();
    assert!(matches!(link.on_frame(None), LinkAction::GiveUp));
    let mut link = PeerLink::new();
    link.on_frame(Some(b"a".to_vec()));
    assert!(matches!(link.on_frame(None), LinkAction::GiveUp));
}

#[test]
fn peer_link_payload_failure_closes_record() {
    let mut link = PeerLink::new();
    link.on_frame(Some(b"rec:1".to_vec()));
    link.on_frame(Some(Vec::new()));
    link.on_frame(Some(b"other:2".to_vec()));
    match link.on_frame(None) {
        LinkAction::Close(d) => assert_eq!(d, "rec:1"),
        other => panic!("unexpected {:?}", other),
    }
}

#[test]
fn peer_link_reads_invalid_utf8_lossily() {
    let mut link = PeerLink::new();
    link.on_frame(Some(vec![b'a', 0xff]));
    match link.on_frame(Some(Vec::new())) {
        LinkAction::Connected(d) => assert_eq!(d, "a\u{FFFD}"),
        other => panic!("unexpected {:?}", other),
    }
}

#[test]
fn tunnel_link_sequence() {
    let mut link = TunnelLink::new();
    assert!(matches!(link.on_frame(Some(b"id".to_vec())), TunnelAction::Continue));
    assert_eq!(link.phase(), TunnelPhase::Payload);
    match link.on_frame(Some(b"xyz".to_vec())) {
        TunnelAction::Deliver(p) => assert_eq!(p, b"xyz".to_vec()),
        other => panic!("unexpected {:?}", other),
    }
    assert_eq!(link.phase(), TunnelPhase::Identity);
    assert!(matches!(link.on_frame(None), TunnelAction::Stop));
    assert_eq!(link.phase(), TunnelPhase::Closed);
}

#[test]
fn reconnect_gives_up_after_retries() {
    let mut r = Reconnect::new(2);
    assert!(!r.exhausted());
    assert!(r.on_connect_failed());
    assert!(r.on_connect_failed());
    assert!(!r.exhausted());
    assert!(!r.on_connect_failed());
    assert!(r.exhausted());
    assert_eq!(r.failures(), 3);
    r.on_connected();
    assert!(!r.exhausted());
    assert_eq!(r.failures(), 0);
}

#[test]
fn reconnect_zero_retries() {
    let mut r = Reconnect::new(0);
    assert!(!r.exhausted());
    assert!(!r.on_connect_failed());
    assert!(r.exhausted());
}

#[test]
fn first_payload_decisions() {
    assert_eq!(after_first_payload(FirstRead::Got), FirstPayload::Deliver);
    assert_eq!(after_first_payload(FirstRead::Failed(ReadError::NotConnected)), FirstPayload::Reconnect);
    assert_eq!(after_first_payload(FirstRead::Failed(ReadError::Header)), FirstPayload::Proceed);
    assert_eq!(after_first_payload(FirstRead::Failed(ReadError::Body { size: 4 })), FirstPayload::Proceed);
    assert_eq!(after_first_payload(FirstRead::Elapsed), FirstPayload::Proceed);
}

#[test]
fn command_target_decodes_text() {
    assert_eq!(command_target(b"10.0.0.1:53"), "10.0.0.1:53");
    assert_eq!(command_target(&[0xc3, 0xa9]), "\u{e9}");
    assert_eq!(command_target(&[0xff]), "\u{FFFD}");
}

#[test]
fn key_check() {
    let key = String::from("88888888");
    assert!(key_accepted(b"88888888", &key));
    assert!(!key_accepted(b"88888889", &key));
    assert!(!key_accepted(b"8888888", &key));
    let odd = String::from("\u{FFFD}");
    assert!(key_accepted(&[0xff], &odd));
}

#[test]
fn heartbeat_decisions() {
    assert!(heartbeat_alive(ReadEvent::Read(4)));
    assert!(!heartbeat_alive(ReadEvent::Read(0)));
    assert!(!heartbeat_alive(ReadEvent::Failed));
    assert!(!heartbeat_alive(ReadEvent::Elapsed));
}

#[test]
fn echo_reply_joins_with_space() {
    assert_eq!(echo_reply("hello", b"me"), "hello me");
    assert_eq!(echo_reply("", b""), " ");
    assert_eq!(echo_reply("r", &[0xff, b'x']), "r \u{FFFD}x");
}

#[test]
fn reply_text_decodes_lossily() {
    assert_eq!(reply_text(b"hello me"), "hello me");
    assert_eq!(reply_text(&[b'o', b'k', 0xfe]), "ok\u{FFFD}");
}
