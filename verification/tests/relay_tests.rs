use udp_relay::relay::{Relay, UserRoute};

fn s(x: &str) -> String {
    x.to_string()
}

#[test]
fn relay_starts_without_tunnel() {
    let relay: Relay<Vec<u8>, u32, u32> = Relay::new();
    assert_eq!(relay.route_user_packet(&s("1.1.1.1:1")), UserRoute::NoTunnel);
    assert!(relay.responder(&s("1.1.1.1:1")).is_none());
}

#[test]
fn relay_user_lifecycle() {
    let mut relay: Relay<Vec<u8>, u32, u32> = Relay::new();
    relay.attach_control(vec![]);
    let user = s("1.1.1.1:1");
    assert_eq!(relay.route_user_packet(&user), UserRoute::Announce);
    relay.control_mut().unwrap().extend_from_slice(b"cmd");
    relay.admit_user(user.clone(), 7, 70);
    assert_eq!(relay.route_user_packet(&user), UserRoute::Pending);
    assert_eq!(relay.responder(&user), Some(&7));
    assert_eq!(relay.pending_timer(&user), Some(&70));
    relay.on_peer_connected(user.clone(), vec![1]);
    assert_eq!(relay.route_user_packet(&user), UserRoute::Forward);
    relay.peer_mut(&user).unwrap().push(2);
    assert_eq!(relay.peer_mut(&user).map(|w| w.clone()), Some(vec![1, 2]));
    let other = s("2.2.2.2:2");
    assert_eq!(relay.route_user_packet(&other), UserRoute::Announce);
    relay.remove_user(&user);
    assert_eq!(relay.route_user_packet(&user), UserRoute::Announce);
    assert!(relay.peer_mut(&user).is_none());
    assert_eq!(relay.pending_timer(&user), Some(&70));
}

#[test]
fn relay_forward_failure_drops_user() {
    let mut relay: Relay<Vec<u8>, u32, u32> = Relay::new();
    relay.attach_control(vec![]);
    let user = s("u:1");
    relay.admit_user(user.clone(), 1, 10);
    relay.on_peer_connected(user.clone(), vec![9]);
    assert_eq!(relay.on_forward_failed(&user), Some(vec![9]));
    assert_eq!(relay.route_user_packet(&user), UserRoute::Announce);
    assert_eq!(relay.on_forward_failed(&user), None);
}

#[test]
fn relay_announce_failure_keeps_timers() {
    let mut relay: Relay<Vec<u8>, u32, u32> = Relay::new();
    relay.attach_control(vec![5]);
    relay.admit_user(s("a:1"), 1, 11);
    relay.on_peer_connected(s("a:1"), vec![]);
    assert_eq!(relay.on_announce_failed(), Some(vec![5]));
    assert_eq!(relay.route_user_packet(&s("a:1")), UserRoute::NoTunnel);
    assert!(relay.responder(&s("a:1")).is_none());
    assert_eq!(relay.pending_timer(&s("a:1")), Some(&11));
    assert!(relay.control_mut().is_none());
}

#[test]
fn relay_control_lost_releases_everything() {
    let mut relay: Relay<Vec<u8>, u32, u32> = Relay::new();
    relay.attach_control(vec![3]);
    relay.admit_user(s("a:1"), 1, 11);
    relay.admit_user(s("b:2"), 2, 22);
    relay.admit_user(s("a:1"), 1, 12);
    let (writer, mut timers) = relay.on_control_lost();
    assert_eq!(writer, Some(vec![3]));
    timers.sort();
    assert_eq!(timers, vec![12, 22]);
    assert_eq!(relay.route_user_packet(&s("a:1")), UserRoute::NoTunnel);
    assert!(relay.pending_timer(&s("b:2")).is_none());
}

#[test]
fn relay_new_control_replaces_old() {
    let mut relay: Relay<Vec<u8>, u32, u32> = Relay::new();
    relay.attach_control(vec![1]);
    relay.attach_control(vec![2]);
    assert_eq!(relay.control_mut().map(|w| w.clone()), Some(vec![2]));
}

#[test]
fn relay_response_needs_known_user() {
    let mut relay: Relay<Vec<u8>, u32, u32> = Relay::new();
    relay.attach_control(vec![]);
    relay.admit_user(s("a:1"), 4, 0);
    assert_eq!(relay.responder(&s("a:1")), Some(&4));
    assert!(relay.responder(&s("a:2")).is_none());
}
