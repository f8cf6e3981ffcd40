use vstd::prelude::*;
use crate::table::{value_count, Table};

verus! {

/// The relay's bookkeeping as a mathematical value: the control connection
/// to the tunnel client, the users seen on the public UDP socket (each with the
/// socket that answers it), the data channels the tunnel client opened per
/// user, and the timers that drop a user whose data channel never came.
pub struct RelayView<S, R, H> {
    pub control: Option<S>,
    pub users: Map<Seq<char>, R>,
    pub peers: Map<Seq<char>, S>,
    pub timers: Map<Seq<char>, H>,
}

/// What becomes of a datagram from a user on the public UDP socket.
#[derive(PartialEq, Eq, Structural, Debug)]
pub enum UserRoute {
    /// A user not seen before, and a tunnel client is attached: send it the
    /// command to open a data channel for this user.
    Announce,
    /// A known user whose data channel is open: send the datagram through it.
    Forward,
    /// A user not seen before, but no tunnel client is attached: drop it.
    NoTunnel,
    /// A known user whose data channel is not open yet: drop it.
    Pending,
}

/// The route a datagram from `dest` takes in state `v`.
pub open spec fn route_of<S, R, H>(v: RelayView<S, R, H>, dest: Seq<char>) -> UserRoute {
    if !v.users.contains_key(dest) {
        if v.control is Some {
            UserRoute::Announce
        } else {
            UserRoute::NoTunnel
        }
    } else if v.peers.contains_key(dest) {
        UserRoute::Forward
    } else {
        UserRoute::Pending
    }
}

/// The empty state the relay starts in.
pub open spec fn relay_start<S, R, H>() -> RelayView<S, R, H> {
    RelayView {
        control: None,
        users: Map::empty(),
        peers: Map::empty(),
        timers: Map::empty(),
    }
}

/// A tunnel client attached its control connection.
pub open spec fn attached<S, R, H>(v: RelayView<S, R, H>, writer: S) -> RelayView<S, R, H> {
    RelayView { control: Some(writer), ..v }
}

/// Writing a command on the control connection failed: the connection is
/// dropped, and with it every user and data channel; timers stay.
pub open spec fn announce_failed<S, R, H>(v: RelayView<S, R, H>) -> RelayView<S, R, H> {
    RelayView { control: None, users: Map::empty(), peers: Map::empty(), ..v }
}

/// A new user was announced: it is recorded with its responder and a timer.
pub open spec fn admitted<S, R, H>(
    v: RelayView<S, R, H>,
    dest: Seq<char>,
    responder: R,
    timer: H,
) -> RelayView<S, R, H> {
    RelayView {
        users: v.users.insert(dest, responder),
        timers: v.timers.insert(dest, timer),
        ..v
    }
}

/// Forwarding through a data channel failed: the channel and its user go.
pub open spec fn forward_failed<S, R, H>(v: RelayView<S, R, H>, dest: Seq<char>) -> RelayView<
    S,
    R,
    H,
> {
    RelayView { users: v.users.remove(dest), peers: v.peers.remove(dest), ..v }
}

/// The tunnel client opened the data channel for `dest`.
pub open spec fn peer_connected<S, R, H>(v: RelayView<S, R, H>, dest: Seq<char>, writer: S) -> RelayView<
    S,
    R,
    H,
> {
    RelayView { peers: v.peers.insert(dest, writer), ..v }
}

/// The control connection was lost: everything is forgotten.
pub open spec fn control_lost<S, R, H>(v: RelayView<S, R, H>) -> RelayView<S, R, H> {
    relay_start()
}

/// A user is dropped (its timer fired or its data channel failed).
pub open spec fn user_removed<S, R, H>(v: RelayView<S, R, H>, dest: Seq<char>) -> RelayView<
    S,
    R,
    H,
> {
    RelayView { users: v.users.remove(dest), peers: v.peers.remove(dest), ..v }
}

/// The state of the relay's event loop. `S` is a stream writer (the control
/// connection and the data channels), `R` the socket that answers a user,
/// `H` the handle of a pending timer.
pub struct Relay<S, R, H> {
    control: Option<S>,
    users: Table<R>,
    peers: Table<S>,
    timers: Table<H>,
}

impl<S, R, H> View for Relay<S, R, H> {
    type V = RelayView<S, R, H>;

    closed spec fn view(&self) -> RelayView<S, R, H> {
        RelayView {
            control: self.control,
            users: self.users@,
            peers: self.peers@,
            timers: self.timers@,
        }
    }
}

impl<S, R, H> Relay<S, R, H> {
    /// The relay's invariant: each of its tables holds every address once.
    pub closed spec fn wf(&self) -> bool {
        self.users.wf() && self.peers.wf() && self.timers.wf()
    }

    /// A relay with no tunnel client, no users, no channels and no timers.
    pub fn new() -> (r: Self)
        ensures
            r.wf(),
            r@ == relay_start::<S, R, H>(),
    {
        Relay { control: None, users: Table::new(), peers: Table::new(), timers: Table::new() }
    }

    /// A tunnel client attached: its control connection replaces any other.
    pub fn attach_control(&mut self, writer: S)
        requires
            old(self).wf(),
        ensures
            final(self).wf(),
            final(self)@ == attached(old(self)@, writer),
    {
        self.control = Some(writer);
    }

    /// Decides what to do with a datagram from the user at `dest`.
    pub fn route_user_packet(&self, dest: &String) -> (route: UserRoute)
        requires
            self.wf(),
        ensures
            route == route_of(self@, dest@),
    {
        if !self.users.contains_key(dest) {
            if self.control.is_some() {
                UserRoute::Announce
            } else {
                UserRoute::NoTunnel
            }
        } else if self.peers.contains_key(dest) {
            UserRoute::Forward
        } else {
            UserRoute::Pending
        }
    }

    /// The control connection, to write on it.
    pub fn control_mut(&mut self) -> (w: Option<&mut S>)
        requires
            old(self).wf(),
        ensures
            final(self).wf(),
            w is Some == old(self)@.control is Some,
            w matches Some(c) ==> *c == old(self)@.control->Some_0 && final(self)@ == (RelayView {
                control: Some(*final(c)),
                ..old(self)@
            }),
            w is None ==> final(self)@ == old(self)@,
    {
        self.control.as_mut()
    }

    /// Sending the open-channel command failed: gives back the control
    /// connection to shut down, and forgets every user and data channel.
    pub fn on_announce_failed(&mut self) -> (writer: Option<S>)
        requires
            old(self).wf(),
        ensures
            final(self).wf(),
            writer == old(self)@.control,
            final(self)@ == announce_failed(old(self)@),
    {
        let writer = self.control.take();
        self.users = Table::new();
        self.peers = Table::new();
        writer
    }

    /// The open-channel command for `dest` went out: records the user with
    /// the socket that answers it and the timer that drops it if no data
    /// channel comes.
    pub fn admit_user(&mut self, dest: String, responder: R, timer: H)
        requires
            old(self).wf(),
        ensures
            final(self).wf(),
            final(self)@ == admitted(old(self)@, dest@, responder, timer),
    {
        let key = dest.clone();
        let _ = self.timers.insert(key, timer);
        let _ = self.users.insert(dest, responder);
    }

    /// The data channel of `dest`, to write on it.
    pub fn peer_mut(&mut self, dest: &String) -> (w: Option<&mut S>)
        requires
            old(self).wf(),
        ensures
            final(self).wf(),
            w is Some == old(self)@.peers.contains_key(dest@),
            w matches Some(c) ==> *c == old(self)@.peers[dest@] && final(self)@ == (RelayView {
                peers: old(self)@.peers.insert(dest@, *final(c)),
                ..old(self)@
            }),
            w is None ==> final(self)@ == old(self)@,
    {
        self.peers.get_mut(dest)
    }

    /// Forwarding to `dest` failed: gives back its data channel to shut
    /// down, and forgets the user.
    pub fn on_forward_failed(&mut self, dest: &String) -> (writer: Option<S>)
        requires
            old(self).wf(),
        ensures
            final(self).wf(),
            writer is Some == old(self)@.peers.contains_key(dest@),
            writer matches Some(w) ==> w == old(self)@.peers[dest@],
            final(self)@ == forward_failed(old(self)@, dest@),
    {
        let writer = self.peers.remove(dest);
        let _ = self.users.remove(dest);
        writer
    }

    /// The socket that answers the user at `dest`, if it is known.
    pub fn responder(&self, dest: &String) -> (r: Option<&R>)
        requires
            self.wf(),
        ensures
            r is Some == self@.users.contains_key(dest@),
            r matches Some(x) ==> *x == self@.users[dest@],
    {
        self.users.get(dest)
    }

    /// The timer pending for `dest`, if any.
    pub fn pending_timer(&self, dest: &String) -> (t: Option<&H>)
        requires
            self.wf(),
        ensures
            t is Some == self@.timers.contains_key(dest@),
            t matches Some(x) ==> *x == self@.timers[dest@],
    {
        self.timers.get(dest)
    }

    /// The tunnel client opened the data channel for `dest`.
    pub fn on_peer_connected(&mut self, dest: String, writer: S)
        requires
            old(self).wf(),
        ensures
            final(self).wf(),
            final(self)@ == peer_connected(old(self)@, dest@, writer),
    {
        let _ = self.peers.insert(dest, writer);
    }

    /// The control connection was lost: gives back the connection to shut
    /// down and every pending timer to cancel, and forgets everything.
    pub fn on_control_lost(&mut self) -> (released: (Option<S>, Vec<H>))
        requires
            old(self).wf(),
        ensures
            final(self).wf(),
            final(self)@ == control_lost(old(self)@),
            released.0 == old(self)@.control,
            released.1@.len() == old(self)@.timers.dom().len(),
            forall|t: H|
                #[trigger] released.1@.to_multiset().count(t) == value_count(old(self)@.timers, t),
            forall|t: H|
                released.1@.contains(t) <==> exists|k: Seq<char>|
                    #[trigger] old(self)@.timers.contains_key(k) && old(self)@.timers[k] == t,
    {
        let writer = self.control.take();
        self.users = Table::new();
        self.peers = Table::new();
        let ghost before = self.timers@;
        let timers = self.timers.drain_values();
        proof {
            assert(before == old(self)@.timers);
            assert forall|t: H|
                timers@.contains(t) <==> exists|k: Seq<char>|
                    #[trigger] old(self)@.timers.contains_key(k) && old(self)@.timers[k] == t by {
                if timers@.contains(t) {
                    let k = choose|k: Seq<char>| #[trigger] before.contains_key(k) && before[k] == t;
                    assert(old(self)@.timers.contains_key(k));
                }
                if exists|k: Seq<char>|
                    #[trigger] old(self)@.timers.contains_key(k) && old(self)@.timers[k] == t {
                    let k = choose|k: Seq<char>|
                        #[trigger] old(self)@.timers.contains_key(k) && old(self)@.timers[k] == t;
                    assert(before.contains_key(k));
                }
            }
        }
        (writer, timers)
    }

    /// Drops the user at `dest` and its data channel.
    pub fn remove_user(&mut self, dest: &String)
        requires
            old(self).wf(),
        ensures
            final(self).wf(),
            final(self)@ == user_removed(old(self)@, dest@),
    {
        let _ = self.users.remove(dest);
        let _ = self.peers.remove(dest);
    }
}

/// While a tunnel client is attached, a user's first datagram is announced;
/// once the user is recorded its later datagrams are not announced again,
/// and once its data channel is open they are forwarded through it.
pub proof fn law_announce_once<S, R, H>(
    v: RelayView<S, R, H>,
    dest: Seq<char>,
    responder: R,
    timer: H,
    writer: S,
)
    requires
        v.control is Some,
        !v.users.contains_key(dest),
    ensures
        route_of(v, dest) == UserRoute::Announce,
        route_of(admitted(v, dest, responder, timer), dest) != UserRoute::Announce,
        route_of(peer_connected(admitted(v, dest, responder, timer), dest, writer), dest)
            == UserRoute::Forward,
{
}

/// Losing the control connection forgets every user, channel and timer:
/// no datagram is routed until a tunnel client attaches again.
pub proof fn law_control_lost_forgets_all<S, R, H>(v: RelayView<S, R, H>, dest: Seq<char>)
    ensures
        control_lost(v) == relay_start::<S, R, H>(),
        route_of(control_lost(v), dest) == UserRoute::NoTunnel,
        control_lost(v).control is None,
        !control_lost(v).users.contains_key(dest),
        !control_lost(v).peers.contains_key(dest),
        !control_lost(v).timers.contains_key(dest),
{
}

/// When sending a command on the control connection fails, every user and
/// data channel is forgotten along with the connection.
pub proof fn law_announce_failure_forgets_users<S, R, H>(v: RelayView<S, R, H>, dest: Seq<char>)
    ensures
        route_of(announce_failed(v), dest) == UserRoute::NoTunnel,
        announce_failed(v).users.is_empty(),
        announce_failed(v).peers.is_empty(),
        announce_failed(v).timers == v.timers,
        announce_failed(v).control is None,
        !announce_failed(v).users.contains_key(dest),
        !announce_failed(v).peers.contains_key(dest),
{
}

/// A dropped user is a new user again: its next datagram is announced while
/// a tunnel client is attached. Other users keep their route.
pub proof fn law_removed_user_is_new<S, R, H>(
    v: RelayView<S, R, H>,
    dest: Seq<char>,
    other: Seq<char>,
)
    requires
        other != dest,
    ensures
        v.control is Some ==> route_of(user_removed(v, dest), dest) == UserRoute::Announce,
        v.control is Some ==> route_of(forward_failed(v, dest), dest) == UserRoute::Announce,
        route_of(user_removed(v, dest), other) == route_of(v, other),
        route_of(forward_failed(v, dest), other) == route_of(v, other),
{
}

/// How a datagram is routed, in terms of the relay's tables: it is
/// announced exactly when its sender is not recorded and a tunnel client is
/// attached, forwarded exactly when its sender is recorded and has a data
/// channel, dropped for want of a tunnel exactly when its sender is unknown
/// and no client is attached, and held back exactly when its sender is
/// recorded but has no data channel yet.
pub proof fn law_route_cases<S, R, H>(v: RelayView<S, R, H>, dest: Seq<char>)
    ensures
        (route_of(v, dest) == UserRoute::Announce) <==> (!v.users.contains_key(dest)
            && v.control is Some),
        (route_of(v, dest) == UserRoute::Forward) <==> (v.users.contains_key(dest)
            && v.peers.contains_key(dest)),
        (route_of(v, dest) == UserRoute::NoTunnel) <==> (!v.users.contains_key(dest)
            && v.control is None),
        (route_of(v, dest) == UserRoute::Pending) <==> (v.users.contains_key(dest)
            && !v.peers.contains_key(dest)),
{
}

/// Admitting a user records it with its responder and timer and touches
/// nothing else: every other user keeps its entry, its timer and its route;
/// the data channels and the control connection are unchanged.
pub proof fn law_admit_keeps_others<S, R, H>(
    v: RelayView<S, R, H>,
    dest: Seq<char>,
    responder: R,
    timer: H,
    other: Seq<char>,
)
    requires
        other != dest,
    ensures
        admitted(v, dest, responder, timer).users.contains_key(dest),
        admitted(v, dest, responder, timer).users[dest] == responder,
        admitted(v, dest, responder, timer).timers.contains_key(dest),
        admitted(v, dest, responder, timer).timers[dest] == timer,
        admitted(v, dest, responder, timer).users.contains_key(other) == v.users.contains_key(other),
        v.users.contains_key(other) ==> admitted(v, dest, responder, timer).users[other]
            == v.users[other],
        admitted(v, dest, responder, timer).timers.contains_key(other) == v.timers.contains_key(
            other,
        ),
        v.timers.contains_key(other) ==> admitted(v, dest, responder, timer).timers[other]
            == v.timers[other],
        admitted(v, dest, responder, timer).peers == v.peers,
        admitted(v, dest, responder, timer).control == v.control,
        route_of(admitted(v, dest, responder, timer), other) == route_of(v, other),
{
}

/// A tunnel client attaching replaces the control connection and leaves
/// every user, channel and timer as it was.
pub proof fn law_attach_keeps_tables<S, R, H>(v: RelayView<S, R, H>, writer: S)
    ensures
        attached(v, writer).control == Some(writer),
        attached(v, writer).users == v.users,
        attached(v, writer).peers == v.peers,
        attached(v, writer).timers == v.timers,
{
}

/// Opening a data channel records it for its user and touches nothing else:
/// other users' channels, all users, timers and the control connection stay.
pub proof fn law_peer_connected_keeps_others<S, R, H>(
    v: RelayView<S, R, H>,
    dest: Seq<char>,
    writer: S,
    other: Seq<char>,
)
    requires
        other != dest,
    ensures
        peer_connected(v, dest, writer).peers.contains_key(dest),
        peer_connected(v, dest, writer).peers[dest] == writer,
        peer_connected(v, dest, writer).peers.contains_key(other) == v.peers.contains_key(other),
        v.peers.contains_key(other) ==> peer_connected(v, dest, writer).peers[other]
            == v.peers[other],
        peer_connected(v, dest, writer).users == v.users,
        peer_connected(v, dest, writer).timers == v.timers,
        peer_connected(v, dest, writer).control == v.control,
        route_of(peer_connected(v, dest, writer), other) == route_of(v, other),
{
}

/// Dropping a user, because its timer fired or its data channel failed,
/// forgets that user and its channel and touches nothing else.
pub proof fn law_remove_keeps_others<S, R, H>(
    v: RelayView<S, R, H>,
    dest: Seq<char>,
    other: Seq<char>,
)
    requires
        other != dest,
    ensures
        !user_removed(v, dest).users.contains_key(dest),
        !user_removed(v, dest).peers.contains_key(dest),
        !forward_failed(v, dest).users.contains_key(dest),
        !forward_failed(v, dest).peers.contains_key(dest),
        user_removed(v, dest).users.contains_key(other) == v.users.contains_key(other),
        v.users.contains_key(other) ==> user_removed(v, dest).users[other] == v.users[other],
        user_removed(v, dest).peers.contains_key(other) == v.peers.contains_key(other),
        v.peers.contains_key(other) ==> user_removed(v, dest).peers[other] == v.peers[other],
        forward_failed(v, dest).users.contains_key(other) == v.users.contains_key(other),
        v.users.contains_key(other) ==> forward_failed(v, dest).users[other] == v.users[other],
        forward_failed(v, dest).peers.contains_key(other) == v.peers.contains_key(other),
        v.peers.contains_key(other) ==> forward_failed(v, dest).peers[other] == v.peers[other],
        user_removed(v, dest).timers == v.timers,
        user_removed(v, dest).control == v.control,
        forward_failed(v, dest).timers == v.timers,
        forward_failed(v, dest).control == v.control,
{
}

/// Two users admitted one after the other are both recorded, each with its
/// own responder.
pub proof fn law_admit_two_users<S, R, H>(
    v: RelayView<S, R, H>,
    d1: Seq<char>,
    r1: R,
    t1: H,
    d2: Seq<char>,
    r2: R,
    t2: H,
)
    requires
        d1 != d2,
    ensures
        admitted(admitted(v, d1, r1, t1), d2, r2, t2).users.contains_key(d1),
        admitted(admitted(v, d1, r1, t1), d2, r2, t2).users[d1] == r1,
        admitted(admitted(v, d1, r1, t1), d2, r2, t2).users.contains_key(d2),
        admitted(admitted(v, d1, r1, t1), d2, r2, t2).users[d2] == r2,
{
    law_admit_keeps_others(admitted(v, d1, r1, t1), d2, r2, t2, d1);
    law_admit_keeps_others(v, d1, r1, t1, d2);
}

} // verus!
