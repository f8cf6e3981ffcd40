use vstd::prelude::*;
use vstd::utf8::{decode_utf8, valid_utf8};
use crate::text::{lossy_text, utf8_lossy};

verus! {

/// Where a relay-side data channel is in its frame sequence.
#[derive(PartialEq, Eq, Structural, Clone, Copy, Debug)]
pub enum LinkPhase {
    /// Expecting the frame with the address text the channel is for.
    Greeting,
    /// Expecting the (empty) frame that completes the greeting.
    GreetingBody,
    /// Expecting the address frame of the next datagram.
    Identity,
    /// Expecting the payload frame of the next datagram.
    Payload,
    /// The channel is finished.
    Closed,
}

/// What the relay does after a frame read on a data channel.
#[derive(Debug)]
pub enum LinkAction {
    /// Read the next frame.
    Continue,
    /// The greeting failed: drop the connection quietly.
    GiveUp,
    /// The channel for this address is open: register it, keep reading.
    Connected(String),
    /// Send `payload` to the user at `dest`, keep reading.
    Deliver { dest: String, payload: Vec<u8> },
    /// The channel failed: drop the user it was opened for.
    Close(String),
}

/// The relay side of a data channel opened by the tunnel client: a greeting
/// package that names the user, then one package per datagram back to that
/// user (its address frame, then its payload frame).
pub struct PeerLink {
    phase: LinkPhase,
    record: String,
    pending: String,
}

/// A relay-side data channel as a value: its phase, the address it was
/// opened for, and the address of the datagram whose payload comes next.
pub struct PeerLinkView {
    pub phase: LinkPhase,
    pub record: Seq<char>,
    pub pending: Seq<char>,
}

impl View for PeerLink {
    type V = PeerLinkView;

    closed spec fn view(&self) -> PeerLinkView {
        PeerLinkView { phase: self.phase, record: self.record@, pending: self.pending@ }
    }
}

impl PeerLink {
    /// A channel that has just been accepted.
    pub fn new() -> (link: Self)
        ensures
            link@.phase == LinkPhase::Greeting,
            link@.record == Seq::<char>::empty(),
            link@.pending == Seq::<char>::empty(),
    {
        PeerLink { phase: LinkPhase::Greeting, record: String::new(), pending: String::new() }
    }

    /// The phase the channel is in.
    pub fn phase(&self) -> (p: LinkPhase)
        ensures
            p == self@.phase,
    {
        self.phase
    }

    /// Takes the outcome of one frame read (`None` when it failed or timed
    /// out) and says what to do.
    pub fn on_frame(&mut self, frame: Option<Vec<u8>>) -> (action: LinkAction)
        requires
            old(self)@.phase != LinkPhase::Closed,
        ensures
            match (old(self)@.phase, frame) {
                (LinkPhase::Greeting, Some(b)) => {
                    &&& action is Continue
                    &&& final(self)@.phase == LinkPhase::GreetingBody
                    &&& final(self)@.record == lossy_text(b@)
                    &&& valid_utf8(b@) ==> final(self)@.record == decode_utf8(b@)
                    &&& final(self)@.pending == old(self)@.pending
                },
                (LinkPhase::GreetingBody, Some(_)) => {
                    &&& action matches LinkAction::Connected(d) && d@ == old(self)@.record
                    &&& final(self)@ == (PeerLinkView { phase: LinkPhase::Identity, ..old(self)@ })
                },
                (LinkPhase::Identity, Some(b)) => {
                    &&& action is Continue
                    &&& final(self)@.phase == LinkPhase::Payload
                    &&& final(self)@.pending == lossy_text(b@)
                    &&& valid_utf8(b@) ==> final(self)@.pending == decode_utf8(b@)
                    &&& final(self)@.record == old(self)@.record
                },
                (LinkPhase::Payload, Some(p)) => {
                    &&& action matches LinkAction::Deliver { dest, payload } && dest@
                        == old(self)@.pending && payload@ == p@
                    &&& final(self)@ == (PeerLinkView { phase: LinkPhase::Identity, ..old(self)@ })
                },
                (LinkPhase::Greeting, None) | (LinkPhase::GreetingBody, None) => {
                    &&& action is GiveUp
                    &&& final(self)@ == (PeerLinkView { phase: LinkPhase::Closed, ..old(self)@ })
                },
                _ => {
                    &&& action matches LinkAction::Close(d) && d@ == old(self)@.record
                    &&& final(self)@ == (PeerLinkView { phase: LinkPhase::Closed, ..old(self)@ })
                },
            },
    {
        match frame {
            Some(bytes) => match self.phase {
                LinkPhase::Greeting => {
                    self.record = utf8_lossy(bytes.as_slice());
                    self.phase = LinkPhase::GreetingBody;
                    LinkAction::Continue
                },
                LinkPhase::GreetingBody => {
                    self.phase = LinkPhase::Identity;
                    LinkAction::Connected(self.record.clone())
                },
                LinkPhase::Identity => {
                    self.pending = utf8_lossy(bytes.as_slice());
                    self.phase = LinkPhase::Payload;
                    LinkAction::Continue
                },
                _ => {
                    self.phase = LinkPhase::Identity;
                    LinkAction::Deliver { dest: self.pending.clone(), payload: bytes }
                },
            },
            None => match self.phase {
                LinkPhase::Greeting | LinkPhase::GreetingBody => {
                    self.phase = LinkPhase::Closed;
                    LinkAction::GiveUp
                },
                _ => {
                    self.phase = LinkPhase::Closed;
                    LinkAction::Close(self.record.clone())
                },
            },
        }
    }
}

/// Where the tunnel client's reader of a data channel is.
#[derive(PartialEq, Eq, Structural, Clone, Copy, Debug)]
pub enum TunnelPhase {
    /// Expecting the address frame of the next datagram (it is not used:
    /// the channel serves one user).
    Identity,
    /// Expecting the payload frame of the next datagram.
    Payload,
    /// The channel is finished.
    Closed,
}

/// What the tunnel client does after a frame read on a data channel.
#[derive(Debug)]
pub enum TunnelAction {
    /// Read the next frame.
    Continue,
    /// Send this payload to the local service.
    Deliver(Vec<u8>),
    /// The channel failed: stop serving it.
    Stop,
}

/// The tunnel client's reader of a data channel: the relay sends one package
/// per datagram, the address frame then the payload frame.
pub struct TunnelLink {
    phase: TunnelPhase,
}

impl TunnelLink {
    /// The phase the reader is in.
    pub closed spec fn spec_phase(&self) -> TunnelPhase {
        self.phase
    }

    /// A reader at the start of a channel.
    pub fn new() -> (link: Self)
        ensures
            link.spec_phase() == TunnelPhase::Identity,
    {
        TunnelLink { phase: TunnelPhase::Identity }
    }

    /// The phase the reader is in.
    pub fn phase(&self) -> (p: TunnelPhase)
        ensures
            p == self.spec_phase(),
    {
        self.phase
    }

    /// Takes the outcome of one frame read (`None` when it failed or timed
    /// out) and says what to do.
    pub fn on_frame(&mut self, frame: Option<Vec<u8>>) -> (action: TunnelAction)
        requires
            old(self).spec_phase() != TunnelPhase::Closed,
        ensures
            match (old(self).spec_phase(), frame) {
                (TunnelPhase::Identity, Some(_)) => action is Continue && final(self).spec_phase()
                    == TunnelPhase::Payload,
                (TunnelPhase::Payload, Some(p)) => (action matches TunnelAction::Deliver(q) && q@
                    == p@) && final(self).spec_phase() == TunnelPhase::Identity,
                _ => action is Stop && final(self).spec_phase() == TunnelPhase::Closed,
            },
    {
        match frame {
            Some(bytes) => match self.phase {
                TunnelPhase::Identity => {
                    self.phase = TunnelPhase::Payload;
                    TunnelAction::Continue
                },
                _ => {
                    self.phase = TunnelPhase::Identity;
                    TunnelAction::Deliver(bytes)
                },
            },
            None => {
                self.phase = TunnelPhase::Closed;
                TunnelAction::Stop
            },
        }
    }
}

} // verus!
