use vstd::prelude::*;
use vstd::utf8::{decode_utf8, valid_utf8};
use crate::reader::ReadError;
use crate::text::{lossy_text, utf8_lossy};

verus! {

/// The tunnel client's count of consecutive failed attempts to reach the
/// relay, against the number of retries it allows.
pub struct Reconnect {
    retry: u8,
    failures: u8,
}

/// The retry budget and the count of consecutive failures, as values.
pub struct ReconnectView {
    pub retry: nat,
    pub failures: nat,
}

impl View for Reconnect {
    type V = ReconnectView;

    closed spec fn view(&self) -> ReconnectView {
        ReconnectView { retry: self.retry as nat, failures: self.failures as nat }
    }
}

/// Whether the client gives up before the next attempt.
pub open spec fn gives_up(v: ReconnectView) -> bool {
    v.failures > v.retry
}

/// One more failed attempt.
pub open spec fn failed_once(v: ReconnectView) -> ReconnectView {
    ReconnectView { failures: v.failures + 1, ..v }
}

/// A successful connection clears the count.
pub open spec fn connected(v: ReconnectView) -> ReconnectView {
    ReconnectView { failures: 0, ..v }
}

/// The state after `k` consecutive failed attempts from `v`.
pub open spec fn failed_times(v: ReconnectView, k: nat) -> ReconnectView
    decreases k,
{
    if k == 0 {
        v
    } else {
        failed_once(failed_times(v, (k - 1) as nat))
    }
}

impl Reconnect {
    /// No failures yet, `retry` retries allowed.
    pub fn new(retry: u8) -> (r: Self)
        ensures
            r@ == (ReconnectView { retry: retry as nat, failures: 0 }),
    {
        Reconnect { retry, failures: 0 }
    }

    /// Whether the client must give up instead of attempting again: more
    /// consecutive failures than retries allowed.
    pub fn exhausted(&self) -> (give_up: bool)
        ensures
            give_up == gives_up(self@),
            give_up == (self@.failures > self@.retry),
    {
        self.failures > self.retry
    }

    /// The count of consecutive failures.
    pub fn failures(&self) -> (n: u8)
        ensures
            n == self@.failures,
    {
        self.failures
    }

    /// An attempt to reach the relay failed. Says whether another attempt
    /// will follow (then the client announces it and waits first).
    pub fn on_connect_failed(&mut self) -> (retrying: bool)
        requires
            old(self)@.failures < 255,
        ensures
            final(self)@ == failed_once(old(self)@),
            retrying == !gives_up(final(self)@),
            final(self)@.failures == old(self)@.failures + 1,
            final(self)@.retry == old(self)@.retry,
            retrying == (final(self)@.failures <= final(self)@.retry),
    {
        self.failures = self.failures + 1;
        self.failures <= self.retry
    }

    /// The client reached the relay.
    pub fn on_connected(&mut self)
        ensures
            final(self)@ == connected(old(self)@),
            final(self)@.failures == 0,
            final(self)@.retry == old(self)@.retry,
    {
        self.failures = 0;
    }
}

/// After `k` consecutive failures from a fresh start, the client gives up
/// exactly when `k` exceeds the retries allowed; a success starts the count
/// over.
pub proof fn law_gives_up_after_retries(v: ReconnectView, k: nat)
    requires
        v.failures == 0,
    ensures
        failed_times(v, k).failures == k,
        failed_times(v, k).retry == v.retry,
        gives_up(failed_times(v, k)) <==> k > v.retry,
        !gives_up(connected(failed_times(v, k))),
    decreases k,
{
    if k > 0 {
        law_gives_up_after_retries(v, (k - 1) as nat);
    }
}

/// A successful connection clears the count of consecutive failures,
/// whatever it was: afterwards the client gives up only after `retry + 1`
/// further consecutive failures, never sooner.
pub proof fn law_connected_clears_failures(v: ReconnectView, k: nat)
    ensures
        connected(v).failures == 0,
        connected(v).retry == v.retry,
        !gives_up(connected(v)),
        gives_up(failed_times(connected(v), k)) <==> k > v.retry,
{
    law_gives_up_after_retries(connected(v), k);
}

/// Each failed attempt adds exactly one to the count and keeps the budget;
/// the client gives up exactly when the count exceeds the budget.
pub proof fn law_failure_counts_one(v: ReconnectView)
    ensures
        failed_once(v).failures == v.failures + 1,
        failed_once(v).retry == v.retry,
        gives_up(v) <==> v.failures > v.retry,
        gives_up(failed_once(v)) <==> v.failures >= v.retry,
{
}

/// How reading the first datagram of a new user came out.
#[derive(PartialEq, Eq, Structural, Clone, Copy, Debug)]
pub enum FirstRead {
    /// The datagram arrived.
    Got,
    /// Reading it failed.
    Failed(ReadError),
    /// It did not come in time.
    Elapsed,
}

/// What the tunnel client does after reading a new user's first datagram.
#[derive(PartialEq, Eq, Structural, Clone, Copy, Debug)]
pub enum FirstPayload {
    /// Send it to the local service, then open the data channel.
    Deliver,
    /// The control connection is gone: reconnect to the relay.
    Reconnect,
    /// Open the data channel without it.
    Proceed,
}

/// Decides what follows the read of a new user's first datagram.
pub fn after_first_payload(read: FirstRead) -> (next: FirstPayload)
    ensures
        next == match read {
            FirstRead::Got => FirstPayload::Deliver,
            FirstRead::Failed(ReadError::NotConnected) => FirstPayload::Reconnect,
            _ => FirstPayload::Proceed,
        },
{
    match read {
        FirstRead::Got => FirstPayload::Deliver,
        FirstRead::Failed(ReadError::NotConnected) => FirstPayload::Reconnect,
        _ => FirstPayload::Proceed,
    }
}

/// The address text an open-channel command carries.
pub fn command_target(body: &[u8]) -> (dest: String)
    ensures
        dest@ == lossy_text(body@),
        valid_utf8(body@) ==> dest@ == decode_utf8(body@),
{
    utf8_lossy(body)
}

} // verus!
