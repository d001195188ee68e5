//! The wireless connectivity manager.
//!
//! The manager owns the association state of the one radio link. It is an
//! event-driven state machine: the surrounding task performs the radio
//! operations and timer sleeps that the returned actions name, and feeds
//! the outcomes back in. A failed association is retried forever at a
//! fixed backoff — the device has no other path to the network — and a
//! lost link goes back through the same backoff and association.

use vstd::prelude::*;

verus! {

/// How long to wait after a failed association or a lost link before the
/// next attempt, in milliseconds.
pub const WIFI_RETRY_BACKOFF_MS: u64 = 5000;

/// How long to sleep between polls while waiting for a leased address, in
/// milliseconds.
pub const IP_POLL_INTERVAL_MS: u64 = 500;

/// The association state of the radio link.
#[derive(Clone, Copy, Debug, PartialEq, Eq, Structural)]
pub enum ConnectivityState {
    /// No link and no attempt in flight: before the first attempt, or
    /// backing off after a failed one.
    Disconnected,
    /// One association attempt is in flight.
    Connecting,
    /// The link is up.
    Connected,
    /// A link that was up went down; backing off before reassociating.
    LinkLost,
}

/// What the radio and the backoff timer report.
#[derive(Clone, Copy, Debug, PartialEq, Eq, Structural)]
pub enum WifiEvent {
    /// Boot-time kick: begin the first association attempt.
    Start,
    /// The attempt in flight succeeded.
    AssocSucceeded,
    /// The attempt in flight failed.
    AssocFailed,
    /// A link that was up went down.
    LinkWentDown,
    /// The fixed backoff has elapsed.
    BackoffElapsed,
}

/// What the surrounding task must do next.
#[derive(Clone, Copy, Debug, PartialEq, Eq, Structural)]
pub enum WifiAction {
    /// Issue one association attempt.
    Associate,
    /// Sleep this many milliseconds, then report `BackoffElapsed`.
    SleepMs(u64),
    /// Nothing to do.
    Stay,
}

/// The transition relation of the manager: one event against one state.
pub open spec fn wifi_step_spec(s: ConnectivityState, e: WifiEvent) -> (ConnectivityState, WifiAction) {
    match (s, e) {
        (ConnectivityState::Disconnected, WifiEvent::Start) => (
            ConnectivityState::Connecting,
            WifiAction::Associate,
        ),
        (ConnectivityState::Disconnected, WifiEvent::BackoffElapsed) => (
            ConnectivityState::Connecting,
            WifiAction::Associate,
        ),
        (ConnectivityState::Connecting, WifiEvent::AssocSucceeded) => (
            ConnectivityState::Connected,
            WifiAction::Stay,
        ),
        (ConnectivityState::Connecting, WifiEvent::AssocFailed) => (
            ConnectivityState::Disconnected,
            WifiAction::SleepMs(WIFI_RETRY_BACKOFF_MS),
        ),
        (ConnectivityState::Connected, WifiEvent::LinkWentDown) => (
            ConnectivityState::LinkLost,
            WifiAction::SleepMs(WIFI_RETRY_BACKOFF_MS),
        ),
        (ConnectivityState::LinkLost, WifiEvent::BackoffElapsed) => (
            ConnectivityState::Connecting,
            WifiAction::Associate,
        ),
        _ => (s, WifiAction::Stay),
    }
}

/// The state after a whole sequence of events.
pub open spec fn wifi_run(s: ConnectivityState, evs: Seq<WifiEvent>) -> ConnectivityState
    decreases evs.len(),
{
    if evs.len() == 0 {
        s
    } else {
        wifi_run(wifi_step_spec(s, evs[0]).0, evs.drop_first())
    }
}

/// The manager never gives up and never pretends: however long a sequence
/// of failures, backoffs, kicks and losses arrives, as long as no
/// association ever succeeds the link is never `Connected` (and never
/// `LinkLost`, which only a connected link can reach).
pub proof fn lemma_no_success_never_connected(s: ConnectivityState, evs: Seq<WifiEvent>)
    requires
        s == ConnectivityState::Disconnected || s == ConnectivityState::Connecting,
        forall|i: int| 0 <= i < evs.len() ==> evs[i] != WifiEvent::AssocSucceeded,
    ensures
        wifi_run(s, evs) == ConnectivityState::Disconnected || wifi_run(s, evs)
            == ConnectivityState::Connecting,
    decreases evs.len(),
{
    if evs.len() > 0 {
        let s1 = wifi_step_spec(s, evs[0]).0;
        assert(evs[0] != WifiEvent::AssocSucceeded);
        assert(s1 == ConnectivityState::Disconnected || s1 == ConnectivityState::Connecting);
        assert(forall|i: int|
            0 <= i < evs.drop_first().len() ==> evs.drop_first()[i] != WifiEvent::AssocSucceeded);
        lemma_no_success_never_connected(s1, evs.drop_first());
    }
}

/// Every failed attempt is answered with the one fixed backoff, then a
/// fresh attempt: the retry cadence never changes and never stops.
pub proof fn lemma_failure_backs_off_fixed()
    ensures
        wifi_step_spec(ConnectivityState::Connecting, WifiEvent::AssocFailed) == (
            ConnectivityState::Disconnected,
            WifiAction::SleepMs(WIFI_RETRY_BACKOFF_MS),
        ),
        wifi_step_spec(ConnectivityState::Disconnected, WifiEvent::BackoffElapsed) == (
            ConnectivityState::Connecting,
            WifiAction::Associate,
        ),
{
}

/// The transition function, runnable: what the spec says, computed.
pub fn wifi_step(s: ConnectivityState, e: WifiEvent) -> (r: (ConnectivityState, WifiAction))
    ensures
        r == wifi_step_spec(s, e),
{
    match (s, e) {
        (ConnectivityState::Disconnected, WifiEvent::Start) => (
            ConnectivityState::Connecting,
            WifiAction::Associate,
        ),
        (ConnectivityState::Disconnected, WifiEvent::BackoffElapsed) => (
            ConnectivityState::Connecting,
            WifiAction::Associate,
        ),
        (ConnectivityState::Connecting, WifiEvent::AssocSucceeded) => (
            ConnectivityState::Connected,
            WifiAction::Stay,
        ),
        (ConnectivityState::Connecting, WifiEvent::AssocFailed) => (
            ConnectivityState::Disconnected,
            WifiAction::SleepMs(WIFI_RETRY_BACKOFF_MS),
        ),
        (ConnectivityState::Connected, WifiEvent::LinkWentDown) => (
            ConnectivityState::LinkLost,
            WifiAction::SleepMs(WIFI_RETRY_BACKOFF_MS),
        ),
        (ConnectivityState::LinkLost, WifiEvent::BackoffElapsed) => (
            ConnectivityState::Connecting,
            WifiAction::Associate,
        ),
        (st, _) => (st, WifiAction::Stay),
    }
}

/// The manager itself: the state plus the verified transition function.
pub struct ConnectivityManager {
    pub state: ConnectivityState,
}

impl ConnectivityManager {
    /// A fresh manager: nothing attempted yet.
    pub fn new() -> (r: ConnectivityManager)
        ensures
            r.state == ConnectivityState::Disconnected,
    {
        ConnectivityManager { state: ConnectivityState::Disconnected }
    }

    /// Feed one event in; what comes back is the next radio or timer
    /// operation to perform.
    pub fn step(&mut self, e: WifiEvent) -> (a: WifiAction)
        ensures
            (final(self).state, a) == wifi_step_spec(old(self).state, e),
    {
        let next = wifi_step(self.state, e);
        self.state = next.0;
        next.1
    }
}

/// Whether credentials fit the radio at all: an SSID of 1 to 32 bytes and
/// a passphrase of at most 64 bytes.
pub open spec fn spec_credentials_ok(ssid: Seq<u8>, pass: Seq<u8>) -> bool {
    1 <= ssid.len() <= 32 && pass.len() <= 64
}

/// Check credentials before the first association attempt. Credentials
/// that do not fit the radio's fields are fatal at boot: no retry could
/// make them fit.
pub fn credentials_ok(ssid: &[u8], pass: &[u8]) -> (r: bool)
    ensures
        r == spec_credentials_ok(ssid@, pass@),
{
    1 <= ssid.len() && ssid.len() <= 32 && pass.len() <= 64
}

/// What to do while waiting for a leased address: proceed once the stack
/// reports one, else sleep one bounded poll interval and look again.
#[derive(Clone, Copy, Debug, PartialEq, Eq, Structural)]
pub enum IpWaitAction {
    /// An address is leased; network-dependent work may start.
    Proceed,
    /// No address yet: sleep this many milliseconds and poll again.
    PollAgainMs(u64),
}

/// One poll of the network stack's address state.
pub fn ip_wait_step(have_address: bool) -> (a: IpWaitAction)
    ensures
        have_address ==> a == IpWaitAction::Proceed,
        !have_address ==> a == IpWaitAction::PollAgainMs(IP_POLL_INTERVAL_MS as u64),
{
    if have_address {
        IpWaitAction::Proceed
    } else {
        IpWaitAction::PollAgainMs(IP_POLL_INTERVAL_MS)
    }
}

} // verus!
