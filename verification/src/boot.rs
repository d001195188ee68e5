//! The boot flow: from power-on to the running update loop.
//!
//! After boot the device first brings the radio link up, then waits for a
//! leased address, then — connectivity confirmed — accepts the running
//! image exactly once, and only then starts the periodic update cycle.
//! The flow is an event-driven state machine over the connectivity
//! manager's state and three flags; the surrounding task performs the
//! actions and feeds the outcomes back in.

use vstd::prelude::*;
use crate::wifi::ConnectivityState;
use crate::wifi::WifiAction;
use crate::wifi::WifiEvent;
use crate::wifi::wifi_step;
use crate::wifi::wifi_step_spec;

verus! {

/// Everything the boot flow reacts to.
#[derive(Clone, Copy, Debug, PartialEq, Eq, Structural)]
pub enum BootEvent {
    /// A radio or backoff-timer outcome, for the connectivity manager.
    Wifi(WifiEvent),
    /// The network stack reports a leased address.
    IpObtained,
    /// The acceptance of the running image has been carried out.
    AcceptCompleted,
}

/// What the surrounding task must do next.
#[derive(Clone, Copy, Debug, PartialEq, Eq, Structural)]
pub enum BootAction {
    /// A radio or timer operation for the connectivity manager.
    Wifi(WifiAction),
    /// Commit the running image in the slot table.
    AcceptFirmware,
    /// Start the periodic update cycle.
    StartCycle,
    /// Nothing to do.
    Stay,
}

/// The whole boot state: link, address, acceptance, and whether the
/// update loop runs.
pub struct BootFlow {
    pub conn: ConnectivityState,
    pub ip_ready: bool,
    pub accepted: bool,
    pub cycle_started: bool,
}

/// The state a freshly booted device starts in.
pub open spec fn boot_init() -> BootFlow {
    BootFlow {
        conn: ConnectivityState::Disconnected,
        ip_ready: false,
        accepted: false,
        cycle_started: false,
    }
}

/// The transition relation of the boot flow.
pub open spec fn boot_step_spec(s: BootFlow, e: BootEvent) -> (BootFlow, BootAction) {
    match e {
        BootEvent::Wifi(we) => {
            let next = wifi_step_spec(s.conn, we);
            (
                BootFlow {
                    conn: next.0,
                    ip_ready: s.ip_ready,
                    accepted: s.accepted,
                    cycle_started: s.cycle_started,
                },
                BootAction::Wifi(next.1),
            )
        },
        BootEvent::IpObtained => {
            if s.conn == ConnectivityState::Connected && !s.ip_ready {
                (
                    BootFlow {
                        conn: s.conn,
                        ip_ready: true,
                        accepted: s.accepted,
                        cycle_started: s.cycle_started,
                    },
                    BootAction::AcceptFirmware,
                )
            } else {
                (s, BootAction::Stay)
            }
        },
        BootEvent::AcceptCompleted => {
            if s.ip_ready && !s.accepted {
                (
                    BootFlow {
                        conn: s.conn,
                        ip_ready: s.ip_ready,
                        accepted: true,
                        cycle_started: true,
                    },
                    BootAction::StartCycle,
                )
            } else {
                (s, BootAction::Stay)
            }
        },
    }
}

/// The standing shape of the boot state: the update loop runs only on an
/// accepted image, and acceptance happens only with an address leased.
pub open spec fn boot_inv(s: BootFlow) -> bool {
    (s.cycle_started ==> s.accepted) && (s.accepted ==> s.ip_ready)
}

/// The boot flow, stepped over a whole sequence of events.
pub open spec fn boot_run(s: BootFlow, evs: Seq<BootEvent>) -> BootFlow
    decreases evs.len(),
{
    if evs.len() == 0 {
        s
    } else {
        boot_run(boot_step_spec(s, evs[0]).0, evs.drop_first())
    }
}

/// One step keeps the boot state's shape.
pub proof fn lemma_boot_inv_preserved(s: BootFlow, e: BootEvent)
    requires
        boot_inv(s),
    ensures
        boot_inv(boot_step_spec(s, e).0),
{
}

/// The executable boot flow.
impl BootFlow {
    /// The state a freshly booted device starts in.
    pub fn new() -> (r: BootFlow)
        ensures
            r == boot_init(),
    {
        BootFlow {
            conn: ConnectivityState::Disconnected,
            ip_ready: false,
            accepted: false,
            cycle_started: false,
        }
    }

    /// Feed one event in; what comes back is the next thing to do.
    pub fn step(&mut self, e: BootEvent) -> (a: BootAction)
        ensures
            (*final(self), a) == boot_step_spec(*old(self), e),
    {
        match e {
            BootEvent::Wifi(we) => {
                let next = wifi_step(self.conn, we);
                self.conn = next.0;
                BootAction::Wifi(next.1)
            },
            BootEvent::IpObtained => {
                if matches!(self.conn, ConnectivityState::Connected) && !self.ip_ready {
                    self.ip_ready = true;
                    BootAction::AcceptFirmware
                } else {
                    BootAction::Stay
                }
            },
            BootEvent::AcceptCompleted => {
                if self.ip_ready && !self.accepted {
                    self.accepted = true;
                    self.cycle_started = true;
                    BootAction::StartCycle
                } else {
                    BootAction::Stay
                }
            },
        }
    }
}

/// An address can only be confirmed over an associated link, so the
/// acceptance action is handed out only on the step where the address
/// arrives, and the flag that step raises never falls again: no boot
/// hands it out a second time, and the flash-side acceptance is
/// idempotent besides.
pub proof fn lemma_accept_emitted_at_most_once(s: BootFlow, e: BootEvent)
    ensures
        boot_step_spec(s, e).1 == BootAction::AcceptFirmware ==> s.conn
            == ConnectivityState::Connected && !s.ip_ready && boot_step_spec(s, e).0.ip_ready,
        s.ip_ready ==> boot_step_spec(s, e).0.ip_ready,
{
}

/// The update loop starts only on the step that completes acceptance,
/// with the address leased; before that, nothing starts it.
pub proof fn lemma_cycle_starts_only_after_accept(s: BootFlow, e: BootEvent)
    ensures
        boot_step_spec(s, e).1 == BootAction::StartCycle ==> s.ip_ready && !s.accepted
            && boot_step_spec(s, e).0.accepted && boot_step_spec(s, e).0.cycle_started,
        s.accepted ==> boot_step_spec(s, e).0.accepted,
        s.cycle_started ==> boot_step_spec(s, e).0.cycle_started,
{
}

/// The actions a whole sequence of events draws out, in order.
pub open spec fn boot_actions(s: BootFlow, evs: Seq<BootEvent>) -> Seq<BootAction>
    decreases evs.len(),
{
    if evs.len() == 0 {
        Seq::empty()
    } else {
        seq![boot_step_spec(s, evs[0]).1] + boot_actions(boot_step_spec(s, evs[0]).0, evs.drop_first())
    }
}

proof fn lemma_boot_actions_len(s: BootFlow, evs: Seq<BootEvent>)
    ensures
        boot_actions(s, evs).len() == evs.len(),
    decreases evs.len(),
{
    if evs.len() > 0 {
        lemma_boot_actions_len(boot_step_spec(s, evs[0]).0, evs.drop_first());
    }
}

proof fn lemma_no_accept_when_ip_ready(s: BootFlow, evs: Seq<BootEvent>, k: int)
    requires
        s.ip_ready,
        0 <= k < evs.len(),
    ensures
        boot_actions(s, evs)[k] != BootAction::AcceptFirmware,
    decreases evs.len(),
{
    lemma_boot_actions_len(boot_step_spec(s, evs[0]).0, evs.drop_first());
    if k > 0 {
        assert(boot_step_spec(s, evs[0]).0.ip_ready);
        lemma_no_accept_when_ip_ready(boot_step_spec(s, evs[0]).0, evs.drop_first(), k - 1);
        assert(boot_actions(s, evs)[k] == boot_actions(
            boot_step_spec(s, evs[0]).0,
            evs.drop_first(),
        )[k - 1]);
    }
}

/// In any run of the boot flow, the acceptance action appears at most
/// once: whatever the events, no two positions of the action trace both
/// hand it out.
pub proof fn lemma_accept_at_most_once_per_run(s: BootFlow, evs: Seq<BootEvent>, i: int, j: int)
    requires
        0 <= i < j < evs.len(),
        boot_actions(s, evs)[i] == BootAction::AcceptFirmware,
    ensures
        boot_actions(s, evs)[j] != BootAction::AcceptFirmware,
    decreases evs.len(),
{
    let s1 = boot_step_spec(s, evs[0]).0;
    lemma_boot_actions_len(s1, evs.drop_first());
    if i == 0 {
        assert(s1.ip_ready);
        lemma_no_accept_when_ip_ready(s1, evs.drop_first(), j - 1);
        assert(boot_actions(s, evs)[j] == boot_actions(s1, evs.drop_first())[j - 1]);
    } else {
        assert(boot_actions(s, evs)[i] == boot_actions(s1, evs.drop_first())[i - 1]);
        lemma_accept_at_most_once_per_run(s1, evs.drop_first(), i - 1, j - 1);
        assert(boot_actions(s, evs)[j] == boot_actions(s1, evs.drop_first())[j - 1]);
    }
}

/// While association keeps failing, the update cycle never begins: from a
/// fresh boot, any sequence of events without a successful association
/// leaves the device without link, address, acceptance or update loop.
pub proof fn lemma_cycle_waits_for_association(s: BootFlow, evs: Seq<BootEvent>)
    requires
        s.conn == ConnectivityState::Disconnected || s.conn == ConnectivityState::Connecting,
        !s.ip_ready,
        !s.accepted,
        !s.cycle_started,
        forall|i: int|
            0 <= i < evs.len() ==> evs[i] != BootEvent::Wifi(WifiEvent::AssocSucceeded),
    ensures
        boot_run(s, evs).conn == ConnectivityState::Disconnected || boot_run(s, evs).conn
            == ConnectivityState::Connecting,
        !boot_run(s, evs).ip_ready,
        !boot_run(s, evs).accepted,
        !boot_run(s, evs).cycle_started,
    decreases evs.len(),
{
    if evs.len() > 0 {
        let s1 = boot_step_spec(s, evs[0]).0;
        assert(evs[0] != BootEvent::Wifi(WifiEvent::AssocSucceeded));
        assert(s1.conn == ConnectivityState::Disconnected || s1.conn
            == ConnectivityState::Connecting);
        assert(forall|i: int|
            0 <= i < evs.drop_first().len() ==> evs.drop_first()[i] != BootEvent::Wifi(
                WifiEvent::AssocSucceeded,
            ));
        lemma_cycle_waits_for_association(s1, evs.drop_first());
    }
}

} // verus!
