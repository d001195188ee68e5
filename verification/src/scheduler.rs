//! The update scheduler: the periodic check, download, reset cycle.
//!
//! One cycle is an event-driven state machine. The surrounding task
//! performs the fetches, sleeps and the reset that the returned actions
//! name, and feeds the outcomes back in. A download starts exactly when
//! the server reports a version strictly greater than the running one
//! under semantic-version order. Any failure aborts the current cycle
//! only: the error is handed out for logging, the machine returns to
//! idle, and the next timer tick starts over from the check.

use vstd::prelude::*;
use crate::error::BBBotError;
use crate::release::ReleaseEndpoint;
use crate::release::read_version_from_response;
use crate::release::spec_decode_version;
use crate::version::SemVer;
use crate::version::precedence_lt;

verus! {

/// The cadence between update checks, in milliseconds. A tunable, not an
/// architectural property.
pub const UPDATE_CHECK_INTERVAL_MS: u64 = 300000;

/// Where in its cycle the scheduler stands.
#[derive(Clone, Copy, Debug, PartialEq, Eq, Structural)]
pub enum CyclePhase {
    /// Asleep until the next timer tick.
    Idle,
    /// A metadata request is outstanding.
    Checking,
    /// A newer release exists; its binary is streaming into flash.
    Downloading,
    /// The image is written in full; the device is about to reset.
    Resetting,
}

/// What the network, flash and timer report to the cycle.
pub enum CycleEvent {
    /// The inter-cycle timer fired.
    TimerTick,
    /// The metadata request completed with this status and body.
    MetadataResponse { status: u16, body: Vec<u8> },
    /// The metadata request itself failed underway.
    CheckTransportFailed,
    /// The whole binary was fetched and written to flash.
    DownloadSucceeded,
    /// The connection broke while the binary streamed.
    DownloadTransportFailed,
    /// A flash write was refused or failed while the binary streamed.
    DownloadFlashFailed,
}

/// What the surrounding task must do next.
#[derive(Debug)]
pub enum CycleAction {
    /// Issue the metadata request to this URL.
    FetchMetadata(String),
    /// Stream the binary at this URL into the non-running slot.
    FetchBinary(String),
    /// Sleep this many milliseconds, then report `TimerTick`.
    SleepMs(u64),
    /// Reset the device into the freshly written image.
    Reset,
    /// Nothing to do.
    Stay,
}

/// The scheduler of one device: its phase, the compiled-in running
/// version, the release endpoint, and the inter-cycle cadence.
pub struct UpdateCycle {
    pub phase: CyclePhase,
    pub current: SemVer,
    pub endpoint: ReleaseEndpoint,
    pub interval_ms: u64,
}

/// The whole transition relation of one scheduler step: how the next
/// phase, the action handed out and the error logged follow from the
/// phase and the event.
pub open spec fn cycle_step_ok(
    pre: UpdateCycle,
    event: CycleEvent,
    post: UpdateCycle,
    action: CycleAction,
    err: Option<BBBotError>,
) -> bool {
    &&& post.current == pre.current
    &&& post.endpoint == pre.endpoint
    &&& post.interval_ms == pre.interval_ms
    &&& match (pre.phase, event) {
        (CyclePhase::Idle, CycleEvent::TimerTick) => post.phase == CyclePhase::Checking && (
        action matches CycleAction::FetchMetadata(u) && u@ == pre.endpoint.spec_latest_url())
            && err is None,
        (CyclePhase::Checking, CycleEvent::MetadataResponse { status, body }) => match
        spec_decode_version(status, body@) {
            Result::Err(e) => post.phase == CyclePhase::Idle && action == CycleAction::SleepMs(
                pre.interval_ms,
            ) && err == Some(e),
            Result::Ok(latest) => if precedence_lt(pre.current@, latest) {
                post.phase == CyclePhase::Downloading && (
                action matches CycleAction::FetchBinary(u) && u@
                    == pre.endpoint.spec_latest_binary_url()) && err is None
            } else {
                post.phase == CyclePhase::Idle && action == CycleAction::SleepMs(pre.interval_ms)
                    && err is None
            },
        },
        (CyclePhase::Checking, CycleEvent::CheckTransportFailed) => post.phase == CyclePhase::Idle
            && action == CycleAction::SleepMs(pre.interval_ms) && err == Some(
            BBBotError::NetworkError,
        ),
        (CyclePhase::Downloading, CycleEvent::DownloadSucceeded) => post.phase
            == CyclePhase::Resetting && action == CycleAction::Reset && err is None,
        (CyclePhase::Downloading, CycleEvent::DownloadTransportFailed) => post.phase
            == CyclePhase::Idle && action == CycleAction::SleepMs(pre.interval_ms) && err == Some(
            BBBotError::NetworkError,
        ),
        (CyclePhase::Downloading, CycleEvent::DownloadFlashFailed) => post.phase
            == CyclePhase::Idle && action == CycleAction::SleepMs(pre.interval_ms) && err == Some(
            BBBotError::FlashError,
        ),
        _ => post.phase == pre.phase && action == CycleAction::Stay && err is None,
    }
}

impl UpdateCycle {
    /// A fresh scheduler, idle until the first tick.
    pub fn new(current: SemVer, endpoint: ReleaseEndpoint, interval_ms: u64) -> (r: UpdateCycle)
        ensures
            r.phase == CyclePhase::Idle,
            r.current == current,
            r.endpoint == endpoint,
            r.interval_ms == interval_ms,
    {
        UpdateCycle { phase: CyclePhase::Idle, current, endpoint, interval_ms }
    }

    /// Feed one event in. What comes back is the next thing to do and,
    /// when the cycle just aborted, the error to log.
    pub fn step(&mut self, event: CycleEvent) -> (r: (CycleAction, Option<BBBotError>))
        ensures
            cycle_step_ok(*old(self), event, *final(self), r.0, r.1),
    {
        match (self.phase, event) {
            (CyclePhase::Idle, CycleEvent::TimerTick) => {
                self.phase = CyclePhase::Checking;
                (CycleAction::FetchMetadata(self.endpoint.latest_url()), Option::None)
            },
            (CyclePhase::Checking, CycleEvent::MetadataResponse { status, body }) => {
                match read_version_from_response(status, body.as_slice()) {
                    Result::Ok(latest) => {
                        if self.current.precedes(&latest) {
                            self.phase = CyclePhase::Downloading;
                            (
                                CycleAction::FetchBinary(self.endpoint.latest_binary_url()),
                                Option::None,
                            )
                        } else {
                            self.phase = CyclePhase::Idle;
                            (CycleAction::SleepMs(self.interval_ms), Option::None)
                        }
                    },
                    Result::Err(e) => {
                        self.phase = CyclePhase::Idle;
                        (CycleAction::SleepMs(self.interval_ms), Option::Some(e))
                    },
                }
            },
            (CyclePhase::Checking, CycleEvent::CheckTransportFailed) => {
                self.phase = CyclePhase::Idle;
                (
                    CycleAction::SleepMs(self.interval_ms),
                    Option::Some(BBBotError::NetworkError),
                )
            },
            (CyclePhase::Downloading, CycleEvent::DownloadSucceeded) => {
                self.phase = CyclePhase::Resetting;
                (CycleAction::Reset, Option::None)
            },
            (CyclePhase::Downloading, CycleEvent::DownloadTransportFailed) => {
                self.phase = CyclePhase::Idle;
                (
                    CycleAction::SleepMs(self.interval_ms),
                    Option::Some(BBBotError::NetworkError),
                )
            },
            (CyclePhase::Downloading, CycleEvent::DownloadFlashFailed) => {
                self.phase = CyclePhase::Idle;
                (
                    CycleAction::SleepMs(self.interval_ms),
                    Option::Some(BBBotError::FlashError),
                )
            },
            _ => (CycleAction::Stay, Option::None),
        }
    }
}

/// A download begins exactly when the response decodes to a version
/// strictly greater than the running one: equal or lower versions, and
/// responses that do not decode, never start one.
pub proof fn lemma_download_iff_strictly_newer(
    pre: UpdateCycle,
    status: u16,
    body: Vec<u8>,
    post: UpdateCycle,
    action: CycleAction,
    err: Option<BBBotError>,
)
    requires
        pre.phase == CyclePhase::Checking,
        cycle_step_ok(pre, CycleEvent::MetadataResponse { status, body }, post, action, err),
    ensures
        post.phase == CyclePhase::Downloading <==> (spec_decode_version(status, body@) matches
            Result::Ok(latest) && precedence_lt(pre.current@, latest)),
{
}

/// An error never escapes its cycle: whenever a step hands an error out,
/// the machine is back in idle and the action is the ordinary sleep, so
/// the next tick starts over from the check and the scheduler survives.
pub proof fn lemma_errors_abort_the_cycle_only(
    pre: UpdateCycle,
    event: CycleEvent,
    post: UpdateCycle,
    action: CycleAction,
    err: Option<BBBotError>,
)
    requires
        cycle_step_ok(pre, event, post, action, err),
        err is Some,
    ensures
        post.phase == CyclePhase::Idle,
        action == CycleAction::SleepMs(pre.interval_ms),
{
}

/// The reset into a new image is handed out only for a download that
/// completed in full: an aborted cycle never reaches it.
pub proof fn lemma_reset_only_after_complete_download(
    pre: UpdateCycle,
    event: CycleEvent,
    post: UpdateCycle,
    action: CycleAction,
    err: Option<BBBotError>,
)
    requires
        cycle_step_ok(pre, event, post, action, err),
        action is Reset,
    ensures
        pre.phase == CyclePhase::Downloading,
        event is DownloadSucceeded,
        err is None,
{
}

} // verus!
