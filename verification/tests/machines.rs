use bb_bot_ota::boot::BootAction;
use bb_bot_ota::boot::BootEvent;
use bb_bot_ota::boot::BootFlow;
use bb_bot_ota::error::BBBotError;
use bb_bot_ota::release::ReleaseEndpoint;
use bb_bot_ota::scheduler::CycleAction;
use bb_bot_ota::scheduler::CycleEvent;
use bb_bot_ota::scheduler::CyclePhase;
use bb_bot_ota::scheduler::UpdateCycle;
use bb_bot_ota::version::SemVer;
use bb_bot_ota::wifi::ConnectivityManager;
use bb_bot_ota::wifi::ConnectivityState;
use bb_bot_ota::wifi::IpWaitAction;
use bb_bot_ota::wifi::WifiAction;
use bb_bot_ota::wifi::WifiEvent;
use bb_bot_ota::wifi::credentials_ok;
use bb_bot_ota::wifi::ip_wait_step;

const INTERVAL: u64 = 300000;

fn cycle_running(version: &str) -> UpdateCycle {
    let endpoint = ReleaseEndpoint::new(
        String::from("https://releases.example"),
        String::from("bb-bot"),
        String::from("stable"),
    );
    UpdateCycle::new(SemVer::parse_str(version).unwrap(), endpoint, INTERVAL)
}

fn metadata(version: &str) -> CycleEvent {
    let body = format!("{{\"release\":{{\"version\":\"{}\"}}}}", version);
    CycleEvent::MetadataResponse { status: 200, body: body.into_bytes() }
}

#[test]
fn tick_starts_a_check_at_the_canonical_url() {
    let mut c = cycle_running("1.0.0");
    let (action, err) = c.step(CycleEvent::TimerTick);
    assert!(matches!(c.phase, CyclePhase::Checking));
    assert!(err.is_none());
    match action {
        CycleAction::FetchMetadata(url) => {
            assert_eq!(url, "https://releases.example/bb-bot/stable/latest")
        },
        other => panic!("expected a metadata fetch, got {:?}", other),
    }
}

#[test]
fn equal_version_sleeps_until_the_next_tick() {
    let mut c = cycle_running("1.0.0");
    c.step(CycleEvent::TimerTick);
    let (action, err) = c.step(metadata("1.0.0"));
    assert!(matches!(c.phase, CyclePhase::Idle));
    assert!(err.is_none());
    assert!(matches!(action, CycleAction::SleepMs(ms) if ms == INTERVAL));
}

#[test]
fn lower_version_never_triggers_a_download() {
    let mut c = cycle_running("1.0.0");
    c.step(CycleEvent::TimerTick);
    let (action, err) = c.step(metadata("0.9.9"));
    assert!(matches!(c.phase, CyclePhase::Idle));
    assert!(err.is_none());
    assert!(matches!(action, CycleAction::SleepMs(_)));
}

#[test]
fn newer_version_downloads_and_resets() {
    let mut c = cycle_running("1.0.0");
    c.step(CycleEvent::TimerTick);
    let (action, err) = c.step(metadata("1.1.0"));
    assert!(matches!(c.phase, CyclePhase::Downloading));
    assert!(err.is_none());
    match action {
        CycleAction::FetchBinary(url) => {
            assert_eq!(url, "https://releases.example/bb-bot/stable/latest/binary")
        },
        other => panic!("expected a binary fetch, got {:?}", other),
    }
    let (action, err) = c.step(CycleEvent::DownloadSucceeded);
    assert!(matches!(c.phase, CyclePhase::Resetting));
    assert!(err.is_none());
    assert!(matches!(action, CycleAction::Reset));
}

#[test]
fn newer_pre_release_of_a_pre_release_build_downloads() {
    let mut c = cycle_running("1.1.0-alpha.1");
    c.step(CycleEvent::TimerTick);
    let (_action, err) = c.step(metadata("1.1.0-alpha.2"));
    assert!(matches!(c.phase, CyclePhase::Downloading));
    assert!(err.is_none());
}

#[test]
fn disconnect_mid_download_aborts_with_a_network_error() {
    let mut c = cycle_running("1.0.0");
    c.step(CycleEvent::TimerTick);
    c.step(metadata("1.1.0"));
    assert!(matches!(c.phase, CyclePhase::Downloading));
    let (action, err) = c.step(CycleEvent::DownloadTransportFailed);
    assert!(matches!(c.phase, CyclePhase::Idle));
    assert_eq!(err, Some(BBBotError::NetworkError));
    assert!(matches!(action, CycleAction::SleepMs(ms) if ms == INTERVAL));
    // the next tick restarts the cycle from the check
    let (action, err) = c.step(CycleEvent::TimerTick);
    assert!(matches!(c.phase, CyclePhase::Checking));
    assert!(err.is_none());
    assert!(matches!(action, CycleAction::FetchMetadata(_)));
}

#[test]
fn full_flash_mid_download_aborts_with_a_flash_error() {
    let mut c = cycle_running("1.0.0");
    c.step(CycleEvent::TimerTick);
    c.step(metadata("1.1.0"));
    let (_action, err) = c.step(CycleEvent::DownloadFlashFailed);
    assert!(matches!(c.phase, CyclePhase::Idle));
    assert_eq!(err, Some(BBBotError::FlashError));
}

#[test]
fn failed_check_aborts_with_its_error_kind() {
    let mut c = cycle_running("1.0.0");
    c.step(CycleEvent::TimerTick);
    let (_a, err) = c.step(CycleEvent::MetadataResponse {
        status: 500,
        body: b"oops".to_vec(),
    });
    assert_eq!(err, Some(BBBotError::NetworkError));
    assert!(matches!(c.phase, CyclePhase::Idle));

    let mut c = cycle_running("1.0.0");
    c.step(CycleEvent::TimerTick);
    let (_a, err) = c.step(CycleEvent::MetadataResponse {
        status: 200,
        body: b"{}".to_vec(),
    });
    assert_eq!(err, Some(BBBotError::SerdeError));

    let mut c = cycle_running("1.0.0");
    c.step(CycleEvent::TimerTick);
    let (_a, err) = c.step(metadata("not-a-version"));
    assert_eq!(err, Some(BBBotError::VersionError));

    let mut c = cycle_running("1.0.0");
    c.step(CycleEvent::TimerTick);
    let (_a, err) = c.step(CycleEvent::CheckTransportFailed);
    assert_eq!(err, Some(BBBotError::NetworkError));
    assert!(matches!(c.phase, CyclePhase::Idle));
}

#[test]
fn association_failures_retry_at_the_fixed_backoff_forever() {
    let mut m = ConnectivityManager::new();
    assert_eq!(m.step(WifiEvent::Start), WifiAction::Associate);
    let mut round = 0;
    while round < 5 {
        assert_eq!(m.state, ConnectivityState::Connecting);
        assert_eq!(m.step(WifiEvent::AssocFailed), WifiAction::SleepMs(5000));
        assert_eq!(m.state, ConnectivityState::Disconnected);
        assert_eq!(m.step(WifiEvent::BackoffElapsed), WifiAction::Associate);
        round += 1;
    }
    assert_eq!(m.step(WifiEvent::AssocSucceeded), WifiAction::Stay);
    assert_eq!(m.state, ConnectivityState::Connected);
}

#[test]
fn a_lost_link_goes_back_through_backoff_and_association() {
    let mut m = ConnectivityManager::new();
    m.step(WifiEvent::Start);
    m.step(WifiEvent::AssocSucceeded);
    assert_eq!(m.step(WifiEvent::LinkWentDown), WifiAction::SleepMs(5000));
    assert_eq!(m.state, ConnectivityState::LinkLost);
    assert_eq!(m.step(WifiEvent::BackoffElapsed), WifiAction::Associate);
    assert_eq!(m.state, ConnectivityState::Connecting);
}

#[test]
fn the_cycle_never_begins_while_association_fails() {
    let mut b = BootFlow::new();
    assert_eq!(b.step(BootEvent::Wifi(WifiEvent::Start)), BootAction::Wifi(WifiAction::Associate));
    let mut round = 0;
    while round < 4 {
        let a = b.step(BootEvent::Wifi(WifiEvent::AssocFailed));
        assert_eq!(a, BootAction::Wifi(WifiAction::SleepMs(5000)));
        // an address report or a stray completion changes nothing yet
        assert_eq!(b.step(BootEvent::IpObtained), BootAction::Stay);
        assert_eq!(b.step(BootEvent::AcceptCompleted), BootAction::Stay);
        assert!(!b.cycle_started);
        assert!(!b.accepted);
        let a = b.step(BootEvent::Wifi(WifiEvent::BackoffElapsed));
        assert_eq!(a, BootAction::Wifi(WifiAction::Associate));
        round += 1;
    }
    assert!(!b.cycle_started);
}

#[test]
fn boot_accepts_once_then_starts_the_cycle() {
    let mut b = BootFlow::new();
    b.step(BootEvent::Wifi(WifiEvent::Start));
    b.step(BootEvent::Wifi(WifiEvent::AssocSucceeded));
    assert_eq!(b.conn, ConnectivityState::Connected);
    assert_eq!(b.step(BootEvent::IpObtained), BootAction::AcceptFirmware);
    assert_eq!(b.step(BootEvent::AcceptCompleted), BootAction::StartCycle);
    assert!(b.accepted);
    assert!(b.cycle_started);
    // acceptance is behind us: further reports change nothing
    assert_eq!(b.step(BootEvent::IpObtained), BootAction::Stay);
    assert_eq!(b.step(BootEvent::AcceptCompleted), BootAction::Stay);
}

#[test]
fn ip_wait_polls_at_the_bounded_interval() {
    assert_eq!(ip_wait_step(false), IpWaitAction::PollAgainMs(500));
    assert_eq!(ip_wait_step(true), IpWaitAction::Proceed);
}

#[test]
fn credentials_must_fit_the_radio() {
    assert!(credentials_ok(b"home-network", b"hunter2hunter2"));
    assert!(credentials_ok(b"x", b""));
    assert!(!credentials_ok(b"", b"password"));
    assert!(!credentials_ok(&[b'a'; 33], b"password"));
    assert!(credentials_ok(&[b'a'; 32], &[b'p'; 64]));
    assert!(!credentials_ok(b"ssid", &[b'p'; 65]));
}
