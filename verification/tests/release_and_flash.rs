use bb_bot_ota::error::BBBotError;
use bb_bot_ota::flash::FlashStore;
use bb_bot_ota::flash::SlotState;
use bb_bot_ota::flash::SlotWriter;
use bb_bot_ota::release::ReleaseEndpoint;
use bb_bot_ota::release::TlsMode;
use bb_bot_ota::release::TlsSessionConfig;
use bb_bot_ota::release::parse_release_version;
use bb_bot_ota::release::read_version_from_response;
use bb_bot_ota::release::tls_seed_from_parts;

fn endpoint() -> ReleaseEndpoint {
    ReleaseEndpoint::new(
        String::from("https://releases.example"),
        String::from("bb-bot"),
        String::from("stable"),
    )
}

#[test]
fn latest_url_is_canonical() {
    assert_eq!(endpoint().latest_url(), "https://releases.example/bb-bot/stable/latest");
}

#[test]
fn binary_url_is_canonical() {
    assert_eq!(
        endpoint().latest_binary_url(),
        "https://releases.example/bb-bot/stable/latest/binary"
    );
}

#[test]
fn metadata_body_parses_to_version_fields() {
    let body = b"{\"release\":{\"version\":\"1.2.3\"}}";
    assert_eq!(parse_release_version(body).ok(), Some(b"1.2.3".to_vec()));
    let v = read_version_from_response(200, body).unwrap();
    assert_eq!(v.major, 1);
    assert_eq!(v.minor, 2);
    assert_eq!(v.patch, 3);
    assert_eq!(v.pre.len(), 0);
}

#[test]
fn metadata_tolerates_whitespace() {
    let body = b" { \"release\" : {\n\t\"version\" : \"2.0.0\" } }\r\n";
    assert_eq!(parse_release_version(body).ok(), Some(b"2.0.0".to_vec()));
}

#[test]
fn metadata_missing_release_is_a_serde_error() {
    let body = b"{\"version\":\"1.2.3\"}";
    assert_eq!(parse_release_version(body).err(), Some(BBBotError::SerdeError));
    assert_eq!(read_version_from_response(200, body).err(), Some(BBBotError::SerdeError));
}

#[test]
fn metadata_garbage_is_a_serde_error() {
    assert_eq!(parse_release_version(b"").err(), Some(BBBotError::SerdeError));
    assert_eq!(parse_release_version(b"not json").err(), Some(BBBotError::SerdeError));
    assert_eq!(
        parse_release_version(b"{\"release\":{\"version\":1}}").err(),
        Some(BBBotError::SerdeError)
    );
    assert_eq!(
        parse_release_version(b"{\"release\":{\"version\":\"1.0.0\"}").err(),
        Some(BBBotError::SerdeError)
    );
}

#[test]
fn non_2xx_status_is_a_network_error() {
    let body = b"{\"release\":{\"version\":\"1.2.3\"}}";
    assert_eq!(read_version_from_response(404, body).err(), Some(BBBotError::NetworkError));
    assert_eq!(read_version_from_response(199, body).err(), Some(BBBotError::NetworkError));
    assert_eq!(read_version_from_response(300, body).err(), Some(BBBotError::NetworkError));
    assert!(read_version_from_response(204, body).is_ok());
}

#[test]
fn unparseable_reported_version_is_a_version_error() {
    let body = b"{\"release\":{\"version\":\"abc\"}}";
    assert_eq!(read_version_from_response(200, body).err(), Some(BBBotError::VersionError));
}

#[test]
fn tls_seed_joins_the_two_halves() {
    assert_eq!(tls_seed_from_parts(0x89ABCDEF, 0x01234567), 0x0123456789ABCDEF);
    assert_eq!(tls_seed_from_parts(0, 1), 1 << 32);
    assert_eq!(tls_seed_from_parts(7, 0), 7);
}

#[test]
fn tls_config_keeps_seed_and_explicit_mode() {
    let c = TlsSessionConfig::new(0xDEAD_BEEF, TlsMode::VerifyDisabled);
    assert_eq!(c.seed, 0xDEAD_BEEF);
    assert_eq!(c.mode, TlsMode::VerifyDisabled);
    let c = TlsSessionConfig::new(1, TlsMode::VerifyFull);
    assert_eq!(c.mode, TlsMode::VerifyFull);
}

#[test]
fn slot_writer_appends_chunks_in_order() {
    let mut w = SlotWriter::new(8);
    assert!(w.write(&[1, 2, 3]).is_ok());
    assert!(w.write(&[4, 5]).is_ok());
    assert_eq!(w.data, vec![1, 2, 3, 4, 5]);
    assert_eq!(w.remaining(), 3);
}

#[test]
fn slot_writer_refuses_overflow_before_writing() {
    let mut w = SlotWriter::new(8);
    assert!(w.write(&[1, 2, 3, 4, 5]).is_ok());
    // 5 + 4 > 8: refused whole, nothing of it written
    assert_eq!(w.write(&[6, 7, 8, 9]).err(), Some(BBBotError::FlashError));
    assert_eq!(w.data, vec![1, 2, 3, 4, 5]);
    // exactly filling the slot is fine
    assert!(w.write(&[6, 7, 8]).is_ok());
    assert_eq!(w.data.len(), 8);
    assert_eq!(w.remaining(), 0);
}

#[test]
fn slot_writer_refuses_a_chunk_larger_than_the_slot() {
    let mut w = SlotWriter::new(2);
    assert_eq!(w.write(&[1, 2, 3]).err(), Some(BBBotError::FlashError));
    assert_eq!(w.data.len(), 0);
}

#[test]
fn accept_commits_a_pending_slot() {
    let mut s = FlashStore::new(SlotState::Pending);
    s.accept();
    assert_eq!(s.booted, SlotState::Valid);
}

#[test]
fn accept_twice_has_no_further_effect() {
    let mut s = FlashStore::new(SlotState::Pending);
    s.accept();
    let after_first = s.booted;
    s.accept();
    assert_eq!(s.booted, after_first);
    assert_eq!(s.booted, SlotState::Valid);
}

#[test]
fn accept_leaves_a_running_slot_alone() {
    let mut s = FlashStore::new(SlotState::Running);
    s.accept();
    assert_eq!(s.booted, SlotState::Running);
    s.accept();
    assert_eq!(s.booted, SlotState::Running);
}

#[test]
fn error_messages_are_stable() {
    assert_eq!(BBBotError::NetworkError.message(), "Network Error");
    assert_eq!(BBBotError::UnitError.message(), "Unit error");
    assert_eq!(BBBotError::SerdeError.message(), "serde Error");
    assert_eq!(BBBotError::VersionError.message(), "Version error");
    assert_eq!(BBBotError::FlashError.message(), "Flash error");
}

#[test]
fn unit_failures_map_to_the_unit_error() {
    assert_eq!(BBBotError::from(()), BBBotError::UnitError);
}

#[test]
fn http_client_failures_map_to_the_network_error() {
    assert_eq!(BBBotError::from(reqwless::Error::Dns), BBBotError::NetworkError);
    assert_eq!(BBBotError::from(reqwless::Error::Codec), BBBotError::NetworkError);
}

#[test]
fn semver_failures_map_to_the_version_error() {
    let e = semver::Version::parse("not a version").unwrap_err();
    assert_eq!(BBBotError::from(e), BBBotError::VersionError);
}
