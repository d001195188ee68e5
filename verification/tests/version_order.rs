use bb_bot_ota::error::BBBotError;
use bb_bot_ota::version::SemVer;

fn v(s: &str) -> SemVer {
    match SemVer::parse_str(s) {
        Ok(v) => v,
        Err(_) => panic!("expected {} to parse", s),
    }
}

fn lt(a: &str, b: &str) -> bool {
    v(a).precedes(&v(b))
}

#[test]
fn parses_plain_version_fields() {
    let p = v("1.2.3");
    assert_eq!(p.major, 1);
    assert_eq!(p.minor, 2);
    assert_eq!(p.patch, 3);
    assert_eq!(p.pre.len(), 0);
    assert_eq!(p.build.len(), 0);
}

#[test]
fn parses_pre_release_and_build_fields() {
    let p = v("1.2.3-alpha.1+build5");
    assert_eq!(p.major, 1);
    assert_eq!(p.minor, 2);
    assert_eq!(p.patch, 3);
    assert_eq!(p.pre.len(), 2);
    assert_eq!(p.pre[0], b"alpha".to_vec());
    assert_eq!(p.pre[1], b"1".to_vec());
    assert_eq!(p.build, b"build5".to_vec());
}

#[test]
fn rejects_malformed_versions() {
    assert_eq!(SemVer::parse_str("1.0").err(), Some(BBBotError::VersionError));
    assert_eq!(SemVer::parse_str("1.0.01").err(), Some(BBBotError::VersionError));
    assert_eq!(SemVer::parse_str("banana").err(), Some(BBBotError::VersionError));
    assert_eq!(SemVer::parse_str("1.0.0-").err(), Some(BBBotError::VersionError));
    assert_eq!(SemVer::parse_str("").err(), Some(BBBotError::VersionError));
}

#[test]
fn rejects_non_ascii_bytes() {
    let bytes = vec![49, 46, 48, 46, 48, 200];
    assert_eq!(SemVer::parse_bytes(&bytes).err(), Some(BBBotError::VersionError));
}

#[test]
fn orders_numeric_fields_numerically() {
    assert!(lt("1.0.0", "1.1.0"));
    assert!(!lt("1.1.0", "1.0.0"));
    assert!(!lt("1.0.0", "1.0.0"));
    assert!(lt("1.0.0", "2.0.0"));
    assert!(lt("1.2.3", "1.2.4"));
    // numeric, not lexical: "10" sorts above "9"
    assert!(lt("9.0.0", "10.0.0"));
    assert!(lt("1.9.0", "1.10.0"));
    assert!(lt("1.0.9", "1.0.10"));
}

#[test]
fn pre_release_sorts_below_release() {
    assert!(lt("1.0.0-alpha", "1.0.0"));
    assert!(!lt("1.0.0", "1.0.0-alpha"));
    // but above the release with lower numbers
    assert!(lt("1.0.0", "1.1.0-alpha"));
}

#[test]
fn pre_release_chain_of_the_semver_specification() {
    let chain = [
        "1.0.0-alpha",
        "1.0.0-alpha.1",
        "1.0.0-alpha.beta",
        "1.0.0-beta",
        "1.0.0-beta.2",
        "1.0.0-beta.11",
        "1.0.0-rc.1",
        "1.0.0",
    ];
    let mut i = 0;
    while i + 1 < chain.len() {
        assert!(lt(chain[i], chain[i + 1]), "{} should precede {}", chain[i], chain[i + 1]);
        assert!(!lt(chain[i + 1], chain[i]), "{} should not precede {}", chain[i + 1], chain[i]);
        i += 1;
    }
}

#[test]
fn numeric_identifiers_sort_below_alphanumeric_ones() {
    assert!(lt("1.0.0-1", "1.0.0-alpha"));
    assert!(!lt("1.0.0-alpha", "1.0.0-1"));
    // numeric identifiers compare numerically, never lexically
    assert!(lt("1.0.0-2", "1.0.0-11"));
    assert!(!lt("1.0.0-11", "1.0.0-2"));
}

#[test]
fn build_metadata_is_ignored_by_the_order() {
    assert!(!lt("1.0.0+b1", "1.0.0+b2"));
    assert!(!lt("1.0.0+b2", "1.0.0+b1"));
    assert!(lt("1.0.0+zzz", "1.0.1+aaa"));
}

#[test]
fn order_agrees_with_the_semver_crate() {
    let samples = [
        "0.1.0",
        "1.0.0",
        "1.0.0-alpha",
        "1.0.0-alpha.1",
        "1.0.0-alpha.beta",
        "1.0.0-beta.11",
        "1.0.0-rc.1",
        "1.0.0+build.7",
        "1.0.1",
        "1.10.0",
        "2.0.0-11",
        "2.0.0-2",
        "2.0.0",
        "10.0.0",
    ];
    for a in samples.iter() {
        for b in samples.iter() {
            let ours = lt(a, b);
            let va = semver::Version::parse(a).unwrap();
            let vb = semver::Version::parse(b).unwrap();
            let theirs = va.cmp_precedence(&vb) == std::cmp::Ordering::Less;
            assert_eq!(ours, theirs, "disagreement on {} < {}", a, b);
        }
    }
}
