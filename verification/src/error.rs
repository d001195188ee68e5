//! The error kinds of the update client.

use vstd::prelude::*;

verus! {

/// Every failure the client can meet in one update cycle, by kind.
///
/// Errors inside a cycle are caught at the cycle boundary and the scheduler
/// retries at the next tick; none of them is fatal to the device.
#[derive(Clone, Copy, Debug, PartialEq, Eq, Structural)]
pub enum BBBotError {
    /// Transport, TLS or HTTP failure, including a non-2xx status.
    NetworkError,
    /// An opaque lower-layer failure that carries no detail.
    UnitError,
    /// The metadata body was not the expected JSON shape.
    SerdeError,
    /// A version string did not parse as a semantic version.
    VersionError,
    /// A flash write would overflow the slot, or flash IO failed.
    FlashError,
}

impl BBBotError {
    /// A short diagnostic label for log output.
    pub fn message(&self) -> (r: &'static str)
        ensures
            r@ == self.spec_message(),
    {
        match self {
            BBBotError::NetworkError => "Network Error",
            BBBotError::UnitError => "Unit error",
            BBBotError::SerdeError => "serde Error",
            BBBotError::VersionError => "Version error",
            BBBotError::FlashError => "Flash error",
        }
    }

    pub open spec fn spec_message(&self) -> Seq<char> {
        match self {
            BBBotError::NetworkError => "Network Error"@,
            BBBotError::UnitError => "Unit error"@,
            BBBotError::SerdeError => "serde Error"@,
            BBBotError::VersionError => "Version error"@,
            BBBotError::FlashError => "Flash error"@,
        }
    }
}

/// `semver::Error` is what `semver::Version::parse` returns on failure; it
/// is opaque here and only ever mapped to `VersionError`.
#[verifier::external_type_specification]
#[verifier::external_body]
pub struct ExSemverError(semver::Error);

impl From<semver::Error> for BBBotError {
    /// An unparseable version, wherever it came from, is a `VersionError`.
    fn from(_error: semver::Error) -> (r: Self) {
        BBBotError::VersionError
    }
}

impl vstd::std_specs::convert::FromSpecImpl<semver::Error> for BBBotError {
    open spec fn obeys_from_spec() -> bool {
        true
    }

    open spec fn from_spec(_error: semver::Error) -> Self {
        BBBotError::VersionError
    }
}

/// `reqwless::Error` is what the HTTP client returns when a request
/// fails underway; it is opaque here and only ever mapped to
/// `NetworkError`.
#[verifier::external_type_specification]
#[verifier::external_body]
pub struct ExReqwlessError(reqwless::Error);

impl From<reqwless::Error> for BBBotError {
    /// Any transport, TLS or HTTP-client failure is a `NetworkError`.
    fn from(_error: reqwless::Error) -> (r: Self) {
        BBBotError::NetworkError
    }
}

impl vstd::std_specs::convert::FromSpecImpl<reqwless::Error> for BBBotError {
    open spec fn obeys_from_spec() -> bool {
        true
    }

    open spec fn from_spec(_error: reqwless::Error) -> Self {
        BBBotError::NetworkError
    }
}

impl From<()> for BBBotError {
    /// An opaque lower-layer failure carries no detail.
    fn from(_unit: ()) -> (r: Self) {
        BBBotError::UnitError
    }
}

impl vstd::std_specs::convert::FromSpecImpl<()> for BBBotError {
    open spec fn obeys_from_spec() -> bool {
        true
    }

    open spec fn from_spec(_unit: ()) -> Self {
        BBBotError::UnitError
    }
}

} // verus!
