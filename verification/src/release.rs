//! The release API client: canonical URLs and metadata decoding.
//!
//! The release server publishes, per project and channel, a small JSON
//! body `{"release":{"version":"<semver>"}}` at a well-known URL, and the
//! raw firmware binary beside it. This module composes those URLs and cuts
//! the version string out of a metadata body; fetching the bytes is the
//! caller's affair.

use vstd::prelude::*;
use vstd::string::StringExecFns;
use crate::error::BBBotError;
use crate::version::SemVer;
use crate::version::SemVerModel;
use crate::version::all_ascii;
use crate::version::chars_of;
use crate::version::parse_ok_model;
use crate::version::semver_parts;

verus! {

/// How many bytes of the binary are fetched and written per chunk: the
/// image streams through a fixed window, never through a full buffer.
pub const DOWNLOAD_CHUNK_BYTES: usize = 4096;

/// Whether the TLS client checks the server certificate.
///
/// There is no default on purpose: disabling verification trusts the
/// network outright. It is the observed deployment choice on the
/// constrained device, but it must be written out, never slipped in.
#[derive(Clone, Copy, Debug, PartialEq, Eq, Structural)]
pub enum TlsMode {
    /// Certificates are not checked. Only for a network that is trusted
    /// by other means.
    VerifyDisabled,
    /// Certificates are checked against the trust roots.
    VerifyFull,
}

/// The TLS posture of every request this process makes: one seed, drawn
/// once at start, and one explicit verification mode.
pub struct TlsSessionConfig {
    pub seed: u64,
    pub mode: TlsMode,
}

impl TlsSessionConfig {
    pub fn new(seed: u64, mode: TlsMode) -> (r: TlsSessionConfig)
        ensures
            r.seed == seed,
            r.mode == mode,
    {
        TlsSessionConfig { seed, mode }
    }
}

/// Join the two halves of the TLS session seed.
///
/// The seed is drawn once at process start, as two 32-bit values, and
/// reused for every handshake in the process lifetime: a deliberate
/// low-entropy-cost tradeoff.
pub fn tls_seed_from_parts(lo: u32, hi: u32) -> (r: u64)
    ensures
        r == (hi as u64) * 0x100000000 + (lo as u64),
{
    let r = ((hi as u64) << 32u64) | (lo as u64);
    proof {
        assert(((hi as u64) << 32u64) | (lo as u64) == (hi as u64) * 0x100000000 + (
        lo as u64)) by (bit_vector);
    }
    r
}

/// Where one project's release channel lives on the server.
pub struct ReleaseEndpoint {
    pub base: String,
    pub project: String,
    pub channel: String,
}

impl ReleaseEndpoint {
    pub fn new(base: String, project: String, channel: String) -> (r: ReleaseEndpoint)
        ensures
            r.base@ == base@,
            r.project@ == project@,
            r.channel@ == channel@,
    {
        ReleaseEndpoint { base, project, channel }
    }

    /// The canonical URL of the latest-release metadata.
    pub open spec fn spec_latest_url(&self) -> Seq<char> {
        self.base@ + "/"@ + self.project@ + "/"@ + self.channel@ + "/latest"@
    }

    /// The canonical URL of the latest-release binary.
    pub open spec fn spec_latest_binary_url(&self) -> Seq<char> {
        self.spec_latest_url() + "/binary"@
    }

    /// Compose `{base}/{project}/{channel}/latest`.
    pub fn latest_url(&self) -> (r: String)
        ensures
            r@ == self.spec_latest_url(),
    {
        let mut u = self.base.clone();
        u.append("/");
        u.append(self.project.as_str());
        u.append("/");
        u.append(self.channel.as_str());
        u.append("/latest");
        u
    }

    /// Compose `{base}/{project}/{channel}/latest/binary`.
    pub fn latest_binary_url(&self) -> (r: String)
        ensures
            r@ == self.spec_latest_binary_url(),
    {
        let mut u = self.latest_url();
        u.append("/binary");
        u
    }
}

/// A JSON whitespace byte.
pub open spec fn is_ws(b: u8) -> bool {
    b == 32 || b == 9 || b == 10 || b == 13
}

/// The first index at or after `i` that does not hold whitespace.
pub open spec fn ws_end(s: Seq<u8>, i: int) -> int
    decreases s.len() - i,
{
    if 0 <= i < s.len() && is_ws(s[i]) {
        ws_end(s, i + 1)
    } else {
        i
    }
}

/// The byte at `i` is `b`.
pub open spec fn byte_at(s: Seq<u8>, i: int, b: u8) -> bool {
    0 <= i < s.len() && s[i] == b
}

/// The nine bytes of `"release"`, quotes included, start at `i`.
pub open spec fn release_key_at(s: Seq<u8>, i: int) -> bool {
    &&& 0 <= i
    &&& i + 9 <= s.len()
    &&& s[i] == 34
    &&& s[i + 1] == 114
    &&& s[i + 2] == 101
    &&& s[i + 3] == 108
    &&& s[i + 4] == 101
    &&& s[i + 5] == 97
    &&& s[i + 6] == 115
    &&& s[i + 7] == 101
    &&& s[i + 8] == 34
}

/// The nine bytes of `"version"`, quotes included, start at `i`.
pub open spec fn version_key_at(s: Seq<u8>, i: int) -> bool {
    &&& 0 <= i
    &&& i + 9 <= s.len()
    &&& s[i] == 34
    &&& s[i + 1] == 118
    &&& s[i + 2] == 101
    &&& s[i + 3] == 114
    &&& s[i + 4] == 115
    &&& s[i + 5] == 105
    &&& s[i + 6] == 111
    &&& s[i + 7] == 110
    &&& s[i + 8] == 34
}

/// A byte allowed inside the quoted version string: printable ASCII other
/// than the quote and the backslash.
pub open spec fn vchar(b: u8) -> bool {
    32 <= b <= 126 && b != 34 && b != 92
}

/// The first index at or after `i` whose byte cannot sit inside the quoted
/// version string.
pub open spec fn str_end(s: Seq<u8>, i: int) -> int
    decreases s.len() - i,
{
    if 0 <= i < s.len() && vchar(s[i]) {
        str_end(s, i + 1)
    } else {
        i
    }
}

/// What a metadata body means: `Some` of the version-string bytes when the
/// body is `{"release":{"version":"..."}}` with arbitrary whitespace
/// between tokens, `None` for every other body.
pub open spec fn spec_parse_metadata(s: Seq<u8>) -> Option<Seq<u8>> {
    let i0 = ws_end(s, 0);
    let i1 = ws_end(s, i0 + 1);
    let i2 = ws_end(s, i1 + 9);
    let i3 = ws_end(s, i2 + 1);
    let i4 = ws_end(s, i3 + 1);
    let i5 = ws_end(s, i4 + 9);
    let i6 = ws_end(s, i5 + 1);
    let j = str_end(s, i6 + 1);
    let i7 = ws_end(s, j + 1);
    let i8 = ws_end(s, i7 + 1);
    let i9 = ws_end(s, i8 + 1);
    if byte_at(s, i0, 123) && release_key_at(s, i1) && byte_at(s, i2, 58) && byte_at(s, i3, 123)
        && version_key_at(s, i4) && byte_at(s, i5, 58) && byte_at(s, i6, 34) && byte_at(s, j, 34)
        && byte_at(s, i7, 125) && byte_at(s, i8, 125) && i9 == s.len() {
        Some(s.subrange(i6 + 1, j))
    } else {
        None
    }
}

fn skip_ws(s: &[u8], i: usize) -> (r: usize)
    requires
        i <= s@.len(),
    ensures
        i <= r <= s@.len(),
        r == ws_end(s@, i as int),
{
    let mut c: usize = i;
    while c < s.len() && (s[c] == 32 || s[c] == 9 || s[c] == 10 || s[c] == 13)
        invariant
            i <= c <= s@.len(),
            ws_end(s@, i as int) == ws_end(s@, c as int),
        decreases s@.len() - c,
    {
        c = c + 1;
    }
    c
}

fn scan_string(s: &[u8], i: usize) -> (r: usize)
    requires
        i <= s@.len(),
    ensures
        i <= r <= s@.len(),
        r == str_end(s@, i as int),
{
    let mut c: usize = i;
    while c < s.len() && 32 <= s[c] && s[c] <= 126 && s[c] != 34 && s[c] != 92
        invariant
            i <= c <= s@.len(),
            str_end(s@, i as int) == str_end(s@, c as int),
        decreases s@.len() - c,
    {
        c = c + 1;
    }
    c
}

fn copy_range(s: &[u8], a: usize, b: usize) -> (r: Vec<u8>)
    requires
        a <= b <= s@.len(),
    ensures
        r@ =~= s@.subrange(a as int, b as int),
{
    let mut r: Vec<u8> = Vec::new();
    let mut i: usize = a;
    while i < b
        invariant
            a <= i <= b <= s@.len(),
            r@ =~= s@.subrange(a as int, i as int),
        decreases b - i,
    {
        r.push(s[i]);
        proof {
            assert(r@ =~= s@.subrange(a as int, i as int + 1));
        }
        i = i + 1;
    }
    r
}

fn key_release_at(s: &[u8], i: usize) -> (r: bool)
    requires
        i <= s@.len(),
    ensures
        r == release_key_at(s@, i as int),
{
    if s.len() - i < 9 {
        return false;
    }
    s[i] == 34 && s[i + 1] == 114 && s[i + 2] == 101 && s[i + 3] == 108 && s[i + 4] == 101 && s[i
        + 5] == 97 && s[i + 6] == 115 && s[i + 7] == 101 && s[i + 8] == 34
}

fn key_version_at(s: &[u8], i: usize) -> (r: bool)
    requires
        i <= s@.len(),
    ensures
        r == version_key_at(s@, i as int),
{
    if s.len() - i < 9 {
        return false;
    }
    s[i] == 34 && s[i + 1] == 118 && s[i + 2] == 101 && s[i + 3] == 114 && s[i + 4] == 115 && s[i
        + 5] == 105 && s[i + 6] == 111 && s[i + 7] == 110 && s[i + 8] == 34
}

/// Cut the version-string bytes out of a metadata body.
///
/// A body of any other shape is a `SerdeError`, never a crash.
pub fn parse_release_version(body: &[u8]) -> (r: Result<Vec<u8>, BBBotError>)
    ensures
        match r {
            Ok(v) => spec_parse_metadata(body@) == Some(v@),
            Err(e) => e == BBBotError::SerdeError && spec_parse_metadata(body@) is None,
        },
{
    let i0 = skip_ws(body, 0);
    if !(i0 < body.len() && body[i0] == 123) {
        return Err(BBBotError::SerdeError);
    }
    let i1 = skip_ws(body, i0 + 1);
    if !key_release_at(body, i1) {
        return Err(BBBotError::SerdeError);
    }
    let i2 = skip_ws(body, i1 + 9);
    if !(i2 < body.len() && body[i2] == 58) {
        return Err(BBBotError::SerdeError);
    }
    let i3 = skip_ws(body, i2 + 1);
    if !(i3 < body.len() && body[i3] == 123) {
        return Err(BBBotError::SerdeError);
    }
    let i4 = skip_ws(body, i3 + 1);
    if !key_version_at(body, i4) {
        return Err(BBBotError::SerdeError);
    }
    let i5 = skip_ws(body, i4 + 9);
    if !(i5 < body.len() && body[i5] == 58) {
        return Err(BBBotError::SerdeError);
    }
    let i6 = skip_ws(body, i5 + 1);
    if !(i6 < body.len() && body[i6] == 34) {
        return Err(BBBotError::SerdeError);
    }
    let j = scan_string(body, i6 + 1);
    if !(j < body.len() && body[j] == 34) {
        return Err(BBBotError::SerdeError);
    }
    let i7 = skip_ws(body, j + 1);
    if !(i7 < body.len() && body[i7] == 125) {
        return Err(BBBotError::SerdeError);
    }
    let i8 = skip_ws(body, i7 + 1);
    if !(i8 < body.len() && body[i8] == 125) {
        return Err(BBBotError::SerdeError);
    }
    let i9 = skip_ws(body, i8 + 1);
    if i9 != body.len() {
        return Err(BBBotError::SerdeError);
    }
    Ok(copy_range(body, i6 + 1, j))
}

/// A 2xx HTTP status.
pub open spec fn is_2xx(status: u16) -> bool {
    200 <= status < 300
}

/// What one metadata response means: the reported version, or the one
/// error its failure mode maps to. A non-2xx status is a `NetworkError`; a
/// body of the wrong shape is a `SerdeError`; a version string that is not
/// a semantic version is a `VersionError`.
pub open spec fn spec_decode_version(status: u16, body: Seq<u8>) -> Result<SemVerModel, BBBotError> {
    if !is_2xx(status) {
        Err(BBBotError::NetworkError)
    } else {
        match spec_parse_metadata(body) {
            Option::None => Err(BBBotError::SerdeError),
            Option::Some(vb) => if !all_ascii(vb) {
                Err(BBBotError::VersionError)
            } else {
                match semver_parts(chars_of(vb)) {
                    Option::None => Err(BBBotError::VersionError),
                    Option::Some(parts) => Ok(parse_ok_model(parts)),
                }
            },
        }
    }
}

/// Decode one metadata response into the version the server reports.
///
/// Exactly the well-shaped 2xx responses yield a version; every other
/// response yields the error `spec_decode_version` names for it.
pub fn read_version_from_response(status: u16, body: &[u8]) -> (r: Result<SemVer, BBBotError>)
    ensures
        match r {
            Ok(v) => spec_decode_version(status, body@) == Ok::<SemVerModel, BBBotError>(v@)
                && v.wf(),
            Err(e) => spec_decode_version(status, body@) == Err::<SemVerModel, BBBotError>(e),
        },
{
    if status < 200 || status >= 300 {
        return Err(BBBotError::NetworkError);
    }
    let vb = match parse_release_version(body) {
        Ok(vb) => vb,
        Err(e) => {
            return Err(e);
        },
    };
    SemVer::parse_bytes(vb.as_slice())
}

} // verus!
