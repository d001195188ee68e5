//! Semantic versions and their total order.
//!
//! A version is `major.minor.patch`, optionally followed by `-` and
//! dot-separated pre-release identifiers, optionally followed by `+` and
//! build metadata. Identifiers are kept as their ASCII bytes. The order is
//! the semantic-versioning precedence: the three numeric fields compare
//! numerically; a pre-release sorts below the plain release with the same
//! numbers; pre-release identifiers compare element by element, numeric
//! identifiers numerically and below alphanumeric ones, alphanumeric ones
//! in ASCII order; build metadata never takes part in the order.

use vstd::prelude::*;
use crate::error::BBBotError;

verus! {

/// A parsed semantic version.
///
/// `pre` holds the pre-release identifiers in order, one `Vec<u8>` of ASCII
/// bytes each; it is empty for a release version. `build` holds the raw
/// build metadata after `+`, empty when there is none.
pub struct SemVer {
    pub major: u64,
    pub minor: u64,
    pub patch: u64,
    pub pre: Vec<Vec<u8>>,
    pub build: Vec<u8>,
}

/// The mathematical shape of a version: what the order speaks about.
#[verifier::ext_equal]
pub struct SemVerModel {
    pub major: int,
    pub minor: int,
    pub patch: int,
    pub pre: Seq<Seq<u8>>,
    pub build: Seq<u8>,
}

/// The byte sequences of a list of identifiers.
pub open spec fn idents_of(p: Seq<Vec<u8>>) -> Seq<Seq<u8>> {
    p.map_values(|v: Vec<u8>| v@)
}

impl View for SemVer {
    type V = SemVerModel;

    open spec fn view(&self) -> SemVerModel {
        SemVerModel {
            major: self.major as int,
            minor: self.minor as int,
            patch: self.patch as int,
            pre: idents_of(self.pre@),
            build: self.build@,
        }
    }
}

pub open spec fn is_digit(b: u8) -> bool {
    48 <= b <= 57
}

/// A numeric identifier: nonempty, digits only.
pub open spec fn ident_is_numeric(s: Seq<u8>) -> bool {
    s.len() > 0 && forall|i: int| 0 <= i < s.len() ==> is_digit(#[trigger] s[i])
}

/// Strict lexicographic order on byte sequences: the first differing byte
/// decides; a strict prefix sorts first.
pub open spec fn lex_lt(a: Seq<u8>, b: Seq<u8>) -> bool
    decreases a.len() + b.len(),
{
    if b.len() == 0 {
        false
    } else if a.len() == 0 {
        true
    } else if a[0] != b[0] {
        a[0] < b[0]
    } else {
        lex_lt(a.drop_first(), b.drop_first())
    }
}

/// Numeric order on digit strings without leading zeros: a shorter string
/// is a smaller number; equal lengths compare digit by digit.
pub open spec fn num_lt(a: Seq<u8>, b: Seq<u8>) -> bool {
    a.len() < b.len() || (a.len() == b.len() && lex_lt(a, b))
}

/// The order on single pre-release identifiers: numeric ones compare
/// numerically and sort below alphanumeric ones; alphanumeric ones compare
/// in ASCII order.
pub open spec fn ident_lt(a: Seq<u8>, b: Seq<u8>) -> bool {
    if ident_is_numeric(a) && ident_is_numeric(b) {
        num_lt(a, b)
    } else if ident_is_numeric(a) {
        true
    } else if ident_is_numeric(b) {
        false
    } else {
        lex_lt(a, b)
    }
}

/// The order on two nonempty identifier lists: the first differing
/// identifier decides; a strict prefix sorts first.
pub open spec fn idents_lt(a: Seq<Seq<u8>>, b: Seq<Seq<u8>>) -> bool
    decreases a.len() + b.len(),
{
    if b.len() == 0 {
        false
    } else if a.len() == 0 {
        true
    } else if a[0] == b[0] {
        idents_lt(a.drop_first(), b.drop_first())
    } else {
        ident_lt(a[0], b[0])
    }
}

/// The order on the pre-release part as a whole: any pre-release sorts
/// below the release (empty list); two pre-releases compare by identifiers.
pub open spec fn pre_lt(a: Seq<Seq<u8>>, b: Seq<Seq<u8>>) -> bool {
    if a.len() == 0 {
        false
    } else if b.len() == 0 {
        true
    } else {
        idents_lt(a, b)
    }
}

/// Strict precedence between versions: numeric fields first, then the
/// pre-release part; build metadata is ignored.
pub open spec fn precedence_lt(a: SemVerModel, b: SemVerModel) -> bool {
    if a.major != b.major {
        a.major < b.major
    } else if a.minor != b.minor {
        a.minor < b.minor
    } else if a.patch != b.patch {
        a.patch < b.patch
    } else {
        pre_lt(a.pre, b.pre)
    }
}

/// Equal precedence: the same numeric fields and the same pre-release
/// identifiers; build metadata is ignored.
pub open spec fn precedence_eq(a: SemVerModel, b: SemVerModel) -> bool {
    a.major == b.major && a.minor == b.minor && a.patch == b.patch && a.pre =~= b.pre
}

fn ident_numeric_exec(a: &Vec<u8>) -> (r: bool)
    ensures
        r == ident_is_numeric(a@),
{
    if a.len() == 0 {
        return false;
    }
    let mut i: usize = 0;
    while i < a.len()
        invariant
            0 <= i <= a.len(),
            forall|j: int| 0 <= j < i ==> is_digit(#[trigger] a@[j]),
        decreases a.len() - i,
    {
        if !(48 <= a[i] && a[i] <= 57) {
            return false;
        }
        i = i + 1;
    }
    true
}

fn lex_lt_at(a: &Vec<u8>, b: &Vec<u8>, i: usize) -> (r: bool)
    requires
        i <= a.len(),
        i <= b.len(),
    ensures
        r == lex_lt(a@.skip(i as int), b@.skip(i as int)),
    decreases a.len() - i,
{
    proof {
        assert(a@.skip(i as int).len() == a@.len() - i);
        assert(b@.skip(i as int).len() == b@.len() - i);
    }
    if i == b.len() {
        false
    } else if i == a.len() {
        true
    } else if a[i] != b[i] {
        proof {
            assert(a@.skip(i as int)[0] == a@[i as int]);
            assert(b@.skip(i as int)[0] == b@[i as int]);
        }
        a[i] < b[i]
    } else {
        let r = lex_lt_at(a, b, i + 1);
        proof {
            assert(a@.skip(i as int)[0] == a@[i as int]);
            assert(b@.skip(i as int)[0] == b@[i as int]);
            assert(a@.skip(i as int).drop_first() =~= a@.skip(i as int + 1));
            assert(b@.skip(i as int).drop_first() =~= b@.skip(i as int + 1));
        }
        r
    }
}

fn lex_lt_exec(a: &Vec<u8>, b: &Vec<u8>) -> (r: bool)
    ensures
        r == lex_lt(a@, b@),
{
    let r = lex_lt_at(a, b, 0);
    proof {
        assert(a@.skip(0) =~= a@);
        assert(b@.skip(0) =~= b@);
    }
    r
}

fn bytes_eq(a: &Vec<u8>, b: &Vec<u8>) -> (r: bool)
    ensures
        r == (a@ =~= b@),
{
    if a.len() != b.len() {
        return false;
    }
    let mut i: usize = 0;
    while i < a.len()
        invariant
            0 <= i <= a.len(),
            a.len() == b.len(),
            forall|j: int| 0 <= j < i ==> a@[j] == b@[j],
        decreases a.len() - i,
    {
        if a[i] != b[i] {
            return false;
        }
        i = i + 1;
    }
    proof {
        assert(a@ =~= b@);
    }
    true
}

fn ident_lt_exec(a: &Vec<u8>, b: &Vec<u8>) -> (r: bool)
    ensures
        r == ident_lt(a@, b@),
{
    let a_num = ident_numeric_exec(a);
    let b_num = ident_numeric_exec(b);
    if a_num && b_num {
        if a.len() != b.len() {
            a.len() < b.len()
        } else {
            lex_lt_exec(a, b)
        }
    } else if a_num {
        true
    } else if b_num {
        false
    } else {
        lex_lt_exec(a, b)
    }
}

fn idents_lt_at(a: &Vec<Vec<u8>>, b: &Vec<Vec<u8>>, i: usize) -> (r: bool)
    requires
        i <= a.len(),
        i <= b.len(),
    ensures
        r == idents_lt(idents_of(a@).skip(i as int), idents_of(b@).skip(i as int)),
    decreases a.len() - i,
{
    proof {
        assert(idents_of(a@).len() == a@.len());
        assert(idents_of(b@).len() == b@.len());
    }
    if i == b.len() {
        false
    } else if i == a.len() {
        true
    } else {
        proof {
            assert(idents_of(a@).skip(i as int)[0] == idents_of(a@)[i as int]);
            assert(idents_of(b@).skip(i as int)[0] == idents_of(b@)[i as int]);
            assert(idents_of(a@)[i as int] == a@[i as int]@);
            assert(idents_of(b@)[i as int] == b@[i as int]@);
        }
        if bytes_eq(&a[i], &b[i]) {
            let r = idents_lt_at(a, b, i + 1);
            proof {
                assert(idents_of(a@).skip(i as int).drop_first() =~= idents_of(a@).skip(
                    i as int + 1,
                ));
                assert(idents_of(b@).skip(i as int).drop_first() =~= idents_of(b@).skip(
                    i as int + 1,
                ));
            }
            r
        } else {
            ident_lt_exec(&a[i], &b[i])
        }
    }
}

fn pre_lt_exec(a: &Vec<Vec<u8>>, b: &Vec<Vec<u8>>) -> (r: bool)
    ensures
        r == pre_lt(idents_of(a@), idents_of(b@)),
{
    proof {
        assert(idents_of(a@).len() == a@.len());
        assert(idents_of(b@).len() == b@.len());
    }
    if a.len() == 0 {
        false
    } else if b.len() == 0 {
        true
    } else {
        let r = idents_lt_at(a, b, 0);
        proof {
            assert(idents_of(a@).skip(0) =~= idents_of(a@));
            assert(idents_of(b@).skip(0) =~= idents_of(b@));
        }
        r
    }
}

proof fn lemma_lex_irrefl(a: Seq<u8>)
    ensures
        !lex_lt(a, a),
    decreases a.len(),
{
    if a.len() > 0 {
        lemma_lex_irrefl(a.drop_first());
    }
}

proof fn lemma_lex_trans(a: Seq<u8>, b: Seq<u8>, c: Seq<u8>)
    requires
        lex_lt(a, b),
        lex_lt(b, c),
    ensures
        lex_lt(a, c),
    decreases a.len(),
{
    if a.len() > 0 {
        assert(b.len() > 0);
        assert(c.len() > 0);
        if a[0] == b[0] && b[0] == c[0] {
            lemma_lex_trans(a.drop_first(), b.drop_first(), c.drop_first());
        }
    }
}

proof fn lemma_lex_trichotomy(a: Seq<u8>, b: Seq<u8>)
    ensures
        lex_lt(a, b) || lex_lt(b, a) || a == b,
    decreases a.len(),
{
    if a.len() == 0 && b.len() == 0 {
        assert(a =~= b);
    } else if a.len() > 0 && b.len() > 0 && a[0] == b[0] {
        lemma_lex_trichotomy(a.drop_first(), b.drop_first());
        if a.drop_first() == b.drop_first() {
            assert forall|i: int| 0 <= i < a.len() implies a[i] == b[i] by {
                if i > 0 {
                    assert(a[i] == a.drop_first()[i - 1]);
                    assert(b[i] == b.drop_first()[i - 1]);
                }
            }
            assert(a =~= b);
        }
    }
}

proof fn lemma_num_trans(a: Seq<u8>, b: Seq<u8>, c: Seq<u8>)
    requires
        num_lt(a, b),
        num_lt(b, c),
    ensures
        num_lt(a, c),
{
    if a.len() == b.len() && b.len() == c.len() {
        lemma_lex_trans(a, b, c);
    }
}

proof fn lemma_num_trichotomy(a: Seq<u8>, b: Seq<u8>)
    ensures
        num_lt(a, b) || num_lt(b, a) || a == b,
{
    if a.len() == b.len() {
        lemma_lex_trichotomy(a, b);
    }
}

proof fn lemma_ident_irrefl(a: Seq<u8>)
    ensures
        !ident_lt(a, a),
{
    lemma_lex_irrefl(a);
}

proof fn lemma_ident_trans(a: Seq<u8>, b: Seq<u8>, c: Seq<u8>)
    requires
        ident_lt(a, b),
        ident_lt(b, c),
    ensures
        ident_lt(a, c),
{
    if ident_is_numeric(a) && ident_is_numeric(b) && ident_is_numeric(c) {
        lemma_num_trans(a, b, c);
    } else if !ident_is_numeric(a) && !ident_is_numeric(b) && !ident_is_numeric(c) {
        lemma_lex_trans(a, b, c);
    }
}

proof fn lemma_ident_trichotomy(a: Seq<u8>, b: Seq<u8>)
    ensures
        ident_lt(a, b) || ident_lt(b, a) || a == b,
{
    if ident_is_numeric(a) && ident_is_numeric(b) {
        lemma_num_trichotomy(a, b);
    } else if !ident_is_numeric(a) && !ident_is_numeric(b) {
        lemma_lex_trichotomy(a, b);
    }
}

proof fn lemma_idents_irrefl(a: Seq<Seq<u8>>)
    ensures
        !idents_lt(a, a),
    decreases a.len(),
{
    if a.len() > 0 {
        lemma_idents_irrefl(a.drop_first());
    }
}

proof fn lemma_idents_trans(a: Seq<Seq<u8>>, b: Seq<Seq<u8>>, c: Seq<Seq<u8>>)
    requires
        idents_lt(a, b),
        idents_lt(b, c),
    ensures
        idents_lt(a, c),
    decreases a.len(),
{
    if a.len() > 0 {
        assert(b.len() > 0);
        assert(c.len() > 0);
        if a[0] == b[0] && b[0] == c[0] {
            lemma_idents_trans(a.drop_first(), b.drop_first(), c.drop_first());
        } else if a[0] != b[0] && b[0] != c[0] {
            lemma_ident_trans(a[0], b[0], c[0]);
            if a[0] == c[0] {
                lemma_ident_irrefl(a[0]);
            }
        }
    }
}

proof fn lemma_idents_trichotomy(a: Seq<Seq<u8>>, b: Seq<Seq<u8>>)
    ensures
        idents_lt(a, b) || idents_lt(b, a) || a == b,
    decreases a.len(),
{
    if a.len() == 0 && b.len() == 0 {
        assert(a =~= b);
    } else if a.len() > 0 && b.len() > 0 {
        if a[0] == b[0] {
            lemma_idents_trichotomy(a.drop_first(), b.drop_first());
            if a.drop_first() == b.drop_first() {
                assert forall|i: int| 0 <= i < a.len() implies a[i] == b[i] by {
                    if i > 0 {
                        assert(a[i] == a.drop_first()[i - 1]);
                        assert(b[i] == b.drop_first()[i - 1]);
                    }
                }
                assert(a =~= b);
            }
        } else {
            lemma_ident_trichotomy(a[0], b[0]);
        }
    }
}

proof fn lemma_pre_irrefl(a: Seq<Seq<u8>>)
    ensures
        !pre_lt(a, a),
{
    if a.len() > 0 {
        lemma_idents_irrefl(a);
    }
}

proof fn lemma_pre_trans(a: Seq<Seq<u8>>, b: Seq<Seq<u8>>, c: Seq<Seq<u8>>)
    requires
        pre_lt(a, b),
        pre_lt(b, c),
    ensures
        pre_lt(a, c),
{
    if a.len() > 0 && b.len() > 0 && c.len() > 0 {
        lemma_idents_trans(a, b, c);
    }
}

proof fn lemma_pre_trichotomy(a: Seq<Seq<u8>>, b: Seq<Seq<u8>>)
    ensures
        pre_lt(a, b) || pre_lt(b, a) || a == b,
{
    if a.len() == 0 && b.len() == 0 {
        assert(a =~= b);
    } else if a.len() > 0 && b.len() > 0 {
        lemma_idents_trichotomy(a, b);
    }
}

/// Precedence never holds of a version against itself.
pub proof fn lemma_precedence_irreflexive(a: SemVerModel)
    ensures
        !precedence_lt(a, a),
{
    lemma_pre_irrefl(a.pre);
}

/// Precedence is transitive.
pub proof fn lemma_precedence_transitive(a: SemVerModel, b: SemVerModel, c: SemVerModel)
    requires
        precedence_lt(a, b),
        precedence_lt(b, c),
    ensures
        precedence_lt(a, c),
{
    if a.major == b.major && b.major == c.major && a.minor == b.minor && b.minor == c.minor
        && a.patch == b.patch && b.patch == c.patch {
        lemma_pre_trans(a.pre, b.pre, c.pre);
    }
}

/// Precedence is a total order: of two versions exactly one of "first
/// precedes second", "second precedes first", "equal precedence" holds.
/// Build metadata is ignored throughout, as the order asks.
pub proof fn lemma_precedence_trichotomy(a: SemVerModel, b: SemVerModel)
    ensures
        precedence_lt(a, b) || precedence_lt(b, a) || precedence_eq(a, b),
        precedence_lt(a, b) ==> !precedence_lt(b, a) && !precedence_eq(a, b),
        precedence_eq(a, b) ==> !precedence_lt(a, b) && !precedence_lt(b, a),
{
    if a.major == b.major && a.minor == b.minor && a.patch == b.patch {
        lemma_pre_trichotomy(a.pre, b.pre);
    }
    if precedence_lt(a, b) && precedence_lt(b, a) {
        lemma_precedence_transitive(a, b, a);
        lemma_precedence_irreflexive(a);
    }
    if precedence_eq(a, b) {
        lemma_pre_irrefl(a.pre);
        assert(a.pre == b.pre);
    }
}

/// A byte allowed inside a pre-release or build identifier.
pub open spec fn ident_char(b: u8) -> bool {
    is_digit(b) || (65 <= b <= 90) || (97 <= b <= 122) || b == 45
}

/// A well-formed pre-release identifier: nonempty, over the allowed
/// characters, and without a leading zero when numeric.
pub open spec fn wf_ident(s: Seq<u8>) -> bool {
    &&& s.len() > 0
    &&& forall|i: int| 0 <= i < s.len() ==> ident_char(#[trigger] s[i])
    &&& (ident_is_numeric(s) && s.len() > 1 ==> s[0] != 48)
}

/// A well-formed build identifier: as above, but a leading zero is allowed.
pub open spec fn wf_build_ident(s: Seq<u8>) -> bool {
    s.len() > 0 && forall|i: int| 0 <= i < s.len() ==> ident_char(#[trigger] s[i])
}

/// The index of the first `.` in `s`, or `s.len()` if there is none.
pub open spec fn first_dot(s: Seq<u8>) -> int
    decreases s.len(),
{
    if s.len() == 0 {
        0
    } else if s[0] == 46 {
        0
    } else {
        1 + first_dot(s.drop_first())
    }
}

/// `s` cut at every `.`; the empty sequence yields one empty part.
pub open spec fn split_dot(s: Seq<u8>) -> Seq<Seq<u8>>
    decreases s.len(),
{
    if s.len() == 0 {
        seq![s]
    } else {
        let d = first_dot(s);
        if 0 <= d < s.len() {
            seq![s.subrange(0, d)] + split_dot(s.subrange(d + 1, s.len() as int))
        } else {
            seq![s]
        }
    }
}

/// A whole pre-release string is well formed when every dot-separated part
/// is a well-formed identifier; the empty string has no parts.
pub open spec fn wf_pre_bytes(s: Seq<u8>) -> bool {
    s.len() == 0 || forall|i: int|
        0 <= i < split_dot(s).len() ==> wf_ident(#[trigger] split_dot(s)[i])
}

/// A whole build-metadata string is well formed when every dot-separated
/// part is a well-formed build identifier.
pub open spec fn wf_build_bytes(s: Seq<u8>) -> bool {
    s.len() == 0 || forall|i: int|
        0 <= i < split_dot(s).len() ==> wf_build_ident(#[trigger] split_dot(s)[i])
}

/// The pre-release identifier list of a raw pre-release string: empty for
/// the empty string, else the dot-separated parts.
pub open spec fn pre_idents_of_bytes(s: Seq<u8>) -> Seq<Seq<u8>> {
    if s.len() == 0 {
        Seq::empty()
    } else {
        split_dot(s)
    }
}

proof fn lemma_first_dot_bounds(s: Seq<u8>)
    ensures
        0 <= first_dot(s) <= s.len(),
        first_dot(s) < s.len() ==> s[first_dot(s)] == 46,
        forall|k: int| 0 <= k < first_dot(s) ==> s[k] != 46,
    decreases s.len(),
{
    if s.len() == 0 {
    } else if s[0] == 46 {
    } else {
        lemma_first_dot_bounds(s.drop_first());
        assert forall|k: int| 0 <= k < first_dot(s) implies s[k] != 46 by {
            if k > 0 {
                assert(s.drop_first()[k - 1] == s[k]);
            }
        }
        if first_dot(s) < s.len() {
            assert(s.drop_first()[first_dot(s) - 1] == s[first_dot(s)]);
        }
    }
}

proof fn lemma_first_dot_unique(s: Seq<u8>, j: int)
    requires
        0 <= j <= s.len(),
        j < s.len() ==> s[j] == 46,
        forall|k: int| 0 <= k < j ==> s[k] != 46,
    ensures
        first_dot(s) == j,
    decreases s.len(),
{
    if s.len() == 0 {
    } else if j == 0 {
    } else {
        assert(s[0] != 46);
        assert forall|k: int| 0 <= k < j - 1 implies s.drop_first()[k] != 46 by {
            assert(s.drop_first()[k] == s[k + 1]);
        }
        if j - 1 < s.drop_first().len() {
            assert(s.drop_first()[j - 1] == s[j]);
        }
        lemma_first_dot_unique(s.drop_first(), j - 1);
    }
}

/// What `semver::Version::parse` returns for a given text; the pre-release
/// and build parts are the ASCII bytes of their joined string forms.
pub uninterp spec fn semver_parts(s: Seq<char>) -> Option<(u64, u64, u64, Seq<u8>, Seq<u8>)>;

/// The parsed fields of a version, with the pre-release and build parts
/// still undivided, as the parser hands them over.
pub struct RawVersion {
    pub major: u64,
    pub minor: u64,
    pub patch: u64,
    pub pre: Vec<u8>,
    pub build: Vec<u8>,
}

/// Relies on `semver::Version::parse`: which strings it accepts and what
/// fields it fills depend on the text alone. Its pre-release and build
/// parts are dot-separated nonempty identifiers over `0-9 A-Z a-z -`, and
/// a numeric pre-release identifier never has a leading zero.
#[verifier::external_body]
fn semver_parse_raw(s: &str) -> (r: Result<RawVersion, semver::Error>)
    ensures
        match r {
            Ok(raw) => semver_parts(s@) == Some(
                (raw.major, raw.minor, raw.patch, raw.pre@, raw.build@),
            ) && wf_pre_bytes(raw.pre@) && wf_build_bytes(raw.build@),
            Err(_) => semver_parts(s@) is None,
        },
{
    match semver::Version::parse(s) {
        Ok(v) => Ok(
            RawVersion {
                major: v.major,
                minor: v.minor,
                patch: v.patch,
                pre: v.pre.as_str().as_bytes().to_vec(),
                build: v.build.as_str().as_bytes().to_vec(),
            },
        ),
        Err(e) => Err(e),
    }
}

fn copy_range(v: &Vec<u8>, a: usize, b: usize) -> (r: Vec<u8>)
    requires
        a <= b <= v.len(),
    ensures
        r@ =~= v@.subrange(a as int, b as int),
{
    let mut r: Vec<u8> = Vec::new();
    let mut i: usize = a;
    while i < b
        invariant
            a <= i <= b <= v.len(),
            r@ =~= v@.subrange(a as int, i as int),
        decreases b - i,
    {
        r.push(v[i]);
        proof {
            assert(r@ =~= v@.subrange(a as int, i as int + 1));
        }
        i = i + 1;
    }
    r
}

fn split_acc(pre: &Vec<u8>, start: usize, acc: &mut Vec<Vec<u8>>)
    requires
        start <= pre.len(),
    ensures
        idents_of(final(acc)@) =~= idents_of(old(acc)@) + split_dot(pre@.skip(start as int)),
    decreases pre.len() - start,
{
    let ghost t = pre@.skip(start as int);
    let mut d: usize = start;
    while d < pre.len() && pre[d] != 46
        invariant
            start <= d <= pre.len(),
            forall|k: int| start <= k < d ==> pre@[k] != 46,
        decreases pre.len() - d,
    {
        d = d + 1;
    }
    proof {
        assert forall|k: int| 0 <= k < d - start implies t[k] != 46 by {
            assert(t[k] == pre@[start + k]);
        }
        if d < pre.len() {
            assert(t[d - start] == pre@[d as int]);
        }
        lemma_first_dot_unique(t, d - start);
    }
    let seg = copy_range(pre, start, d);
    proof {
        assert(seg@ =~= t.subrange(0, d - start));
    }
    acc.push(seg);
    if d < pre.len() {
        let ghost acc_mid = acc@;
        split_acc(pre, d + 1, acc);
        proof {
            assert(t.subrange(d - start + 1, t.len() as int) =~= pre@.skip(d + 1));
            assert(split_dot(t) =~= seq![t.subrange(0, d - start)] + split_dot(
                t.subrange(d - start + 1, t.len() as int),
            ));
            assert(idents_of(acc_mid) =~= idents_of(old(acc)@).push(seg@));
            assert(idents_of(final(acc)@) =~= idents_of(old(acc)@) + split_dot(t));
        }
    } else {
        proof {
            assert(t =~= seg@);
            assert(split_dot(t) =~= seq![t]);
            assert(idents_of(final(acc)@) =~= idents_of(old(acc)@) + split_dot(t));
        }
    }
}

/// Cut a raw pre-release or build string into its identifiers.
fn split_idents(raw: Vec<u8>) -> (r: Vec<Vec<u8>>)
    ensures
        idents_of(r@) =~= pre_idents_of_bytes(raw@),
{
    let mut r: Vec<Vec<u8>> = Vec::new();
    if raw.len() == 0 {
        proof {
            assert(idents_of(r@) =~= Seq::<Seq<u8>>::empty());
        }
        return r;
    }
    split_acc(&raw, 0, &mut r);
    proof {
        assert(raw@.skip(0) =~= raw@);
        assert(idents_of(r@) =~= split_dot(raw@));
    }
    r
}

/// The version model a successful parse yields.
pub open spec fn parse_ok_model(parts: (u64, u64, u64, Seq<u8>, Seq<u8>)) -> SemVerModel {
    SemVerModel {
        major: parts.0 as int,
        minor: parts.1 as int,
        patch: parts.2 as int,
        pre: pre_idents_of_bytes(parts.3),
        build: parts.4,
    }
}

impl SemVer {
    /// Whether `self` strictly precedes `other` in semantic-version order.
    ///
    /// An update from `self` to `other` is due exactly when this holds.
    pub fn precedes(&self, other: &SemVer) -> (r: bool)
        ensures
            r == precedence_lt(self@, other@),
    {
        if self.major != other.major {
            self.major < other.major
        } else if self.minor != other.minor {
            self.minor < other.minor
        } else if self.patch != other.patch {
            self.patch < other.patch
        } else {
            pre_lt_exec(&self.pre, &other.pre)
        }
    }

    /// Every pre-release identifier and the build metadata are well formed.
    pub open spec fn wf(&self) -> bool {
        (forall|i: int| 0 <= i < self@.pre.len() ==> wf_ident(#[trigger] self@.pre[i]))
            && wf_build_bytes(self@.build)
    }

    /// Parse a version from its text form.
    ///
    /// Exactly the strings of the semantic-version grammar are accepted;
    /// any other string is a `VersionError`, never a crash.
    pub fn parse_str(s: &str) -> (r: Result<SemVer, BBBotError>)
        ensures
            match r {
                Ok(v) => semver_parts(s@) matches Some(parts) && v@ == parse_ok_model(parts)
                    && v.wf(),
                Err(e) => e == BBBotError::VersionError && semver_parts(s@) is None,
            },
    {
        match semver_parse_raw(s) {
            Ok(raw) => {
                let ghost parts = (raw.major, raw.minor, raw.patch, raw.pre@, raw.build@);
                let ghost raw_pre = raw.pre@;
                let pre = split_idents(raw.pre);
                let v = SemVer {
                    major: raw.major,
                    minor: raw.minor,
                    patch: raw.patch,
                    pre,
                    build: raw.build,
                };
                proof {
                    assert(v@ =~= parse_ok_model(parts));
                    assert forall|i: int| 0 <= i < v@.pre.len() implies wf_ident(
                        #[trigger] v@.pre[i],
                    ) by {
                        assert(v@.pre =~= pre_idents_of_bytes(raw_pre));
                        if raw_pre.len() > 0 {
                            assert(v@.pre[i] == split_dot(raw_pre)[i]);
                        }
                    }
                }
                Ok(v)
            },
            Err(e) => Err(BBBotError::from(e)),
        }
    }

    /// Parse a version from raw bytes, as cut out of a metadata body.
    ///
    /// The grammar is pure ASCII, so bytes outside ASCII are rejected as a
    /// `VersionError` before decoding.
    pub fn parse_bytes(b: &[u8]) -> (r: Result<SemVer, BBBotError>)
        ensures
            match r {
                Ok(v) => all_ascii(b@) && (semver_parts(chars_of(b@)) matches Some(parts)
                    && v@ == parse_ok_model(parts) && v.wf()),
                Err(e) => e == BBBotError::VersionError && (!all_ascii(b@) || semver_parts(
                    chars_of(b@),
                ) is None),
            },
    {
        let mut i: usize = 0;
        while i < b.len()
            invariant
                0 <= i <= b@.len(),
                forall|j: int| 0 <= j < i ==> #[trigger] b@[j] < 128,
            decreases b@.len() - i,
        {
            if b[i] >= 128 {
                return Err(BBBotError::VersionError);
            }
            i = i + 1;
        }
        let s = ascii_bytes_as_str(b);
        SemVer::parse_str(s)
    }
}

/// All bytes are ASCII.
pub open spec fn all_ascii(b: Seq<u8>) -> bool {
    forall|i: int| 0 <= i < b.len() ==> #[trigger] b[i] < 128
}

/// The characters ASCII bytes stand for, one per byte.
pub open spec fn chars_of(b: Seq<u8>) -> Seq<char> {
    b.map_values(|x: u8| x as char)
}

/// Relies on `core::str::from_utf8`: ASCII bytes are valid UTF-8 and
/// decode to themselves, one character per byte.
#[verifier::external_body]
fn ascii_bytes_as_str(b: &[u8]) -> (r: &str)
    requires
        all_ascii(b@),
    ensures
        r@ == chars_of(b@),
{
    core::str::from_utf8(b).unwrap()
}

} // verus!
