//! Release versions of the community distribution.
//!
//! Standard SemVer stays fully supported. The community build also accepts a
//! stable fourth numeric component (`A.B.C.N`, `N > 0`) as its revision of the
//! upstream `A.B.C` release; revision zero is always written `A.B.C`, never
//! `A.B.C.0`.

use vstd::prelude::*;
use crate::semantic_version::{
    SemVer, SemVerSpec, compare_semver, parse_semver, semver_order, semver_parse, semver_text,
    semver_valid,
};
use crate::text::{
    canonical_digits, chars_of, decimal, digits_value, is_canonical_digits, is_digit,
    join_with, lemma_canonical_digits_decimal, lemma_decimal_canonical, lemma_digits_exclude,
    lemma_split_join, lemma_unique_first_piece, parse_digits_u64, push_char, push_chars,
    push_str, split_chars, split_on, string_of, u64_to_decimal,
};

verus! {

/// The compiled version of this distribution.
pub const VERSION: &'static str = "0.1.0";

/// The compile-time privacy switch of this build (on in this distribution).
pub const PRIVACY_BUILD: bool = true;

/// The abstract value of a release version: the SemVer part and the
/// community revision (0 when there is none).
pub struct ReleaseVersionSpec {
    pub semver: SemVerSpec,
    pub revision: u64,
}

/// A release version understood by this distribution.
#[derive(Debug, PartialEq, Eq, Hash)]
pub struct ReleaseVersion {
    semver: SemVer,
    revision: u64,
}

/// The input that could not be read as a release version.
#[derive(Clone, Debug, PartialEq, Eq)]
pub struct ReleaseVersionParseError {
    input: String,
}

impl Clone for ReleaseVersion {
    fn clone(&self) -> (r: ReleaseVersion)
        ensures
            r@ == self@,
    {
        proof {
            use_type_invariant(self);
        }
        ReleaseVersion { semver: self.semver.clone(), revision: self.revision }
    }
}

impl View for ReleaseVersion {
    type V = ReleaseVersionSpec;

    closed spec fn view(&self) -> ReleaseVersionSpec {
        ReleaseVersionSpec { semver: self.semver@, revision: self.revision }
    }
}

/// A well-formed release version: its SemVer part comes from the parser,
/// and a revision only ever extends a plain `A.B.C` release.
pub open spec fn release_wf(v: ReleaseVersionSpec) -> bool {
    &&& semver_valid(v.semver)
    &&& v.revision > 0 ==> v.semver.pre.len() == 0 && v.semver.build.len() == 0
}

/// The four-component form `A.B.C.N`: exactly four dot-separated canonical
/// decimal components.
pub open spec fn four_components(pieces: Seq<Seq<char>>) -> bool {
    &&& pieces.len() == 4
    &&& forall|k: int| 0 <= k < 4 ==> canonical_digits(#[trigger] pieces[k])
}

/// `A.B.C` of the pieces `A`, `B`, `C`, `N`.
pub open spec fn first_three(pieces: Seq<Seq<char>>) -> Seq<char> {
    pieces[0] + seq!['.'] + pieces[1] + seq!['.'] + pieces[2]
}

/// What parsing a release version gives for `input`: SemVer when the SemVer
/// parser accepts it (no revision); otherwise `A.B.C.N` with four canonical
/// decimal components, `0 < N <= u64::MAX`, and `A.B.C` accepted by the
/// SemVer parser.
pub open spec fn release_parse(input: Seq<char>) -> Option<ReleaseVersionSpec> {
    if input.len() == 0 {
        None
    } else if semver_parse(input) is Some {
        Some(ReleaseVersionSpec { semver: semver_parse(input)->0, revision: 0 })
    } else {
        let pieces = split_on(input, '.');
        if four_components(pieces) && 1 <= digits_value(pieces[3]) <= u64::MAX
            && semver_parse(first_three(pieces)) is Some {
            Some(
                ReleaseVersionSpec {
                    semver: semver_parse(first_three(pieces))->0,
                    revision: digits_value(pieces[3]) as u64,
                },
            )
        } else {
            None
        }
    }
}

/// The printed form: `A.B.C.N` with a revision, the SemVer text otherwise.
pub open spec fn release_text(v: ReleaseVersionSpec) -> Seq<char> {
    if v.revision > 0 {
        decimal(v.semver.major as nat) + seq!['.'] + decimal(v.semver.minor as nat) + seq!['.']
            + decimal(v.semver.patch as nat) + seq!['.'] + decimal(v.revision as nat)
    } else {
        semver_text(v.semver)
    }
}

/// The sign of comparing two numbers.
pub open spec fn num_order(a: int, b: int) -> int {
    if a < b { -1 } else if a > b { 1 } else { 0 }
}

/// The order of release versions: upstream `A.B.C` first; for the same base a
/// pre-release sorts before every release; two pre-releases compare as
/// SemVer; two releases compare by revision, then as SemVer (build metadata).
pub open spec fn release_order(a: ReleaseVersionSpec, b: ReleaseVersionSpec) -> int {
    if a.semver.major != b.semver.major {
        num_order(a.semver.major as int, b.semver.major as int)
    } else if a.semver.minor != b.semver.minor {
        num_order(a.semver.minor as int, b.semver.minor as int)
    } else if a.semver.patch != b.semver.patch {
        num_order(a.semver.patch as int, b.semver.patch as int)
    } else {
        let pa = a.semver.pre.len() > 0;
        let pb = b.semver.pre.len() > 0;
        if pa && !pb {
            -1
        } else if !pa && pb {
            1
        } else if pa && pb {
            semver_order(a.semver, b.semver)
        } else if a.revision != b.revision {
            num_order(a.revision as int, b.revision as int)
        } else {
            semver_order(a.semver, b.semver)
        }
    }
}

/// The error message text for an input that is not a release version.
pub open spec fn parse_error_text(quoted_input: Seq<char>) -> Seq<char> {
    seq!['i', 'n', 'v', 'a', 'l', 'i', 'd', ' ', 'r', 'e', 'l', 'e', 'a', 's', 'e', ' ', 'v', 'e', 'r', 's', 'i', 'o', 'n', ' ']
        + quoted_input
}

/// The text `"{:?}"` writes for a string (`<str as Debug>::fmt`).
pub uninterp spec fn str_debug_text(s: Seq<char>) -> Seq<char>;

/// `format!("{:?}", s)` for a string slice: the quoted, escaped form.
#[verifier::external_body]
fn debug_quoted(s: &str) -> (r: String)
    ensures
        r@ == str_debug_text(s@),
{
    format!("{:?}", s)
}

impl ReleaseVersionParseError {
    /// The input that was rejected.
    pub closed spec fn input_spec(&self) -> Seq<char> {
        self.input@
    }

    /// The input that was rejected.
    pub fn input(&self) -> (r: &str)
        ensures
            r@ == self.input_spec(),
    {
        self.input.as_str()
    }

    /// The user-facing message.
    pub fn message(&self) -> (r: String)
        ensures
            r@ == parse_error_text(str_debug_text(self.input_spec()))
                + "; expected A.B.C, A.B.C-prerelease, or A.B.C.N with N > 0"@,
    {
        let mut r = string_of("invalid release version ");
        proof {
            reveal_strlit("invalid release version ");
        }
        let q = debug_quoted(self.input.as_str());
        push_str(&mut r, q.as_str());
        push_str(&mut r, "; expected A.B.C, A.B.C-prerelease, or A.B.C.N with N > 0");
        r
    }
}

proof fn lemma_four_components_text(input: Seq<char>, sv: SemVerSpec)
    requires
        four_components(split_on(input, '.')),
        semver_text(sv) == first_three(split_on(input, '.')),
    ensures
        sv.pre.len() == 0,
        sv.build.len() == 0,
        decimal(sv.major as nat) + seq!['.'] + decimal(sv.minor as nat) + seq!['.'] + decimal(
            sv.patch as nat,
        ) + seq!['.'] + split_on(input, '.')[3] == input,
{
    let p = split_on(input, '.');
    lemma_split_join(input, '.');
    assert(canonical_digits(p[0]));
    assert(canonical_digits(p[1]));
    assert(canonical_digits(p[2]));
    assert(canonical_digits(p[3]));
    let dmaj = decimal(sv.major as nat);
    let dmin = decimal(sv.minor as nat);
    let dpat = decimal(sv.patch as nat);
    lemma_decimal_canonical(sv.major as nat);
    lemma_decimal_canonical(sv.minor as nat);
    lemma_decimal_canonical(sv.patch as nat);
    lemma_digits_exclude(dmaj, '.');
    lemma_digits_exclude(dmin, '.');
    lemma_digits_exclude(p[0], '.');
    lemma_digits_exclude(p[1], '.');
    let pre = if sv.pre.len() > 0 { seq!['-'] + sv.pre } else { Seq::<char>::empty() };
    let bld = if sv.build.len() > 0 { seq!['+'] + sv.build } else { Seq::<char>::empty() };
    let tail1 = dmin + seq!['.'] + dpat + pre + bld;
    assert(semver_text(sv) =~= dmaj + seq!['.'] + tail1);
    assert(first_three(p) =~= p[0] + seq!['.'] + (p[1] + seq!['.'] + p[2]));
    lemma_unique_first_piece(dmaj, tail1, p[0], p[1] + seq!['.'] + p[2], '.');
    let tail2 = dpat + pre + bld;
    assert(tail1 =~= dmin + seq!['.'] + tail2);
    lemma_unique_first_piece(dmin, tail2, p[1], p[2], '.');
    assert(tail2 == p[2]);
    if sv.pre.len() > 0 {
        assert(tail2[dpat.len() as int] == '-');
        assert(is_digit(p[2][dpat.len() as int]));
    }
    if sv.build.len() > 0 {
        assert(tail2[dpat.len() as int] == '+');
        assert(is_digit(p[2][dpat.len() as int]));
    }
    assert(tail2 =~= dpat);
    reveal_with_fuel(join_with, 5);
    assert(p.drop_last().drop_last().drop_last() =~= seq![p[0]]);
    assert(join_with(p, '.') =~= p[0] + seq!['.'] + p[1] + seq!['.'] + p[2] + seq!['.'] + p[3]);
}

impl ReleaseVersion {
    /// Well-formedness of the concrete value.
    pub closed spec fn wf(&self) -> bool {
        release_wf(self@)
    }

    /// Every release version is well formed: only the parser and
    /// [`ReleaseVersion::from_semver`] make one.
    #[verifier::type_invariant]
    spec fn release_invariant(&self) -> bool {
        release_wf(ReleaseVersionSpec { semver: self.semver@, revision: self.revision })
    }

    /// Parses `A.B.C`, `A.B.C-prerelease[+build]`, `A.B.C+build` or the
    /// community form `A.B.C.N` (`N > 0`). Printing an accepted value gives
    /// back the input exactly.
    pub fn parse(input: &str) -> (r: Result<ReleaseVersion, ReleaseVersionParseError>)
        ensures
            r is Ok <==> release_parse(input@) is Some,
            r matches Ok(v) ==> release_parse(input@) == Some(v@) && v.wf(),
            r matches Ok(v) ==> release_text(v@) == input@,
            r matches Err(e) ==> e.input_spec() == input@,
    {
        let invalid = ReleaseVersionParseError { input: string_of(input) };
        if input.is_empty() {
            return Err(invalid);
        }
        if let Some(semver) = parse_semver(input) {
            return Ok(ReleaseVersion { semver, revision: 0 });
        }
        let chars = chars_of(input);
        let pieces = split_chars(chars.as_slice(), '.');
        if pieces.len() != 4 {
            return Err(invalid);
        }
        let mut k: usize = 0;
        while k < 4
            invariant
                pieces@.len() == 4,
                split_on(input@, '.').len() == 4,
                chars@ == input@,
                invalid.input@ == input@,
                input@.len() > 0,
                semver_parse(input@) is None,
                k <= 4,
                forall|j: int| 0 <= j < 4 ==> #[trigger] pieces@[j]@ == split_on(input@, '.')[j],
                forall|j: int| 0 <= j < k ==> canonical_digits(#[trigger] pieces@[j]@),
            decreases 4 - k,
        {
            if !is_canonical_digits(pieces[k].as_slice()) {
                assert(!four_components(split_on(input@, '.')));
                return Err(invalid);
            }
            k = k + 1;
        }
        assert forall|j: int| 0 <= j < 4 implies canonical_digits(#[trigger] split_on(input@, '.')[j]) by {
            assert(pieces@[j]@ == split_on(input@, '.')[j]);
        }
        assert(four_components(split_on(input@, '.')));
        let revision = match parse_digits_u64(pieces[3].as_slice()) {
            Some(n) => n,
            None => {
                return Err(invalid);
            },
        };
        if revision == 0 {
            return Err(invalid);
        }
        let mut base = String::new();
        push_chars(&mut base, pieces[0].as_slice());
        push_char(&mut base, '.');
        push_chars(&mut base, pieces[1].as_slice());
        push_char(&mut base, '.');
        push_chars(&mut base, pieces[2].as_slice());
        assert(base@ =~= first_three(split_on(input@, '.')));
        match parse_semver(base.as_str()) {
            Some(semver) => {
                proof {
                    let p = split_on(input@, '.');
                    lemma_four_components_text(input@, semver@);
                    lemma_canonical_digits_decimal(p[3]);
                }
                Ok(ReleaseVersion { semver, revision })
            },
            None => Err(invalid),
        }
    }

    /// Builds a release version (without revision) from a parsed SemVer.
    pub fn from_semver(semver: SemVer) -> (r: ReleaseVersion)
        requires
            semver_valid(semver@),
        ensures
            r@ == (ReleaseVersionSpec { semver: semver@, revision: 0 }),
            r.wf(),
    {
        ReleaseVersion { semver, revision: 0 }
    }

    /// Whether this is a pre-release.
    pub fn is_prerelease(&self) -> (r: bool)
        ensures
            r == (self@.semver.pre.len() > 0),
    {
        self.semver.is_prerelease()
    }

    /// The community revision, 0 when there is none.
    pub fn revision(&self) -> (r: u64)
        ensures
            r == self@.revision,
    {
        self.revision
    }

    /// The SemVer part.
    pub fn as_semver(&self) -> (r: &SemVer)
        ensures
            r@ == self@.semver,
    {
        &self.semver
    }

    /// The printed form (`A.B.C.N`, or the SemVer text).
    pub fn to_string(&self) -> (s: String)
        ensures
            s@ == release_text(self@),
    {
        if self.revision > 0 {
            let mut s = u64_to_decimal(self.semver.major);
            push_char(&mut s, '.');
            let t = u64_to_decimal(self.semver.minor);
            push_str(&mut s, t.as_str());
            push_char(&mut s, '.');
            let t = u64_to_decimal(self.semver.patch);
            push_str(&mut s, t.as_str());
            push_char(&mut s, '.');
            let t = u64_to_decimal(self.revision);
            push_str(&mut s, t.as_str());
            s
        } else {
            self.semver.to_string()
        }
    }

    /// Compares two release versions; -1, 0 or 1 as `self` sorts before,
    /// equal to, or after `other`.
    pub fn compare(&self, other: &ReleaseVersion) -> (r: i8)
        ensures
            r == release_order(self@, other@),
            r == -release_order(other@, self@),
            r == 0 <==> self@ == other@,
            forall|z: ReleaseVersionSpec|
                release_wf(z) && #[trigger] release_order(z, self@) <= 0 && r <= 0 ==> release_order(
                    z,
                    other@,
                ) <= 0,
            forall|z: ReleaseVersionSpec|
                release_wf(z) && r <= 0 && #[trigger] release_order(other@, z) <= 0 ==> release_order(
                    self@,
                    z,
                ) <= 0,
    {
        proof {
            use_type_invariant(self);
            use_type_invariant(other);
        }
        let s = compare_semver(&self.semver, &other.semver);
        proof {
            let a = self@;
            let b = other@;
            assert forall|z: ReleaseVersionSpec|
                release_wf(z) && #[trigger] release_order(z, a) <= 0 && release_order(a, b) <= 0
                    implies release_order(z, b) <= 0 by {
                assert(semver_valid(z.semver));
                if z.semver.major == a.semver.major && a.semver.major == b.semver.major
                    && z.semver.minor == a.semver.minor && a.semver.minor == b.semver.minor
                    && z.semver.patch == a.semver.patch && a.semver.patch == b.semver.patch {
                    assert(semver_order(z.semver, a.semver) <= 0 && semver_order(a.semver, b.semver)
                        <= 0 ==> semver_order(z.semver, b.semver) <= 0);
                }
            }
            assert forall|z: ReleaseVersionSpec|
                release_wf(z) && release_order(a, b) <= 0 && #[trigger] release_order(b, z) <= 0
                    implies release_order(a, z) <= 0 by {
                assert(semver_valid(z.semver));
                if z.semver.major == a.semver.major && a.semver.major == b.semver.major
                    && z.semver.minor == a.semver.minor && a.semver.minor == b.semver.minor
                    && z.semver.patch == a.semver.patch && a.semver.patch == b.semver.patch {
                    assert(semver_order(a.semver, b.semver) <= 0 && semver_order(b.semver, z.semver)
                        <= 0 ==> semver_order(a.semver, z.semver) <= 0);
                }
            }
        }
        let a = &self.semver;
        let b = &other.semver;
        if a.major != b.major {
            if a.major < b.major { -1 } else { 1 }
        } else if a.minor != b.minor {
            if a.minor < b.minor { -1 } else { 1 }
        } else if a.patch != b.patch {
            if a.patch < b.patch { -1 } else { 1 }
        } else {
            let pa = a.is_prerelease();
            let pb = b.is_prerelease();
            if pa && !pb {
                -1
            } else if !pa && pb {
                1
            } else if pa && pb {
                s
            } else if self.revision != other.revision {
                if self.revision < other.revision { -1 } else { 1 }
            } else {
                s
            }
        }
    }
}

/// The installed version text: the test override, trimmed, when one is
/// set, else the compiled [`VERSION`].
pub fn installed_version_text(test_override: Option<&str>) -> (r: String)
    ensures
        match test_override {
            Some(t) => r@ == crate::package::trim(t@),
            None => r@ == VERSION@,
        },
{
    match test_override {
        Some(t) => crate::package::trim_str(t),
        None => string_of(VERSION),
    }
}

/// Parses a version at an updater source boundary: community builds accept
/// the fourth numeric revision, official sources stay strict SemVer.
pub fn parse_distribution_version(input: &str, community_build: bool) -> (r: Result<
    ReleaseVersion,
    ReleaseVersionParseError,
>)
    ensures
        r is Ok <==> (release_parse(input@) matches Some(v) && (community_build || v.revision
            == 0)),
        r matches Ok(v) ==> release_parse(input@) == Some(v@) && v.wf(),
        r matches Err(e) ==> e.input_spec() == input@,
{
    let parsed = ReleaseVersion::parse(input)?;
    if !community_build && parsed.revision() != 0 {
        return Err(ReleaseVersionParseError { input: string_of(input) });
    }
    Ok(parsed)
}

/// The compiled version followed by the channel label (such as `" [alpha]"`,
/// `" [stable]"` or `""`).
pub fn display_version(channel_label: &str) -> (r: String)
    ensures
        r@ == VERSION@ + channel_label@,
{
    let mut r = string_of(VERSION);
    push_str(&mut r, channel_label);
    r
}

/// A version-with-commit string such as `"0.2.5 (abc1234)"` followed by the
/// channel label.
pub fn display_version_with_commit(version_with_commit: &str, channel_label: &str) -> (r: String)
    ensures
        r@ == version_with_commit@ + channel_label@,
{
    let mut r = string_of(version_with_commit);
    push_str(&mut r, channel_label);
    r
}

} // verus!

verus! {

/// For the same upstream `A.B.C`, a pre-release sorts before any release of
/// that base (with or without a community revision).
pub proof fn lemma_prerelease_sorts_before_release(a: ReleaseVersionSpec, b: ReleaseVersionSpec)
    requires
        a.semver.major == b.semver.major,
        a.semver.minor == b.semver.minor,
        a.semver.patch == b.semver.patch,
        a.semver.pre.len() > 0,
        b.semver.pre.len() == 0,
    ensures
        release_order(a, b) == -1,
        release_order(b, a) == 1,
{
}

/// A community revision orders by its number after the plain upstream
/// release it revises: `A.B.C < A.B.C.1 < A.B.C.2 < ...`.
pub proof fn lemma_revisions_order_by_number(a: ReleaseVersionSpec, b: ReleaseVersionSpec)
    requires
        a.semver == b.semver,
        a.semver.pre.len() == 0,
        a.revision < b.revision,
    ensures
        release_order(a, b) == -1,
        release_order(b, a) == 1,
{
}

/// The upstream base dominates: every version of a lower `A.B.C` (any
/// revision, pre-release or not) sorts before every version of a higher one,
/// so `A.B.C.N < A.B.(C+1)` for every revision `N`.
pub proof fn lemma_base_dominates(a: ReleaseVersionSpec, b: ReleaseVersionSpec)
    requires
        a.semver.major < b.semver.major || (a.semver.major == b.semver.major && (a.semver.minor
            < b.semver.minor || (a.semver.minor == b.semver.minor && a.semver.patch
            < b.semver.patch))),
    ensures
        release_order(a, b) == -1,
        release_order(b, a) == 1,
{
}

/// A well-formed version with a community revision is never a pre-release.
pub proof fn lemma_revision_is_stable(v: ReleaseVersionSpec)
    requires
        release_wf(v),
        v.revision > 0,
    ensures
        v.semver.pre.len() == 0,
{
}

} // verus!
