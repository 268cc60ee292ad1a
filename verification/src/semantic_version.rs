//! Semantic versions as the `semver` crate parses, prints and orders them.
//!
//! The library holds a parsed version as plain values ([`SemVer`]); parsing
//! and the ordering of pre-release and build-metadata identifiers are done by
//! the `semver` crate itself.

use vstd::prelude::*;
use crate::text::{decimal, push_char, push_str, u64_to_decimal};

verus! {

/// The abstract value of a semantic version.
pub struct SemVerSpec {
    pub major: u64,
    pub minor: u64,
    pub patch: u64,
    pub pre: Seq<char>,
    pub build: Seq<char>,
}

/// A semantic version `MAJOR.MINOR.PATCH[-PRE][+BUILD]`.
#[derive(Debug, PartialEq, Eq, Hash)]
pub struct SemVer {
    pub major: u64,
    pub minor: u64,
    pub patch: u64,
    /// Pre-release identifiers, empty for a release.
    pub pre: String,
    /// Build metadata, empty when absent.
    pub build: String,
}

/// SemVer orders first by `(major, minor, patch)`, lexicographically: a
/// version with a lower core sorts below one with a higher core, whatever
/// their pre-release and build parts.
pub proof fn lemma_semver_order_core_first(a: SemVerSpec, b: SemVerSpec)
    ensures
        (a.major < b.major || (a.major == b.major && (a.minor < b.minor || (a.minor == b.minor
            && a.patch < b.patch)))) ==> semver_order(a, b) == -1 && semver_order(b, a) == 1,
        semver_order(a, b) < 0 ==> (a.major < b.major || (a.major == b.major && (a.minor < b.minor
            || (a.minor == b.minor && a.patch <= b.patch)))),
{
}

impl Clone for SemVer {
    fn clone(&self) -> (r: SemVer)
        ensures
            r@ == self@,
    {
        SemVer {
            major: self.major,
            minor: self.minor,
            patch: self.patch,
            pre: self.pre.clone(),
            build: self.build.clone(),
        }
    }
}

impl View for SemVer {
    type V = SemVerSpec;

    open spec fn view(&self) -> SemVerSpec {
        SemVerSpec {
            major: self.major,
            minor: self.minor,
            patch: self.patch,
            pre: self.pre@,
            build: self.build@,
        }
    }
}

/// What `semver::Version::parse` gives for `text`, or `None` when it fails.
pub uninterp spec fn semver_parse(text: Seq<char>) -> Option<SemVerSpec>;

/// How `semver::Version` prints: `MAJOR.MINOR.PATCH`, then `-PRE` when there
/// are pre-release identifiers and `+BUILD` when there is build metadata.
pub open spec fn semver_text(v: SemVerSpec) -> Seq<char> {
    decimal(v.major as nat) + seq!['.'] + decimal(v.minor as nat) + seq!['.'] + decimal(
        v.patch as nat,
    ) + (if v.pre.len() > 0 {
        seq!['-'] + v.pre
    } else {
        Seq::<char>::empty()
    }) + (if v.build.len() > 0 {
        seq!['+'] + v.build
    } else {
        Seq::<char>::empty()
    })
}

/// A value that `semver::Version::parse` produces (from its own text).
pub open spec fn semver_valid(v: SemVerSpec) -> bool {
    semver_parse(semver_text(v)) == Some(v)
}

/// Pre-release text of some parsed version.
pub open spec fn is_semver_prerelease(t: Seq<char>) -> bool {
    exists|v: SemVerSpec| #![trigger semver_valid(v)] semver_valid(v) && v.pre == t
}

/// Build-metadata text of some parsed version.
pub open spec fn is_semver_build(t: Seq<char>) -> bool {
    exists|v: SemVerSpec| #![trigger semver_valid(v)] semver_valid(v) && v.build == t
}

/// `semver::Version::parse`. When it succeeds the library keeps the five
/// components; the contract also records that the parser is strict, so the
/// printed form of the result is the input text itself (the parser rejects
/// leading zeros in numeric components and keeps identifiers verbatim).
#[verifier::external_body]
pub(crate) fn parse_semver(text: &str) -> (r: Option<SemVer>)
    ensures
        r is Some <==> semver_parse(text@) is Some,
        r matches Some(v) ==> semver_parse(text@) == Some(v@),
        r matches Some(v) ==> semver_text(v@) == text@,
{
    match ::semver::Version::parse(text) {
        Ok(v) => Some(
            SemVer {
                major: v.major,
                minor: v.minor,
                patch: v.patch,
                pre: v.pre.as_str().to_string(),
                build: v.build.as_str().to_string(),
            },
        ),
        Err(_) => None,
    }
}

/// Parses `text` as strict SemVer (`semver::Version::parse`), as the
/// library's [`SemVer`]; printing an accepted value gives back `text`.
pub fn parse_version_text(text: &str) -> (r: Option<SemVer>)
    ensures
        r is Some <==> semver_parse(text@) is Some,
        r matches Some(v) ==> semver_parse(text@) == Some(v@) && semver_text(v@) == text@
            && semver_valid(v@),
{
    parse_semver(text)
}

/// The sign of `semver::Prerelease`'s `Ord::cmp` on two pre-release texts
/// (-1, 0 or 1).
pub uninterp spec fn semver_prerelease_order(a: Seq<char>, b: Seq<char>) -> i8;

/// The sign of `semver::BuildMetadata`'s `Ord::cmp` on two build texts.
pub uninterp spec fn semver_build_order(a: Seq<char>, b: Seq<char>) -> i8;

/// `Ord::cmp` of `semver::Prerelease` on two pre-release texts of parsed
/// versions. Besides naming the result, the contract states what `Ord`
/// requires of every implementation and what the crate documents: the order
/// is antisymmetric, transitive (also strictly) and agrees with equality of the texts, and a
/// release (empty text) sorts above every pre-release.
#[verifier::external_body]
fn prerelease_order(a: &str, b: &str) -> (r: i8)
    requires
        is_semver_prerelease(a@),
        is_semver_prerelease(b@),
    ensures
        r == semver_prerelease_order(a@, b@),
        -1 <= r <= 1,
        r == -semver_prerelease_order(b@, a@),
        r == 0 <==> a@ == b@,
        forall|c: Seq<char>|
            is_semver_prerelease(c) && r <= 0 && #[trigger] semver_prerelease_order(b@, c) <= 0
                ==> semver_prerelease_order(a@, c) <= 0,
        forall|c: Seq<char>|
            is_semver_prerelease(c) && #[trigger] semver_prerelease_order(c, a@) <= 0 && r <= 0
                ==> semver_prerelease_order(c, b@) <= 0,
        forall|c: Seq<char>|
            is_semver_prerelease(c) && r < 0 && #[trigger] semver_prerelease_order(b@, c) <= 0
                ==> semver_prerelease_order(a@, c) < 0,
        forall|c: Seq<char>|
            is_semver_prerelease(c) && #[trigger] semver_prerelease_order(c, a@) <= 0 && r < 0
                ==> semver_prerelease_order(c, b@) < 0,
        a@.len() == 0 && b@.len() > 0 ==> r == 1,
        a@.len() > 0 && b@.len() == 0 ==> r == -1,
{
    match (::semver::Prerelease::new(a), ::semver::Prerelease::new(b)) {
        (Ok(x), Ok(y)) => match x.cmp(&y) {
            std::cmp::Ordering::Less => -1,
            std::cmp::Ordering::Equal => 0,
            std::cmp::Ordering::Greater => 1,
        },
        _ => 0,
    }
}

/// `Ord::cmp` of `semver::BuildMetadata` on two build texts of parsed
/// versions; the contract states the `Ord` requirements as for pre-releases.
#[verifier::external_body]
fn build_order(a: &str, b: &str) -> (r: i8)
    requires
        is_semver_build(a@),
        is_semver_build(b@),
    ensures
        r == semver_build_order(a@, b@),
        -1 <= r <= 1,
        r == -semver_build_order(b@, a@),
        r == 0 <==> a@ == b@,
        forall|c: Seq<char>|
            is_semver_build(c) && r <= 0 && #[trigger] semver_build_order(b@, c) <= 0
                ==> semver_build_order(a@, c) <= 0,
        forall|c: Seq<char>|
            is_semver_build(c) && #[trigger] semver_build_order(c, a@) <= 0 && r <= 0
                ==> semver_build_order(c, b@) <= 0,
        forall|c: Seq<char>|
            is_semver_build(c) && r < 0 && #[trigger] semver_build_order(b@, c) <= 0
                ==> semver_build_order(a@, c) < 0,
        forall|c: Seq<char>|
            is_semver_build(c) && #[trigger] semver_build_order(c, a@) <= 0 && r < 0
                ==> semver_build_order(c, b@) < 0,
{
    match (::semver::BuildMetadata::new(a), ::semver::BuildMetadata::new(b)) {
        (Ok(x), Ok(y)) => match x.cmp(&y) {
            std::cmp::Ordering::Less => -1,
            std::cmp::Ordering::Equal => 0,
            std::cmp::Ordering::Greater => 1,
        },
        _ => 0,
    }
}

/// The order of `semver::Version` (its derived `Ord`): major, minor and
/// patch numerically, then pre-release, then build metadata.
pub open spec fn semver_order(a: SemVerSpec, b: SemVerSpec) -> int {
    if a.major != b.major {
        if a.major < b.major { -1 } else { 1 }
    } else if a.minor != b.minor {
        if a.minor < b.minor { -1 } else { 1 }
    } else if a.patch != b.patch {
        if a.patch < b.patch { -1 } else { 1 }
    } else if semver_prerelease_order(a.pre, b.pre) != 0 {
        semver_prerelease_order(a.pre, b.pre) as int
    } else {
        semver_build_order(a.build, b.build) as int
    }
}

impl SemVer {
    /// Whether there are pre-release identifiers.
    pub fn is_prerelease(&self) -> (r: bool)
        ensures
            r == (self.pre@.len() > 0),
    {
        self.pre.as_str().unicode_len() > 0
    }

    /// Whether there is build metadata.
    pub fn has_build(&self) -> (r: bool)
        ensures
            r == (self.build@.len() > 0),
    {
        self.build.as_str().unicode_len() > 0
    }

    /// The printed form, as `semver::Version`'s `Display` writes it.
    pub fn to_string(&self) -> (s: String)
        ensures
            s@ == semver_text(self@),
    {
        let mut s = u64_to_decimal(self.major);
        push_char(&mut s, '.');
        let minor = u64_to_decimal(self.minor);
        push_str(&mut s, minor.as_str());
        push_char(&mut s, '.');
        let patch = u64_to_decimal(self.patch);
        push_str(&mut s, patch.as_str());
        if self.is_prerelease() {
            push_char(&mut s, '-');
            push_str(&mut s, self.pre.as_str());
        }
        if self.has_build() {
            push_char(&mut s, '+');
            push_str(&mut s, self.build.as_str());
        }
        proof {
            let v = self@;
            let core = decimal(v.major as nat) + seq!['.'] + decimal(v.minor as nat) + seq!['.']
                + decimal(v.patch as nat);
            let p = if v.pre.len() > 0 { seq!['-'] + v.pre } else { Seq::<char>::empty() };
            let b = if v.build.len() > 0 { seq!['+'] + v.build } else { Seq::<char>::empty() };
            assert(s@ =~= core + p + b);
        }
        s
    }
}

/// Compares two parsed versions as `semver::Version`'s `Ord` does. Returns
/// -1, 0 or 1. The result is antisymmetric, zero exactly for equal versions,
/// and transitive in both directions over parsed versions.
pub fn compare_semver(a: &SemVer, b: &SemVer) -> (r: i8)
    requires
        semver_valid(a@),
        semver_valid(b@),
    ensures
        r == semver_order(a@, b@),
        -1 <= r <= 1,
        r == -semver_order(b@, a@),
        r == 0 <==> a@ == b@,
        forall|z: SemVerSpec|
            semver_valid(z) && #[trigger] semver_order(z, a@) <= 0 && r <= 0 ==> semver_order(
                z,
                b@,
            ) <= 0,
        forall|z: SemVerSpec|
            semver_valid(z) && r <= 0 && #[trigger] semver_order(b@, z) <= 0 ==> semver_order(
                a@,
                z,
            ) <= 0,
{
    assert(is_semver_prerelease(a.pre@));
    assert(is_semver_prerelease(b.pre@));
    assert(is_semver_build(a.build@));
    assert(is_semver_build(b.build@));
    let p = prerelease_order(a.pre.as_str(), b.pre.as_str());
    let q = build_order(a.build.as_str(), b.build.as_str());
    proof {
        assert forall|z: SemVerSpec|
            semver_valid(z) && #[trigger] semver_order(z, a@) <= 0 && semver_order(a@, b@) <= 0
                implies semver_order(z, b@) <= 0 by {
            assert(is_semver_prerelease(z.pre));
            assert(is_semver_build(z.build));
            if z.major == a.major && a.major == b.major && z.minor == a.minor && a.minor == b.minor
                && z.patch == a.patch && a.patch == b.patch {
            }
        }
        assert forall|z: SemVerSpec|
            semver_valid(z) && semver_order(a@, b@) <= 0 && #[trigger] semver_order(b@, z) <= 0
                implies semver_order(a@, z) <= 0 by {
            assert(is_semver_prerelease(z.pre));
            assert(is_semver_build(z.build));
            if z.major == a.major && a.major == b.major && z.minor == a.minor && a.minor == b.minor
                && z.patch == a.patch && a.patch == b.patch {
            }
        }
    }
    if a.major != b.major {
        if a.major < b.major { -1 } else { 1 }
    } else if a.minor != b.minor {
        if a.minor < b.minor { -1 } else { 1 }
    } else if a.patch != b.patch {
        if a.patch < b.patch { -1 } else { 1 }
    } else if p != 0 {
        p
    } else {
        q
    }
}

} // verus!
