//! The inner `SHA256SUMS.txt` manifest of a release package: one line per
//! file, a 64-digit SHA-256 digest, two spaces and a package-relative name.

use vstd::prelude::*;
use vstd::utf8::{decode_utf8, valid_utf8};
use crate::package::{
    allowed_unicode_name, all_whitespace, chars_all_whitespace, chars_allowed_unicode_name,
    chars_safe_relative_path, normalized_chars, normalized_name, safe_relative_path, strs_view,
    MAX_MANIFEST_BYTES,
};
use crate::package_error::{PackageError, PackageFailure};
use crate::text::{
    all_ascii, all_hex, ascii_lower_all, chars_all_ascii, chars_all_hex, chars_eq, chars_of,
    chars_to_ascii_lower, lemma_split_join, slice_chars, split_chars, split_on,
    string_from_chars, strings_contain, utf8_text,
};

verus! {

// ---------------------------------------------------------------------------
// Lines

/// A piece of text without a trailing carriage return.
pub open spec fn strip_cr(p: Seq<char>) -> Seq<char> {
    if p.len() > 0 && p.last() == '\r' {
        p.drop_last()
    } else {
        p
    }
}

/// The lines of `s` as `str::lines` yields them: split at `\n`, a `\r`
/// before a `\n` dropped, and no empty line after a final `\n`.
pub open spec fn text_lines(s: Seq<char>) -> Seq<Seq<char>> {
    let pieces = split_on(s, '\n');
    let full = Seq::new((pieces.len() - 1) as nat, |i: int| strip_cr(pieces[i]));
    if pieces.last().len() == 0 {
        full
    } else {
        full.push(pieces.last())
    }
}

/// The text without a leading byte-order mark.
pub open spec fn strip_bom(s: Seq<char>) -> Seq<char> {
    if s.len() > 0 && s[0] == '\u{feff}' {
        s.drop_first()
    } else {
        s
    }
}

/// The views of a list of character vectors.
pub open spec fn chars_view(v: Seq<Vec<char>>) -> Seq<Seq<char>> {
    Seq::new(v.len(), |i: int| v[i]@)
}

fn text_lines_exec(s: &[char]) -> (r: Vec<Vec<char>>)
    ensures
        chars_view(r@) == text_lines(s@),
{
    proof {
        lemma_split_join(s@, '\n');
    }
    let pieces = split_chars(s, '\n');
    let ghost sp = split_on(s@, '\n');
    let n = pieces.len();
    let mut r: Vec<Vec<char>> = Vec::new();
    let mut k: usize = 0;
    while k + 1 < n
        invariant
            n == pieces@.len() == sp.len(),
            n >= 1,
            k <= n - 1,
            forall|j: int| 0 <= j < n ==> #[trigger] pieces@[j]@ == sp[j],
            r@.len() == k,
            forall|j: int| 0 <= j < k ==> #[trigger] r@[j]@ == strip_cr(sp[j]),
        decreases n - k,
    {
        let p = &pieces[k];
        let len = p.len();
        if len > 0 && p[len - 1] == '\r' {
            let q = slice_chars(p.as_slice(), 0, len - 1);
            assert(q@ =~= p@.drop_last());
            r.push(q);
        } else {
            let q = slice_chars(p.as_slice(), 0, len);
            assert(q@ =~= p@);
            r.push(q);
        }
        k = k + 1;
    }
    let last = &pieces[n - 1];
    if last.len() > 0 {
        let q = slice_chars(last.as_slice(), 0, last.len());
        assert(q@ =~= last@);
        r.push(q);
    }
    proof {
        let full = Seq::new((sp.len() - 1) as nat, |i: int| strip_cr(sp[i]));
        if sp.last().len() == 0 {
            assert(chars_view(r@) =~= full);
        } else {
            assert(chars_view(r@) =~= full.push(sp.last()));
        }
    }
    r
}

// ---------------------------------------------------------------------------
// One line

/// Whether two spaces start at `i` in `s`.
pub open spec fn double_space_at(s: Seq<char>, i: int) -> bool {
    0 <= i && i + 1 < s.len() && s[i] == ' ' && s[i + 1] == ' '
}

/// Whether `i` is where the first two spaces of `s` start.
pub open spec fn first_double_space(s: Seq<char>, i: int) -> bool {
    double_space_at(s, i) && forall|j: int| 0 <= j < i ==> !#[trigger] double_space_at(s, j)
}

/// `s.split_once("  ")`: the text before the first two spaces and the text
/// after them.
pub open spec fn split_once_double_space(s: Seq<char>) -> Option<(Seq<char>, Seq<char>)> {
    if exists|i: int| first_double_space(s, i) {
        let i = choose|i: int| first_double_space(s, i);
        Some((s.take(i), s.skip(i + 2)))
    } else {
        None
    }
}

proof fn lemma_first_double_space_unique(s: Seq<char>, i: int, k: int)
    requires
        first_double_space(s, i),
        first_double_space(s, k),
    ensures
        i == k,
{
    if i < k {
        assert(!double_space_at(s, i));
    } else if k < i {
        assert(!double_space_at(s, k));
    }
}

fn split_once_double_space_exec(s: &[char]) -> (r: Option<(Vec<char>, Vec<char>)>)
    ensures
        match r {
            Some((a, b)) => split_once_double_space(s@) == Some((a@, b@)),
            None => split_once_double_space(s@) is None,
        },
{
    let mut i: usize = 0;
    while s.len() > 0 && i < s.len() - 1
        invariant
            i <= s@.len(),
            forall|j: int| 0 <= j < i ==> !#[trigger] double_space_at(s@, j),
        decreases s@.len() - i,
    {
        if s[i] == ' ' && s[i + 1] == ' ' {
            let a = slice_chars(s, 0, i);
            let b = slice_chars(s, i + 2, s.len());
            proof {
                assert(first_double_space(s@, i as int));
                let c = choose|c: int| first_double_space(s@, c);
                lemma_first_double_space_unique(s@, i as int, c);
                assert(a@ =~= s@.take(i as int));
                assert(b@ =~= s@.skip(i + 2));
            }
            return Some((a, b));
        }
        i = i + 1;
    }
    proof {
        assert forall|c: int| !first_double_space(s@, c) by {
            if first_double_space(s@, c) {
                assert(double_space_at(s@, c));
            }
        }
    }
    None
}

/// What one manifest line (with 1-based number `number`) gives: its file
/// name and lower-case digest, or why it is refused.
pub open spec fn manifest_line(line: Seq<char>, number: nat, required: Seq<Seq<char>>) -> Result<
    (Seq<char>, Seq<char>),
    PackageFailure,
> {
    if all_whitespace(line) {
        Err(PackageFailure::ManifestEmptyLine(number))
    } else {
        match split_once_double_space(line) {
            None => Err(PackageFailure::ManifestLineFormat(number)),
            Some((digest, name)) => {
                if !(digest.len() == 64 && all_hex(digest)) {
                    Err(PackageFailure::ManifestLineDigest(number))
                } else if !safe_relative_path(name) || !required.contains(name) || (!all_ascii(
                    name,
                ) && !allowed_unicode_name(name)) {
                    Err(PackageFailure::ManifestLineFilename(number))
                } else {
                    Ok((name, ascii_lower_all(digest)))
                }
            },
        }
    }
}

/// Whether one of `entries` has a name that normalizes as `name` does.
pub open spec fn normalized_listed(entries: Seq<(Seq<char>, Seq<char>)>, name: Seq<char>) -> bool {
    exists|j: int|
        0 <= j < entries.len() && normalized_name(#[trigger] entries[j].0) == normalized_name(name)
}

/// The entries of the first `n` lines, in order, or the refusal of the
/// first line that fails.
pub open spec fn manifest_entries(lines: Seq<Seq<char>>, required: Seq<Seq<char>>, n: nat) -> Result<
    Seq<(Seq<char>, Seq<char>)>,
    PackageFailure,
>
    decreases n,
{
    if n == 0 {
        Ok(Seq::empty())
    } else {
        match manifest_entries(lines, required, (n - 1) as nat) {
            Err(e) => Err(e),
            Ok(acc) => match manifest_line(lines[n - 1], n, required) {
                Err(e) => Err(e),
                Ok(entry) => {
                    if normalized_listed(acc, entry.0) {
                        Err(PackageFailure::ManifestDuplicate)
                    } else {
                        Ok(acc.push(entry))
                    }
                },
            },
        }
    }
}

/// The names of manifest entries.
pub open spec fn entry_names(entries: Seq<(Seq<char>, Seq<char>)>) -> Seq<Seq<char>> {
    Seq::new(entries.len(), |i: int| entries[i].0)
}

/// The first of the first `n` required files that `names` lacks.
pub open spec fn first_missing(required: Seq<Seq<char>>, names: Seq<Seq<char>>, n: nat) -> Option<
    Seq<char>,
>
    decreases n,
{
    if n == 0 {
        None
    } else {
        match first_missing(required, names, (n - 1) as nat) {
            Some(x) => Some(x),
            None => if names.contains(required[n - 1]) {
                None
            } else {
                Some(required[n - 1])
            },
        }
    }
}

/// What the manifest `bytes` give for the approved file list `required`:
/// the listed files with their lower-case digests in line order, or why the
/// manifest is refused.
pub open spec fn manifest_result(bytes: Seq<u8>, required: Seq<Seq<char>>) -> Result<
    Seq<(Seq<char>, Seq<char>)>,
    PackageFailure,
> {
    if bytes.len() > MAX_MANIFEST_BYTES {
        Err(PackageFailure::ManifestTooLarge)
    } else if !valid_utf8(bytes) {
        Err(PackageFailure::ManifestNotUtf8)
    } else {
        let lines = text_lines(strip_bom(decode_utf8(bytes)));
        match manifest_entries(lines, required, lines.len()) {
            Err(e) => Err(e),
            Ok(entries) => {
                if entries.len() != required.len() {
                    Err(PackageFailure::ManifestIncomplete)
                } else {
                    match first_missing(required, entry_names(entries), required.len()) {
                        Some(x) => Err(PackageFailure::ManifestMissing(x)),
                        None => Ok(entries),
                    }
                }
            },
        }
    }
}

/// The abstract form of a parsed manifest.
pub open spec fn pairs_view(v: Seq<(String, String)>) -> Seq<(Seq<char>, Seq<char>)> {
    Seq::new(v.len(), |i: int| (v[i].0@, v[i].1@))
}

/// The abstract form of a manifest result.
pub open spec fn manifest_view(r: Result<Vec<(String, String)>, PackageError>) -> Result<
    Seq<(Seq<char>, Seq<char>)>,
    PackageFailure,
> {
    match r {
        Ok(v) => Ok(pairs_view(v@)),
        Err(e) => Err(e@),
    }
}

// ---------------------------------------------------------------------------
// Parsing

fn required_contains(required: &[&str], name: &[char]) -> (r: bool)
    ensures
        r == strs_view(required@).contains(name@),
{
    let ghost w = strs_view(required@);
    let mut i: usize = 0;
    while i < required.len()
        invariant
            i <= required@.len(),
            w == strs_view(required@),
            forall|j: int| 0 <= j < i ==> w[j] != name@,
        decreases required@.len() - i,
    {
        let c = chars_of(required[i]);
        if chars_eq(c.as_slice(), name) {
            assert(w[i as int] == name@);
            return true;
        }
        i = i + 1;
    }
    false
}

fn manifest_line_exec(line: &[char], number: usize, required: &[&str]) -> (r: Result<
    (String, String),
    PackageError,
>)
    ensures
        match r {
            Ok((name, digest)) => manifest_line(line@, number as nat, strs_view(required@)) == Ok::<
                (Seq<char>, Seq<char>),
                PackageFailure,
            >((name@, digest@)),
            Err(e) => manifest_line(line@, number as nat, strs_view(required@)) == Err::<
                (Seq<char>, Seq<char>),
                PackageFailure,
            >(e@),
        },
{
    if chars_all_whitespace(line) {
        return Err(PackageError::ManifestEmptyLine(number));
    }
    match split_once_double_space_exec(line) {
        None => Err(PackageError::ManifestLineFormat(number)),
        Some((digest, name)) => {
            if !(digest.len() == 64 && chars_all_hex(digest.as_slice())) {
                return Err(PackageError::ManifestLineDigest(number));
            }
            if !chars_safe_relative_path(name.as_slice()) || !required_contains(
                required,
                name.as_slice(),
            ) || (!chars_all_ascii(name.as_slice()) && !chars_allowed_unicode_name(name.as_slice())) {
                return Err(PackageError::ManifestLineFilename(number));
            }
            let lower = chars_to_ascii_lower(digest.as_slice());
            Ok((string_from_chars(name.as_slice()), string_from_chars(lower.as_slice())))
        },
    }
}

proof fn lemma_entries_err_persists(
    lines: Seq<Seq<char>>,
    required: Seq<Seq<char>>,
    n: nat,
    m: nat,
    e: PackageFailure,
)
    requires
        n <= m,
        manifest_entries(lines, required, n) == Err::<Seq<(Seq<char>, Seq<char>)>, PackageFailure>(e),
    ensures
        manifest_entries(lines, required, m) == Err::<Seq<(Seq<char>, Seq<char>)>, PackageFailure>(e),
    decreases m,
{
    if n < m {
        lemma_entries_err_persists(lines, required, n, (m - 1) as nat, e);
    }
}

proof fn lemma_missing_persists(required: Seq<Seq<char>>, names: Seq<Seq<char>>, n: nat, m: nat, x: Seq<char>)
    requires
        n <= m,
        first_missing(required, names, n) == Some(x),
    ensures
        first_missing(required, names, m) == Some(x),
    decreases m,
{
    if n < m {
        lemma_missing_persists(required, names, n, (m - 1) as nat, x);
    }
}

fn entries_contain_name(entries: &Vec<(String, String)>, x: &str) -> (r: bool)
    ensures
        r == entry_names(pairs_view(entries@)).contains(x@),
{
    let ghost w = entry_names(pairs_view(entries@));
    let mut i: usize = 0;
    while i < entries.len()
        invariant
            i <= entries@.len(),
            w == entry_names(pairs_view(entries@)),
            forall|j: int| 0 <= j < i ==> w[j] != x@,
        decreases entries@.len() - i,
    {
        if crate::text::str_eq(entries[i].0.as_str(), x) {
            assert(w[i as int] == x@);
            return true;
        }
        i = i + 1;
    }
    false
}

/// Parses the inner manifest `bytes` against the approved file list
/// `required_files`: the listed files with their lower-case digests, in line
/// order, or the first reason the manifest is refused.
pub fn parse_inner_manifest(bytes: &[u8], required_files: &[&str]) -> (r: Result<
    Vec<(String, String)>,
    PackageError,
>)
    ensures
        manifest_view(r) == manifest_result(bytes@, strs_view(required_files@)),
{
    let ghost req = strs_view(required_files@);
    if bytes.len() as u64 > MAX_MANIFEST_BYTES {
        return Err(PackageError::ManifestTooLarge);
    }
    let text = match utf8_text(bytes) {
        None => {
            return Err(PackageError::ManifestNotUtf8);
        },
        Some(t) => t,
    };
    let chars = chars_of(text);
    let body = if chars.len() > 0 && chars[0] == '\u{feff}' {
        let b = slice_chars(chars.as_slice(), 1, chars.len());
        assert(b@ =~= chars@.drop_first());
        b
    } else {
        chars
    };
    let lines = text_lines_exec(body.as_slice());
    let ghost ls = text_lines(strip_bom(decode_utf8(bytes@)));
    assert(chars_view(lines@) == ls);
    let mut entries: Vec<(String, String)> = Vec::new();
    let mut norms: Vec<String> = Vec::new();
    let mut i: usize = 0;
    assert(pairs_view(entries@) =~= Seq::<(Seq<char>, Seq<char>)>::empty());
    while i < lines.len()
        invariant
            i <= lines@.len(),
            ls == chars_view(lines@),
            ls == text_lines(strip_bom(decode_utf8(bytes@))),
            bytes@.len() <= MAX_MANIFEST_BYTES,
            valid_utf8(bytes@),
            req == strs_view(required_files@),
            manifest_entries(ls, req, i as nat) == Ok::<Seq<(Seq<char>, Seq<char>)>, PackageFailure>(
                pairs_view(entries@),
            ),
            norms@.len() == entries@.len(),
            forall|j: int| 0 <= j < norms@.len() ==> (#[trigger] norms@[j])@ == normalized_name(entries@[j].0@),
        decreases lines@.len() - i,
    {
        assert(ls[i as int] == lines@[i as int]@);
        match manifest_line_exec(lines[i].as_slice(), i + 1, required_files) {
            Err(e) => {
                proof {
                    lemma_entries_err_persists(ls, req, (i + 1) as nat, ls.len(), e@);
                }
                return Err(e);
            },
            Ok((name, digest)) => {
                let nchars = chars_of(name.as_str());
                let norm = normalized_chars(nchars.as_slice());
                let dup = strings_contain(&norms, norm.as_str());
                proof {
                    let acc = pairs_view(entries@);
                    let w = norms@.map_values(|t: String| t@);
                    if dup {
                        let j = choose|j: int| 0 <= j < w.len() && w[j] == norm@;
                        assert(normalized_name(acc[j].0) == normalized_name(name@));
                    } else {
                        if normalized_listed(acc, name@) {
                            let j = choose|j: int|
                                0 <= j < acc.len() && normalized_name(#[trigger] acc[j].0)
                                    == normalized_name(name@);
                            assert(w[j] == norm@);
                        }
                    }
                }
                if dup {
                    proof {
                        lemma_entries_err_persists(
                            ls,
                            req,
                            (i + 1) as nat,
                            ls.len(),
                            PackageFailure::ManifestDuplicate,
                        );
                    }
                    return Err(PackageError::ManifestDuplicate);
                }
                let ghost old_entries = entries@;
                entries.push((name, digest));
                norms.push(norm);
                proof {
                    assert(pairs_view(entries@) =~= pairs_view(old_entries).push((name@, digest@)));
                }
            },
        }
        i = i + 1;
    }
    let ghost ents = pairs_view(entries@);
    if entries.len() != required_files.len() {
        return Err(PackageError::ManifestIncomplete);
    }
    let mut k: usize = 0;
    while k < required_files.len()
        invariant
            k <= required_files@.len(),
            req == strs_view(required_files@),
            ents == pairs_view(entries@),
            ents.len() == req.len(),
            ls == text_lines(strip_bom(decode_utf8(bytes@))),
            bytes@.len() <= MAX_MANIFEST_BYTES,
            valid_utf8(bytes@),
            manifest_entries(ls, req, ls.len()) == Ok::<Seq<(Seq<char>, Seq<char>)>, PackageFailure>(ents),
            first_missing(req, entry_names(ents), k as nat) is None,
        decreases required_files@.len() - k,
    {
        if !entries_contain_name(&entries, required_files[k]) {
            proof {
                lemma_missing_persists(req, entry_names(ents), (k + 1) as nat, req.len(), req[k as int]);
            }
            return Err(PackageError::ManifestMissing(crate::text::string_of(required_files[k])));
        }
        k = k + 1;
    }
    Ok(entries)
}

// ---------------------------------------------------------------------------
// What an accepted manifest guarantees

proof fn lemma_entries_properties(lines: Seq<Seq<char>>, required: Seq<Seq<char>>, n: nat)
    ensures
        manifest_entries(lines, required, n) matches Ok(entries) ==> {
            &&& forall|i: int|
                0 <= i < entries.len() ==> required.contains(#[trigger] entries[i].0)
                    && entries[i].1.len() == 64
            &&& forall|i: int, j: int|
                0 <= i < entries.len() && 0 <= j < entries.len() && i != j ==> normalized_name(
                    #[trigger] entries[i].0,
                ) != normalized_name(#[trigger] entries[j].0)
        },
    decreases n,
{
    if n == 0 {
        return;
    }
    lemma_entries_properties(lines, required, (n - 1) as nat);
    let prev = manifest_entries(lines, required, (n - 1) as nat);
    if prev is Err {
        assert(manifest_entries(lines, required, n) is Err);
        return;
    }
    let acc = prev->Ok_0;
    let line_result = manifest_line(lines[n - 1], n, required);
    if line_result is Err {
        assert(manifest_entries(lines, required, n) is Err);
        return;
    }
    let entry = line_result->Ok_0;
    if normalized_listed(acc, entry.0) {
        assert(manifest_entries(lines, required, n) is Err);
        return;
    }
    let entries = acc.push(entry);
    assert(manifest_entries(lines, required, n) == Ok::<Seq<(Seq<char>, Seq<char>)>, PackageFailure>(
        entries,
    ));
    let line = lines[n - 1];
    if let Some((d, nm)) = split_once_double_space(line) {
        assert(entry == (nm, ascii_lower_all(d)));
        assert(ascii_lower_all(d).len() == d.len());
    }
    assert forall|i: int| 0 <= i < entries.len() implies required.contains(#[trigger] entries[i].0)
        && entries[i].1.len() == 64 by {
        if i < acc.len() {
            assert(entries[i] == acc[i]);
        }
    }
    assert forall|i: int, j: int|
        0 <= i < entries.len() && 0 <= j < entries.len() && i != j implies normalized_name(
            #[trigger] entries[i].0,
        ) != normalized_name(#[trigger] entries[j].0) by {
        if i == acc.len() as int {
            assert(entries[j] == acc[j]);
        } else if j == acc.len() as int {
            assert(entries[i] == acc[i]);
        } else {
            assert(entries[i] == acc[i] && entries[j] == acc[j]);
        }
    }
}

proof fn lemma_nothing_missing(required: Seq<Seq<char>>, names: Seq<Seq<char>>, n: nat)
    requires
        n <= required.len(),
        first_missing(required, names, n) is None,
    ensures
        forall|k: int| 0 <= k < n ==> names.contains(#[trigger] required[k]),
    decreases n,
{
    if n > 0 {
        lemma_nothing_missing(required, names, (n - 1) as nat);
    }
}

/// An accepted manifest lists exactly the approved files: one line per
/// approved file, every listed name approved, no two names equal once
/// normalized, and every digest 64 hexadecimal digits in lower case.
pub proof fn lemma_accepted_manifest_is_exact(bytes: Seq<u8>, required: Seq<Seq<char>>)
    requires
        manifest_result(bytes, required) is Ok,
    ensures
        ({
            let entries = manifest_result(bytes, required)->Ok_0;
            &&& entries.len() == required.len()
            &&& forall|i: int|
                0 <= i < entries.len() ==> required.contains(#[trigger] entries[i].0)
                    && entries[i].1.len() == 64
            &&& forall|k: int|
                0 <= k < required.len() ==> entry_names(entries).contains(#[trigger] required[k])
            &&& forall|i: int, j: int|
                0 <= i < entries.len() && 0 <= j < entries.len() && i != j ==> normalized_name(
                    #[trigger] entries[i].0,
                ) != normalized_name(#[trigger] entries[j].0)
        }),
{
    let lines = text_lines(strip_bom(decode_utf8(bytes)));
    lemma_entries_properties(lines, required, lines.len());
    let entries = manifest_result(bytes, required)->Ok_0;
    lemma_nothing_missing(required, entry_names(entries), required.len());
}

/// The entry line `i` (0-based) gives when it passes.
pub open spec fn line_entry(lines: Seq<Seq<char>>, required: Seq<Seq<char>>, i: int) -> (
    Seq<char>,
    Seq<char>,
) {
    manifest_line(lines[i], (i + 1) as nat, required)->Ok_0
}

/// Whether some line names `x`.
pub open spec fn line_listed(lines: Seq<Seq<char>>, required: Seq<Seq<char>>, x: Seq<char>) -> bool {
    exists|i: int| 0 <= i < lines.len() && #[trigger] line_entry(lines, required, i).0 == x
}

/// Every one of the first `n` lines passes on its own.
pub open spec fn lines_pass(lines: Seq<Seq<char>>, required: Seq<Seq<char>>, n: nat) -> bool {
    forall|i: int| 0 <= i < n ==> #[trigger] manifest_line(lines[i], (i + 1) as nat, required) is Ok
}

/// The names of the first `n` lines differ once normalized.
pub open spec fn names_distinct(lines: Seq<Seq<char>>, required: Seq<Seq<char>>, n: nat) -> bool {
    forall|i: int, j: int|
        0 <= i < n && 0 <= j < n && i != j ==> normalized_name(
            #[trigger] line_entry(lines, required, i).0,
        ) != normalized_name(#[trigger] line_entry(lines, required, j).0)
}

proof fn lemma_entries_shape(lines: Seq<Seq<char>>, required: Seq<Seq<char>>, n: nat)
    ensures
        manifest_entries(lines, required, n) is Ok <==> (lines_pass(lines, required, n)
            && names_distinct(lines, required, n)),
        manifest_entries(lines, required, n) is Ok ==> manifest_entries(lines, required, n)->Ok_0
            == Seq::new(n, |i: int| line_entry(lines, required, i)),
    decreases n,
{
    if n == 0 {
        assert(Seq::<(Seq<char>, Seq<char>)>::empty() =~= Seq::new(
            0,
            |i: int| line_entry(lines, required, i),
        ));
        return;
    }
    let m = (n - 1) as nat;
    lemma_entries_shape(lines, required, m);
    let prev = manifest_entries(lines, required, m);
    let whole = Seq::new(n, |i: int| line_entry(lines, required, i));
    if prev is Ok {
        let acc = prev->Ok_0;
        let lr = manifest_line(lines[n - 1], n, required);
        assert(lr == manifest_line(lines[m as int], (m + 1) as nat, required));
        if lr is Ok {
            let entry = lr->Ok_0;
            assert(entry == line_entry(lines, required, m as int));
            if normalized_listed(acc, entry.0) {
                let j = choose|j: int|
                    0 <= j < acc.len() && normalized_name(#[trigger] acc[j].0) == normalized_name(
                        entry.0,
                    );
                assert(acc[j] == line_entry(lines, required, j));
                assert(!names_distinct(lines, required, n));
            } else {
                assert(acc.push(entry) =~= whole);
                assert(lines_pass(lines, required, n)) by {
                    assert forall|i: int| 0 <= i < n implies #[trigger] manifest_line(
                        lines[i],
                        (i + 1) as nat,
                        required,
                    ) is Ok by {
                        if i < m {
                            assert(lines_pass(lines, required, m));
                        }
                    }
                }
                assert(names_distinct(lines, required, n)) by {
                    assert forall|i: int, j: int|
                        0 <= i < n && 0 <= j < n && i != j implies normalized_name(
                            #[trigger] line_entry(lines, required, i).0,
                        ) != normalized_name(#[trigger] line_entry(lines, required, j).0) by {
                        if i == m {
                            assert(acc[j] == line_entry(lines, required, j));
                        } else if j == m {
                            assert(acc[i] == line_entry(lines, required, i));
                        }
                    }
                }
            }
        } else {
            assert(!lines_pass(lines, required, n)) by {
                assert(!(manifest_line(lines[m as int], (m + 1) as nat, required) is Ok));
            }
        }
    } else {
        if lines_pass(lines, required, n) && names_distinct(lines, required, n) {
            assert(lines_pass(lines, required, m));
            assert(names_distinct(lines, required, m)) by {
                assert forall|i: int, j: int|
                    0 <= i < m && 0 <= j < m && i != j implies normalized_name(
                        #[trigger] line_entry(lines, required, i).0,
                    ) != normalized_name(#[trigger] line_entry(lines, required, j).0) by {
                    assert(names_distinct(lines, required, n));
                }
            }
        }
    }
}

proof fn lemma_missing_iff(required: Seq<Seq<char>>, names: Seq<Seq<char>>, n: nat)
    requires
        n <= required.len(),
    ensures
        first_missing(required, names, n) is None <==> forall|k: int|
            0 <= k < n ==> names.contains(#[trigger] required[k]),
    decreases n,
{
    if n > 0 {
        lemma_missing_iff(required, names, (n - 1) as nat);
    }
}

/// A manifest is accepted exactly when it is within the size limit, is
/// UTF-8, every line passes on its own (a 64-digit hexadecimal digest, two
/// spaces, a safe, approved and approved-Unicode name), the names differ
/// once normalized, there is one line per approved file, and every
/// approved file is listed.
pub proof fn lemma_manifest_accepted_iff(bytes: Seq<u8>, required: Seq<Seq<char>>)
    ensures
        manifest_result(bytes, required) is Ok <==> ({
            let lines = text_lines(strip_bom(decode_utf8(bytes)));
            &&& bytes.len() <= MAX_MANIFEST_BYTES
            &&& valid_utf8(bytes)
            &&& lines_pass(lines, required, lines.len())
            &&& names_distinct(lines, required, lines.len())
            &&& lines.len() == required.len()
            &&& forall|k: int|
                0 <= k < required.len() ==> line_listed(lines, required, #[trigger] required[k])
        }),
{
    let lines = text_lines(strip_bom(decode_utf8(bytes)));
    lemma_entries_shape(lines, required, lines.len());
    if bytes.len() <= MAX_MANIFEST_BYTES && valid_utf8(bytes) && manifest_entries(
        lines,
        required,
        lines.len(),
    ) is Ok {
        let entries = manifest_entries(lines, required, lines.len())->Ok_0;
        let names = entry_names(entries);
        if entries.len() == required.len() {
            lemma_missing_iff(required, names, required.len());
            assert((forall|k: int| 0 <= k < required.len() ==> names.contains(#[trigger] required[k]))
                <==> (forall|k: int|
                0 <= k < required.len() ==> line_listed(lines, required, #[trigger] required[k])))
                by {
                assert forall|k: int| 0 <= k < required.len() implies (names.contains(required[k])
                    <==> line_listed(lines, required, required[k])) by {
                    if names.contains(required[k]) {
                        let i = choose|i: int| 0 <= i < names.len() && names[i] == required[k];
                        assert(line_entry(lines, required, i).0 == required[k]);
                    }
                    if exists|i: int|
                        0 <= i < lines.len() && #[trigger] line_entry(lines, required, i).0
                            == required[k] {
                        let i = choose|i: int|
                            0 <= i < lines.len() && #[trigger] line_entry(lines, required, i).0
                                == required[k];
                        assert(names[i] == required[k]);
                    }
                }
            }
        }
    }
}

} // verus!
