//! The exact layout a Windows release ZIP must have: safe raw paths, regular
//! entries within the size limits, only approved file and directory names,
//! no duplicates, no nested ZIP, and every approved file present.

use vstd::prelude::*;
use crate::package::{
    allowed_unicode_name, chars_allowed_unicode_name, chars_components_safe, components_safe,
    expected_archive_name, expected_archive_names, normalized_chars, normalized_name, strs_view,
    windows_approved_dirs, windows_approved_package_dirs, MAX_ARCHIVE_ENTRIES, MAX_ENTRY_BYTES,
    MAX_UNCOMPRESSED_BYTES,
};
use crate::package_error::{PackageError, PackageFailure};
use crate::text::{
    all_ascii, ascii_lower_all, chars_all_ascii, chars_contain, chars_eq, chars_of,
    chars_to_ascii_lower, slice_chars, split_chars, split_on, lemma_split_join, strings_contain,
};

verus! {

/// What the layout check reads of one ZIP entry: its stored name, whether
/// the ZIP reader accepts that name as a path inside the extraction
/// directory, its kind and its declared uncompressed size.
#[derive(Clone, Debug)]
pub struct ZipEntryInfo {
    pub name: String,
    pub enclosed: bool,
    pub is_symlink: bool,
    pub is_file: bool,
    pub is_dir: bool,
    pub size: u64,
}

/// The abstract form of a [`ZipEntryInfo`].
pub struct ZipEntrySpec {
    pub name: Seq<char>,
    pub enclosed: bool,
    pub is_symlink: bool,
    pub is_file: bool,
    pub is_dir: bool,
    pub size: nat,
}

impl View for ZipEntryInfo {
    type V = ZipEntrySpec;

    open spec fn view(&self) -> ZipEntrySpec {
        ZipEntrySpec {
            name: self.name@,
            enclosed: self.enclosed,
            is_symlink: self.is_symlink,
            is_file: self.is_file,
            is_dir: self.is_dir,
            size: self.size as nat,
        }
    }
}

/// The abstract forms of a list of entries.
pub open spec fn entries_view(v: Seq<ZipEntryInfo>) -> Seq<ZipEntrySpec> {
    Seq::new(v.len(), |i: int| v[i]@)
}

/// The abstract forms of a list of strings.
pub open spec fn strings_view(v: Seq<String>) -> Seq<Seq<char>> {
    v.map_values(|t: String| t@)
}

/// The path without one trailing `/`.
pub open spec fn strip_slash(s: Seq<char>) -> Seq<char> {
    if s.len() > 0 && s.last() == '/' {
        s.drop_last()
    } else {
        s
    }
}

/// A stored entry name is safe: no backslash or colon, and without its
/// trailing `/` it is non-empty, relative, and every component is non-empty
/// and neither `.` nor `..`.
pub open spec fn raw_path_safe(raw: Seq<char>) -> bool {
    let rw = strip_slash(raw);
    &&& !raw.contains('\\')
    &&& !raw.contains(':')
    &&& rw.len() > 0
    &&& rw[0] != '/'
    &&& components_safe(rw)
}

/// Whether `file` has the extension `zip` in any ASCII case, as
/// `Path::extension` finds it: the text after the last `.`, where that dot
/// is not the first character.
pub open spec fn has_zip_extension(file: Seq<char>) -> bool {
    exists|i: int|
        0 < i < file.len() && #[trigger] file[i] == '.' && (forall|j: int|
            i < j < file.len() ==> file[j] != '.') && ascii_lower_all(file.skip(i + 1)) == "zip"@
}

/// Whether `norm` is the normalized name of an approved directory.
pub open spec fn approved_dir(norm: Seq<char>) -> bool {
    exists|i: int|
        0 <= i < windows_approved_dirs().len() && norm == normalized_name(
            #[trigger] windows_approved_dirs()[i],
        )
}

/// The approved directories are exactly `licenses`, `licenses/ripgrep`
/// and `licenses/project` (compared as normalized names).
pub proof fn lemma_approved_dirs(x: Seq<char>)
    ensures
        approved_dir(x) <==> (x == "licenses"@ || x == "licenses/ripgrep"@ || x
            == "licenses/project"@),
{
    reveal_strlit("licenses");
    reveal_strlit("licenses/ripgrep");
    reveal_strlit("licenses/project");
    let d = windows_approved_dirs();
    assert forall|k: int| 0 <= k < 3 implies all_ascii(#[trigger] d[k]) && normalized_name(d[k])
        == d[k] by {
        assert(ascii_lower_all(d[k]) =~= d[k]);
    }
    if x == "licenses"@ {
        assert(x == normalized_name(d[0]));
    }
    if x == "licenses/ripgrep"@ {
        assert(x == normalized_name(d[1]));
    }
    if x == "licenses/project"@ {
        assert(x == normalized_name(d[2]));
    }
}

/// What has been seen of an archive: the declared sizes so far, and the
/// normalized names of its files and of its directories.
pub struct ZipScan {
    pub total: nat,
    pub files: Seq<Seq<char>>,
    pub dirs: Seq<Seq<char>>,
}

/// One entry checked against what was seen before it.
pub open spec fn zip_step(st: ZipScan, e: ZipEntrySpec, required: Seq<Seq<char>>) -> Result<
    ZipScan,
    PackageFailure,
> {
    let raw = e.name;
    if !raw_path_safe(raw) {
        Err(PackageFailure::ZipUnsafeRawPath(raw))
    } else if !e.enclosed {
        Err(PackageFailure::ZipUnsafeEntryPath(raw))
    } else if e.is_symlink || (!e.is_file && !e.is_dir) {
        Err(PackageFailure::ZipNonRegular(raw))
    } else if e.size > MAX_ENTRY_BYTES {
        Err(PackageFailure::ZipEntryTooLarge(raw))
    } else if st.total + e.size > MAX_UNCOMPRESSED_BYTES {
        Err(PackageFailure::ZipSizeLimit)
    } else {
        let name = strip_slash(raw);
        let norm = normalized_name(name);
        let total = st.total + e.size;
        if !all_ascii(name) && !allowed_unicode_name(name) {
            Err(PackageFailure::ZipUnapprovedUnicode(raw))
        } else if e.is_dir {
            if !approved_dir(norm) {
                Err(PackageFailure::ZipExtraDirectory(raw))
            } else if st.dirs.contains(norm) {
                Err(PackageFailure::ZipDuplicatePath(raw))
            } else if has_zip_extension(split_on(name, '/').last()) {
                Err(PackageFailure::ZipNestedZip(raw))
            } else {
                Ok(ZipScan { total, files: st.files, dirs: st.dirs.push(norm) })
            }
        } else {
            if !expected_archive_name(required, norm) {
                Err(PackageFailure::ZipExtraFile(raw))
            } else if st.files.contains(norm) {
                Err(PackageFailure::ZipDuplicatePath(raw))
            } else if has_zip_extension(split_on(name, '/').last()) {
                Err(PackageFailure::ZipNestedZip(raw))
            } else {
                Ok(ZipScan { total, files: st.files.push(norm), dirs: st.dirs })
            }
        }
    }
}

/// The first `n` entries checked in order.
pub open spec fn zip_fold(entries: Seq<ZipEntrySpec>, required: Seq<Seq<char>>, n: nat) -> Result<
    ZipScan,
    PackageFailure,
>
    decreases n,
{
    if n == 0 {
        Ok(ZipScan { total: 0, files: Seq::empty(), dirs: Seq::empty() })
    } else {
        match zip_fold(entries, required, (n - 1) as nat) {
            Err(e) => Err(e),
            Ok(st) => zip_step(st, entries[n - 1], required),
        }
    }
}

/// The normalized names the archive must hold as files.
pub open spec fn expected_set(required: Seq<Seq<char>>) -> Set<Seq<char>> {
    Set::new(|x: Seq<char>| expected_archive_name(required, x))
}

/// Whether the entries form an approved Windows package with the file list
/// `required`, and if not, the first reason.
pub open spec fn zip_layout_result(entries: Seq<ZipEntrySpec>, required: Seq<Seq<char>>) -> Result<
    (),
    PackageFailure,
> {
    if entries.len() == 0 || entries.len() > MAX_ARCHIVE_ENTRIES {
        Err(PackageFailure::ZipEntryCount)
    } else {
        match zip_fold(entries, required, entries.len()) {
            Err(e) => Err(e),
            Ok(st) => {
                if st.files.to_set() == expected_set(required) {
                    Ok(())
                } else {
                    Err(PackageFailure::ZipIncomplete)
                }
            },
        }
    }
}

// ---------------------------------------------------------------------------
// Checking

fn chars_strip_slash(s: &[char]) -> (r: Vec<char>)
    ensures
        r@ == strip_slash(s@),
{
    if s.len() > 0 && s[s.len() - 1] == '/' {
        let r = slice_chars(s, 0, s.len() - 1);
        assert(r@ =~= s@.drop_last());
        r
    } else {
        let r = slice_chars(s, 0, s.len());
        assert(r@ =~= s@);
        r
    }
}

fn chars_raw_path_safe(raw: &[char]) -> (r: bool)
    ensures
        r == raw_path_safe(raw@),
{
    if chars_contain(raw, '\\') || chars_contain(raw, ':') {
        return false;
    }
    let rw = chars_strip_slash(raw);
    if rw.len() == 0 || rw[0] == '/' {
        return false;
    }
    chars_components_safe(rw.as_slice())
}

fn chars_has_zip_extension(file: &[char]) -> (r: bool)
    ensures
        r == has_zip_extension(file@),
{
    let mut i: usize = file.len();
    while i > 0
        invariant
            i <= file@.len(),
            forall|j: int| i <= j < file@.len() ==> file@[j] != '.',
        decreases i,
    {
        if file[i - 1] == '.' {
            let d = i - 1;
            if d == 0 {
                proof {
                    if has_zip_extension(file@) {
                        let k = choose|k: int|
                            0 < k < file@.len() && #[trigger] file@[k] == '.' && (forall|j: int|
                                k < j < file@.len() ==> file@[j] != '.') && ascii_lower_all(
                                file@.skip(k + 1),
                            ) == "zip"@;
                        assert(file@[k] == '.');
                    }
                }
                return false;
            }
            let ext = slice_chars(file, i, file.len());
            let lower = chars_to_ascii_lower(ext.as_slice());
            let zip = chars_of("zip");
            let r = chars_eq(lower.as_slice(), zip.as_slice());
            proof {
                assert(ext@ =~= file@.skip(d + 1));
                if r {
                    assert(file@[d as int] == '.');
                } else if has_zip_extension(file@) {
                    let k = choose|k: int|
                        0 < k < file@.len() && #[trigger] file@[k] == '.' && (forall|j: int|
                            k < j < file@.len() ==> file@[j] != '.') && ascii_lower_all(
                            file@.skip(k + 1),
                        ) == "zip"@;
                    if k < d {
                        assert(file@[d as int] == '.');
                    } else if k > d {
                        assert(file@[k] == '.');
                    }
                }
            }
            return r;
        }
        i = i - 1;
    }
    proof {
        if has_zip_extension(file@) {
            let k = choose|k: int|
                0 < k < file@.len() && #[trigger] file@[k] == '.' && (forall|j: int|
                    k < j < file@.len() ==> file@[j] != '.') && ascii_lower_all(file@.skip(k + 1))
                    == "zip"@;
            assert(file@[k] == '.');
        }
    }
    false
}

fn approved_dir_names() -> (r: Vec<String>)
    ensures
        forall|x: Seq<char>| approved_dir(x) <==> strings_view(r@).contains(x),
{
    let dirs = windows_approved_package_dirs();
    let ghost d = windows_approved_dirs();
    let mut r: Vec<String> = Vec::new();
    let mut i: usize = 0;
    while i < dirs.len()
        invariant
            i <= dirs@.len(),
            strs_view(dirs@) == d,
            d.len() == 3,
            r@.len() == i,
            forall|j: int| 0 <= j < i ==> (#[trigger] r@[j])@ == normalized_name(d[j]),
        decreases dirs@.len() - i,
    {
        let c = chars_of(dirs[i]);
        r.push(normalized_chars(c.as_slice()));
        i = i + 1;
    }
    proof {
        let w = strings_view(r@);
        assert forall|x: Seq<char>| approved_dir(x) <==> w.contains(x) by {
            if approved_dir(x) {
                let k = choose|k: int| 0 <= k < d.len() && x == normalized_name(#[trigger] d[k]);
                assert(w[k] == x);
            }
            if w.contains(x) {
                let k = choose|k: int| 0 <= k < w.len() && w[k] == x;
                assert(x == normalized_name(d[k]));
            }
        }
    }
    r
}

fn zip_step_exec(
    total: &mut u64,
    files: &mut Vec<String>,
    dirs: &mut Vec<String>,
    e: &ZipEntryInfo,
    expected: &Vec<String>,
    approved: &Vec<String>,
    Ghost(required): Ghost<Seq<Seq<char>>>,
) -> (r: Result<(), PackageError>)
    requires
        *old(total) <= MAX_UNCOMPRESSED_BYTES,
        forall|x: Seq<char>|
            expected_archive_name(required, x) <==> strings_view(expected@).contains(x),
        forall|x: Seq<char>| approved_dir(x) <==> strings_view(approved@).contains(x),
    ensures
        ({
            let st = ZipScan {
                total: *old(total) as nat,
                files: strings_view(old(files)@),
                dirs: strings_view(old(dirs)@),
            };
            match zip_step(st, e@, required) {
                Ok(nst) => r is Ok && nst == ZipScan {
                    total: *final(total) as nat,
                    files: strings_view(final(files)@),
                    dirs: strings_view(final(dirs)@),
                } && *final(total) <= MAX_UNCOMPRESSED_BYTES,
                Err(f) => r matches Err(err) && err@ == f,
            }
        }),
{
    let raw = chars_of(e.name.as_str());
    if !chars_raw_path_safe(raw.as_slice()) {
        return Err(PackageError::ZipUnsafeRawPath(e.name.clone()));
    }
    if !e.enclosed {
        return Err(PackageError::ZipUnsafeEntryPath(e.name.clone()));
    }
    if e.is_symlink || (!e.is_file && !e.is_dir) {
        return Err(PackageError::ZipNonRegular(e.name.clone()));
    }
    if e.size > MAX_ENTRY_BYTES {
        return Err(PackageError::ZipEntryTooLarge(e.name.clone()));
    }
    if *total + e.size > MAX_UNCOMPRESSED_BYTES {
        return Err(PackageError::ZipSizeLimit);
    }
    let name = chars_strip_slash(raw.as_slice());
    if !chars_all_ascii(name.as_slice()) && !chars_allowed_unicode_name(name.as_slice()) {
        return Err(PackageError::ZipUnapprovedUnicode(e.name.clone()));
    }
    let norm = normalized_chars(name.as_slice());
    proof {
        lemma_split_join(name@, '/');
    }
    let pieces = split_chars(name.as_slice(), '/');
    let last = &pieces[pieces.len() - 1];
    if e.is_dir {
        if !strings_contain(approved, norm.as_str()) {
            return Err(PackageError::ZipExtraDirectory(e.name.clone()));
        }
        if strings_contain(dirs, norm.as_str()) {
            return Err(PackageError::ZipDuplicatePath(e.name.clone()));
        }
        if chars_has_zip_extension(last.as_slice()) {
            return Err(PackageError::ZipNestedZip(e.name.clone()));
        }
        dirs.push(norm);
    } else {
        if !strings_contain(expected, norm.as_str()) {
            return Err(PackageError::ZipExtraFile(e.name.clone()));
        }
        if strings_contain(files, norm.as_str()) {
            return Err(PackageError::ZipDuplicatePath(e.name.clone()));
        }
        if chars_has_zip_extension(last.as_slice()) {
            return Err(PackageError::ZipNestedZip(e.name.clone()));
        }
        files.push(norm);
    }
    *total = *total + e.size;
    proof {
        assert(e.is_dir ==> strings_view(dirs@) =~= strings_view(old(dirs)@).push(norm@));
        assert(!e.is_dir ==> strings_view(files@) =~= strings_view(old(files)@).push(norm@));
    }
    Ok(())
}

proof fn lemma_zip_fold_err_persists(
    entries: Seq<ZipEntrySpec>,
    required: Seq<Seq<char>>,
    n: nat,
    m: nat,
    e: PackageFailure,
)
    requires
        n <= m,
        zip_fold(entries, required, n) == Err::<ZipScan, PackageFailure>(e),
    ensures
        zip_fold(entries, required, m) == Err::<ZipScan, PackageFailure>(e),
    decreases m,
{
    if n < m {
        lemma_zip_fold_err_persists(entries, required, n, (m - 1) as nat, e);
    }
}

/// Checks that `entries`, the entries of a Windows release ZIP in archive
/// order, form exactly the approved package with the file list
/// `required_files`; otherwise says why not.
pub fn validate_archive_layout(entries: &[ZipEntryInfo], required_files: &[&str]) -> (r: Result<
    (),
    PackageError,
>)
    ensures
        match r {
            Ok(()) => zip_layout_result(entries_view(entries@), strs_view(required_files@)) == Ok::<
                (),
                PackageFailure,
            >(()),
            Err(e) => zip_layout_result(entries_view(entries@), strs_view(required_files@)) == Err::<
                (),
                PackageFailure,
            >(e@),
        },
{
    let ghost ev = entries_view(entries@);
    let ghost req = strs_view(required_files@);
    if entries.len() == 0 || entries.len() > MAX_ARCHIVE_ENTRIES {
        return Err(PackageError::ZipEntryCount);
    }
    let expected = expected_archive_names(required_files);
    proof {
        assert forall|x: Seq<char>|
            expected_archive_name(req, x) <==> strings_view(expected@).contains(x) by {
            if expected_archive_name(req, x) {
                let j = choose|j: int| 0 <= j < expected@.len() && (#[trigger] expected@[j])@ == x;
                assert(strings_view(expected@)[j] == x);
            }
            if strings_view(expected@).contains(x) {
                let j = choose|j: int|
                    0 <= j < strings_view(expected@).len() && strings_view(expected@)[j] == x;
                assert(expected@[j]@ == x);
            }
        }
    }
    let approved = approved_dir_names();
    let mut total: u64 = 0;
    let mut files: Vec<String> = Vec::new();
    let mut dirs: Vec<String> = Vec::new();
    let mut i: usize = 0;
    assert(strings_view(files@) =~= Seq::<Seq<char>>::empty());
    assert(strings_view(dirs@) =~= Seq::<Seq<char>>::empty());
    while i < entries.len()
        invariant
            i <= entries@.len(),
            0 < entries@.len() <= MAX_ARCHIVE_ENTRIES,
            ev == entries_view(entries@),
            req == strs_view(required_files@),
            total <= MAX_UNCOMPRESSED_BYTES,
            forall|x: Seq<char>|
                expected_archive_name(req, x) <==> strings_view(expected@).contains(x),
            forall|x: Seq<char>| approved_dir(x) <==> strings_view(approved@).contains(x),
            zip_fold(ev, req, i as nat) == Ok::<ZipScan, PackageFailure>(
                ZipScan { total: total as nat, files: strings_view(files@), dirs: strings_view(dirs@) },
            ),
        decreases entries@.len() - i,
    {
        let step = zip_step_exec(
            &mut total,
            &mut files,
            &mut dirs,
            &entries[i],
            &expected,
            &approved,
            Ghost(req),
        );
        match step {
            Err(e) => {
                proof {
                    lemma_zip_fold_err_persists(ev, req, (i + 1) as nat, ev.len(), e@);
                }
                return Err(e);
            },
            Ok(()) => {},
        }
        i = i + 1;
    }
    let ghost st = ZipScan {
        total: total as nat,
        files: strings_view(files@),
        dirs: strings_view(dirs@),
    };
    assert(zip_fold(ev, req, ev.len()) == Ok::<ZipScan, PackageFailure>(st));
    proof {
        lemma_files_expected(ev, req, ev.len());
    }
    let mut k: usize = 0;
    while k < expected.len()
        invariant
            k <= expected@.len(),
            st.files == strings_view(files@),
            0 < entries@.len() <= MAX_ARCHIVE_ENTRIES,
            ev == entries_view(entries@),
            req == strs_view(required_files@),
            forall|x: Seq<char>|
                expected_archive_name(req, x) <==> strings_view(expected@).contains(x),
            zip_fold(ev, req, ev.len()) == Ok::<ZipScan, PackageFailure>(st),
            forall|j: int| 0 <= j < k ==> st.files.contains(#[trigger] strings_view(expected@)[j]),
        decreases expected@.len() - k,
    {
        if !strings_contain(&files, expected[k].as_str()) {
            proof {
                let x = strings_view(expected@)[k as int];
                assert(strings_view(expected@).contains(x));
                assert(expected_set(req).contains(x));
                assert(!st.files.to_set().contains(x));
            }
            return Err(PackageError::ZipIncomplete);
        }
        k = k + 1;
    }
    proof {
        assert forall|x: Seq<char>| st.files.to_set().contains(x) <==> expected_set(req).contains(x) by {
            if expected_set(req).contains(x) {
                let j = choose|j: int|
                    0 <= j < strings_view(expected@).len() && strings_view(expected@)[j] == x;
                assert(st.files.contains(strings_view(expected@)[j]));
            }
        }
        assert(st.files.to_set() =~= expected_set(req));
    }
    Ok(())
}

/// Every file name seen by a successful scan is an expected name.
proof fn lemma_files_expected(entries: Seq<ZipEntrySpec>, required: Seq<Seq<char>>, n: nat)
    ensures
        zip_fold(entries, required, n) matches Ok(st) ==> forall|j: int|
            0 <= j < st.files.len() ==> expected_archive_name(required, #[trigger] st.files[j]),
    decreases n,
{
    if n > 0 {
        lemma_files_expected(entries, required, (n - 1) as nat);
    }
}

/// Whether one entry passed the per-entry checks of [`zip_step`]: a safe raw
/// path the reader also accepts, a regular file or directory, within the
/// per-entry limit, and an approved name.
pub open spec fn entry_passed(e: ZipEntrySpec, required: Seq<Seq<char>>) -> bool {
    let name = strip_slash(e.name);
    &&& raw_path_safe(e.name)
    &&& e.enclosed
    &&& !e.is_symlink
    &&& (e.is_file || e.is_dir)
    &&& e.size <= MAX_ENTRY_BYTES
    &&& (all_ascii(name) || allowed_unicode_name(name))
    &&& !has_zip_extension(split_on(name, '/').last())
    &&& e.is_dir ==> approved_dir(normalized_name(name))
    &&& !e.is_dir ==> expected_archive_name(required, normalized_name(name))
}

proof fn lemma_fold_entries_passed(entries: Seq<ZipEntrySpec>, required: Seq<Seq<char>>, n: nat)
    ensures
        zip_fold(entries, required, n) matches Ok(st) ==> {
            &&& st.total <= MAX_UNCOMPRESSED_BYTES
            &&& forall|i: int| 0 <= i < n ==> entry_passed(#[trigger] entries[i], required)
            &&& st.files.no_duplicates()
            &&& st.dirs.no_duplicates()
            &&& forall|k: int| 0 <= k < st.dirs.len() ==> approved_dir(#[trigger] st.dirs[k])
        },
    decreases n,
{
    if n > 0 {
        lemma_fold_entries_passed(entries, required, (n - 1) as nat);
        if let Ok(st) = zip_fold(entries, required, n) {
            let prev = zip_fold(entries, required, (n - 1) as nat)->Ok_0;
            assert(zip_fold(entries, required, (n - 1) as nat) is Ok);
            assert forall|i: int| 0 <= i < n implies entry_passed(#[trigger] entries[i], required) by {
            }
            assert forall|k: int| 0 <= k < st.dirs.len() implies approved_dir(#[trigger] st.dirs[k]) by {
                if k < prev.dirs.len() {
                    assert(st.dirs[k] == prev.dirs[k]);
                }
            }
        }
    }
}

/// An accepted Windows package holds between one and the maximum number of
/// entries, every entry has a safe path, is a regular file or an approved
/// directory within the size limits, no entry is a nested ZIP, the entries
/// together stay within the uncompressed limit, its files are exactly the
/// approved ones, and no file or directory appears twice once normalized.
pub proof fn lemma_accepted_zip_layout_is_exact(entries: Seq<ZipEntrySpec>, required: Seq<Seq<char>>)
    requires
        zip_layout_result(entries, required) is Ok,
    ensures
        0 < entries.len() <= MAX_ARCHIVE_ENTRIES,
        forall|i: int| 0 <= i < entries.len() ==> entry_passed(#[trigger] entries[i], required),
        zip_fold(entries, required, entries.len()) matches Ok(st) && st.total
            <= MAX_UNCOMPRESSED_BYTES && st.files.to_set() == expected_set(required)
            && st.files.no_duplicates() && st.dirs.no_duplicates() && forall|k: int|
            0 <= k < st.dirs.len() ==> approved_dir(#[trigger] st.dirs[k]),
{
    lemma_fold_entries_passed(entries, required, entries.len());
}

} // verus!
