//! The per-entry rules of package extraction: which lists govern each
//! archive kind, the bounded hashing of one entry, the inner-hash
//! comparison, and the path rule for tar members.

use vstd::prelude::*;
use crate::community_release::CommunityArchiveKind;
use crate::digest::{hex_lower, sha256_digest, BoundedDigest, BoundedDigestView};
use crate::package::{
    linux_required_files, linux_required_package_files, macos_required_files,
    macos_required_package_files, strs_view, windows_manifest_files, windows_required_files,
    windows_required_package_files, windows_v1_0_5_manifest_files, MAX_ENTRY_BYTES,
    MAX_MANIFEST_BYTES,
};
use crate::package_error::{PackageError, PackageFailure};
use crate::text::{chars_eq, chars_of, slice_chars, str_eq, string_from_chars, string_of};
use crate::zip_layout::ZipEntryInfo;

verus! {

// ---------------------------------------------------------------------------
// What governs each archive kind

/// The lists that govern the extraction of one archive: the files the
/// archive must hold, the files its inner manifest must list, the files
/// that must be executable (tar only), and the executable to extract.
pub struct ExtractionPlan {
    pub layout_files: Vec<&'static str>,
    pub manifest_files: Vec<&'static str>,
    pub executable_files: Vec<&'static str>,
    pub executable: &'static str,
}

/// The executable files of a Unix package.
pub open spec fn unix_executable_files() -> Seq<Seq<char>> {
    seq!["grok-zh"@, "Install-GrokZh.sh"@]
}

/// The plan for an archive of kind `kind` published as release `version`.
pub fn extraction_plan(kind: CommunityArchiveKind, version: &str) -> (p: ExtractionPlan)
    ensures
        kind == CommunityArchiveKind::WindowsZip ==> {
            &&& strs_view(p.layout_files@) == windows_required_files()
            &&& version@ == "1.0.5"@ ==> strs_view(p.manifest_files@)
                == windows_v1_0_5_manifest_files()
            &&& version@ != "1.0.5"@ ==> strs_view(p.manifest_files@) == windows_required_files()
            &&& p.executable_files@.len() == 0
            &&& p.executable@ == "grok-zh.exe"@
        },
        kind == CommunityArchiveKind::MacosTarGz ==> {
            &&& strs_view(p.layout_files@) == macos_required_files()
            &&& strs_view(p.manifest_files@) == macos_required_files()
            &&& strs_view(p.executable_files@) == unix_executable_files()
            &&& p.executable@ == "grok-zh"@
        },
        kind == CommunityArchiveKind::LinuxTarGz ==> {
            &&& strs_view(p.layout_files@) == linux_required_files()
            &&& strs_view(p.manifest_files@) == linux_required_files()
            &&& strs_view(p.executable_files@) == unix_executable_files()
            &&& p.executable@ == "grok-zh"@
        },
{
    match kind {
        CommunityArchiveKind::WindowsZip => ExtractionPlan {
            layout_files: windows_required_package_files(),
            manifest_files: windows_manifest_files(version),
            executable_files: Vec::new(),
            executable: "grok-zh.exe",
        },
        CommunityArchiveKind::MacosTarGz => {
            let ex = vec!["grok-zh", "Install-GrokZh.sh"];
            assert(strs_view(ex@) =~= unix_executable_files());
            ExtractionPlan {
                layout_files: macos_required_package_files(),
                manifest_files: macos_required_package_files(),
                executable_files: ex,
                executable: "grok-zh",
            }
        },
        CommunityArchiveKind::LinuxTarGz => {
            let ex = vec!["grok-zh", "Install-GrokZh.sh"];
            assert(strs_view(ex@) =~= unix_executable_files());
            ExtractionPlan {
                layout_files: linux_required_package_files(),
                manifest_files: linux_required_package_files(),
                executable_files: ex,
                executable: "grok-zh",
            }
        },
    }
}

// ---------------------------------------------------------------------------
// ZIP manifest entry

/// Why the manifest entry of a ZIP cannot be read, if it cannot: it is
/// missing, a link, not a file, or larger than the manifest limit.
pub open spec fn manifest_entry_failure(info: Option<ZipEntryInfo>) -> Option<PackageFailure> {
    match info {
        None => Some(PackageFailure::ZipMissingManifest),
        Some(e) => if e.is_symlink || !e.is_file || e.size > MAX_MANIFEST_BYTES {
            Some(PackageFailure::ManifestEntryNotRegular)
        } else {
            None
        },
    }
}

/// Checks the ZIP entry named `SHA256SUMS.txt` (`None` when there is none)
/// before its bytes are read.
pub fn check_inner_manifest_entry(info: Option<&ZipEntryInfo>) -> (r: Result<(), PackageError>)
    ensures
        match manifest_entry_failure(
            match info {
                Some(e) => Some(*e),
                None => None,
            },
        ) {
            None => r is Ok,
            Some(f) => r matches Err(e) && e@ == f,
        },
{
    match info {
        None => Err(PackageError::ZipMissingManifest),
        Some(e) => {
            if e.is_symlink || !e.is_file || e.size > MAX_MANIFEST_BYTES {
                Err(PackageError::ManifestEntryNotRegular)
            } else {
                Ok(())
            }
        },
    }
}

// ---------------------------------------------------------------------------
// Hashing one entry

/// The bounded SHA-256 of one archive entry named `name`.
pub struct EntryDigest {
    digest: BoundedDigest,
    name: String,
    tar: bool,
}

/// The abstract form of an [`EntryDigest`]: the entry's name, whether it is
/// a tar member, and the stream state.
pub struct EntryDigestView {
    pub name: Seq<char>,
    pub tar: bool,
    pub stream: BoundedDigestView,
}

impl View for EntryDigest {
    type V = EntryDigestView;

    closed spec fn view(&self) -> EntryDigestView {
        EntryDigestView { name: self.name@, tar: self.tar, stream: self.digest@ }
    }
}

impl EntryDigest {
    /// The invariant of the underlying stream.
    pub closed spec fn wf(&self) -> bool {
        self.digest.wf()
    }

    /// Starts hashing the ZIP entry `info` found under the manifest name
    /// `name` (`None` when the archive has no entry named exactly so).
    pub fn for_zip_entry(name: &str, info: Option<&ZipEntryInfo>) -> (r: Result<EntryDigest, PackageError>)
        ensures
            match info {
                None => r matches Err(e) && e@ == PackageFailure::ZipMissingEntry(name@),
                Some(i) => if i.is_symlink || !i.is_file || i.size > MAX_ENTRY_BYTES {
                    r matches Err(e) && e@ == PackageFailure::EntryNotRegular(name@)
                } else {
                    r matches Ok(d) && d.wf() && d@ == (EntryDigestView {
                        name: name@,
                        tar: false,
                        stream: BoundedDigestView {
                            declared: i.size as nat,
                            limit: MAX_ENTRY_BYTES as nat,
                            data: Seq::empty(),
                        },
                    })
                },
            },
    {
        match info {
            None => Err(PackageError::ZipMissingEntry(string_of(name))),
            Some(i) => {
                if i.is_symlink || !i.is_file || i.size > MAX_ENTRY_BYTES {
                    Err(PackageError::EntryNotRegular(string_of(name)))
                } else {
                    Ok(
                        EntryDigest {
                            digest: BoundedDigest::new(i.size, MAX_ENTRY_BYTES),
                            name: string_of(name),
                            tar: false,
                        },
                    )
                }
            },
        }
    }

    /// Starts hashing the tar member `name` of declared size `size`.
    pub fn for_tar_entry(name: &str, size: u64) -> (r: Result<EntryDigest, PackageError>)
        ensures
            size > MAX_ENTRY_BYTES ==> (r matches Err(e) && e@ == PackageFailure::TarEntryTooLarge(
                name@,
            )),
            size <= MAX_ENTRY_BYTES ==> (r matches Ok(d) && d.wf() && d@ == EntryDigestView {
                name: name@,
                tar: true,
                stream: BoundedDigestView {
                    declared: size as nat,
                    limit: MAX_ENTRY_BYTES as nat,
                    data: Seq::empty(),
                },
            }),
    {
        if size > MAX_ENTRY_BYTES {
            return Err(PackageError::TarEntryTooLarge(string_of(name)));
        }
        Ok(EntryDigest { digest: BoundedDigest::new(size, MAX_ENTRY_BYTES), name: string_of(name), tar: true })
    }

    /// Receives the next bytes of the entry; more than it declared is
    /// refused.
    pub fn absorb(&mut self, chunk: &[u8]) -> (r: Result<(), PackageError>)
        requires
            old(self).wf(),
        ensures
            final(self).wf(),
            final(self)@.name == old(self)@.name,
            final(self)@.tar == old(self)@.tar,
            final(self)@.stream.declared == old(self)@.stream.declared,
            final(self)@.stream.limit == old(self)@.stream.limit,
            ({
                let fits = old(self)@.stream.data.len() + chunk@.len() <= old(self)@.stream.declared
                    && old(self)@.stream.data.len() + chunk@.len() <= old(self)@.stream.limit;
                &&& fits ==> r is Ok && final(self)@.stream.data == old(self)@.stream.data + chunk@
                &&& !fits ==> (r matches Err(e) && e@ == (if old(self)@.tar {
                    PackageFailure::TarEntryOverrun(old(self)@.name)
                } else {
                    PackageFailure::EntryOverrun(old(self)@.name)
                }))
            }),
    {
        if self.digest.absorb(chunk) {
            Ok(())
        } else if self.tar {
            Err(PackageError::TarEntryOverrun(self.name.clone()))
        } else {
            Err(PackageError::EntryOverrun(self.name.clone()))
        }
    }

    /// The lower-case hexadecimal SHA-256 of the entry, once it yielded
    /// exactly its declared size.
    pub fn finish(self) -> (r: Result<String, PackageError>)
        requires
            self.wf(),
        ensures
            self@.stream.data.len() == self@.stream.declared ==> (r matches Ok(h) && h@ == hex_lower(
                sha256_digest(self@.stream.data),
            )),
            self@.stream.data.len() != self@.stream.declared ==> (r matches Err(e) && e@ == (if self@.tar {
                PackageFailure::TarEntryTruncated(self@.name)
            } else {
                PackageFailure::EntryTruncated(self@.name)
            })),
    {
        let tar = self.tar;
        let name = self.name;
        match self.digest.finish() {
            Some(h) => Ok(h),
            None => if tar {
                Err(PackageError::TarEntryTruncated(name))
            } else {
                Err(PackageError::EntryTruncated(name))
            },
        }
    }
}

/// Compares the SHA-256 an entry has with the one its manifest line gives.
pub fn check_inner_hash(name: &str, expected: &str, actual: &str) -> (r: Result<(), PackageError>)
    ensures
        actual@ == expected@ ==> r is Ok,
        actual@ != expected@ ==> (r matches Err(e) && e@ == PackageFailure::InnerHashMismatch(name@)),
{
    if str_eq(actual, expected) {
        Ok(())
    } else {
        Err(PackageError::InnerHashMismatch(string_of(name)))
    }
}

// ---------------------------------------------------------------------------
// Tar member names

/// Whether every byte is ASCII.
pub open spec fn bytes_ascii(raw: Seq<u8>) -> bool {
    forall|i: int| 0 <= i < raw.len() ==> #[trigger] raw[i] < 128
}

/// The text of ASCII bytes.
pub open spec fn ascii_text(raw: Seq<u8>) -> Seq<char> {
    Seq::new(raw.len(), |i: int| raw[i] as char)
}

/// An ASCII control character.
pub open spec fn is_ascii_control(c: char) -> bool {
    c < ' ' || c == '\x7f'
}

/// The name of a tar member relative to the package root, `None` for the
/// root directory itself, or why the stored path is refused: only ASCII, a
/// single component, optionally after `./`.
pub open spec fn tar_name_result(raw: Seq<u8>) -> Result<Option<Seq<char>>, PackageFailure> {
    let t = ascii_text(raw);
    if !bytes_ascii(raw) {
        Err(PackageFailure::TarNotAscii)
    } else if t == "."@ || t == "./"@ {
        Ok(None)
    } else if t.len() == 0 || t[0] == '/' || t.contains('\\') || t.contains(':') || exists|i: int|
        0 <= i < t.len() && is_ascii_control(#[trigger] t[i]) {
        Err(PackageFailure::TarUnsafeRawPath(t))
    } else {
        let name = if t.len() >= 2 && t[0] == '.' && t[1] == '/' {
            t.skip(2)
        } else {
            t
        };
        if name.len() == 0 || name.contains('/') || name == "."@ || name == ".."@ {
            Err(PackageFailure::TarNestedPath(t))
        } else {
            Ok(Some(name))
        }
    }
}

/// A single package-relative component: non-empty, no `/`, neither `.`
/// nor `..`.
pub open spec fn single_component(n: Seq<char>) -> bool {
    n.len() > 0 && !n.contains('/') && n != "."@ && n != ".."@
}

/// Stored text with no control character, backslash or colon, not
/// starting with `/`.
pub open spec fn plain_stored_text(t: Seq<char>) -> bool {
    &&& !(t.len() > 0 && t[0] == '/')
    &&& !t.contains('\\')
    &&& !t.contains(':')
    &&& forall|i: int| 0 <= i < t.len() ==> !is_ascii_control(#[trigger] t[i])
}

/// A tar member path is the package root exactly when it is `.` or `./`,
/// and names the member `n` exactly when it is ASCII plain text equal to
/// `n` or to `./` followed by `n`, for a single component `n`; every other
/// path is refused.
pub proof fn lemma_tar_names_characterized(raw: Seq<u8>, n: Seq<char>)
    ensures
        tar_name_result(raw) == Ok::<Option<Seq<char>>, PackageFailure>(None) <==> (bytes_ascii(raw)
            && (ascii_text(raw) == "."@ || ascii_text(raw) == "./"@)),
        tar_name_result(raw) == Ok::<Option<Seq<char>>, PackageFailure>(Some(n)) <==> (bytes_ascii(
            raw,
        ) && plain_stored_text(ascii_text(raw)) && single_component(n) && (ascii_text(raw) == n
            || ascii_text(raw) == "./"@ + n)),
{
    reveal_strlit(".");
    reveal_strlit("./");
    reveal_strlit("..");
    let t = ascii_text(raw);
    if bytes_ascii(raw) && plain_stored_text(t) && single_component(n) {
        if t == "./"@ + n {
            assert(t.skip(2) =~= n);
            assert(t.len() > 0);
            if t == "./"@ {
                assert(n.len() == 0);
            }
        }
        if t == n {
            if t.len() >= 2 && t[0] == '.' && t[1] == '/' {
                assert(n.contains('/')) by {
                    assert(n[1] == '/');
                }
            }
            assert(t != "./"@) by {
                if t == "./"@ {
                    assert(t[1] == '/');
                    assert(n.contains('/'));
                }
            }
        }
    }
    if tar_name_result(raw) == Ok::<Option<Seq<char>>, PackageFailure>(Some(n)) {
        if t.len() >= 2 && t[0] == '.' && t[1] == '/' {
            assert(t =~= "./"@ + t.skip(2));
        }
        assert(t.len() > 0);
        assert forall|i: int| 0 <= i < t.len() implies !is_ascii_control(#[trigger] t[i]) by {
            if is_ascii_control(t[i]) {
                assert(exists|j: int| 0 <= j < t.len() && is_ascii_control(#[trigger] t[j]));
            }
        }
    }
}

/// The package-relative name of a tar member with stored path `raw` (see
/// [`tar_name_result`]).
pub fn normalized_unix_tar_name(raw: &[u8]) -> (r: Result<Option<String>, PackageError>)
    ensures
        match r {
            Ok(Some(n)) => tar_name_result(raw@) == Ok::<Option<Seq<char>>, PackageFailure>(
                Some(n@),
            ),
            Ok(None) => tar_name_result(raw@) == Ok::<Option<Seq<char>>, PackageFailure>(None),
            Err(e) => tar_name_result(raw@) == Err::<Option<Seq<char>>, PackageFailure>(e@),
        },
{
    let mut t: Vec<char> = Vec::new();
    let mut i: usize = 0;
    while i < raw.len()
        invariant
            i <= raw@.len(),
            forall|j: int| 0 <= j < i ==> raw@[j] < 128,
            t@ == ascii_text(raw@.take(i as int)),
        decreases raw@.len() - i,
    {
        if raw[i] >= 128 {
            return Err(PackageError::TarNotAscii);
        }
        t.push(raw[i] as char);
        i = i + 1;
        assert(t@ =~= ascii_text(raw@.take(i as int)));
    }
    assert(raw@.take(raw@.len() as int) =~= raw@);
    let ghost tv = ascii_text(raw@);
    let dot = chars_of(".");
    let dot_slash = chars_of("./");
    proof {
        reveal_strlit(".");
        reveal_strlit("./");
        reveal_strlit("..");
    }
    if chars_eq(t.as_slice(), dot.as_slice()) || chars_eq(t.as_slice(), dot_slash.as_slice()) {
        return Ok(None);
    }
    let mut unsafe_path = t.len() == 0 || t[0] == '/';
    let mut k: usize = 0;
    while k < t.len()
        invariant
            k <= t@.len(),
            t@ == tv,
            unsafe_path ==> (tv.len() == 0 || tv[0] == '/' || tv.contains('\\') || tv.contains(':')
                || exists|j: int| 0 <= j < tv.len() && is_ascii_control(#[trigger] tv[j])),
            !unsafe_path ==> !(tv.len() == 0 || tv[0] == '/') && forall|j: int|
                0 <= j < k ==> tv[j] != '\\' && tv[j] != ':' && !is_ascii_control(#[trigger] tv[j]),
        decreases t@.len() - k,
    {
        let c = t[k];
        if c == '\\' || c == ':' || c < ' ' || c == '\x7f' {
            assert(is_ascii_control(tv[k as int]) || tv[k as int] == '\\' || tv[k as int] == ':');
            unsafe_path = true;
        }
        k = k + 1;
    }
    if unsafe_path {
        return Err(PackageError::TarUnsafeRawPath(string_from_chars(t.as_slice())));
    }
    let name = if t.len() >= 2 && t[0] == '.' && t[1] == '/' {
        let n = slice_chars(t.as_slice(), 2, t.len());
        assert(n@ =~= tv.skip(2));
        n
    } else {
        let n = slice_chars(t.as_slice(), 0, t.len());
        assert(n@ =~= tv);
        n
    };
    let mut has_slash = false;
    let mut m: usize = 0;
    while m < name.len()
        invariant
            m <= name@.len(),
            has_slash == exists|j: int| 0 <= j < m && name@[j] == '/',
        decreases name@.len() - m,
    {
        if name[m] == '/' {
            has_slash = true;
        }
        m = m + 1;
    }
    let dotdot = chars_of("..");
    if name.len() == 0 || has_slash || chars_eq(name.as_slice(), dot.as_slice()) || chars_eq(
        name.as_slice(),
        dotdot.as_slice(),
    ) {
        return Err(PackageError::TarNestedPath(string_from_chars(t.as_slice())));
    }
    Ok(Some(string_from_chars(name.as_slice())))
}

// ---------------------------------------------------------------------------
// Comparing every manifest entry

/// The inner-hash comparison of a ZIP package: the manifest entries in the
/// order their files are hashed, and how many have matched so far.
pub struct ManifestCheck {
    entries: Vec<(String, String)>,
    next: usize,
    verified: Ghost<Seq<Seq<char>>>,
}

/// The abstract form of a [`ManifestCheck`]: the listed files with their
/// digests, the number compared, and the digests the compared files had.
pub struct ManifestCheckView {
    pub entries: Seq<(Seq<char>, Seq<char>)>,
    pub next: nat,
    pub verified: Seq<Seq<char>>,
}

impl View for ManifestCheck {
    type V = ManifestCheckView;

    closed spec fn view(&self) -> ManifestCheckView {
        ManifestCheckView {
            entries: crate::manifest::pairs_view(self.entries@),
            next: self.next as nat,
            verified: self.verified@,
        }
    }
}

impl ManifestCheck {
    /// The invariant: every compared file had its listed digest.
    pub closed spec fn wf(&self) -> bool {
        &&& self.next <= self.entries@.len()
        &&& self.verified@.len() == self.next
        &&& forall|i: int|
            0 <= i < self.next ==> #[trigger] self.verified@[i] == self.entries@[i].1@
    }

    /// A comparison of the parsed manifest `entries`, none compared yet.
    pub fn new(entries: Vec<(String, String)>) -> (c: ManifestCheck)
        ensures
            c.wf(),
            c@.entries == crate::manifest::pairs_view(entries@),
            c@.next == 0,
    {
        ManifestCheck { entries, next: 0, verified: Ghost(Seq::empty()) }
    }

    /// The file to hash next, if any remains.
    pub fn next_name(&self) -> (r: Option<&str>)
        requires
            self.wf(),
        ensures
            self@.next < self@.entries.len() ==> (r matches Some(n) && n@
                == self@.entries[self@.next as int].0),
            self@.next >= self@.entries.len() ==> r is None,
    {
        if self.next < self.entries.len() {
            Some(self.entries[self.next].0.as_str())
        } else {
            None
        }
    }

    /// Compares the SHA-256 `actual` of the file named by
    /// [`ManifestCheck::next_name`] with its listed digest; a mismatch
    /// refuses the package and leaves the comparison where it was.
    pub fn record(&mut self, actual: &str) -> (r: Result<(), PackageError>)
        requires
            old(self).wf(),
            old(self)@.next < old(self)@.entries.len(),
        ensures
            final(self).wf(),
            final(self)@.entries == old(self)@.entries,
            ({
                let e = old(self)@.entries[old(self)@.next as int];
                &&& actual@ == e.1 ==> r is Ok && final(self)@.next == old(self)@.next + 1
                    && final(self)@.verified == old(self)@.verified.push(actual@)
                &&& actual@ != e.1 ==> (r matches Err(err) && err@
                    == PackageFailure::InnerHashMismatch(e.0) && final(self)@ == old(self)@)
            }),
    {
        let i = self.next;
        let n = self.entries.len();
        assert(i < n);
        let checked = check_inner_hash(self.entries[i].0.as_str(), self.entries[i].1.as_str(), actual);
        match checked {
            Err(e) => Err(e),
            Ok(()) => {
                proof {
                    self.verified@ = self.verified@.push(actual@);
                }
                self.next = i + 1;
                Ok(())
            },
        }
    }

    /// Whether every listed file has been compared.
    pub fn is_complete(&self) -> (r: bool)
        requires
            self.wf(),
        ensures
            r == (self@.next == self@.entries.len()),
    {
        self.next == self.entries.len()
    }
}

/// When the comparison is complete, every file the manifest lists was
/// hashed to exactly the digest it lists.
pub proof fn lemma_complete_check_verified_every_file(c: ManifestCheck)
    requires
        c.wf(),
        c@.next == c@.entries.len(),
    ensures
        c@.verified.len() == c@.entries.len(),
        forall|i: int| 0 <= i < c@.entries.len() ==> #[trigger] c@.verified[i] == c@.entries[i].1,
{
}

} // verus!
