//! The decisions of macOS and Linux package extraction. The archive is read
//! member by member outside the library; each member header is admitted or
//! refused here, which says what to do with the member's bytes. The decoded
//! tail after the end of the archive is checked here, and the final verdict
//! compares the inner manifest with the hashes of the members.

use vstd::prelude::*;
use crate::extraction::tar_name_result;
use crate::manifest::{
    entry_names, lemma_accepted_manifest_is_exact, manifest_result, parse_inner_manifest,
};
use crate::package::{
    expected_archive_name, expected_archive_names, normalized_chars, normalized_name, strs_view,
    INNER_MANIFEST, MAX_ARCHIVE_ENTRIES, MAX_ENTRY_BYTES, MAX_MANIFEST_BYTES,
    MAX_TAR_ZERO_PADDING_BYTES, MAX_UNCOMPRESSED_BYTES,
};
use crate::package_error::{PackageError, PackageFailure};
use crate::text::{chars_of, str_eq, string_of, strings_contain};
use crate::zip_layout::{expected_set, strings_view};

verus! {

/// What the scan reads of one tar member header.
#[derive(Clone, Debug)]
pub struct TarHeaderInfo {
    /// The header is in the USTAR format.
    pub is_ustar: bool,
    /// The stored path, as raw bytes.
    pub path: Vec<u8>,
    pub is_dir: bool,
    pub is_file: bool,
    /// The header names a link target.
    pub has_link: bool,
    pub size: u64,
    /// The permission bits, when the header's mode field can be read.
    pub mode: Option<u32>,
}

/// The abstract form of a [`TarHeaderInfo`].
pub struct TarHeaderSpec {
    pub is_ustar: bool,
    pub path: Seq<u8>,
    pub is_dir: bool,
    pub is_file: bool,
    pub has_link: bool,
    pub size: nat,
    pub mode: Option<u32>,
}

impl View for TarHeaderInfo {
    type V = TarHeaderSpec;

    open spec fn view(&self) -> TarHeaderSpec {
        TarHeaderSpec {
            is_ustar: self.is_ustar,
            path: self.path@,
            is_dir: self.is_dir,
            is_file: self.is_file,
            has_link: self.has_link,
            size: self.size as nat,
            mode: self.mode,
        }
    }
}

/// What to do with the bytes of an admitted member.
#[derive(Clone, Debug, PartialEq, Eq)]
pub enum TarAction {
    /// The package root directory: it has no bytes.
    SkipRoot,
    /// The inner manifest: read its `size` bytes and record them.
    ReadManifest { size: u64 },
    /// A package file: hash its `size` bytes, writing them to the
    /// extraction target as well when `extract` holds, and record the hash.
    Hash { name: String, size: u64, extract: bool },
}

/// The abstract form of a [`TarAction`].
pub enum TarActionSpec {
    SkipRoot,
    ReadManifest(nat),
    Hash(Seq<char>, nat, bool),
}

impl View for TarAction {
    type V = TarActionSpec;

    open spec fn view(&self) -> TarActionSpec {
        match self {
            TarAction::SkipRoot => TarActionSpec::SkipRoot,
            TarAction::ReadManifest { size } => TarActionSpec::ReadManifest(*size as nat),
            TarAction::Hash { name, size, extract } => TarActionSpec::Hash(
                name@,
                *size as nat,
                *extract,
            ),
        }
    }
}

/// The state of a scan.
pub struct TarScan {
    required: Vec<String>,
    executables: Vec<String>,
    expected: Vec<String>,
    count: usize,
    total: u64,
    root_seen: bool,
    seen: Vec<String>,
    manifest: Option<Vec<u8>>,
    hashes: Vec<(String, String)>,
    padding: u64,
}

/// The abstract state of a scan: the approved file list, the files that
/// must be executable, the members admitted so far, their declared sizes,
/// whether the root was seen, the normalized names seen, the manifest
/// bytes, the recorded hashes, and the decoded padding after the archive.
pub struct TarScanView {
    pub required: Seq<Seq<char>>,
    pub executables: Seq<Seq<char>>,
    pub count: nat,
    pub total: nat,
    pub root_seen: bool,
    pub seen: Seq<Seq<char>>,
    pub manifest: Option<Seq<u8>>,
    pub hashes: Seq<(Seq<char>, Seq<char>)>,
    pub padding: nat,
}

/// The abstract form of recorded hashes.
pub open spec fn hashes_view(v: Seq<(String, String)>) -> Seq<(Seq<char>, Seq<char>)> {
    Seq::new(v.len(), |i: int| (v[i].0@, v[i].1@))
}

impl View for TarScan {
    type V = TarScanView;

    closed spec fn view(&self) -> TarScanView {
        TarScanView {
            required: strings_view(self.required@),
            executables: strings_view(self.executables@),
            count: self.count as nat,
            total: self.total as nat,
            root_seen: self.root_seen,
            seen: strings_view(self.seen@),
            manifest: match self.manifest {
                Some(m) => Some(m@),
                None => None,
            },
            hashes: hashes_view(self.hashes@),
            padding: self.padding as nat,
        }
    }
}

/// The mode a member must have: `0o755` for the executable files,
/// `0o644` for the others.
pub open spec fn expected_mode(executables: Seq<Seq<char>>, name: Seq<char>) -> u32 {
    if executables.contains(name) {
        0o755u32
    } else {
        0o644u32
    }
}

/// One member header, checked against the scan so far: the new state and
/// what to do with the member's bytes, or why the archive is refused.
pub open spec fn tar_accept(st: TarScanView, h: TarHeaderSpec) -> Result<
    (TarScanView, TarActionSpec),
    PackageFailure,
> {
    let count = st.count + 1;
    if count > MAX_ARCHIVE_ENTRIES {
        Err(PackageFailure::TarTooManyEntries)
    } else if !h.is_ustar {
        Err(PackageFailure::TarNotUstar)
    } else {
        match tar_name_result(h.path) {
            Err(e) => Err(e),
            Ok(None) => {
                if st.root_seen || !h.is_dir || h.size != 0 {
                    Err(PackageFailure::TarInvalidRoot)
                } else {
                    Ok((TarScanView { count, root_seen: true, ..st }, TarActionSpec::SkipRoot))
                }
            },
            Ok(Some(name)) => {
                if !h.is_file || h.has_link {
                    Err(PackageFailure::TarNonRegular(name))
                } else if h.size > MAX_ENTRY_BYTES {
                    Err(PackageFailure::TarEntryTooLarge(name))
                } else if st.total + h.size > MAX_UNCOMPRESSED_BYTES {
                    Err(PackageFailure::TarSizeLimit)
                } else {
                    match h.mode {
                        None => Err(PackageFailure::TarModeUnreadable(name)),
                        Some(mode) => {
                            let norm = normalized_name(name);
                            if mode & 0o7777u32 != expected_mode(st.executables, name) {
                                Err(PackageFailure::TarUnexpectedMode(name))
                            } else if !expected_archive_name(st.required, norm) || st.seen.contains(
                                norm,
                            ) {
                                Err(PackageFailure::TarExtraOrDuplicate(name))
                            } else {
                                let next = TarScanView {
                                    count,
                                    total: st.total + h.size,
                                    seen: st.seen.push(norm),
                                    ..st
                                };
                                if name == INNER_MANIFEST@ {
                                    if h.size > MAX_MANIFEST_BYTES {
                                        Err(PackageFailure::ManifestTooLarge)
                                    } else {
                                        Ok((next, TarActionSpec::ReadManifest(h.size)))
                                    }
                                } else {
                                    Ok((next, TarActionSpec::Hash(name, h.size, name == "grok-zh"@)))
                                }
                            }
                        },
                    }
                }
            },
        }
    }
}

/// The hash recorded last for `name`, if any.
pub open spec fn hash_lookup(hashes: Seq<(Seq<char>, Seq<char>)>, name: Seq<char>) -> Option<Seq<char>>
    decreases hashes.len(),
{
    if hashes.len() == 0 {
        None
    } else if hashes.last().0 == name {
        Some(hashes.last().1)
    } else {
        hash_lookup(hashes.drop_last(), name)
    }
}

/// The first `n` manifest entries compared with the recorded hashes, in
/// manifest order.
pub open spec fn hash_check(
    entries: Seq<(Seq<char>, Seq<char>)>,
    hashes: Seq<(Seq<char>, Seq<char>)>,
    n: nat,
) -> Result<(), PackageFailure>
    decreases n,
{
    if n == 0 {
        Ok(())
    } else {
        match hash_check(entries, hashes, (n - 1) as nat) {
            Err(e) => Err(e),
            Ok(()) => {
                let name = entries[n - 1].0;
                match hash_lookup(hashes, name) {
                    None => Err(PackageFailure::TarMissingHashed(name)),
                    Some(actual) => if actual != entries[n - 1].1 {
                        Err(PackageFailure::InnerHashMismatch(name))
                    } else {
                        Ok(())
                    },
                }
            },
        }
    }
}

/// The verdict on a scanned archive, where `trailing` says whether the
/// compressed stream continues after its first member.
pub open spec fn tar_verdict(st: TarScanView, trailing: bool) -> Result<(), PackageFailure> {
    if st.padding < 512 {
        Err(PackageFailure::TarMissingEndMarker)
    } else if trailing {
        Err(PackageFailure::TarConcatenated)
    } else if !st.root_seen {
        Err(PackageFailure::TarMissingRoot)
    } else if st.seen.to_set() != expected_set(st.required) {
        Err(PackageFailure::TarIncomplete)
    } else {
        match st.manifest {
            None => Err(PackageFailure::TarMissingManifest),
            Some(m) => match manifest_result(m, st.required) {
                Err(e) => Err(e),
                Ok(entries) => hash_check(entries, st.hashes, entries.len()),
            },
        }
    }
}

proof fn lemma_hash_check_err_persists(
    entries: Seq<(Seq<char>, Seq<char>)>,
    hashes: Seq<(Seq<char>, Seq<char>)>,
    n: nat,
    m: nat,
    e: PackageFailure,
)
    requires
        n <= m,
        hash_check(entries, hashes, n) == Err::<(), PackageFailure>(e),
    ensures
        hash_check(entries, hashes, m) == Err::<(), PackageFailure>(e),
    decreases m,
{
    if n < m {
        lemma_hash_check_err_persists(entries, hashes, n, (m - 1) as nat, e);
    }
}

fn all_zero(chunk: &[u8]) -> (r: bool)
    ensures
        r == forall|i: int| 0 <= i < chunk@.len() ==> #[trigger] chunk@[i] == 0,
{
    let mut i: usize = 0;
    while i < chunk.len()
        invariant
            i <= chunk@.len(),
            forall|j: int| 0 <= j < i ==> chunk@[j] == 0,
        decreases chunk@.len() - i,
    {
        if chunk[i] != 0 {
            return false;
        }
        i = i + 1;
    }
    true
}

fn copy_strings(v: &[&str]) -> (r: Vec<String>)
    ensures
        strings_view(r@) == strs_view(v@),
{
    let mut r: Vec<String> = Vec::new();
    let mut i: usize = 0;
    while i < v.len()
        invariant
            i <= v@.len(),
            r@.len() == i,
            forall|j: int| 0 <= j < i ==> (#[trigger] r@[j])@ == v@[j]@,
        decreases v@.len() - i,
    {
        r.push(string_of(v[i]));
        i = i + 1;
    }
    assert(strings_view(r@) =~= strs_view(v@));
    r
}

fn borrow_strings(v: &Vec<String>) -> (r: Vec<&str>)
    ensures
        strs_view(r@) == strings_view(v@),
{
    let mut r: Vec<&str> = Vec::new();
    let mut i: usize = 0;
    while i < v.len()
        invariant
            i <= v@.len(),
            r@.len() == i,
            forall|j: int| 0 <= j < i ==> (#[trigger] r@[j])@ == v@[j]@,
        decreases v@.len() - i,
    {
        r.push(v[i].as_str());
        i = i + 1;
    }
    assert(strs_view(r@) =~= strings_view(v@));
    r
}

impl TarScan {
    /// The invariant: the expected names are those of the approved list,
    /// and the counters are within their limits.
    pub closed spec fn wf(&self) -> bool {
        &&& forall|x: Seq<char>|
            expected_archive_name(strings_view(self.required@), x) <==> strings_view(
                self.expected@,
            ).contains(x)
        &&& forall|j: int|
            0 <= j < self.seen@.len() ==> expected_archive_name(
                strings_view(self.required@),
                #[trigger] strings_view(self.seen@)[j],
            )
        &&& self.count <= MAX_ARCHIVE_ENTRIES
        &&& self.total <= MAX_UNCOMPRESSED_BYTES
        &&& self.padding <= MAX_TAR_ZERO_PADDING_BYTES
    }

    /// A scan of a package with the approved files `required_files`, of
    /// which `executable_files` must be executable.
    pub fn new(required_files: &[&str], executable_files: &[&str]) -> (s: TarScan)
        ensures
            s.wf(),
            s@ == (TarScanView {
                required: strs_view(required_files@),
                executables: strs_view(executable_files@),
                count: 0,
                total: 0,
                root_seen: false,
                seen: Seq::empty(),
                manifest: None,
                hashes: Seq::empty(),
                padding: 0,
            }),
    {
        let expected = expected_archive_names(required_files);
        let s = TarScan {
            required: copy_strings(required_files),
            executables: copy_strings(executable_files),
            expected,
            count: 0,
            total: 0,
            root_seen: false,
            seen: Vec::new(),
            manifest: None,
            hashes: Vec::new(),
            padding: 0,
        };
        proof {
            let req = strs_view(required_files@);
            assert forall|x: Seq<char>|
                expected_archive_name(req, x) <==> strings_view(expected@).contains(x) by {
                if expected_archive_name(req, x) {
                    let j = choose|j: int| 0 <= j < expected@.len() && (#[trigger] expected@[j])@ == x;
                    assert(strings_view(expected@)[j] == x);
                }
                if strings_view(expected@).contains(x) {
                    let j = choose|j: int|
                        0 <= j < strings_view(expected@).len() && strings_view(expected@)[j] == x;
                    assert(expected@[j]@ == x);
                }
            }
            assert(strings_view(s.seen@) =~= Seq::<Seq<char>>::empty());
            assert(hashes_view(s.hashes@) =~= Seq::<(Seq<char>, Seq<char>)>::empty());
        }
        s
    }

    /// Accepts the next member header, or refuses the archive; a refusal
    /// leaves the scan unchanged.
    pub fn accept_header(&mut self, h: &TarHeaderInfo) -> (r: Result<TarAction, PackageError>)
        requires
            old(self).wf(),
        ensures
            final(self).wf(),
            match tar_accept(old(self)@, h@) {
                Ok((st, action)) => r matches Ok(a) && a@ == action && final(self)@ == st,
                Err(f) => r matches Err(e) && e@ == f && final(self)@ == old(self)@,
            },
    {
        if self.count + 1 > MAX_ARCHIVE_ENTRIES {
            return Err(PackageError::TarTooManyEntries);
        }
        if !h.is_ustar {
            return Err(PackageError::TarNotUstar);
        }
        let name = match crate::extraction::normalized_unix_tar_name(h.path.as_slice()) {
            Err(e) => {
                return Err(e);
            },
            Ok(None) => {
                if self.root_seen || !h.is_dir || h.size != 0 {
                    return Err(PackageError::TarInvalidRoot);
                }
                self.count = self.count + 1;
                self.root_seen = true;
                return Ok(TarAction::SkipRoot);
            },
            Ok(Some(n)) => n,
        };
        if !h.is_file || h.has_link {
            return Err(PackageError::TarNonRegular(name));
        }
        if h.size > MAX_ENTRY_BYTES {
            return Err(PackageError::TarEntryTooLarge(name));
        }
        if self.total + h.size > MAX_UNCOMPRESSED_BYTES {
            return Err(PackageError::TarSizeLimit);
        }
        let mode = match h.mode {
            None => {
                return Err(PackageError::TarModeUnreadable(name));
            },
            Some(m) => m,
        };
        let want: u32 = if strings_contain(&self.executables, name.as_str()) {
            0o755
        } else {
            0o644
        };
        if mode & 0o7777 != want {
            return Err(PackageError::TarUnexpectedMode(name));
        }
        let nchars = chars_of(name.as_str());
        let norm = normalized_chars(nchars.as_slice());
        if !strings_contain(&self.expected, norm.as_str()) || strings_contain(&self.seen, norm.as_str()) {
            return Err(PackageError::TarExtraOrDuplicate(name));
        }
        let is_manifest = str_eq(name.as_str(), INNER_MANIFEST);
        if is_manifest && h.size > MAX_MANIFEST_BYTES {
            return Err(PackageError::ManifestTooLarge);
        }
        let ghost old_seen = self.seen@;
        self.count = self.count + 1;
        self.total = self.total + h.size;
        self.seen.push(norm);
        proof {
            assert(strings_view(self.seen@) =~= strings_view(old_seen).push(norm@));
        }
        if is_manifest {
            Ok(TarAction::ReadManifest { size: h.size })
        } else {
            let extract = str_eq(name.as_str(), "grok-zh");
            Ok(TarAction::Hash { name, size: h.size, extract })
        }
    }

    /// Records the bytes read for the manifest member of declared size
    /// `declared`; fewer or more bytes refuse the archive.
    pub fn record_manifest(&mut self, bytes: Vec<u8>, declared: u64) -> (r: Result<(), PackageError>)
        requires
            old(self).wf(),
        ensures
            final(self).wf(),
            bytes@.len() == declared ==> r is Ok && final(self)@ == (TarScanView {
                manifest: Some(bytes@),
                ..old(self)@
            }),
            bytes@.len() != declared ==> (r matches Err(e) && e@ == PackageFailure::TarManifestTruncated
                && final(self)@ == old(self)@),
    {
        if bytes.len() as u64 != declared {
            return Err(PackageError::TarManifestTruncated);
        }
        self.manifest = Some(bytes);
        Ok(())
    }

    /// Records the SHA-256 (lower-case hexadecimal) of the member `name`.
    pub fn record_hash(&mut self, name: String, hash: String)
        requires
            old(self).wf(),
        ensures
            final(self).wf(),
            final(self)@ == (TarScanView {
                hashes: old(self)@.hashes.push((name@, hash@)),
                ..old(self)@
            }),
    {
        let ghost old_hashes = self.hashes@;
        self.hashes.push((name, hash));
        proof {
            assert(hashes_view(self.hashes@) =~= hashes_view(old_hashes).push((name@, hash@)));
        }
    }

    /// Checks decoded bytes that follow the end of the archive: only zero
    /// padding, and no more than its limit in all.
    pub fn tail(&mut self, chunk: &[u8]) -> (r: Result<(), PackageError>)
        requires
            old(self).wf(),
        ensures
            final(self).wf(),
            ({
                let p = old(self)@.padding + chunk@.len();
                let ok = p <= MAX_TAR_ZERO_PADDING_BYTES && forall|i: int|
                    0 <= i < chunk@.len() ==> #[trigger] chunk@[i] == 0;
                &&& ok ==> r is Ok && final(self)@ == (TarScanView { padding: p, ..old(self)@ })
                &&& !ok ==> (r matches Err(e) && e@ == PackageFailure::TarTrailingData
                    && final(self)@ == old(self)@)
            }),
    {
        if chunk.len() as u64 > MAX_TAR_ZERO_PADDING_BYTES - self.padding {
            return Err(PackageError::TarTrailingData);
        }
        if !all_zero(chunk) {
            return Err(PackageError::TarTrailingData);
        }
        self.padding = self.padding + chunk.len() as u64;
        Ok(())
    }

    /// The verdict on the scanned archive; `trailing` says whether the
    /// compressed stream continues after its first member.
    pub fn finish(&self, trailing: bool) -> (r: Result<(), PackageError>)
        requires
            self.wf(),
        ensures
            match tar_verdict(self@, trailing) {
                Ok(()) => r is Ok,
                Err(f) => r matches Err(e) && e@ == f,
            },
    {
        let ghost st = self@;
        if self.padding < 512 {
            return Err(PackageError::TarMissingEndMarker);
        }
        if trailing {
            return Err(PackageError::TarConcatenated);
        }
        if !self.root_seen {
            return Err(PackageError::TarMissingRoot);
        }
        let mut k: usize = 0;
        while k < self.expected.len()
            invariant
                k <= self.expected@.len(),
                self.wf(),
                st == self@,
                self.padding >= 512,
                !trailing,
                self.root_seen,
                forall|j: int| 0 <= j < k ==> st.seen.contains(#[trigger] strings_view(self.expected@)[j]),
            decreases self.expected@.len() - k,
        {
            if !strings_contain(&self.seen, self.expected[k].as_str()) {
                proof {
                    let x = strings_view(self.expected@)[k as int];
                    assert(strings_view(self.expected@).contains(x));
                    assert(expected_set(st.required).contains(x));
                    assert(!st.seen.to_set().contains(x));
                }
                return Err(PackageError::TarIncomplete);
            }
            k = k + 1;
        }
        proof {
            assert forall|x: Seq<char>| st.seen.to_set().contains(x) <==> expected_set(st.required).contains(x) by {
                if expected_set(st.required).contains(x) {
                    let j = choose|j: int|
                        0 <= j < strings_view(self.expected@).len() && strings_view(self.expected@)[j] == x;
                    assert(st.seen.contains(strings_view(self.expected@)[j]));
                }
            }
            assert(st.seen.to_set() =~= expected_set(st.required));
        }
        let manifest = match &self.manifest {
            None => {
                return Err(PackageError::TarMissingManifest);
            },
            Some(m) => m,
        };
        let required = borrow_strings(&self.required);
        let entries = match parse_inner_manifest(manifest.as_slice(), required.as_slice()) {
            Err(e) => {
                return Err(e);
            },
            Ok(v) => v,
        };
        let ghost ents = crate::manifest::pairs_view(entries@);
        assert(manifest_result(manifest@, st.required) == Ok::<Seq<(Seq<char>, Seq<char>)>, PackageFailure>(ents));
        let mut i: usize = 0;
        while i < entries.len()
            invariant
                i <= entries@.len(),
                st == self@,
                self.padding >= 512,
                !trailing,
                self.root_seen,
                st.seen.to_set() == expected_set(st.required),
                st.manifest == Some(manifest@),
                manifest_result(manifest@, st.required) == Ok::<Seq<(Seq<char>, Seq<char>)>, PackageFailure>(ents),
                ents == crate::manifest::pairs_view(entries@),
                hash_check(ents, st.hashes, i as nat) == Ok::<(), PackageFailure>(()),
            decreases entries@.len() - i,
        {
            let name = entries[i].0.as_str();
            let want = entries[i].1.as_str();
            match self.lookup_hash(name) {
                None => {
                    proof {
                        lemma_hash_check_err_persists(ents, st.hashes, (i + 1) as nat, ents.len(), PackageFailure::TarMissingHashed(name@));
                    }
                    return Err(PackageError::TarMissingHashed(string_of(name)));
                },
                Some(actual) => {
                    if !str_eq(actual, want) {
                        proof {
                            lemma_hash_check_err_persists(ents, st.hashes, (i + 1) as nat, ents.len(), PackageFailure::InnerHashMismatch(name@));
                        }
                        return Err(PackageError::InnerHashMismatch(string_of(name)));
                    }
                },
            }
            i = i + 1;
        }
        Ok(())
    }

    fn lookup_hash(&self, name: &str) -> (r: Option<&str>)
        ensures
            match hash_lookup(self@.hashes, name@) {
                None => r is None,
                Some(h) => r matches Some(x) && x@ == h,
            },
    {
        let ghost hs = self@.hashes;
        let mut i: usize = self.hashes.len();
        assert(hs.take(hs.len() as int) =~= hs);
        while i > 0
            invariant
                i <= self.hashes@.len(),
                hs == hashes_view(self.hashes@),
                hash_lookup(hs, name@) == hash_lookup(hs.take(i as int), name@),
            decreases i,
        {
            let ghost pre = hs.take(i as int);
            assert(pre.drop_last() =~= hs.take(i - 1));
            if str_eq(self.hashes[i - 1].0.as_str(), name) {
                return Some(self.hashes[i - 1].1.as_str());
            }
            i = i - 1;
        }
        None
    }
}

proof fn lemma_hash_check_ok(
    entries: Seq<(Seq<char>, Seq<char>)>,
    hashes: Seq<(Seq<char>, Seq<char>)>,
    n: nat,
)
    requires
        hash_check(entries, hashes, n) is Ok,
    ensures
        forall|i: int| 0 <= i < n ==> hash_lookup(hashes, #[trigger] entries[i].0) == Some(entries[i].1),
    decreases n,
{
    if n > 0 {
        lemma_hash_check_ok(entries, hashes, (n - 1) as nat);
    }
}

/// A tar package is accepted only when its archive ended with a complete
/// end marker and nothing after it, its root entry was present, its files
/// are exactly the approved ones, and every file its inner manifest lists
/// (every approved file) was hashed to the digest the manifest gives.
pub proof fn lemma_accepted_tar_is_verified(st: TarScanView, trailing: bool)
    requires
        tar_verdict(st, trailing) is Ok,
    ensures
        st.padding >= 512,
        !trailing,
        st.root_seen,
        st.seen.to_set() == expected_set(st.required),
        st.manifest is Some,
        manifest_result(st.manifest->0, st.required) is Ok,
        ({
            let entries = manifest_result(st.manifest->0, st.required)->Ok_0;
            &&& forall|i: int|
                0 <= i < entries.len() ==> hash_lookup(st.hashes, #[trigger] entries[i].0) == Some(
                    entries[i].1,
                )
            &&& forall|k: int|
                0 <= k < st.required.len() ==> exists|i: int|
                    0 <= i < entries.len() && entries[i].0 == #[trigger] st.required[k]
                        && hash_lookup(st.hashes, st.required[k]) == Some(entries[i].1)
        }),
{
    let entries = manifest_result(st.manifest->0, st.required)->Ok_0;
    lemma_hash_check_ok(entries, st.hashes, entries.len());
    lemma_accepted_manifest_is_exact(st.manifest->0, st.required);
    assert forall|k: int| 0 <= k < st.required.len() implies exists|i: int|
        0 <= i < entries.len() && entries[i].0 == #[trigger] st.required[k] && hash_lookup(
            st.hashes,
            st.required[k],
        ) == Some(entries[i].1) by {
        let names = entry_names(entries);
        assert(names.contains(st.required[k]));
        let i = choose|i: int| 0 <= i < names.len() && names[i] == st.required[k];
        assert(entries[i].0 == st.required[k]);
        assert(hash_lookup(st.hashes, entries[i].0) == Some(entries[i].1));
    }
}

} // verus!
