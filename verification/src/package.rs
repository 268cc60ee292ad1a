//! The rules for the files of a community release package: the approved
//! file lists, approved names and safe relative paths.

use vstd::prelude::*;
use crate::text::{
    all_ascii, ascii_lower_all, chars_all_ascii, chars_contain,
    chars_eq, chars_of, chars_to_ascii_lower, slice_chars, split_chars, split_on, str_eq,
    string_from_chars,
};

verus! {

/// Largest number of entries in a release archive.
pub const MAX_ARCHIVE_ENTRIES: usize = 128;
/// Largest total uncompressed size of a release archive (768 MiB).
pub const MAX_UNCOMPRESSED_BYTES: u64 = 805306368;
/// Largest single archive entry (512 MiB).
pub const MAX_ENTRY_BYTES: u64 = 536870912;
/// Largest inner manifest (64 KiB).
pub const MAX_MANIFEST_BYTES: u64 = 65536;
/// Largest zero padding after the end of a tar archive (1 MiB).
pub const MAX_TAR_ZERO_PADDING_BYTES: u64 = 1048576;
/// The one-click Windows installer (an approved non-ASCII name).
pub const ONE_CLICK_INSTALLER: &'static str = "一键安装.cmd";
/// The optional launcher-replacement script (an approved non-ASCII name).
pub const COMMAND_SETUP_INSTALLER: &'static str = "[可选]替换原始启动方式.cmd";
/// The inner manifest of every package.
pub const INNER_MANIFEST: &'static str = "SHA256SUMS.txt";

/// The abstract forms of a list of string slices.
pub open spec fn strs_view(s: Seq<&str>) -> Seq<Seq<char>> {
    s.map_values(|x: &str| x@)
}

/// The files of the current Windows package.
pub open spec fn windows_required_files() -> Seq<Seq<char>> {
    seq![
        "grok-zh.exe"@,
        "agent-zh.cmd"@,
        "rg.exe"@,
        ONE_CLICK_INSTALLER@,
        COMMAND_SETUP_INSTALLER@,
        "Install-GrokZh.ps1"@,
        "INSTALL-WINDOWS.md"@,
        "LICENSE-grok-build.txt"@,
        "BUILD-INFO.txt"@,
        "licenses/ripgrep/COPYING"@,
        "licenses/ripgrep/LICENSE-MIT"@,
        "licenses/ripgrep/UNLICENSE"@,
        "licenses/project/THIRD-PARTY-NOTICES"@,
        "licenses/project/THIRD_PARTY_NOTICES.md"@,
        "licenses/project/NOTICE"@,
    ]
}

/// The files listed by the inner manifest of the published 1.0.5 package,
/// which predates the license and build-metadata files.
pub open spec fn windows_v1_0_5_manifest_files() -> Seq<Seq<char>> {
    seq![
        "grok-zh.exe"@,
        "agent-zh.cmd"@,
        "rg.exe"@,
        ONE_CLICK_INSTALLER@,
        COMMAND_SETUP_INSTALLER@,
        "Install-GrokZh.ps1"@,
        "INSTALL-WINDOWS.md"@,
    ]
}

/// The directories a Windows package may contain.
pub open spec fn windows_approved_dirs() -> Seq<Seq<char>> {
    seq!["licenses"@, "licenses/ripgrep"@, "licenses/project"@]
}

/// The files of the macOS package.
pub open spec fn macos_required_files() -> Seq<Seq<char>> {
    seq![
        "grok-zh"@,
        "BUILD-INFO.txt"@,
        "INSTALL-MACOS.md"@,
        "Install-GrokZh.sh"@,
        "LICENSE-grok-build.txt"@,
        "NOTICE-third-party.txt"@,
        "SOURCE_REV"@,
        "THIRD-PARTY-NOTICES.txt"@,
        "THIRD-PARTY-NOTICES-xai-grok-tools.md"@,
    ]
}

/// The files of the Linux package.
pub open spec fn linux_required_files() -> Seq<Seq<char>> {
    seq![
        "grok-zh"@,
        "BUILD-INFO.txt"@,
        "INSTALL-LINUX.md"@,
        "Install-GrokZh.sh"@,
        "LICENSE-grok-build.txt"@,
        "NOTICE-third-party.txt"@,
        "SOURCE_REV"@,
        "THIRD-PARTY-NOTICES.txt"@,
        "THIRD-PARTY-NOTICES-xai-grok-tools.md"@,
    ]
}

/// The files of the current Windows package.
pub fn windows_required_package_files() -> (r: Vec<&'static str>)
    ensures
        strs_view(r@) == windows_required_files(),
{
    let r = vec![
        "grok-zh.exe",
        "agent-zh.cmd",
        "rg.exe",
        ONE_CLICK_INSTALLER,
        COMMAND_SETUP_INSTALLER,
        "Install-GrokZh.ps1",
        "INSTALL-WINDOWS.md",
        "LICENSE-grok-build.txt",
        "BUILD-INFO.txt",
        "licenses/ripgrep/COPYING",
        "licenses/ripgrep/LICENSE-MIT",
        "licenses/ripgrep/UNLICENSE",
        "licenses/project/THIRD-PARTY-NOTICES",
        "licenses/project/THIRD_PARTY_NOTICES.md",
        "licenses/project/NOTICE",
    ];
    assert(strs_view(r@) =~= windows_required_files());
    r
}

/// The files listed by the inner manifest of the published 1.0.5 package.
pub fn windows_v1_0_5_manifest_package_files() -> (r: Vec<&'static str>)
    ensures
        strs_view(r@) == windows_v1_0_5_manifest_files(),
{
    let r = vec![
        "grok-zh.exe",
        "agent-zh.cmd",
        "rg.exe",
        ONE_CLICK_INSTALLER,
        COMMAND_SETUP_INSTALLER,
        "Install-GrokZh.ps1",
        "INSTALL-WINDOWS.md",
    ];
    assert(strs_view(r@) =~= windows_v1_0_5_manifest_files());
    r
}

/// The directories a Windows package may contain.
pub fn windows_approved_package_dirs() -> (r: Vec<&'static str>)
    ensures
        strs_view(r@) == windows_approved_dirs(),
{
    let r = vec!["licenses", "licenses/ripgrep", "licenses/project"];
    assert(strs_view(r@) =~= windows_approved_dirs());
    r
}

/// The files of the macOS package.
pub fn macos_required_package_files() -> (r: Vec<&'static str>)
    ensures
        strs_view(r@) == macos_required_files(),
{
    let r = vec![
        "grok-zh",
        "BUILD-INFO.txt",
        "INSTALL-MACOS.md",
        "Install-GrokZh.sh",
        "LICENSE-grok-build.txt",
        "NOTICE-third-party.txt",
        "SOURCE_REV",
        "THIRD-PARTY-NOTICES.txt",
        "THIRD-PARTY-NOTICES-xai-grok-tools.md",
    ];
    assert(strs_view(r@) =~= macos_required_files());
    r
}

/// The files of the Linux package.
pub fn linux_required_package_files() -> (r: Vec<&'static str>)
    ensures
        strs_view(r@) == linux_required_files(),
{
    let r = vec![
        "grok-zh",
        "BUILD-INFO.txt",
        "INSTALL-LINUX.md",
        "Install-GrokZh.sh",
        "LICENSE-grok-build.txt",
        "NOTICE-third-party.txt",
        "SOURCE_REV",
        "THIRD-PARTY-NOTICES.txt",
        "THIRD-PARTY-NOTICES-xai-grok-tools.md",
    ];
    assert(strs_view(r@) =~= linux_required_files());
    r
}

/// The files the inner manifest of a Windows release must list: the 1.0.5
/// release keeps its published seven-file manifest, every other release
/// lists the complete package.
pub fn windows_manifest_files(version: &str) -> (r: Vec<&'static str>)
    ensures
        version@ == "1.0.5"@ ==> strs_view(r@) == windows_v1_0_5_manifest_files(),
        version@ != "1.0.5"@ ==> strs_view(r@) == windows_required_files(),
{
    if str_eq(version, "1.0.5") {
        windows_v1_0_5_manifest_package_files()
    } else {
        windows_required_package_files()
    }
}

// ---------------------------------------------------------------------------
// Names

/// The two approved non-ASCII package names.
pub open spec fn allowed_unicode_name(name: Seq<char>) -> bool {
    name == ONE_CLICK_INSTALLER@ || name == COMMAND_SETUP_INSTALLER@
}

/// Whether `name` is one of the two approved non-ASCII installer names.
pub fn is_allowed_unicode_package_name(name: &str) -> (r: bool)
    ensures
        r == allowed_unicode_name(name@),
{
    str_eq(name, ONE_CLICK_INSTALLER) || str_eq(name, COMMAND_SETUP_INSTALLER)
}

pub(crate) fn chars_allowed_unicode_name(name: &[char]) -> (r: bool)
    ensures
        r == allowed_unicode_name(name@),
{
    let a = chars_of(ONE_CLICK_INSTALLER);
    let b = chars_of(COMMAND_SETUP_INSTALLER);
    chars_eq(a.as_slice(), name) || chars_eq(b.as_slice(), name)
}

/// Names compare case-insensitively when ASCII (Windows file systems);
/// non-ASCII names compare exactly.
pub open spec fn normalized_name(name: Seq<char>) -> Seq<char> {
    if all_ascii(name) {
        ascii_lower_all(name)
    } else {
        name
    }
}

/// The comparison form of a package name (see [`normalized_name`]).
pub fn normalized_package_name(name: &str) -> (r: String)
    ensures
        r@ == normalized_name(name@),
{
    let chars = chars_of(name);
    normalized_chars(chars.as_slice())
}

pub(crate) fn normalized_chars(name: &[char]) -> (r: String)
    ensures
        r@ == normalized_name(name@),
{
    if chars_all_ascii(name) {
        let lower = chars_to_ascii_lower(name);
        string_from_chars(lower.as_slice())
    } else {
        string_from_chars(name)
    }
}

/// `char::is_whitespace`: the Unicode `White_Space` characters.
pub open spec fn is_whitespace(c: char) -> bool {
    ||| c == '\t'
    ||| c == '\n'
    ||| c == '\x0B'
    ||| c == '\x0C'
    ||| c == '\r'
    ||| c == ' '
    ||| c == '\u{85}'
    ||| c == '\u{A0}'
    ||| c == '\u{1680}'
    ||| ('\u{2000}' <= c <= '\u{200A}')
    ||| c == '\u{2028}'
    ||| c == '\u{2029}'
    ||| c == '\u{202F}'
    ||| c == '\u{205F}'
    ||| c == '\u{3000}'
}

fn char_is_whitespace(c: char) -> (r: bool)
    ensures
        r == is_whitespace(c),
{
    c == '\t' || c == '\n' || c == '\x0B' || c == '\x0C' || c == '\r' || c == ' ' || c == '\u{85}'
        || c == '\u{A0}' || c == '\u{1680}' || ('\u{2000}' <= c && c <= '\u{200A}') || c
        == '\u{2028}' || c == '\u{2029}' || c == '\u{202F}' || c == '\u{205F}' || c == '\u{3000}'
}

/// `s` without its leading whitespace.
pub open spec fn trim_start(s: Seq<char>) -> Seq<char>
    decreases s.len(),
{
    if s.len() > 0 && is_whitespace(s[0]) {
        trim_start(s.drop_first())
    } else {
        s
    }
}

/// `s` without its trailing whitespace.
pub open spec fn trim_end(s: Seq<char>) -> Seq<char>
    decreases s.len(),
{
    if s.len() > 0 && is_whitespace(s.last()) {
        trim_end(s.drop_last())
    } else {
        s
    }
}

/// `str::trim`: `s` without whitespace at either end.
pub open spec fn trim(s: Seq<char>) -> Seq<char> {
    trim_end(trim_start(s))
}

/// `s` without whitespace at either end (see [`trim`]).
pub fn trim_str(s: &str) -> (r: String)
    ensures
        r@ == trim(s@),
{
    let c = chars_of(s);
    let n = c.len();
    let mut i: usize = 0;
    assert(c@.skip(0) =~= c@);
    while i < n && char_is_whitespace(c[i])
        invariant
            n == c@.len(),
            i <= n,
            trim_start(c@) == trim_start(c@.skip(i as int)),
        decreases n - i,
    {
        assert(c@.skip(i as int).drop_first() =~= c@.skip(i + 1));
        i = i + 1;
    }
    assert(trim_start(c@.skip(i as int)) == c@.skip(i as int));
    let mut j: usize = n;
    assert(c@.skip(i as int) =~= c@.subrange(i as int, j as int));
    while j > i && char_is_whitespace(c[j - 1])
        invariant
            n == c@.len(),
            i <= j <= n,
            trim_end(c@.subrange(i as int, n as int)) == trim_end(c@.subrange(i as int, j as int)),
        decreases j,
    {
        assert(c@.subrange(i as int, j as int).drop_last() =~= c@.subrange(i as int, j - 1));
        j = j - 1;
    }
    assert(trim_end(c@.subrange(i as int, j as int)) == c@.subrange(i as int, j as int));
    let t = slice_chars(c.as_slice(), i, j);
    string_from_chars(t.as_slice())
}

/// `s.trim() == s`: no whitespace at either end.
pub open spec fn is_trimmed(s: Seq<char>) -> bool {
    s.len() == 0 || (!is_whitespace(s[0]) && !is_whitespace(s.last()))
}

/// `s.trim().is_empty()`: nothing but whitespace.
pub open spec fn all_whitespace(s: Seq<char>) -> bool {
    forall|i: int| 0 <= i < s.len() ==> is_whitespace(#[trigger] s[i])
}

pub(crate) fn chars_all_whitespace(s: &[char]) -> (r: bool)
    ensures
        r == all_whitespace(s@),
{
    let mut i: usize = 0;
    while i < s.len()
        invariant
            i <= s@.len(),
            forall|j: int| 0 <= j < i ==> is_whitespace(#[trigger] s@[j]),
        decreases s@.len() - i,
    {
        if !char_is_whitespace(s[i]) {
            return false;
        }
        i = i + 1;
    }
    true
}

/// A safe package-relative path: non-empty, untrimmed-free, not absolute,
/// no backslash or colon, and every `/`-separated component non-empty and
/// neither `.` nor `..`.
pub open spec fn safe_relative_path(name: Seq<char>) -> bool {
    &&& name.len() > 0
    &&& is_trimmed(name)
    &&& name[0] != '/'
    &&& !name.contains('\\')
    &&& !name.contains(':')
    &&& components_safe(name)
}

/// Every `/`-separated component of `name` is non-empty and neither `.` nor
/// `..`.
pub open spec fn components_safe(name: Seq<char>) -> bool {
    forall|k: int|
        0 <= k < split_on(name, '/').len() ==> {
            let c = #[trigger] split_on(name, '/')[k];
            c.len() > 0 && c != seq!['.'] && c != seq!['.', '.']
        }
}

fn components_ok(pieces: &Vec<Vec<char>>) -> (r: bool)
    ensures
        r == (forall|k: int|
            0 <= k < pieces@.len() ==> {
                let c = (#[trigger] pieces@[k])@;
                c.len() > 0 && c != seq!['.'] && c != seq!['.', '.']
            }),
{
    let mut k: usize = 0;
    while k < pieces.len()
        invariant
            k <= pieces@.len(),
            forall|j: int|
                0 <= j < k ==> {
                    let c = (#[trigger] pieces@[j])@;
                    c.len() > 0 && c != seq!['.'] && c != seq!['.', '.']
                },
        decreases pieces@.len() - k,
    {
        let c = &pieces[k];
        if c.len() == 0 {
            return false;
        }
        if c.len() == 1 && c[0] == '.' {
            assert(c@ =~= seq!['.']);
            return false;
        }
        if c.len() == 2 && c[0] == '.' && c[1] == '.' {
            assert(c@ =~= seq!['.', '.']);
            return false;
        }
        assert(c@ != seq!['.']) by {
            if c@.len() == 1 {
                assert(c@[0] != '.');
            }
        }
        assert(c@ != seq!['.', '.']) by {
            if c@.len() == 2 {
                assert(c@[0] != '.' || c@[1] != '.');
            }
        }
        k = k + 1;
    }
    true
}

pub(crate) fn chars_safe_relative_path(name: &[char]) -> (r: bool)
    ensures
        r == safe_relative_path(name@),
{
    if name.len() == 0 {
        return false;
    }
    if char_is_whitespace(name[0]) || char_is_whitespace(name[name.len() - 1]) {
        return false;
    }
    if name[0] == '/' || chars_contain(name, '\\') || chars_contain(name, ':') {
        return false;
    }
    chars_components_safe(name)
}

pub(crate) fn chars_components_safe(name: &[char]) -> (r: bool)
    ensures
        r == components_safe(name@),
{
    let pieces = split_chars(name, '/');
    let ok = components_ok(&pieces);
    proof {
        let sp = split_on(name@, '/');
        if ok {
            assert forall|k: int| 0 <= k < sp.len() implies {
                let c = #[trigger] sp[k];
                c.len() > 0 && c != seq!['.'] && c != seq!['.', '.']
            } by {
                assert(pieces@[k]@ == sp[k]);
            }
        } else {
            let k = choose|k: int|
                0 <= k < pieces@.len() && !{
                    let c = (#[trigger] pieces@[k])@;
                    c.len() > 0 && c != seq!['.'] && c != seq!['.', '.']
                };
            assert(pieces@[k]@ == sp[k]);
        }
    }
    ok
}

/// Whether `name` is a safe package-relative path (see
/// [`safe_relative_path`]).
pub fn is_safe_package_relative_path(name: &str) -> (r: bool)
    ensures
        r == safe_relative_path(name@),
{
    let chars = chars_of(name);
    chars_safe_relative_path(chars.as_slice())
}

/// Whether `x` is the normalized form of one of `names`, or of the inner
/// manifest.
pub open spec fn expected_archive_name(names: Seq<Seq<char>>, x: Seq<char>) -> bool {
    x == normalized_name(INNER_MANIFEST@) || exists|i: int|
        0 <= i < names.len() && x == normalized_name(#[trigger] names[i])
}

/// The normalized names an archive must hold: the required files and the
/// inner manifest.
pub fn expected_archive_names(required_files: &[&str]) -> (r: Vec<String>)
    ensures
        forall|x: Seq<char>|
            expected_archive_name(strs_view(required_files@), x) <==> exists|j: int|
                0 <= j < r@.len() && (#[trigger] r@[j])@ == x,
{
    let ghost names = strs_view(required_files@);
    let mut r: Vec<String> = Vec::new();
    let mut i: usize = 0;
    while i < required_files.len()
        invariant
            i <= required_files@.len(),
            names == strs_view(required_files@),
            r@.len() == i,
            forall|j: int| 0 <= j < i ==> (#[trigger] r@[j])@ == normalized_name(names[j]),
        decreases required_files@.len() - i,
    {
        r.push(normalized_package_name(required_files[i]));
        i = i + 1;
    }
    r.push(normalized_package_name(INNER_MANIFEST));
    proof {
        assert forall|x: Seq<char>|
            expected_archive_name(names, x) implies exists|j: int|
                0 <= j < r@.len() && (#[trigger] r@[j])@ == x by {
            if x == normalized_name(INNER_MANIFEST@) {
                assert(r@[names.len() as int]@ == x);
            } else {
                let i = choose|i: int| 0 <= i < names.len() && x == normalized_name(#[trigger] names[i]);
                assert(r@[i]@ == x);
            }
        }
        assert forall|x: Seq<char>|
            (exists|j: int| 0 <= j < r@.len() && (#[trigger] r@[j])@ == x) implies expected_archive_name(names, x) by {
            let j = choose|j: int| 0 <= j < r@.len() && (#[trigger] r@[j])@ == x;
            if j < names.len() {
                assert(x == normalized_name(names[j]));
            }
        }
    }
    r
}

} // verus!
