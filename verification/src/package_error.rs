//! Why a downloaded release package was refused.

use vstd::prelude::*;
use crate::text::{concat2, concat3, decimal, string_of, u64_to_decimal};

verus! {

/// Why a release package was refused (abstract form).
pub enum PackageFailure {
    ZipEntryCount,
    ZipUnsafeRawPath(Seq<char>),
    ZipUnsafeEntryPath(Seq<char>),
    ZipNonRegular(Seq<char>),
    ZipEntryTooLarge(Seq<char>),
    ZipSizeLimit,
    ZipUnapprovedUnicode(Seq<char>),
    ZipExtraDirectory(Seq<char>),
    ZipExtraFile(Seq<char>),
    ZipDuplicatePath(Seq<char>),
    ZipNestedZip(Seq<char>),
    ZipIncomplete,
    ZipMissingManifest,
    ZipMissingEntry(Seq<char>),
    ManifestEntryNotRegular,
    ManifestTooLarge,
    ManifestNotUtf8,
    ManifestEmptyLine(nat),
    ManifestLineFormat(nat),
    ManifestLineDigest(nat),
    ManifestLineFilename(nat),
    ManifestDuplicate,
    ManifestIncomplete,
    ManifestMissing(Seq<char>),
    EntryNotRegular(Seq<char>),
    EntryOverrun(Seq<char>),
    EntryTruncated(Seq<char>),
    InnerHashMismatch(Seq<char>),
    MissingExecutable(Seq<char>),
    TarNotAscii,
    TarUnsafeRawPath(Seq<char>),
    TarNestedPath(Seq<char>),
    TarTooManyEntries,
    TarNotUstar,
    TarInvalidRoot,
    TarNonRegular(Seq<char>),
    TarEntryTooLarge(Seq<char>),
    TarSizeLimit,
    TarModeUnreadable(Seq<char>),
    TarUnexpectedMode(Seq<char>),
    TarExtraOrDuplicate(Seq<char>),
    TarManifestTruncated,
    TarEntryOverrun(Seq<char>),
    TarEntryTruncated(Seq<char>),
    TarTrailingData,
    TarMissingEndMarker,
    TarConcatenated,
    TarMissingRoot,
    TarIncomplete,
    TarMissingManifest,
    TarMissingHashed(Seq<char>),
}

/// Why a release package was refused.
#[derive(Clone, Debug, PartialEq, Eq)]
pub enum PackageError {
    /// The archive has no entries or too many.
    ZipEntryCount,
    /// An entry's raw path is absolute, has a backslash, a colon, or an empty, `.` or `..` component.
    ZipUnsafeRawPath(String),
    /// The ZIP library found no safe enclosed path for the entry.
    ZipUnsafeEntryPath(String),
    /// A symbolic link, or neither a file nor a directory.
    ZipNonRegular(String),
    /// An entry is larger than the per-entry limit.
    ZipEntryTooLarge(String),
    /// The entries together exceed the uncompressed limit.
    ZipSizeLimit,
    /// A non-ASCII name other than the two approved installer names.
    ZipUnapprovedUnicode(String),
    /// A directory outside the approved set.
    ZipExtraDirectory(String),
    /// A file outside the approved set.
    ZipExtraFile(String),
    /// Two entries with the same normalized path.
    ZipDuplicatePath(String),
    /// An entry with the `zip` extension.
    ZipNestedZip(String),
    /// Not every approved file is present.
    ZipIncomplete,
    /// The archive has no entry named exactly `SHA256SUMS.txt`.
    ZipMissingManifest,
    /// The archive has no entry named exactly as a manifest line.
    ZipMissingEntry(String),
    /// The manifest entry is a link, not a file, or too large.
    ManifestEntryNotRegular,
    /// The manifest is larger than its limit.
    ManifestTooLarge,
    /// The manifest is not UTF-8.
    ManifestNotUtf8,
    /// A blank line (1-based line number).
    ManifestEmptyLine(usize),
    /// A line without the two-space separator.
    ManifestLineFormat(usize),
    /// A digest that is not 64 hexadecimal digits.
    ManifestLineDigest(usize),
    /// An unsafe, unapproved or unapproved-Unicode file name.
    ManifestLineFilename(usize),
    /// Two lines name the same normalized file.
    ManifestDuplicate,
    /// The manifest lists fewer files than required.
    ManifestIncomplete,
    /// A required file is not listed.
    ManifestMissing(String),
    /// A listed entry is a link, not a file, or too large.
    EntryNotRegular(String),
    /// A ZIP entry yielded more bytes than declared.
    EntryOverrun(String),
    /// A ZIP entry yielded fewer bytes than declared.
    EntryTruncated(String),
    /// A file's SHA-256 differs from the manifest.
    InnerHashMismatch(String),
    /// The executable was not extracted.
    MissingExecutable(String),
    /// A tar path with a non-ASCII byte.
    TarNotAscii,
    /// An empty or absolute tar path, or one with a backslash, a colon or a control character.
    TarUnsafeRawPath(String),
    /// A tar path below the root, or `.`/`..`.
    TarNestedPath(String),
    /// More entries than allowed.
    TarTooManyEntries,
    /// A header that is not USTAR.
    TarNotUstar,
    /// A second root, or a root that is not an empty directory.
    TarInvalidRoot,
    /// A non-file entry, or one with a link name.
    TarNonRegular(String),
    /// An entry larger than the per-entry limit.
    TarEntryTooLarge(String),
    /// The entries together exceed the uncompressed limit.
    TarSizeLimit,
    /// The entry's mode field cannot be read.
    TarModeUnreadable(String),
    /// Executables must be 0755, everything else 0644.
    TarUnexpectedMode(String),
    /// An unapproved or repeated file.
    TarExtraOrDuplicate(String),
    /// The manifest yielded fewer bytes than declared.
    TarManifestTruncated,
    /// A tar entry yielded more bytes than declared.
    TarEntryOverrun(String),
    /// A tar entry yielded fewer bytes than declared.
    TarEntryTruncated(String),
    /// Non-zero data, or too much padding, after the end of the archive.
    TarTrailingData,
    /// Less than one zero record after the entries.
    TarMissingEndMarker,
    /// Bytes after the first gzip member.
    TarConcatenated,
    /// No root directory entry.
    TarMissingRoot,
    /// Not every approved file is present.
    TarIncomplete,
    /// No manifest entry.
    TarMissingManifest,
    /// A listed file was not hashed.
    TarMissingHashed(String),
}

impl View for PackageError {
    type V = PackageFailure;

    open spec fn view(&self) -> PackageFailure {
        match self {
            PackageError::ZipEntryCount => PackageFailure::ZipEntryCount,
            PackageError::ZipUnsafeRawPath(x) => PackageFailure::ZipUnsafeRawPath(x@),
            PackageError::ZipUnsafeEntryPath(x) => PackageFailure::ZipUnsafeEntryPath(x@),
            PackageError::ZipNonRegular(x) => PackageFailure::ZipNonRegular(x@),
            PackageError::ZipEntryTooLarge(x) => PackageFailure::ZipEntryTooLarge(x@),
            PackageError::ZipSizeLimit => PackageFailure::ZipSizeLimit,
            PackageError::ZipUnapprovedUnicode(x) => PackageFailure::ZipUnapprovedUnicode(x@),
            PackageError::ZipExtraDirectory(x) => PackageFailure::ZipExtraDirectory(x@),
            PackageError::ZipExtraFile(x) => PackageFailure::ZipExtraFile(x@),
            PackageError::ZipDuplicatePath(x) => PackageFailure::ZipDuplicatePath(x@),
            PackageError::ZipNestedZip(x) => PackageFailure::ZipNestedZip(x@),
            PackageError::ZipIncomplete => PackageFailure::ZipIncomplete,
            PackageError::ZipMissingManifest => PackageFailure::ZipMissingManifest,
            PackageError::ZipMissingEntry(x) => PackageFailure::ZipMissingEntry(x@),
            PackageError::ManifestEntryNotRegular => PackageFailure::ManifestEntryNotRegular,
            PackageError::ManifestTooLarge => PackageFailure::ManifestTooLarge,
            PackageError::ManifestNotUtf8 => PackageFailure::ManifestNotUtf8,
            PackageError::ManifestEmptyLine(x) => PackageFailure::ManifestEmptyLine(*x as nat),
            PackageError::ManifestLineFormat(x) => PackageFailure::ManifestLineFormat(*x as nat),
            PackageError::ManifestLineDigest(x) => PackageFailure::ManifestLineDigest(*x as nat),
            PackageError::ManifestLineFilename(x) => PackageFailure::ManifestLineFilename(*x as nat),
            PackageError::ManifestDuplicate => PackageFailure::ManifestDuplicate,
            PackageError::ManifestIncomplete => PackageFailure::ManifestIncomplete,
            PackageError::ManifestMissing(x) => PackageFailure::ManifestMissing(x@),
            PackageError::EntryNotRegular(x) => PackageFailure::EntryNotRegular(x@),
            PackageError::EntryOverrun(x) => PackageFailure::EntryOverrun(x@),
            PackageError::EntryTruncated(x) => PackageFailure::EntryTruncated(x@),
            PackageError::InnerHashMismatch(x) => PackageFailure::InnerHashMismatch(x@),
            PackageError::MissingExecutable(x) => PackageFailure::MissingExecutable(x@),
            PackageError::TarNotAscii => PackageFailure::TarNotAscii,
            PackageError::TarUnsafeRawPath(x) => PackageFailure::TarUnsafeRawPath(x@),
            PackageError::TarNestedPath(x) => PackageFailure::TarNestedPath(x@),
            PackageError::TarTooManyEntries => PackageFailure::TarTooManyEntries,
            PackageError::TarNotUstar => PackageFailure::TarNotUstar,
            PackageError::TarInvalidRoot => PackageFailure::TarInvalidRoot,
            PackageError::TarNonRegular(x) => PackageFailure::TarNonRegular(x@),
            PackageError::TarEntryTooLarge(x) => PackageFailure::TarEntryTooLarge(x@),
            PackageError::TarSizeLimit => PackageFailure::TarSizeLimit,
            PackageError::TarModeUnreadable(x) => PackageFailure::TarModeUnreadable(x@),
            PackageError::TarUnexpectedMode(x) => PackageFailure::TarUnexpectedMode(x@),
            PackageError::TarExtraOrDuplicate(x) => PackageFailure::TarExtraOrDuplicate(x@),
            PackageError::TarManifestTruncated => PackageFailure::TarManifestTruncated,
            PackageError::TarEntryOverrun(x) => PackageFailure::TarEntryOverrun(x@),
            PackageError::TarEntryTruncated(x) => PackageFailure::TarEntryTruncated(x@),
            PackageError::TarTrailingData => PackageFailure::TarTrailingData,
            PackageError::TarMissingEndMarker => PackageFailure::TarMissingEndMarker,
            PackageError::TarConcatenated => PackageFailure::TarConcatenated,
            PackageError::TarMissingRoot => PackageFailure::TarMissingRoot,
            PackageError::TarIncomplete => PackageFailure::TarIncomplete,
            PackageError::TarMissingManifest => PackageFailure::TarMissingManifest,
            PackageError::TarMissingHashed(x) => PackageFailure::TarMissingHashed(x@),
        }
    }
}

/// The user-facing message of a refusal.
pub open spec fn package_failure_text(f: PackageFailure) -> Seq<char> {
    match f {
        PackageFailure::ZipEntryCount => "community release ZIP contains an invalid number of entries"@,
        PackageFailure::ZipUnsafeRawPath(x) => "community release ZIP contains an unsafe raw path: "@ + x,
        PackageFailure::ZipUnsafeEntryPath(x) => "unsafe ZIP entry path: "@ + x,
        PackageFailure::ZipNonRegular(x) => "community release ZIP contains a non-regular entry: "@ + x,
        PackageFailure::ZipEntryTooLarge(x) => "community release ZIP entry is too large: "@ + x,
        PackageFailure::ZipSizeLimit => "community release ZIP exceeds the uncompressed size limit"@,
        PackageFailure::ZipUnapprovedUnicode(x) => "community release ZIP entry name contains unapproved Unicode: "@ + x,
        PackageFailure::ZipExtraDirectory(x) => "community release ZIP contains an extra directory: "@ + x,
        PackageFailure::ZipExtraFile(x) => "community release ZIP contains an extra file: "@ + x,
        PackageFailure::ZipDuplicatePath(x) => "community release ZIP contains a duplicate path: "@ + x,
        PackageFailure::ZipNestedZip(x) => "community release ZIP must not contain a nested ZIP: "@ + x,
        PackageFailure::ZipIncomplete => "community release ZIP does not contain the exact approved package files"@,
        PackageFailure::ZipMissingManifest => "community release ZIP is missing SHA256SUMS.txt"@,
        PackageFailure::ZipMissingEntry(x) => "community release ZIP is missing manifest entry "@ + x,
        PackageFailure::ManifestEntryNotRegular => "community release SHA256SUMS.txt is not a bounded regular file"@,
        PackageFailure::ManifestTooLarge => "community release SHA256SUMS.txt exceeds the size limit"@,
        PackageFailure::ManifestNotUtf8 => "community release SHA256SUMS.txt is not UTF-8"@,
        PackageFailure::ManifestEmptyLine(x) => "community release SHA256SUMS.txt contains an empty line at "@ + decimal(x),
        PackageFailure::ManifestLineFormat(x) => "community release SHA256SUMS.txt line "@ + decimal(x) + " has an invalid format"@,
        PackageFailure::ManifestLineDigest(x) => "community release SHA256SUMS.txt line "@ + decimal(x) + " has an invalid digest"@,
        PackageFailure::ManifestLineFilename(x) => "community release SHA256SUMS.txt line "@ + decimal(x) + " has an unsafe filename"@,
        PackageFailure::ManifestDuplicate => "community release SHA256SUMS.txt contains a duplicate filename"@,
        PackageFailure::ManifestIncomplete => "community release manifest does not contain the exact approved file set"@,
        PackageFailure::ManifestMissing(x) => "community release manifest is missing required file "@ + x,
        PackageFailure::EntryNotRegular(x) => "community release manifest entry is not a bounded regular file: "@ + x,
        PackageFailure::EntryOverrun(x) => "community release ZIP entry exceeded its declared size: "@ + x,
        PackageFailure::EntryTruncated(x) => "community release ZIP entry was truncated: "@ + x,
        PackageFailure::InnerHashMismatch(x) => "community release inner SHA-256 mismatch for "@ + x,
        PackageFailure::MissingExecutable(x) => "community release did not produce "@ + x,
        PackageFailure::TarNotAscii => "community release tar path is not ASCII"@,
        PackageFailure::TarUnsafeRawPath(x) => "community release tar contains an unsafe raw path: "@ + x,
        PackageFailure::TarNestedPath(x) => "community release tar contains a nested or unsafe path: "@ + x,
        PackageFailure::TarTooManyEntries => "community release tar contains too many entries"@,
        PackageFailure::TarNotUstar => "community release tar must use the USTAR format"@,
        PackageFailure::TarInvalidRoot => "community release tar contains an invalid root entry"@,
        PackageFailure::TarNonRegular(x) => "community release tar contains a non-regular entry: "@ + x,
        PackageFailure::TarEntryTooLarge(x) => "community release tar entry is too large: "@ + x,
        PackageFailure::TarSizeLimit => "community release tar exceeds the uncompressed size limit"@,
        PackageFailure::TarModeUnreadable(x) => "reading mode for tar entry "@ + x,
        PackageFailure::TarUnexpectedMode(x) => "community release tar entry has an unexpected mode: "@ + x,
        PackageFailure::TarExtraOrDuplicate(x) => "community release tar contains an extra or duplicate path: "@ + x,
        PackageFailure::TarManifestTruncated => "community release SHA256SUMS.txt was truncated"@,
        PackageFailure::TarEntryOverrun(x) => "community release tar entry exceeded its declared size: "@ + x,
        PackageFailure::TarEntryTruncated(x) => "community release tar entry was truncated: "@ + x,
        PackageFailure::TarTrailingData => "community release tar.gz contains trailing decoded data"@,
        PackageFailure::TarMissingEndMarker => "community release tar is missing its complete end marker"@,
        PackageFailure::TarConcatenated => "community release tar.gz contains a concatenated or trailing stream"@,
        PackageFailure::TarMissingRoot => "community release tar is missing its root directory entry"@,
        PackageFailure::TarIncomplete => "community release tar does not contain the exact approved package files"@,
        PackageFailure::TarMissingManifest => "community release tar is missing SHA256SUMS.txt"@,
        PackageFailure::TarMissingHashed(x) => "community release tar is missing "@ + x,
    }
}

impl PackageError {
    /// The user-facing message.
    pub fn message(&self) -> (r: String)
        ensures
            r@ == package_failure_text(self@),
    {
        match self {
            PackageError::ZipEntryCount => string_of("community release ZIP contains an invalid number of entries"),
            PackageError::ZipUnsafeRawPath(x) => concat2("community release ZIP contains an unsafe raw path: ", x.as_str()),
            PackageError::ZipUnsafeEntryPath(x) => concat2("unsafe ZIP entry path: ", x.as_str()),
            PackageError::ZipNonRegular(x) => concat2("community release ZIP contains a non-regular entry: ", x.as_str()),
            PackageError::ZipEntryTooLarge(x) => concat2("community release ZIP entry is too large: ", x.as_str()),
            PackageError::ZipSizeLimit => string_of("community release ZIP exceeds the uncompressed size limit"),
            PackageError::ZipUnapprovedUnicode(x) => concat2("community release ZIP entry name contains unapproved Unicode: ", x.as_str()),
            PackageError::ZipExtraDirectory(x) => concat2("community release ZIP contains an extra directory: ", x.as_str()),
            PackageError::ZipExtraFile(x) => concat2("community release ZIP contains an extra file: ", x.as_str()),
            PackageError::ZipDuplicatePath(x) => concat2("community release ZIP contains a duplicate path: ", x.as_str()),
            PackageError::ZipNestedZip(x) => concat2("community release ZIP must not contain a nested ZIP: ", x.as_str()),
            PackageError::ZipIncomplete => string_of("community release ZIP does not contain the exact approved package files"),
            PackageError::ZipMissingManifest => string_of("community release ZIP is missing SHA256SUMS.txt"),
            PackageError::ZipMissingEntry(x) => concat2("community release ZIP is missing manifest entry ", x.as_str()),
            PackageError::ManifestEntryNotRegular => string_of("community release SHA256SUMS.txt is not a bounded regular file"),
            PackageError::ManifestTooLarge => string_of("community release SHA256SUMS.txt exceeds the size limit"),
            PackageError::ManifestNotUtf8 => string_of("community release SHA256SUMS.txt is not UTF-8"),
            PackageError::ManifestEmptyLine(x) => {
                let t = u64_to_decimal(*x as u64);
                concat2("community release SHA256SUMS.txt contains an empty line at ", t.as_str())
            },
            PackageError::ManifestLineFormat(x) => {
                let t = u64_to_decimal(*x as u64);
                concat3("community release SHA256SUMS.txt line ", t.as_str(), " has an invalid format")
            },
            PackageError::ManifestLineDigest(x) => {
                let t = u64_to_decimal(*x as u64);
                concat3("community release SHA256SUMS.txt line ", t.as_str(), " has an invalid digest")
            },
            PackageError::ManifestLineFilename(x) => {
                let t = u64_to_decimal(*x as u64);
                concat3("community release SHA256SUMS.txt line ", t.as_str(), " has an unsafe filename")
            },
            PackageError::ManifestDuplicate => string_of("community release SHA256SUMS.txt contains a duplicate filename"),
            PackageError::ManifestIncomplete => string_of("community release manifest does not contain the exact approved file set"),
            PackageError::ManifestMissing(x) => concat2("community release manifest is missing required file ", x.as_str()),
            PackageError::EntryNotRegular(x) => concat2("community release manifest entry is not a bounded regular file: ", x.as_str()),
            PackageError::EntryOverrun(x) => concat2("community release ZIP entry exceeded its declared size: ", x.as_str()),
            PackageError::EntryTruncated(x) => concat2("community release ZIP entry was truncated: ", x.as_str()),
            PackageError::InnerHashMismatch(x) => concat2("community release inner SHA-256 mismatch for ", x.as_str()),
            PackageError::MissingExecutable(x) => concat2("community release did not produce ", x.as_str()),
            PackageError::TarNotAscii => string_of("community release tar path is not ASCII"),
            PackageError::TarUnsafeRawPath(x) => concat2("community release tar contains an unsafe raw path: ", x.as_str()),
            PackageError::TarNestedPath(x) => concat2("community release tar contains a nested or unsafe path: ", x.as_str()),
            PackageError::TarTooManyEntries => string_of("community release tar contains too many entries"),
            PackageError::TarNotUstar => string_of("community release tar must use the USTAR format"),
            PackageError::TarInvalidRoot => string_of("community release tar contains an invalid root entry"),
            PackageError::TarNonRegular(x) => concat2("community release tar contains a non-regular entry: ", x.as_str()),
            PackageError::TarEntryTooLarge(x) => concat2("community release tar entry is too large: ", x.as_str()),
            PackageError::TarSizeLimit => string_of("community release tar exceeds the uncompressed size limit"),
            PackageError::TarModeUnreadable(x) => concat2("reading mode for tar entry ", x.as_str()),
            PackageError::TarUnexpectedMode(x) => concat2("community release tar entry has an unexpected mode: ", x.as_str()),
            PackageError::TarExtraOrDuplicate(x) => concat2("community release tar contains an extra or duplicate path: ", x.as_str()),
            PackageError::TarManifestTruncated => string_of("community release SHA256SUMS.txt was truncated"),
            PackageError::TarEntryOverrun(x) => concat2("community release tar entry exceeded its declared size: ", x.as_str()),
            PackageError::TarEntryTruncated(x) => concat2("community release tar entry was truncated: ", x.as_str()),
            PackageError::TarTrailingData => string_of("community release tar.gz contains trailing decoded data"),
            PackageError::TarMissingEndMarker => string_of("community release tar is missing its complete end marker"),
            PackageError::TarConcatenated => string_of("community release tar.gz contains a concatenated or trailing stream"),
            PackageError::TarMissingRoot => string_of("community release tar is missing its root directory entry"),
            PackageError::TarIncomplete => string_of("community release tar does not contain the exact approved package files"),
            PackageError::TarMissingManifest => string_of("community release tar is missing SHA256SUMS.txt"),
            PackageError::TarMissingHashed(x) => concat2("community release tar is missing ", x.as_str()),
        }
    }
}

} // verus!
