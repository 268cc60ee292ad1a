use std::io::{BufReader, Cursor, Read, Write};

use grok_zh::community_release::CommunityArchiveKind;
use grok_zh::digest::sha256_hex;
use grok_zh::extraction::{extraction_plan, normalized_unix_tar_name, EntryDigest};
use grok_zh::package::{INNER_MANIFEST, MAX_MANIFEST_BYTES};
use grok_zh::package_error::PackageError;
use grok_zh::tar_scan::{TarAction, TarHeaderInfo, TarScan};

/// Reads a `.tar.gz` in memory and lets the library decide at each step, as
/// the updater does with the downloaded file; returns the bytes of the
/// verified executable.
fn extract_unix(kind: CommunityArchiveKind, bytes: &[u8]) -> Result<Vec<u8>, String> {
    let msg = |e: PackageError| e.message();
    let plan = extraction_plan(kind, "");
    let decoder = flate2::bufread::GzDecoder::new(BufReader::new(Cursor::new(bytes.to_vec())));
    let mut archive = tar::Archive::new(decoder);
    let mut scan = TarScan::new(&plan.layout_files, &plan.executable_files);
    let mut extracted = None;
    {
        let mut entries = archive.entries().map_err(|e| e.to_string())?.raw(true);
        for entry in &mut entries {
            let mut entry = entry.map_err(|e| e.to_string())?;
            let header = entry.header();
            let info = TarHeaderInfo {
                is_ustar: header.as_ustar().is_some(),
                path: header.path_bytes().to_vec(),
                is_dir: header.entry_type().is_dir(),
                is_file: header.entry_type().is_file(),
                has_link: entry.link_name_bytes().is_some(),
                size: entry.size(),
                mode: header.mode().ok(),
            };
            match scan.accept_header(&info).map_err(msg)? {
                TarAction::SkipRoot => {}
                TarAction::ReadManifest { size } => {
                    let mut manifest = Vec::new();
                    (&mut entry)
                        .take(MAX_MANIFEST_BYTES + 1)
                        .read_to_end(&mut manifest)
                        .map_err(|e| e.to_string())?;
                    scan.record_manifest(manifest, size).map_err(msg)?;
                }
                TarAction::Hash { name, size, extract } => {
                    let mut digest = EntryDigest::for_tar_entry(&name, size).map_err(msg)?;
                    let mut out = Vec::new();
                    let mut buffer = [0u8; 64 * 1024];
                    loop {
                        let read = entry.read(&mut buffer).map_err(|e| e.to_string())?;
                        if read == 0 {
                            break;
                        }
                        digest.absorb(&buffer[..read]).map_err(msg)?;
                        if extract {
                            out.extend_from_slice(&buffer[..read]);
                        }
                    }
                    let hash = digest.finish().map_err(msg)?;
                    scan.record_hash(name, hash);
                    if extract {
                        extracted = Some(out);
                    }
                }
            }
        }
    }
    let mut decoder = archive.into_inner();
    let mut tail = [0u8; 8 * 1024];
    loop {
        let read = decoder.read(&mut tail).map_err(|e| e.to_string())?;
        if read == 0 {
            break;
        }
        scan.tail(&tail[..read]).map_err(msg)?;
    }
    let mut compressed = decoder.into_inner();
    let mut one = [0u8; 1];
    let trailing = compressed.read(&mut one).map_err(|e| e.to_string())? != 0;
    scan.finish(trailing).map_err(msg)?;
    extracted.ok_or_else(|| PackageError::MissingExecutable(plan.executable.to_string()).message())
}

fn unix_entries(executable: &[u8], build_info: &[u8], guide: &str) -> Vec<(String, Vec<u8>, u32)> {
    let mut entries = vec![
        ("grok-zh".to_string(), executable.to_vec(), 0o755),
        ("BUILD-INFO.txt".to_string(), build_info.to_vec(), 0o644),
        (guide.to_string(), b"installation guide".to_vec(), 0o644),
        ("Install-GrokZh.sh".to_string(), b"#!/bin/sh\nexit 0\n".to_vec(), 0o755),
        ("LICENSE-grok-build.txt".to_string(), b"license".to_vec(), 0o644),
        ("NOTICE-third-party.txt".to_string(), b"notice".to_vec(), 0o644),
        ("SOURCE_REV".to_string(), b"deadbeef".to_vec(), 0o644),
        ("THIRD-PARTY-NOTICES.txt".to_string(), b"third party".to_vec(), 0o644),
        ("THIRD-PARTY-NOTICES-xai-grok-tools.md".to_string(), b"tools notices".to_vec(), 0o644),
    ];
    let manifest = entries
        .iter()
        .map(|(name, bytes, _)| format!("{}  {name}", sha256_hex(bytes)))
        .collect::<Vec<_>>()
        .join("\n");
    entries.push((INNER_MANIFEST.to_string(), manifest.into_bytes(), 0o644));
    entries
}

fn macos_package_entries() -> Vec<(String, Vec<u8>, u32)> {
    unix_entries(b"verified Mach-O", b"unsigned macOS ARM64 build", "INSTALL-MACOS.md")
}

fn linux_package_entries() -> Vec<(String, Vec<u8>, u32)> {
    unix_entries(b"verified ELF", b"Linux x86_64 GNU build", "INSTALL-LINUX.md")
}

fn append_ustar_entry<W: Write>(
    builder: &mut tar::Builder<W>,
    name: &str,
    bytes: &[u8],
    mode: u32,
    entry_type: tar::EntryType,
    link_name: Option<&str>,
) {
    let mut header = tar::Header::new_ustar();
    header.set_entry_type(entry_type);
    header.set_mode(mode);
    header.set_size(bytes.len() as u64);
    if let Some(link_name) = link_name {
        header.set_link_name(link_name).unwrap();
    }
    header.set_cksum();
    builder.append_data(&mut header, name, bytes).unwrap();
}

fn write_unix_tar(
    entries: &[(String, Vec<u8>, u32)],
    extra: Option<(&str, tar::EntryType, Option<&str>)>,
) -> Vec<u8> {
    let encoder = flate2::write::GzEncoder::new(Vec::new(), flate2::Compression::default());
    let mut builder = tar::Builder::new(encoder);
    append_ustar_entry(&mut builder, ".", &[], 0o755, tar::EntryType::Directory, None);
    for (name, bytes, mode) in entries {
        append_ustar_entry(&mut builder, name, bytes, *mode, tar::EntryType::Regular, None);
    }
    if let Some((name, entry_type, link_name)) = extra {
        append_ustar_entry(&mut builder, name, &[], 0o644, entry_type, link_name);
    }
    let encoder = builder.into_inner().unwrap();
    encoder.finish().unwrap()
}

fn gzip(bytes: &[u8]) -> Vec<u8> {
    let mut encoder = flate2::write::GzEncoder::new(Vec::new(), flate2::Compression::default());
    encoder.write_all(bytes).unwrap();
    encoder.finish().unwrap()
}

#[test]
fn valid_macos_tar_extracts_only_the_verified_executable() {
    let archive = write_unix_tar(&macos_package_entries(), None);
    let extracted = extract_unix(CommunityArchiveKind::MacosTarGz, &archive).unwrap();
    assert_eq!(extracted, b"verified Mach-O");
}

#[test]
fn valid_linux_tar_extracts_only_the_verified_executable() {
    let archive = write_unix_tar(&linux_package_entries(), None);
    let extracted = extract_unix(CommunityArchiveKind::LinuxTarGz, &archive).unwrap();
    assert_eq!(extracted, b"verified ELF");
}

#[test]
fn linux_tar_rejects_macos_package_layout() {
    let archive = write_unix_tar(&macos_package_entries(), None);
    let error = extract_unix(CommunityArchiveKind::LinuxTarGz, &archive).unwrap_err();
    assert!(error.contains("extra or duplicate path"), "{error}");
}

#[test]
fn macos_tar_hash_mismatch_fails_closed_and_removes_candidate() {
    let mut entries = macos_package_entries();
    entries.iter_mut().find(|(name, _, _)| name == "grok-zh").unwrap().1 =
        b"tampered Mach-O".to_vec();
    let archive = write_unix_tar(&entries, None);
    let error = extract_unix(CommunityArchiveKind::MacosTarGz, &archive).unwrap_err();
    assert!(error.contains("inner SHA-256 mismatch"));
}

#[test]
fn macos_tar_rejects_extra_duplicate_and_link_entries() {
    let entries = macos_package_entries();
    for (suffix, extra) in [
        ("extra", ("extra.txt", tar::EntryType::Regular, None)),
        ("duplicate", ("GROK-ZH", tar::EntryType::Regular, None)),
        ("symlink", ("replacement", tar::EntryType::Symlink, Some("grok-zh"))),
        ("hardlink", ("replacement", tar::EntryType::Link, Some("grok-zh"))),
    ] {
        let archive = write_unix_tar(&entries, Some(extra));
        assert!(
            extract_unix(CommunityArchiveKind::MacosTarGz, &archive).is_err(),
            "{suffix} tar should be rejected"
        );
    }
}

#[test]
fn macos_tar_rejects_trailing_gzip_payload() {
    let mut archive = write_unix_tar(&macos_package_entries(), None);
    archive.extend_from_slice(&gzip(b"unexpected trailing member"));
    assert!(extract_unix(CommunityArchiveKind::MacosTarGz, &archive).is_err());

    for (suffix, trailing_bytes) in [("empty", Vec::new()), ("zeros", vec![0u8; 512])] {
        let mut archive = write_unix_tar(&macos_package_entries(), None);
        archive.extend_from_slice(&gzip(&trailing_bytes));
        assert!(
            extract_unix(CommunityArchiveKind::MacosTarGz, &archive).is_err(),
            "concatenated {suffix} gzip member must be rejected"
        );
    }
}

#[test]
fn macos_tar_requires_root_entry_modes_and_complete_end_marker() {
    let mut entries = macos_package_entries();
    entries.iter_mut().find(|(name, _, _)| name == "Install-GrokZh.sh").unwrap().2 = 0o644;
    let wrong_mode = write_unix_tar(&entries, None);
    assert!(extract_unix(CommunityArchiveKind::MacosTarGz, &wrong_mode).is_err());

    let valid = write_unix_tar(&macos_package_entries(), None);
    let mut decoder = flate2::read::GzDecoder::new(Cursor::new(valid));
    let mut raw_tar = Vec::new();
    decoder.read_to_end(&mut raw_tar).unwrap();
    let last_nonzero = raw_tar.iter().rposition(|byte| *byte != 0).unwrap();
    let truncated_len = (last_nonzero + 512) / 512 * 512;
    raw_tar.truncate(truncated_len);
    let truncated = gzip(&raw_tar);
    assert!(extract_unix(CommunityArchiveKind::MacosTarGz, &truncated).is_err());
}

#[test]
fn tar_member_names_are_single_ascii_components() {
    assert_eq!(normalized_unix_tar_name(b"."), Ok(None));
    assert_eq!(normalized_unix_tar_name(b"./"), Ok(None));
    assert_eq!(normalized_unix_tar_name(b"./grok-zh"), Ok(Some("grok-zh".to_string())));
    assert_eq!(normalized_unix_tar_name(b"SOURCE_REV"), Ok(Some("SOURCE_REV".to_string())));
    assert_eq!(normalized_unix_tar_name("é".as_bytes()), Err(PackageError::TarNotAscii));
    assert_eq!(
        normalized_unix_tar_name(b"/etc/passwd"),
        Err(PackageError::TarUnsafeRawPath("/etc/passwd".to_string()))
    );
    assert_eq!(
        normalized_unix_tar_name(b"a\x01"),
        Err(PackageError::TarUnsafeRawPath("a\x01".to_string()))
    );
    assert_eq!(
        normalized_unix_tar_name(b"dir/file"),
        Err(PackageError::TarNestedPath("dir/file".to_string()))
    );
    assert_eq!(
        normalized_unix_tar_name(b"./.."),
        Err(PackageError::TarNestedPath("./..".to_string()))
    );
    assert_eq!(normalized_unix_tar_name(b""), Err(PackageError::TarUnsafeRawPath(String::new())));
}

#[test]
fn scan_refuses_a_second_root_and_a_missing_root() {
    let plan = extraction_plan(CommunityArchiveKind::MacosTarGz, "");
    let mut scan = TarScan::new(&plan.layout_files, &plan.executable_files);
    let root = TarHeaderInfo {
        is_ustar: true,
        path: b"./".to_vec(),
        is_dir: true,
        is_file: false,
        has_link: false,
        size: 0,
        mode: Some(0o755),
    };
    assert_eq!(scan.accept_header(&root), Ok(TarAction::SkipRoot));
    assert_eq!(scan.accept_header(&root), Err(PackageError::TarInvalidRoot));

    let fresh = TarScan::new(&plan.layout_files, &plan.executable_files);
    assert_eq!(fresh.finish(false), Err(PackageError::TarMissingEndMarker));
    let mut padded = TarScan::new(&plan.layout_files, &plan.executable_files);
    assert_eq!(padded.tail(&[0u8; 1024]), Ok(()));
    assert_eq!(padded.finish(true), Err(PackageError::TarConcatenated));
    assert_eq!(padded.finish(false), Err(PackageError::TarMissingRoot));
    assert_eq!(padded.tail(&[0u8, 1u8]), Err(PackageError::TarTrailingData));
}

#[test]
fn scan_decides_what_to_do_with_each_member() {
    let plan = extraction_plan(CommunityArchiveKind::LinuxTarGz, "");
    let mut scan = TarScan::new(&plan.layout_files, &plan.executable_files);
    let header = |path: &str, size: u64, mode: u32| TarHeaderInfo {
        is_ustar: true,
        path: path.as_bytes().to_vec(),
        is_dir: false,
        is_file: true,
        has_link: false,
        size,
        mode: Some(mode),
    };
    assert_eq!(
        scan.accept_header(&header("grok-zh", 5, 0o100755)),
        Ok(TarAction::Hash { name: "grok-zh".to_string(), size: 5, extract: true })
    );
    assert_eq!(
        scan.accept_header(&header("SOURCE_REV", 5, 0o644)),
        Ok(TarAction::Hash { name: "SOURCE_REV".to_string(), size: 5, extract: false })
    );
    assert_eq!(
        scan.accept_header(&header("SHA256SUMS.txt", 70, 0o644)),
        Ok(TarAction::ReadManifest { size: 70 })
    );
    assert_eq!(
        scan.accept_header(&header("Install-GrokZh.sh", 5, 0o644)),
        Err(PackageError::TarUnexpectedMode("Install-GrokZh.sh".to_string()))
    );
    assert_eq!(
        scan.accept_header(&header("source_rev", 5, 0o644)),
        Err(PackageError::TarExtraOrDuplicate("source_rev".to_string()))
    );
    assert_eq!(
        scan.record_manifest(b"short".to_vec(), 70),
        Err(PackageError::TarManifestTruncated)
    );
}

#[test]
fn entry_digest_bounds_and_hashes() {
    let mut d = EntryDigest::for_tar_entry("SOURCE_REV", 8).unwrap();
    assert_eq!(d.absorb(b"dead"), Ok(()));
    assert_eq!(d.absorb(b"beefX"), Err(PackageError::TarEntryOverrun("SOURCE_REV".to_string())));
    assert_eq!(d.absorb(b"beef"), Ok(()));
    assert_eq!(d.finish(), Ok(sha256_hex(b"deadbeef")));
    let mut short = EntryDigest::for_tar_entry("x", 3).unwrap();
    short.absorb(b"ab").unwrap();
    assert_eq!(short.finish(), Err(PackageError::TarEntryTruncated("x".to_string())));
    assert_eq!(
        EntryDigest::for_tar_entry("big", 512 * 1024 * 1024 + 1).err(),
        Some(PackageError::TarEntryTooLarge("big".to_string()))
    );
}
