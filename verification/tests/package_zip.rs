use std::io::{Cursor, Read, Write};

use grok_zh::community_release::CommunityArchiveKind;
use grok_zh::digest::sha256_hex;
use grok_zh::extraction::{
    check_inner_hash, check_inner_manifest_entry, extraction_plan, EntryDigest, ManifestCheck,
};
use grok_zh::manifest::parse_inner_manifest;
use grok_zh::package::{
    windows_required_package_files, windows_v1_0_5_manifest_package_files,
    COMMAND_SETUP_INSTALLER, INNER_MANIFEST, MAX_MANIFEST_BYTES, ONE_CLICK_INSTALLER,
};
use grok_zh::package_error::PackageError;
use grok_zh::zip_layout::{validate_archive_layout, ZipEntryInfo};

type Archive = zip::ZipArchive<Cursor<Vec<u8>>>;

fn info_of<R: Read>(entry: &zip::read::ZipFile<'_, R>) -> ZipEntryInfo {
    ZipEntryInfo {
        name: entry.name().to_string(),
        enclosed: entry.enclosed_name().is_some(),
        is_symlink: entry.is_symlink(),
        is_file: entry.is_file(),
        is_dir: entry.is_dir(),
        size: entry.size(),
    }
}

fn lookup(archive: &mut Archive, name: &str) -> Option<ZipEntryInfo> {
    archive.by_name(name).ok().map(|entry| info_of(&entry))
}

/// Reads the archive in memory and lets the library decide at each step,
/// as the updater does with the downloaded file; returns the bytes of the
/// verified executable.
fn extract_windows(version: &str, bytes: &[u8]) -> Result<Vec<u8>, String> {
    let msg = |e: PackageError| e.message();
    let plan = extraction_plan(CommunityArchiveKind::WindowsZip, version);
    let mut archive = Archive::new(Cursor::new(bytes.to_vec())).map_err(|e| e.to_string())?;
    let mut infos = Vec::new();
    for index in 0..archive.len() {
        let entry = archive.by_index(index).map_err(|e| e.to_string())?;
        infos.push(info_of(&entry));
    }
    validate_archive_layout(&infos, &plan.layout_files).map_err(msg)?;
    let manifest_info = lookup(&mut archive, INNER_MANIFEST);
    check_inner_manifest_entry(manifest_info.as_ref()).map_err(msg)?;
    let mut manifest = Vec::new();
    archive
        .by_name(INNER_MANIFEST)
        .map_err(|e| e.to_string())?
        .take(MAX_MANIFEST_BYTES + 1)
        .read_to_end(&mut manifest)
        .map_err(|e| e.to_string())?;
    let hashes = parse_inner_manifest(&manifest, &plan.manifest_files).map_err(msg)?;
    let mut extracted = None;
    let mut check = ManifestCheck::new(hashes);
    while let Some(name) = check.next_name().map(str::to_string) {
        let info = lookup(&mut archive, &name);
        let mut digest = EntryDigest::for_zip_entry(&name, info.as_ref()).map_err(msg)?;
        let mut entry = archive.by_name(&name).map_err(|e| e.to_string())?;
        let keep = name == plan.executable;
        let mut out = Vec::new();
        let mut buffer = [0u8; 64 * 1024];
        loop {
            let read = entry.read(&mut buffer).map_err(|e| e.to_string())?;
            if read == 0 {
                break;
            }
            digest.absorb(&buffer[..read]).map_err(msg)?;
            if keep {
                out.extend_from_slice(&buffer[..read]);
            }
        }
        let actual = digest.finish().map_err(msg)?;
        drop(entry);
        check.record(&actual).map_err(msg)?;
        if keep {
            extracted = Some(out);
        }
    }
    assert!(check.is_complete());
    extracted.ok_or_else(|| PackageError::MissingExecutable(plan.executable.to_string()).message())
}

fn extract_current(bytes: &[u8]) -> Result<Vec<u8>, String> {
    extract_windows("1.0.6", bytes)
}

fn package_entries_with_manifest(manifest_files: &[&str]) -> Vec<(String, Vec<u8>)> {
    let mut entries = vec![
        ("grok-zh.exe".to_string(), b"verified executable".to_vec()),
        ("agent-zh.cmd".to_string(), b"agent wrapper".to_vec()),
        ("rg.exe".to_string(), b"ripgrep".to_vec()),
        (ONE_CLICK_INSTALLER.to_string(), b"one-click installer".to_vec()),
        (COMMAND_SETUP_INSTALLER.to_string(), b"optional command setup".to_vec()),
        ("Install-GrokZh.ps1".to_string(), b"installer".to_vec()),
        ("INSTALL-WINDOWS.md".to_string(), b"installation guide".to_vec()),
        ("LICENSE-grok-build.txt".to_string(), b"project license".to_vec()),
        ("BUILD-INFO.txt".to_string(), b"build metadata".to_vec()),
        ("licenses/ripgrep/COPYING".to_string(), b"ripgrep copying".to_vec()),
        ("licenses/ripgrep/LICENSE-MIT".to_string(), b"ripgrep MIT license".to_vec()),
        ("licenses/ripgrep/UNLICENSE".to_string(), b"ripgrep unlicense".to_vec()),
        ("licenses/project/THIRD-PARTY-NOTICES".to_string(), b"project notices".to_vec()),
        ("licenses/project/THIRD_PARTY_NOTICES.md".to_string(), b"tool notices".to_vec()),
        ("licenses/project/NOTICE".to_string(), b"third party notice".to_vec()),
    ];
    let manifest = entries
        .iter()
        .filter(|(name, _)| manifest_files.contains(&name.as_str()))
        .map(|(name, bytes)| format!("{}  {name}", sha256_hex(bytes)))
        .collect::<Vec<_>>()
        .join("\n");
    entries.push(("SHA256SUMS.txt".to_string(), manifest.into_bytes()));
    entries
}

fn package_entries() -> Vec<(String, Vec<u8>)> {
    package_entries_with_manifest(&windows_required_package_files())
}

fn write_zip(entries: &[(String, Vec<u8>)]) -> Vec<u8> {
    let mut writer = zip::ZipWriter::new(Cursor::new(Vec::new()));
    let options = zip::write::SimpleFileOptions::default()
        .compression_method(zip::CompressionMethod::Deflated);
    for (name, bytes) in entries {
        writer.start_file(name.as_str(), options).unwrap();
        writer.write_all(bytes).unwrap();
    }
    writer.finish().unwrap().into_inner()
}

#[test]
fn valid_package_zip_extracts_only_the_verified_executable() {
    let archive = write_zip(&package_entries());
    let extracted = extract_current(&archive).unwrap();
    assert_eq!(extracted, b"verified executable");
}

#[test]
fn published_v1_0_5_legacy_manifest_extracts_verified_executable() {
    let archive =
        write_zip(&package_entries_with_manifest(&windows_v1_0_5_manifest_package_files()));
    let extracted = extract_windows("1.0.5", &archive).unwrap();
    assert_eq!(extracted, b"verified executable");
}

#[test]
fn legacy_manifest_is_rejected_for_other_release_versions() {
    let archive =
        write_zip(&package_entries_with_manifest(&windows_v1_0_5_manifest_package_files()));
    let error = extract_windows("1.0.6", &archive).unwrap_err();
    assert!(
        error.contains("manifest does not contain the exact approved file set"),
        "{error}"
    );
}

#[test]
fn published_v1_0_5_legacy_manifest_still_checks_inner_hashes() {
    let mut entries = package_entries_with_manifest(&windows_v1_0_5_manifest_package_files());
    entries.iter_mut().find(|(name, _)| name == "grok-zh.exe").unwrap().1 =
        b"tampered executable".to_vec();
    let archive = write_zip(&entries);
    let error = extract_windows("1.0.5", &archive).unwrap_err();
    assert!(error.contains("inner SHA-256 mismatch"));
}

#[test]
fn inner_hash_mismatch_fails_closed_and_removes_candidate() {
    let mut entries = package_entries();
    entries.iter_mut().find(|(name, _)| name == "grok-zh.exe").unwrap().1 =
        b"tampered executable".to_vec();
    let archive = write_zip(&entries);
    let error = extract_current(&archive).unwrap_err();
    assert!(error.contains("inner SHA-256 mismatch"));
}

#[test]
fn unsafe_or_incomplete_package_zip_is_rejected() {
    let mut entries = package_entries();
    entries.push(("../escape.txt".to_string(), b"escape".to_vec()));
    assert!(extract_current(&write_zip(&entries)).is_err());

    let mut entries = package_entries();
    entries.push(("nested/../escape.txt".to_string(), b"escape".to_vec()));
    assert!(extract_current(&write_zip(&entries)).is_err());

    let mut entries = package_entries();
    entries.push(("./escape.txt".to_string(), b"escape".to_vec()));
    assert!(extract_current(&write_zip(&entries)).is_err());

    let mut entries = package_entries();
    entries.push(("RG.EXE".to_string(), b"duplicate ripgrep".to_vec()));
    let error = extract_current(&write_zip(&entries)).unwrap_err();
    assert!(error.contains("duplicate path"), "{error}");

    let mut entries = package_entries();
    entries.push(("É.txt".to_string(), b"ambiguous on Windows".to_vec()));
    assert!(extract_current(&write_zip(&entries)).is_err());

    let mut entries = package_entries();
    let manifest = entries.iter_mut().find(|(name, _)| name == "SHA256SUMS.txt").unwrap();
    manifest.1.extend_from_slice(format!("\n{}  É.txt", "00".repeat(32)).as_bytes());
    assert!(extract_current(&write_zip(&entries)).is_err());

    let mut entries = package_entries();
    let manifest = entries.iter_mut().find(|(name, _)| name == "SHA256SUMS.txt").unwrap();
    manifest
        .1
        .extend_from_slice(format!("\n{}  {ONE_CLICK_INSTALLER}", "00".repeat(32)).as_bytes());
    assert!(extract_current(&write_zip(&entries)).is_err());

    for missing_required in ["rg.exe", ONE_CLICK_INSTALLER, COMMAND_SETUP_INSTALLER] {
        let mut entries = package_entries();
        let manifest = entries.iter_mut().find(|(name, _)| name == "SHA256SUMS.txt").unwrap();
        manifest.1 = String::from_utf8(manifest.1.clone())
            .unwrap()
            .lines()
            .filter(|line| !line.ends_with(&format!("  {missing_required}")))
            .collect::<Vec<_>>()
            .join("\n")
            .into_bytes();
        assert!(extract_current(&write_zip(&entries)).is_err());
    }
}

#[test]
fn nested_zip_and_unapproved_directory_are_rejected() {
    let mut entries = package_entries();
    entries.push(("licenses/inner.ZIP".to_string(), b"zip".to_vec()));
    let error = extract_current(&write_zip(&entries)).unwrap_err();
    assert!(error.contains("extra file"), "{error}");

    let infos = vec![ZipEntryInfo {
        name: "docs/".to_string(),
        enclosed: true,
        is_symlink: false,
        is_file: false,
        is_dir: true,
        size: 0,
    }];
    let error = validate_archive_layout(&infos, &windows_required_package_files()).unwrap_err();
    assert_eq!(error, PackageError::ZipExtraDirectory("docs/".to_string()));
    assert_eq!(
        error.message(),
        "community release ZIP contains an extra directory: docs/"
    );
}

#[test]
fn layout_counts_and_limits() {
    let none: Vec<ZipEntryInfo> = Vec::new();
    assert_eq!(
        validate_archive_layout(&none, &windows_required_package_files()),
        Err(PackageError::ZipEntryCount)
    );
    let huge = vec![ZipEntryInfo {
        name: "rg.exe".to_string(),
        enclosed: true,
        is_symlink: false,
        is_file: true,
        is_dir: false,
        size: 512 * 1024 * 1024 + 1,
    }];
    assert_eq!(
        validate_archive_layout(&huge, &windows_required_package_files()),
        Err(PackageError::ZipEntryTooLarge("rg.exe".to_string()))
    );
    let link = vec![ZipEntryInfo {
        name: "rg.exe".to_string(),
        enclosed: true,
        is_symlink: true,
        is_file: false,
        is_dir: false,
        size: 1,
    }];
    assert_eq!(
        validate_archive_layout(&link, &windows_required_package_files()),
        Err(PackageError::ZipNonRegular("rg.exe".to_string()))
    );
    let partial = vec![ZipEntryInfo {
        name: "rg.exe".to_string(),
        enclosed: true,
        is_symlink: false,
        is_file: true,
        is_dir: false,
        size: 1,
    }];
    assert_eq!(
        validate_archive_layout(&partial, &windows_required_package_files()),
        Err(PackageError::ZipIncomplete)
    );
}

#[test]
fn inner_hash_comparison_names_the_mismatched_file() {
    assert_eq!(check_inner_hash("a", "00", "00"), Ok(()));
    assert_eq!(
        check_inner_hash("a", "00", "01"),
        Err(PackageError::InnerHashMismatch("a".to_string()))
    );
    let mut check = ManifestCheck::new(vec![
        ("a".to_string(), "11".to_string()),
        ("b".to_string(), "22".to_string()),
    ]);
    assert_eq!(check.next_name(), Some("a"));
    assert_eq!(check.record("11"), Ok(()));
    assert_eq!(check.next_name(), Some("b"));
    assert_eq!(check.record("23"), Err(PackageError::InnerHashMismatch("b".to_string())));
    assert_eq!(check.next_name(), Some("b"));
    assert!(!check.is_complete());
    assert_eq!(check.record("22"), Ok(()));
    assert_eq!(check.next_name(), None);
    assert!(check.is_complete());
}
