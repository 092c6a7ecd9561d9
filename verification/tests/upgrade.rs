use rabbit::upgrade::{
    classify_manifest, install_update, looks_like_json, update_script, verify_sha256,
    version_check_report, PlatformInfo, ScriptKind, UpdateStatus, VersionReply, VersionsManifest,
};

fn info(sha: &str) -> PlatformInfo {
    PlatformInfo { sha256: sha.to_string(), size: 3 * 1024 * 1024, url: "https://x/r".to_string() }
}

fn manifest(version: &str) -> VersionsManifest {
    let mut m = VersionsManifest::new(version.to_string(), "2026/01/02".to_string(), "  Fixes.\n".to_string());
    m.insert_platform("linux-x64", info("ab"));
    m
}

const ABC_SHA256: &str = "ba7816bf8f01cfea414140de5dae2223b00361a396177a9cb410ff61f20015ad";

#[test]
fn checksum_verification() {
    assert!(verify_sha256(b"abc", ABC_SHA256).is_ok());
    assert!(verify_sha256(b"abc", &ABC_SHA256.to_uppercase()).is_ok());
    let err = verify_sha256(b"abd", ABC_SHA256).unwrap_err();
    assert!(err.starts_with("SHA256 mismatch: expected ba7816bf"));
    assert!(err.contains(", got "));
    assert!(!err.ends_with(ABC_SHA256));
}

#[test]
fn newer_versions() {
    assert!(manifest("1.2.0").is_newer_than("1.1.9"));
    assert!(!manifest("1.2.0").is_newer_than("1.2.0"));
    assert!(!manifest("1.2.0").is_newer_than("1.10.0"));
    assert!(manifest("nightly").is_newer_than("1.0.0"));
    assert!(!manifest("").is_newer_than("1.0.0"));
}

#[test]
fn manifest_texts() {
    let m = manifest("2.0.0");
    assert_eq!(m.format_summary("linux-x64", "3.0"), "Version: 2.0.0  (2026/01/02), 3.0 MB\n  Fixes.\n");
    assert_eq!(m.format_prompt("linux-x64", "3.0"), "Update available: 2.0.0 (2026/01/02), 3.0 MB\n\nFixes.");
    assert_eq!(m.format_prompt("windows-x64", "3.0"), "Update available: 2.0.0 (2026/01/02)\n\nFixes.");
    assert!(m.for_current_platform("linux-x64").is_some());
    assert!(m.for_current_platform("macos-arm64").is_none());
}

#[test]
fn classification() {
    match classify_manifest(manifest("9.0.0"), "1.0.0", "linux-x64") {
        UpdateStatus::UpdateAvailable(m, i) => {
            assert_eq!(m.version, "9.0.0");
            assert_eq!(i.sha256, "ab");
        }
        _ => panic!("expected an update"),
    }
    assert!(matches!(classify_manifest(manifest("0.1.0"), "1.0.0", "linux-x64"), UpdateStatus::UpToDate));
    match classify_manifest(manifest("9.0.0"), "1.0.0", "macos-arm64") {
        UpdateStatus::CheckError(e) => assert_eq!(e, "No build for current platform"),
        _ => panic!("expected an error"),
    }
    assert!(looks_like_json("  {\"version\": 1}"));
    assert!(!looks_like_json("<html>"));
}

#[test]
fn installation_scripts() {
    let s = update_script(ScriptKind::Unix, "/tmp/rabbit_update/rabbit", "/opt/rabbit", "/tmp/rabbit_update");
    assert_eq!(
        s,
        "#!/bin/bash\nsleep 2\ncp -f \"/tmp/rabbit_update/rabbit\" \"/opt/rabbit\"\nchmod +x \"/opt/rabbit\"\n\"/opt/rabbit\" &\nrm -rf /tmp/rabbit_update\n"
    );
    let w = update_script(ScriptKind::Windows, "C:\\t\\rabbit.exe", "C:\\r.exe", "C:\\t");
    assert_eq!(
        w,
        "@echo off\ntimeout /t 2 /nobreak >nul\ncopy /y \"C:\\t\\rabbit.exe\" \"C:\\r.exe\"\nstart \"\" \"C:\\r.exe\"\nrmdir /s /q \"C:\\t\"\n"
    );
    let ok = install_update(b"abc", ABC_SHA256, Ok("/opt/rabbit".to_string()), ScriptKind::Unix, "/tmp/rabbit_update/rabbit", "/tmp/rabbit_update");
    assert!(ok.unwrap().contains("cp -f"));
    let bad = install_update(b"abc", "00", Ok("/opt/rabbit".to_string()), ScriptKind::Unix, "a", "b");
    assert!(bad.unwrap_err().starts_with("SHA256 mismatch"));
    let no_exe = install_update(b"abc", ABC_SHA256, Err("Failed to get current exe path: gone".to_string()), ScriptKind::Unix, "a", "b");
    assert_eq!(no_exe.unwrap_err(), "Failed to get current exe path: gone");
}

#[test]
fn update_check_reports() {
    let newer = version_check_report("1.0.0", &VersionReply::Manifest(manifest("2.0.0")), "linux-x64", "3.0");
    assert_eq!(
        newer,
        "Current version: 1.0.0\n\nVersion: 2.0.0  (2026/01/02), 3.0 MB\n  Fixes.\n\n\nA newer version is available.\n\nVisit Home to download updates.\n"
    );
    let latest = version_check_report("2.0.0", &VersionReply::Manifest(manifest("2.0.0")), "macos-arm64", "3.0");
    assert!(latest.contains("You are on the latest version."));
    assert!(!latest.contains(" MB"));
    let down = version_check_report("1.0.0", &VersionReply::Unreachable("timeout".to_string()), "linux-x64", "0");
    assert_eq!(
        down,
        "Current version: 1.0.0\n\nUnable to check for updates.\nError: timeout\n\nVisit Home to check for updates manually.\n"
    );
    let junk = version_check_report("1.0.0", &VersionReply::Unreadable("bad json".to_string()), "linux-x64", "0");
    assert!(junk.contains("Failed to parse version info.\nError: bad json"));
}
