//! Update checking: which remote release is newer, which build fits this
//! platform, and whether a download matches its published checksum.
use sha2::Digest;
use vstd::prelude::*;
use vstd::hash_map::StringHashMap;

use crate::text::{append_vec, chars_of, eq_vec, owned, starts_with_seq, to_string, trim_seq, trim_vec};

verus! {

// ---------------------------------------------------------------------------
// Trusted items
// ---------------------------------------------------------------------------

/// Whether `semver::Version::parse` accepts `text`.
pub uninterp spec fn semver_valid(text: Seq<char>) -> bool;

/// Whether the version parsed from `a` orders after the one parsed from `b`
/// (`semver::Version`'s `Ord`).
pub uninterp spec fn semver_greater(a: Seq<char>, b: Seq<char>) -> bool;

/// SHA-256 digest of `data` (`sha2::Sha256`).
pub uninterp spec fn sha256(data: Seq<u8>) -> Seq<u8>;

/// Unicode lowercase mapping of a string (`str::to_lowercase`).
pub uninterp spec fn lowercase(s: Seq<char>) -> Seq<char>;

/// Calls `semver::Version::parse` and reports whether it succeeded. The
/// crate rejects the empty string; what else it accepts is named by
/// `semver_valid`.
#[verifier::external_body]
fn semver_parses(text: &str) -> (r: bool)
    ensures
        r == semver_valid(text@),
        text@.len() == 0 ==> !r,
{
    semver::Version::parse(text).is_ok()
}

/// Compares two versions with `semver::Version`'s `>`, after parsing both
/// texts. The order is total (derived `Ord`), so a version is not greater than
/// itself and not both greater and smaller than another; which of two
/// versions is greater is named by `semver_greater`.
#[verifier::external_body]
fn semver_is_greater(a: &str, b: &str) -> (r: bool)
    requires
        semver_valid(a@),
        semver_valid(b@),
    ensures
        r == semver_greater(a@, b@),
        a@ == b@ ==> !r,
        r ==> !semver_greater(b@, a@),
{
    semver::Version::parse(a).unwrap() > semver::Version::parse(b).unwrap()
}

/// Computes the SHA-256 digest of `data` with `sha2::Sha256::digest`; the
/// digest is 32 bytes long.
#[verifier::external_body]
fn sha256_digest(data: &[u8]) -> (r: Vec<u8>)
    ensures
        r@ == sha256(data@),
        r@.len() == 32,
{
    sha2::Sha256::digest(data).to_vec()
}

/// Lowercases `s` with `str::to_lowercase`.
#[verifier::external_body]
fn to_lowercase(s: &str) -> (r: String)
    ensures
        r@ == lowercase(s@),
{
    s.to_lowercase()
}

// ---------------------------------------------------------------------------
// Checksums
// ---------------------------------------------------------------------------

/// Lowercase hexadecimal digit of `d` (`0 <= d < 16`).
pub open spec fn hex_digit(d: int) -> char {
    if d < 10 {
        ((d + 48) as u32) as char
    } else {
        ((d + 87) as u32) as char
    }
}

/// Lowercase hexadecimal rendering of bytes, two digits per byte (`{:x}`).
pub open spec fn hex_lower(bytes: Seq<u8>) -> Seq<char>
    decreases bytes.len(),
{
    if bytes.len() == 0 {
        Seq::empty()
    } else {
        hex_lower(bytes.drop_last()) + seq![
            hex_digit(bytes.last() as int / 16),
            hex_digit(bytes.last() as int % 16),
        ]
    }
}

pub(crate) fn hex_char(d: u8) -> (c: char)
    requires
        d < 16,
    ensures
        c == hex_digit(d as int),
{
    if d < 10 {
        (d + 48) as char
    } else {
        (d + 87) as char
    }
}

/// Appends the lowercase hexadecimal rendering of `bytes` to `out`.
pub fn push_hex_lower(out: &mut Vec<char>, bytes: &Vec<u8>)
    ensures
        final(out)@ == old(out)@ + hex_lower(bytes@),
{
    let ghost start = out@;
    let mut i: usize = 0;
    while i < bytes.len()
        invariant
            i <= bytes.len(),
            out@ == start + hex_lower(bytes@.take(i as int)),
        decreases bytes.len() - i,
    {
        let b = bytes[i];
        assert(bytes@.take(i + 1).drop_last() =~= bytes@.take(i as int));
        assert(bytes@.take(i + 1).last() == b);
        out.push(hex_char(b / 16));
        out.push(hex_char(b % 16));
        assert(out@ =~= start + hex_lower(bytes@.take(i + 1)));
        i = i + 1;
    }
    assert(bytes@.take(bytes.len() as int) =~= bytes@);
}

/// The message of a checksum mismatch.
pub open spec fn sha256_mismatch_text(expected: Seq<char>, got: Seq<char>) -> Seq<char> {
    "SHA256 mismatch: expected "@ + expected + ", got "@ + got
}

/// Checks downloaded bytes against the published SHA-256 checksum (compared
/// with the checksum in lowercase).
pub fn verify_sha256(data: &[u8], expected: &str) -> (r: Result<(), String>)
    ensures
        r is Ok <==> hex_lower(sha256(data@)) == lowercase(expected@),
        r matches Err(msg) ==> msg@ == sha256_mismatch_text(expected@, hex_lower(sha256(data@))),
{
    let digest = sha256_digest(data);
    let mut hex: Vec<char> = Vec::new();
    push_hex_lower(&mut hex, &digest);
    assert(hex@ =~= hex_lower(sha256(data@)));
    let want = to_lowercase(expected);
    if eq_vec(&hex, &chars_of(want.as_str())) {
        Ok(())
    } else {
        let mut msg = chars_of("SHA256 mismatch: expected ");
        append_vec(&mut msg, &chars_of(expected));
        append_vec(&mut msg, &chars_of(", got "));
        append_vec(&mut msg, &hex);
        Err(to_string(&msg))
    }
}

// ---------------------------------------------------------------------------
// Release manifest
// ---------------------------------------------------------------------------

/// Platform-specific download information.
pub struct PlatformInfo {
    /// SHA-256 checksum (hex string).
    pub sha256: String,
    /// File size in bytes.
    pub size: u64,
    /// Download URL.
    pub url: String,
}

impl Clone for PlatformInfo {
    fn clone(&self) -> (r: Self)
        ensures
            r.sha256@ == self.sha256@,
            r.size == self.size,
            r.url@ == self.url@,
    {
        PlatformInfo { sha256: self.sha256.clone(), size: self.size, url: self.url.clone() }
    }
}

/// Remote version information (one version for all platforms).
pub struct VersionsManifest {
    /// Version number shared by all platforms.
    pub version: String,
    /// Release date (YYYY/MM/DD).
    pub release_date: String,
    /// Release notes.
    pub release_notes: String,
    /// Download information per platform identifier.
    pub platforms: StringHashMap<PlatformInfo>,
}

impl VersionsManifest {
    /// A manifest without any platform build yet.
    pub fn new(version: String, release_date: String, release_notes: String) -> (m: Self)
        ensures
            m.version@ == version@,
            m.release_date@ == release_date@,
            m.release_notes@ == release_notes@,
            m.platforms@ == Map::<Seq<char>, PlatformInfo>::empty(),
    {
        VersionsManifest { version, release_date, release_notes, platforms: StringHashMap::new() }
    }

    /// Records the build for the platform named `name`.
    pub fn insert_platform(&mut self, name: &str, info: PlatformInfo)
        ensures
            final(self).platforms@ == old(self).platforms@.insert(name@, info),
            final(self).version@ == old(self).version@,
            final(self).release_date@ == old(self).release_date@,
            final(self).release_notes@ == old(self).release_notes@,
    {
        self.platforms.insert(owned(name), info);
    }

    /// Download information for the platform named `platform` (the running
    /// platform's identifier, such as `linux-x64`).
    pub fn for_current_platform(&self, platform: &str) -> (r: Option<&PlatformInfo>)
        ensures
            match r {
                Some(info) => self.platforms@.contains_key(platform@) && *info
                    == self.platforms@[platform@],
                None => !self.platforms@.contains_key(platform@),
            },
    {
        self.platforms.get(platform)
    }

    /// Whether this release is newer than the running version `current`:
    /// by semantic version order when both parse, else whenever this
    /// release names a version at all.  A valid version is not newer than
    /// itself.
    pub fn is_newer_than(&self, current: &str) -> (r: bool)
        ensures
            r == newer_release(self.version@, current@),
            semver_valid(current@) && self.version@ == current@ ==> !r,
    {
        if semver_parses(current) && semver_parses(self.version.as_str()) {
            semver_is_greater(self.version.as_str(), current)
        } else {
            !self.version.as_str().is_empty()
        }
    }

    /// The compact release summary: `Version: V  (DATE)`, the download size
    /// when this platform has a build (`size_mb` is its text in MB), and the
    /// release notes on the next line when there are any.
    pub fn format_summary(&self, platform: &str, size_mb: &str) -> (r: String)
        ensures
            r@ == summary_text(*self, platform@, size_mb@),
    {
        let mut s = chars_of("Version: ");
        append_vec(&mut s, &chars_of(self.version.as_str()));
        append_vec(&mut s, &chars_of("  ("));
        append_vec(&mut s, &chars_of(self.release_date.as_str()));
        append_vec(&mut s, &chars_of(")"));
        let ghost head = s@;
        if self.for_current_platform(platform).is_some() {
            append_vec(&mut s, &chars_of(", "));
            append_vec(&mut s, &chars_of(size_mb));
            append_vec(&mut s, &chars_of(" MB"));
        }
        let ghost mid = s@;
        if !self.release_notes.as_str().is_empty() {
            s.push('\n');
            append_vec(&mut s, &chars_of(self.release_notes.as_str()));
        }
        proof {
            let size_part = if self.platforms@.contains_key(platform@) {
                ", "@ + size_mb@ + " MB"@
            } else {
                Seq::<char>::empty()
            };
            let notes_part = if self.release_notes@.len() > 0 {
                seq!['\n'] + self.release_notes@
            } else {
                Seq::<char>::empty()
            };
            assert(mid =~= head + size_part);
            assert(s@ =~= head + size_part + notes_part);
        }
        to_string(&s)
    }

    /// The update dialog text: `Update available: V (DATE)`, the download
    /// size when this platform has a build, and the trimmed release notes
    /// after a blank line when they are not empty.
    pub fn format_prompt(&self, platform: &str, size_mb: &str) -> (r: String)
        ensures
            r@ == "Update available: "@ + self.version@ + " ("@ + self.release_date@ + ")"@ + (if self.platforms@.contains_key(platform@) {
                ", "@ + size_mb@ + " MB"@
            } else {
                Seq::empty()
            }) + (if trim_seq(self.release_notes@).len() > 0 {
                seq!['\n', '\n'] + trim_seq(self.release_notes@)
            } else {
                Seq::empty()
            }),
    {
        let mut s = chars_of("Update available: ");
        append_vec(&mut s, &chars_of(self.version.as_str()));
        append_vec(&mut s, &chars_of(" ("));
        append_vec(&mut s, &chars_of(self.release_date.as_str()));
        append_vec(&mut s, &chars_of(")"));
        let ghost head = s@;
        if self.for_current_platform(platform).is_some() {
            append_vec(&mut s, &chars_of(", "));
            append_vec(&mut s, &chars_of(size_mb));
            append_vec(&mut s, &chars_of(" MB"));
        }
        let ghost mid = s@;
        let notes = trim_vec(&chars_of(self.release_notes.as_str()));
        if notes.len() != 0 {
            s.push('\n');
            s.push('\n');
            append_vec(&mut s, &notes);
        }
        proof {
            let size_part = if self.platforms@.contains_key(platform@) {
                ", "@ + size_mb@ + " MB"@
            } else {
                Seq::<char>::empty()
            };
            let notes_part = if trim_seq(self.release_notes@).len() > 0 {
                seq!['\n', '\n'] + trim_seq(self.release_notes@)
            } else {
                Seq::<char>::empty()
            };
            assert(mid =~= head + size_part);
            assert(s@ =~= head + size_part + notes_part);
        }
        to_string(&s)
    }
}

/// The outcome of an update check.
pub enum UpdateStatus {
    /// Already up to date.
    UpToDate,
    /// A newer release with a build for this platform.
    UpdateAvailable(VersionsManifest, PlatformInfo),
    /// The check failed (the text says why).
    CheckError(String),
}

/// Whether a server reply looks like a JSON object: after trimming it starts
/// with `{`.
pub fn looks_like_json(content: &str) -> (r: bool)
    ensures
        r == starts_with_seq(trim_seq(content@), seq!['{']),
{
    let t = trim_vec(&chars_of(content));
    let r = t.len() > 0 && t[0] == '{';
    assert(r == starts_with_seq(t@, seq!['{'])) by {
        if t@.len() > 0 {
            assert(t@.subrange(0, 1) =~= seq![t@[0]]);
            if t@[0] == '{' {
                assert(seq![t@[0]] =~= seq!['{']);
            } else {
                assert(seq![t@[0]][0] != seq!['{'][0]);
            }
        }
    }
    r
}

/// Decides the update status for a release manifest, given the running
/// version and the running platform's identifier.
pub fn classify_manifest(remote: VersionsManifest, current: &str, platform: &str) -> (r: UpdateStatus)
    ensures
        ({
            if !newer_release(remote.version@, current@) {
                r is UpToDate
            } else if remote.platforms@.contains_key(platform@) {
                r matches UpdateStatus::UpdateAvailable(m, info) && m == remote && info.sha256@
                    == remote.platforms@[platform@].sha256@ && info.size
                    == remote.platforms@[platform@].size && info.url@
                    == remote.platforms@[platform@].url@
            } else {
                r matches UpdateStatus::CheckError(e) && e@ == "No build for current platform"@
            }
        }),
{
    if remote.is_newer_than(current) {
        let info = match remote.for_current_platform(platform) {
            Some(i) => Some(i.clone()),
            None => None,
        };
        match info {
            Some(i) => UpdateStatus::UpdateAvailable(remote, i),
            None => UpdateStatus::CheckError(owned("No build for current platform")),
        }
    } else {
        UpdateStatus::UpToDate
    }
}

// ---------------------------------------------------------------------------
// Installation
// ---------------------------------------------------------------------------

/// The kind of script that replaces the running executable.
#[derive(Debug, Clone, Copy, PartialEq, Eq)]
pub enum ScriptKind {
    /// A bash script (Linux and macOS).
    Unix,
    /// A batch file (Windows).
    Windows,
}

/// The update script: wait for this process to exit, copy the new
/// executable `temp_exe` over `current_exe`, start it, and remove the update
/// directory.
pub open spec fn update_script_text(kind: ScriptKind, temp_exe: Seq<char>, current_exe: Seq<char>, update_dir: Seq<char>) -> Seq<char> {
    let q = seq!['"'];
    match kind {
        ScriptKind::Unix => "#!/bin/bash\nsleep 2\ncp -f \""@ + temp_exe + "\" \""@ + current_exe
            + "\"\nchmod +x \""@ + current_exe + "\"\n\""@ + current_exe
            + "\" &\nrm -rf /tmp/rabbit_update\n"@,
        ScriptKind::Windows => "@echo off\ntimeout /t 2 /nobreak >nul\ncopy /y \""@ + temp_exe
            + "\" \""@ + current_exe + "\"\nstart \"\" \""@ + current_exe + "\"\nrmdir /s /q \""@
            + update_dir + q + seq!['\n'],
    }
}

/// Builds the update script (see `update_script_text`).
pub fn update_script(kind: ScriptKind, temp_exe: &str, current_exe: &str, update_dir: &str) -> (r: String)
    ensures
        r@ == update_script_text(kind, temp_exe@, current_exe@, update_dir@),
{
    let mut v: Vec<char> = Vec::new();
    match kind {
        ScriptKind::Unix => {
            append_vec(&mut v, &chars_of("#!/bin/bash\nsleep 2\ncp -f \""));
            append_vec(&mut v, &chars_of(temp_exe));
            append_vec(&mut v, &chars_of("\" \""));
            append_vec(&mut v, &chars_of(current_exe));
            append_vec(&mut v, &chars_of("\"\nchmod +x \""));
            append_vec(&mut v, &chars_of(current_exe));
            append_vec(&mut v, &chars_of("\"\n\""));
            append_vec(&mut v, &chars_of(current_exe));
            append_vec(&mut v, &chars_of("\" &\nrm -rf /tmp/rabbit_update\n"));
        },
        ScriptKind::Windows => {
            append_vec(&mut v, &chars_of("@echo off\ntimeout /t 2 /nobreak >nul\ncopy /y \""));
            append_vec(&mut v, &chars_of(temp_exe));
            append_vec(&mut v, &chars_of("\" \""));
            append_vec(&mut v, &chars_of(current_exe));
            append_vec(&mut v, &chars_of("\"\nstart \"\" \""));
            append_vec(&mut v, &chars_of(current_exe));
            append_vec(&mut v, &chars_of("\"\nrmdir /s /q \""));
            append_vec(&mut v, &chars_of(update_dir));
            v.push('"');
            v.push('\n');
        },
    }
    assert(v@ =~= update_script_text(kind, temp_exe@, current_exe@, update_dir@));
    to_string(&v)
}

/// Checks a downloaded release and, when its checksum matches, gives the
/// script that installs it.  `current_exe` is the running executable's path
/// or the message of the failure to find it; the checksum is checked first.
pub fn install_update(
    new_version: &[u8],
    expected_sha256: &str,
    current_exe: Result<String, String>,
    kind: ScriptKind,
    temp_exe: &str,
    update_dir: &str,
) -> (r: Result<String, String>)
    ensures
        hex_lower(sha256(new_version@)) != lowercase(expected_sha256@) ==> (r matches Err(m) && m@
            == sha256_mismatch_text(expected_sha256@, hex_lower(sha256(new_version@)))),
        hex_lower(sha256(new_version@)) == lowercase(expected_sha256@) ==> match current_exe {
            Ok(exe) => r matches Ok(script) && script@ == update_script_text(
                kind,
                temp_exe@,
                exe@,
                update_dir@,
            ),
            Err(e) => r matches Err(m) && m@ == e@,
        },
{
    match verify_sha256(new_version, expected_sha256) {
        Ok(()) => {},
        Err(m) => return Err(m),
    }
    match current_exe {
        Ok(exe) => Ok(update_script(kind, temp_exe, exe.as_str(), update_dir)),
        Err(e) => Err(e),
    }
}

// ---------------------------------------------------------------------------
// Update check report
// ---------------------------------------------------------------------------

/// What a manual update check got back from the server.
pub enum VersionReply {
    /// A release manifest was read.
    Manifest(VersionsManifest),
    /// The server could not be reached (the text says why).
    Unreachable(String),
    /// The reply was not a readable manifest (the text says why).
    Unreadable(String),
}

/// Whether `version` is newer than the running version `current` (see
/// `VersionsManifest::is_newer_than`).
pub open spec fn newer_release(version: Seq<char>, current: Seq<char>) -> bool {
    if semver_valid(current) && semver_valid(version) {
        semver_greater(version, current)
    } else {
        version.len() > 0
    }
}

/// The compact release summary of `VersionsManifest::format_summary`.
pub open spec fn summary_text(m: VersionsManifest, platform: Seq<char>, size_mb: Seq<char>) -> Seq<char> {
    "Version: "@ + m.version@ + "  ("@ + m.release_date@ + ")"@ + (if m.platforms@.contains_key(platform) {
        ", "@ + size_mb + " MB"@
    } else {
        Seq::empty()
    }) + (if m.release_notes@.len() > 0 {
        seq!['\n'] + m.release_notes@
    } else {
        Seq::empty()
    })
}

/// The text shown after a manual update check.
pub open spec fn version_report_text(current: Seq<char>, reply: VersionReply, platform: Seq<char>, size_mb: Seq<char>) -> Seq<char> {
    let head = "Current version: "@ + current + "\n\n"@;
    match reply {
        VersionReply::Manifest(m) => head + summary_text(m, platform, size_mb) + seq!['\n'] + (if newer_release(m.version@, current) {
            "\nA newer version is available.\n"@
        } else {
            "\nYou are on the latest version.\n"@
        }) + "\nVisit Home to download updates.\n"@,
        VersionReply::Unreachable(e) => head + "Unable to check for updates.\nError: "@ + e@
            + "\n\nVisit Home to check for updates manually.\n"@,
        VersionReply::Unreadable(e) => head + "Failed to parse version info.\nError: "@ + e@
            + "\n\nVisit Home to check for updates manually.\n"@,
    }
}

/// The report of a manual update check, for the running version `current`
/// on the platform `platform` (`size_mb` is the download size as shown).
pub fn version_check_report(current: &str, reply: &VersionReply, platform: &str, size_mb: &str) -> (r: String)
    ensures
        r@ == version_report_text(current@, *reply, platform@, size_mb@),
{
    let mut v = chars_of("Current version: ");
    append_vec(&mut v, &chars_of(current));
    append_vec(&mut v, &chars_of("\n\n"));
    let ghost head = v@;
    match reply {
        VersionReply::Manifest(m) => {
            let summary = m.format_summary(platform, size_mb);
            append_vec(&mut v, &chars_of(summary.as_str()));
            v.push('\n');
            let ghost mid = v@;
            if m.is_newer_than(current) {
                append_vec(&mut v, &chars_of("\nA newer version is available.\n"));
            } else {
                append_vec(&mut v, &chars_of("\nYou are on the latest version.\n"));
            }
            append_vec(&mut v, &chars_of("\nVisit Home to download updates.\n"));
            proof {
                let verdict = if newer_release(m.version@, current@) {
                    "\nA newer version is available.\n"@
                } else {
                    "\nYou are on the latest version.\n"@
                };
                assert(mid =~= head + summary_text(*m, platform@, size_mb@) + seq!['\n']);
                assert(v@ =~= mid + verdict + "\nVisit Home to download updates.\n"@);
            }
        },
        VersionReply::Unreachable(e) => {
            append_vec(&mut v, &chars_of("Unable to check for updates.\nError: "));
            append_vec(&mut v, &chars_of(e.as_str()));
            append_vec(&mut v, &chars_of("\n\nVisit Home to check for updates manually.\n"));
        },
        VersionReply::Unreadable(e) => {
            append_vec(&mut v, &chars_of("Failed to parse version info.\nError: "));
            append_vec(&mut v, &chars_of(e.as_str()));
            append_vec(&mut v, &chars_of("\n\nVisit Home to check for updates manually.\n"));
        },
    }
    assert(v@ =~= version_report_text(current@, *reply, platform@, size_mb@));
    to_string(&v)
}

} // verus!
