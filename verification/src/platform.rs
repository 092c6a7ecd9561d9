//! Platform glue that is pure computation: error messages, the environment
//! forwarded through `sudo`, the autostart entries, notification texts, the
//! platform identifier and the taskbar progress state.
use vstd::prelude::*;

use crate::number::{int_decimal, push_i64_decimal};
use crate::text::{chars_of, eq_str, owned, push_char, push_str, string_views, to_string};

verus! {

// ---------------------------------------------------------------------------
// Errors
// ---------------------------------------------------------------------------

/// Errors that can occur during privilege elevation.
#[derive(Debug, Clone, PartialEq, Eq)]
pub enum ElevationError {
    /// The user cancelled the password dialog.
    Cancelled,
    /// The sudo process failed.
    SudoFailed(String),
    /// The elevation helper could not be started.
    SpawnFailed(String),
}

impl ElevationError {
    /// The message shown to the user.
    pub fn message(&self) -> (r: String)
        ensures
            r@ == match *self {
                ElevationError::Cancelled => "Elevation cancelled by user"@,
                ElevationError::SudoFailed(m) => "sudo failed: "@ + m@,
                ElevationError::SpawnFailed(m) => "Elevation spawn failed: "@ + m@,
            },
    {
        match self {
            ElevationError::Cancelled => owned("Elevation cancelled by user"),
            ElevationError::SudoFailed(m) => {
                let mut s = owned("sudo failed: ");
                push_str(&mut s, m.as_str());
                s
            },
            ElevationError::SpawnFailed(m) => {
                let mut s = owned("Elevation spawn failed: ");
                push_str(&mut s, m.as_str());
                s
            },
        }
    }
}

/// Errors of the platform layer.
#[derive(Debug, Clone, PartialEq, Eq)]
pub enum PlatformError {
    /// An I/O operation failed (with the operating system's message).
    Io(String),
    Config(String),
    Network(String),
    NotSupported,
}

impl PlatformError {
    /// The message shown to the user.
    pub fn message(&self) -> (r: String)
        ensures
            r@ == match *self {
                PlatformError::Io(m) => "IO error: "@ + m@,
                PlatformError::Config(m) => "Configuration error: "@ + m@,
                PlatformError::Network(m) => "Network error: "@ + m@,
                PlatformError::NotSupported => "Not supported on this platform"@,
            },
    {
        match self {
            PlatformError::Io(m) => {
                let mut s = owned("IO error: ");
                push_str(&mut s, m.as_str());
                s
            },
            PlatformError::Config(m) => {
                let mut s = owned("Configuration error: ");
                push_str(&mut s, m.as_str());
                s
            },
            PlatformError::Network(m) => {
                let mut s = owned("Network error: ");
                push_str(&mut s, m.as_str());
                s
            },
            PlatformError::NotSupported => owned("Not supported on this platform"),
        }
    }
}

// ---------------------------------------------------------------------------
// Elevation through sudo
// ---------------------------------------------------------------------------

/// The graphical session's environment as the unelevated process sees it
/// (`None` for a variable that is not set).
pub struct GuiEnv {
    pub display: Option<String>,
    pub wayland_display: Option<String>,
    pub xauthority: Option<String>,
    pub dbus_session_bus_address: Option<String>,
    pub xdg_runtime_dir: Option<String>,
    pub home: Option<String>,
}

/// `NAME=value` for a variable that is set and not empty.
pub open spec fn env_pair(name: Seq<char>, value: Option<String>) -> Seq<Seq<char>> {
    match value {
        Some(v) => if v@.len() > 0 {
            seq![name + seq!['='] + v@]
        } else {
            Seq::empty()
        },
        None => Seq::empty(),
    }
}

/// The `VAR=value` arguments given to `sudo` so that the elevated process
/// can reach the graphical session: each of `DISPLAY`, `WAYLAND_DISPLAY`,
/// `XAUTHORITY`, `DBUS_SESSION_BUS_ADDRESS`, `XDG_RUNTIME_DIR` that is set
/// and not empty, in this order; and, when `XAUTHORITY` is unset or empty
/// but `HOME` is set and not empty, `XAUTHORITY=HOME/.Xauthority`.
pub open spec fn sudo_env(env: GuiEnv) -> Seq<Seq<char>> {
    env_pair("DISPLAY"@, env.display) + env_pair("WAYLAND_DISPLAY"@, env.wayland_display)
        + env_pair("XAUTHORITY"@, env.xauthority) + env_pair(
        "DBUS_SESSION_BUS_ADDRESS"@,
        env.dbus_session_bus_address,
    ) + env_pair("XDG_RUNTIME_DIR"@, env.xdg_runtime_dir) + (if (match env.xauthority {
        Some(x) => x@.len() == 0,
        None => true,
    }) {
        match env.home {
            Some(h) => if h@.len() > 0 {
                seq!["XAUTHORITY="@ + h@ + "/.Xauthority"@]
            } else {
                Seq::empty()
            },
            None => Seq::empty(),
        }
    } else {
        Seq::empty()
    })
}

fn push_env_pair(out: &mut Vec<String>, name: &str, value: &Option<String>)
    ensures
        string_views(final(out)@) == string_views(old(out)@) + env_pair(name@, *value),
{
    match value {
        Some(v) => {
            if !v.as_str().is_empty() {
                let mut s = owned(name);
                push_char(&mut s, '=');
                push_str(&mut s, v.as_str());
                assert(s@ =~= name@ + seq!['='] + v@);
                let ghost before = string_views(out@);
                out.push(s);
                assert(string_views(out@) =~= before + seq![name@ + seq!['='] + v@]);
            } else {
                assert(string_views(out@) =~= string_views(out@) + Seq::<Seq<char>>::empty());
            }
        },
        None => {
            assert(string_views(out@) =~= string_views(out@) + Seq::<Seq<char>>::empty());
        },
    }
}

/// The `VAR=value` arguments for `sudo` (see `sudo_env`).
pub fn sudo_env_args(env: &GuiEnv) -> (r: Vec<String>)
    ensures
        string_views(r@) == sudo_env(*env),
{
    let mut out: Vec<String> = Vec::new();
    assert(string_views(out@) =~= Seq::<Seq<char>>::empty());
    push_env_pair(&mut out, "DISPLAY", &env.display);
    push_env_pair(&mut out, "WAYLAND_DISPLAY", &env.wayland_display);
    push_env_pair(&mut out, "XAUTHORITY", &env.xauthority);
    push_env_pair(&mut out, "DBUS_SESSION_BUS_ADDRESS", &env.dbus_session_bus_address);
    push_env_pair(&mut out, "XDG_RUNTIME_DIR", &env.xdg_runtime_dir);
    let ghost mid = string_views(out@);
    let xauth_missing = match &env.xauthority {
        Some(x) => x.as_str().is_empty(),
        None => true,
    };
    if xauth_missing {
        match &env.home {
            Some(h) => {
                if !h.as_str().is_empty() {
                    let mut s = owned("XAUTHORITY=");
                    push_str(&mut s, h.as_str());
                    push_str(&mut s, "/.Xauthority");
                    out.push(s);
                    assert(string_views(out@) =~= mid + seq!["XAUTHORITY="@ + h@ + "/.Xauthority"@]);
                } else {
                    assert(string_views(out@) =~= mid + Seq::<Seq<char>>::empty());
                }
            },
            None => {
                assert(string_views(out@) =~= mid + Seq::<Seq<char>>::empty());
            },
        }
    } else {
        assert(string_views(out@) =~= mid + Seq::<Seq<char>>::empty());
    }
    out
}

/// What the last poll of the `sudo` child said.
#[derive(Debug, Clone, Copy, PartialEq, Eq)]
pub enum SudoPoll {
    /// It exited, successfully or with this code (`None` when killed by a signal).
    Exited { success: bool, code: Option<i32> },
    /// It still runs.
    Running,
    /// Waiting for it failed.
    WaitFailed,
}

/// What to do after a poll of the `sudo` child.
#[derive(Debug, Clone, PartialEq, Eq)]
pub enum SudoStep {
    /// Poll again after a short sleep.
    Wait,
    /// The elevated copy runs: this process exits.
    Exit,
    /// Elevation failed with this error (the caller adds the child's stderr
    /// for a failed exit, see `sudo_exit_error`).
    Fail(ElevationError),
    /// `sudo` exited with a failure code: read its stderr and fail with
    /// `sudo_exit_error`.
    FailWithStderr(Option<i32>),
}

/// Decides the next step of waiting for `sudo`: a child still running after
/// the deadline is taken as the elevated copy having started.
pub fn sudo_wait_step(poll: SudoPoll, past_deadline: bool) -> (s: SudoStep)
    ensures
        match poll {
            SudoPoll::Exited { success, code } => if success {
                s is Exit
            } else {
                s == SudoStep::FailWithStderr(code)
            },
            SudoPoll::Running => if past_deadline {
                s is Exit
            } else {
                s is Wait
            },
            SudoPoll::WaitFailed => s matches SudoStep::Fail(ElevationError::SudoFailed(m)) && m@
                == "Failed to wait for sudo. Please try running from a terminal."@,
        },
{
    match poll {
        SudoPoll::Exited { success, code } => if success {
            SudoStep::Exit
        } else {
            SudoStep::FailWithStderr(code)
        },
        SudoPoll::Running => if past_deadline {
            SudoStep::Exit
        } else {
            SudoStep::Wait
        },
        SudoPoll::WaitFailed => SudoStep::Fail(
            ElevationError::SudoFailed(
                owned("Failed to wait for sudo. Please try running from a terminal."),
            ),
        ),
    }
}

/// `Option<i32>` as `{:?}` renders it: `Some(N)` or `None`.
pub open spec fn debug_code(code: Option<i32>) -> Seq<char> {
    match code {
        Some(c) => "Some("@ + int_decimal(c as int) + ")"@,
        None => "None"@,
    }
}

/// The error of a `sudo` that exited with a failure: its exit code and what
/// it wrote to stderr.
pub fn sudo_exit_error(code: Option<i32>, stderr: &str) -> (e: ElevationError)
    ensures
        e matches ElevationError::SudoFailed(m) && m@ == "sudo exited with code "@ + debug_code(
            code,
        ) + ".\nstderr: "@ + stderr@,
{
    let mut v = chars_of("sudo exited with code ");
    match code {
        Some(c) => {
            crate::text::append_vec(&mut v, &chars_of("Some("));
            push_i64_decimal(&mut v, c as i64);
            v.push(')');
        },
        None => crate::text::append_vec(&mut v, &chars_of("None")),
    }
    crate::text::append_vec(&mut v, &chars_of(".\nstderr: "));
    crate::text::append_vec(&mut v, &chars_of(stderr));
    proof {
        reveal_strlit(")");
    }
    assert(v@ =~= "sudo exited with code "@ + debug_code(code) + ".\nstderr: "@ + stderr@);
    ElevationError::SudoFailed(to_string(&v))
}

/// The error when `sudo` could not be started.
pub fn sudo_spawn_error(reason: &str) -> (e: ElevationError)
    ensures
        e matches ElevationError::SpawnFailed(m) && m@ == "Failed to spawn sudo: "@ + reason@,
{
    let mut s = owned("Failed to spawn sudo: ");
    push_str(&mut s, reason);
    ElevationError::SpawnFailed(s)
}

// ---------------------------------------------------------------------------
// Autostart
// ---------------------------------------------------------------------------

/// The XDG autostart entry that starts `exe` at login.
pub open spec fn desktop_entry_text(exe: Seq<char>) -> Seq<char> {
    "[Desktop Entry]\nType=Application\nName=Rabbit\nExec="@ + exe
        + "\nHidden=false\nNoDisplay=false\nX-GNOME-Autostart-enabled=true\n"@
}

/// The XDG autostart entry (`rabbit.desktop`) for the executable `exe`.
pub fn desktop_entry(exe: &str) -> (r: String)
    ensures
        r@ == desktop_entry_text(exe@),
{
    let mut s = owned("[Desktop Entry]\nType=Application\nName=Rabbit\nExec=");
    push_str(&mut s, exe);
    push_str(&mut s, "\nHidden=false\nNoDisplay=false\nX-GNOME-Autostart-enabled=true\n");
    s
}

/// The text of the launch agent before the executable's path.
pub open spec fn plist_head() -> Seq<char> {
    "<?xml version=\"1.0\" encoding=\"UTF-8\"?>\n<!DOCTYPE plist PUBLIC \"-//Apple//DTD PLIST 1.0//EN\" \"http://www.apple.com/DTDs/PropertyList-1.0.dtd\">\n<plist version=\"1.0\">\n<dict>\n    <key>Label</key>\n    <string>com.rabbit</string>\n    <key>ProgramArguments</key>\n    <array>\n        <string>"@
}

/// The text of the launch agent after the executable's path.
pub open spec fn plist_tail() -> Seq<char> {
    "</string>\n    </array>\n    <key>RunAtLoad</key>\n    <true/>\n</dict>\n</plist>"@
}

/// The macOS launch agent (`com.rabbit.plist`) that runs `exe` at login.
pub fn launch_agent_plist(exe: &str) -> (r: String)
    ensures
        r@ == plist_head() + exe@ + plist_tail(),
{
    let mut s = owned(
        "<?xml version=\"1.0\" encoding=\"UTF-8\"?>\n<!DOCTYPE plist PUBLIC \"-//Apple//DTD PLIST 1.0//EN\" \"http://www.apple.com/DTDs/PropertyList-1.0.dtd\">\n<plist version=\"1.0\">\n<dict>\n    <key>Label</key>\n    <string>com.rabbit</string>\n    <key>ProgramArguments</key>\n    <array>\n        <string>",
    );
    push_str(&mut s, exe);
    push_str(&mut s, "</string>\n    </array>\n    <key>RunAtLoad</key>\n    <true/>\n</dict>\n</plist>");
    s
}

/// The registry key of programs started at login on Windows.
pub const RUN_KEY: &'static str = "HKCU\\Software\\Microsoft\\Windows\\CurrentVersion\\Run";

/// The arguments of `reg` that enable or disable starting `exe` at login
/// on Windows.
pub open spec fn reg_args(enabled: bool, exe: Seq<char>) -> Seq<Seq<char>> {
    if enabled {
        seq![
            "add"@,
            RUN_KEY@,
            "/v"@,
            "Rabbit"@,
            "/t"@,
            "REG_SZ"@,
            "/d"@,
            seq!['"'] + exe + seq!['"'],
            "/f"@,
        ]
    } else {
        seq!["delete"@, RUN_KEY@, "/v"@, "Rabbit"@, "/f"@]
    }
}

/// The `reg` arguments for the autostart switch (see `reg_args`).
pub fn autostart_reg_args(enabled: bool, exe: &str) -> (r: Vec<String>)
    ensures
        string_views(r@) == reg_args(enabled, exe@),
{
    let mut v: Vec<String> = Vec::new();
    if enabled {
        v.push(owned("add"));
        v.push(owned(RUN_KEY));
        v.push(owned("/v"));
        v.push(owned("Rabbit"));
        v.push(owned("/t"));
        v.push(owned("REG_SZ"));
        v.push(owned("/d"));
        let mut quoted = String::new();
        push_char(&mut quoted, '"');
        push_str(&mut quoted, exe);
        push_char(&mut quoted, '"');
        assert(quoted@ =~= seq!['"'] + exe@ + seq!['"']);
        v.push(quoted);
        v.push(owned("/f"));
    } else {
        v.push(owned("delete"));
        v.push(owned(RUN_KEY));
        v.push(owned("/v"));
        v.push(owned("Rabbit"));
        v.push(owned("/f"));
    }
    assert(string_views(v@) =~= reg_args(enabled, exe@));
    v
}

// ---------------------------------------------------------------------------
// Notifications
// ---------------------------------------------------------------------------

/// Title and text of a task reminder notification: `Reminder: TITLE`, and
/// the description or `Time's up!`.
pub fn task_reminder_text(title: &str, description: Option<&str>) -> (r: (String, String))
    ensures
        r.0@ == "Reminder: "@ + title@,
        r.1@ == match description {
            Some(d) => d@,
            None => "Time's up!"@,
        },
{
    let mut t = owned("Reminder: ");
    push_str(&mut t, title);
    let body = match description {
        Some(d) => owned(d),
        None => owned("Time's up!"),
    };
    (t, body)
}

/// A text made safe for a double-quoted PowerShell string: quotes are
/// escaped with a backslash and line breaks become spaces.
pub open spec fn ps_escaped(s: Seq<char>) -> Seq<char>
    decreases s.len(),
{
    if s.len() == 0 {
        s
    } else {
        ps_escaped(s.drop_last()) + if s.last() == '"' {
            seq!['\\', '"']
        } else if s.last() == '\n' {
            seq![' ']
        } else {
            seq![s.last()]
        }
    }
}

/// Escapes a notification text for the PowerShell balloon script.
pub fn powershell_escape(s: &str) -> (r: String)
    ensures
        r@ == ps_escaped(s@),
{
    let v = chars_of(s);
    let mut out: Vec<char> = Vec::new();
    let mut i: usize = 0;
    while i < v.len()
        invariant
            i <= v.len(),
            out@ == ps_escaped(v@.take(i as int)),
        decreases v.len() - i,
    {
        assert(v@.take(i + 1).drop_last() =~= v@.take(i as int));
        assert(v@.take(i + 1).last() == v@[i as int]);
        let c = v[i];
        if c == '"' {
            out.push('\\');
            out.push('"');
        } else if c == '\n' {
            out.push(' ');
        } else {
            out.push(c);
        }
        assert(out@ =~= ps_escaped(v@.take(i + 1)));
        i = i + 1;
    }
    assert(v@.take(v.len() as int) =~= v@);
    to_string(&out)
}

/// The AppleScript that shows a notification on macOS.
pub fn osascript_notification(title: &str, message: &str) -> (r: String)
    ensures
        r@ == "display notification \""@ + message@ + "\" with title \""@ + title@ + seq!['"'],
{
    let mut s = owned("display notification \"");
    push_str(&mut s, message);
    push_str(&mut s, "\" with title \"");
    push_str(&mut s, title);
    push_char(&mut s, '"');
    s
}

/// The console line printed when no notification service is available.
pub fn notification_console_line(title: &str, message: &str) -> (r: String)
    ensures
        r@ == "[Notification] "@ + title@ + ": "@ + message@,
{
    let mut s = owned("[Notification] ");
    push_str(&mut s, title);
    push_str(&mut s, ": ");
    push_str(&mut s, message);
    s
}

// ---------------------------------------------------------------------------
// Platform identifier
// ---------------------------------------------------------------------------

/// The identifier of a platform in the release manifest, from the operating
/// system and processor names (as in `std::env::consts`); `unsupported` for
/// any other combination.
pub open spec fn platform_id_spec(os: Seq<char>, arch: Seq<char>) -> Seq<char> {
    if os == "windows"@ && arch == "x86_64"@ {
        "windows-x64"@
    } else if os == "windows"@ && arch == "aarch64"@ {
        "windows-arm64"@
    } else if os == "linux"@ && arch == "x86_64"@ {
        "linux-x64"@
    } else if os == "linux"@ && arch == "aarch64"@ {
        "linux-arm64"@
    } else if os == "macos"@ && arch == "x86_64"@ {
        "macos-x64"@
    } else if os == "macos"@ && arch == "aarch64"@ {
        "macos-arm64"@
    } else {
        "unsupported"@
    }
}

/// The platform identifier (see `platform_id_spec`).
pub fn current_platform(os: &str, arch: &str) -> (r: &'static str)
    ensures
        r@ == platform_id_spec(os@, arch@),
{
    let x64 = eq_str(arch, "x86_64");
    let arm = eq_str(arch, "aarch64");
    if eq_str(os, "windows") && x64 {
        "windows-x64"
    } else if eq_str(os, "windows") && arm {
        "windows-arm64"
    } else if eq_str(os, "linux") && x64 {
        "linux-x64"
    } else if eq_str(os, "linux") && arm {
        "linux-arm64"
    } else if eq_str(os, "macos") && x64 {
        "macos-x64"
    } else if eq_str(os, "macos") && arm {
        "macos-arm64"
    } else {
        "unsupported"
    }
}

// ---------------------------------------------------------------------------
// Taskbar progress
// ---------------------------------------------------------------------------

/// The states of the Windows taskbar progress indicator.
#[derive(Debug, Clone, Copy, PartialEq, Eq)]
pub enum TaskbarState {
    NoProgress,
    Normal,
    Error,
    Paused,
    Indeterminate,
}

/// The taskbar state for ping progress: none without a total, red shows an
/// error, anything else normal progress.
pub fn taskbar_state(total: u32, color: &str) -> (s: TaskbarState)
    ensures
        s == (if total == 0 {
            TaskbarState::NoProgress
        } else if color@ == "red"@ {
            TaskbarState::Error
        } else {
            TaskbarState::Normal
        }),
{
    if total == 0 {
        TaskbarState::NoProgress
    } else if eq_str(color, "red") {
        TaskbarState::Error
    } else {
        TaskbarState::Normal
    }
}

} // verus!
