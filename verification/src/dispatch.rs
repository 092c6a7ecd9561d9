//! What the application does with the messages its services send and with
//! the outcome of a start/stop request: which buffer a line goes to, in which
//! form, and what else the window has to show.
//!
//! The clock is read by the caller: `stamp` is the time of day as `HH:MM:SS`.
use vstd::prelude::*;

use crate::text::{owned, push_char, push_str, string_views, eq_str};
use crate::chat_users::users_text;
use crate::ui_state::{
    module_running_set, set_chat_users, set_ping_stats, update_module_running, write_to,
    written, UiState, UiStateView,
};
use crate::upgrade::UpdateStatus;

verus! {

/// The services that report to the window.
#[derive(Debug, Clone, Copy, PartialEq, Eq)]
pub enum Module {
    Ping,
    Scan,
    Http,
    Tftpd,
    Tftpc,
    Chat,
    Plan,
}

/// `[stamp] msg`: a log line with its time of day.
pub open spec fn stamped(stamp: Seq<char>, msg: Seq<char>) -> Seq<char> {
    seq!['['] + stamp + seq![']', ' '] + msg
}

/// Prefixes `msg` with the time of day `stamp` (`[HH:MM:SS] msg`).
pub fn fmt_log(stamp: &str, msg: &str) -> (r: String)
    ensures
        r@ == stamped(stamp@, msg@),
{
    let mut s = String::new();
    push_char(&mut s, '[');
    push_str(&mut s, stamp);
    push_char(&mut s, ']');
    push_char(&mut s, ' ');
    push_str(&mut s, msg);
    assert(s@ =~= stamped(stamp@, msg@));
    s
}

/// The buffer that a service's log lines go to.
pub open spec fn log_target(m: Module) -> Seq<char> {
    match m {
        Module::Ping => "ping_output"@,
        Module::Http => "http_log"@,
        Module::Scan => "scan_output"@,
        Module::Tftpd => "tftpd_log"@,
        Module::Tftpc => "tftpc_log"@,
        Module::Chat => "chat_messages"@,
        Module::Plan => "plan_output"@,
    }
}

/// The form of a service's log line: ping and scan lines as they come, chat
/// lines in brackets, the others with the time of day.
pub open spec fn log_line(m: Module, stamp: Seq<char>, msg: Seq<char>) -> Seq<char> {
    match m {
        Module::Ping | Module::Scan => msg,
        Module::Chat => seq!['['] + msg + seq![']'],
        _ => stamped(stamp, msg),
    }
}

/// The buffer name for a service's log lines.
pub fn log_target_name(m: Module) -> (r: &'static str)
    ensures
        r@ == log_target(m),
{
    match m {
        Module::Ping => "ping_output",
        Module::Http => "http_log",
        Module::Scan => "scan_output",
        Module::Tftpd => "tftpd_log",
        Module::Tftpc => "tftpc_log",
        Module::Chat => "chat_messages",
        Module::Plan => "plan_output",
    }
}

/// Writes a service's log line to its buffer, in the service's form.
pub fn route_log(state: &mut UiState, m: Module, msg: &str, stamp: &str)
    ensures
        final(state)@ == written(old(state)@, log_target(m), log_line(m, stamp@, msg@)),
{
    let target = log_target_name(m);
    match m {
        Module::Ping | Module::Scan => write_to(state, target, msg),
        Module::Chat => {
            let mut line = String::new();
            push_char(&mut line, '[');
            push_str(&mut line, msg);
            push_char(&mut line, ']');
            assert(line@ =~= seq!['['] + msg@ + seq![']']);
            write_to(state, target, line.as_str());
        },
        _ => {
            let line = fmt_log(stamp, msg);
            write_to(state, target, line.as_str());
        },
    }
}

/// Log lines of the HTTP and TFTP services, which have channels of their
/// own: HTTP lines go to the HTTP log and TFTP lines to their log, with the
/// time of day; other modules are ignored on these channels.
pub open spec fn transfer_log_state(v: UiStateView, m: Module, stamp: Seq<char>, msg: Seq<char>) -> UiStateView {
    match m {
        Module::Http | Module::Tftpd | Module::Tftpc => written(v, log_target(m), stamped(stamp, msg)),
        _ => v,
    }
}

/// Handles a log line from the HTTP or TFTP channel.
pub fn route_transfer_log(state: &mut UiState, m: Module, msg: &str, stamp: &str)
    ensures
        final(state)@ == transfer_log_state(old(state)@, m, stamp@, msg@),
{
    match m {
        Module::Http | Module::Tftpd | Module::Tftpc => {
            let line = fmt_log(stamp, msg);
            write_to(state, log_target_name(m), line.as_str());
        },
        _ => {},
    }
}

/// A message from a service to the window.
#[derive(Debug)]
pub enum ServiceData {
    /// A module started or stopped (with the reason it stopped, if any).
    ServiceStatus(Module, bool, Option<String>),
    /// A new ping statistics line.
    PingStats(String),
    /// A log line.
    Log(Module, String),
    /// Ping progress for the taskbar.
    PingState { progress: u32, total: u32, color: String },
    /// A line of scan progress.
    ScanProgress(String),
    /// A plan reminder is due.
    PlanReminder(String),
    /// A chat message from a user.
    ChatMessage(String, String),
    /// The users online in the chat.
    ChatUserList(Vec<String>),
}

/// What the window has to do besides updating the buffers.
#[derive(Debug)]
pub enum WindowEffect {
    /// Nothing more.
    Nothing,
    /// Ping started: set the title from the configured ping target.
    PingTitle,
    /// Ping stopped: clear the taskbar progress and reset the title to `Rabbit`.
    ResetTitle,
    /// Show ping progress in the taskbar.
    Taskbar { progress: u32, total: u32, color: String },
    /// Show the full-screen reminder with this message.
    ShowReminder(String),
}

/// The name under which a module's running state is kept: ping, scan and
/// HTTP only.
pub open spec fn status_name(m: Module) -> Seq<char> {
    match m {
        Module::Ping => "ping"@,
        Module::Scan => "scan"@,
        Module::Http => "http"@,
        _ => Seq::empty(),
    }
}

/// The state after a service message.
pub open spec fn data_state(v: UiStateView, d: ServiceData, stamp: Seq<char>) -> UiStateView {
    match d {
        ServiceData::ServiceStatus(m, running, _) => match m {
            Module::Ping | Module::Scan | Module::Http => module_running_set(v, status_name(m), running),
            _ => v,
        },
        ServiceData::PingStats(stats) => UiStateView {
            ping_stats: stats@,
            updated: v.updated.insert("ping_stats"@, true),
            ..v
        },
        ServiceData::Log(m, msg) => written(v, log_target(m), log_line(m, stamp, msg@)),
        ServiceData::PingState { .. } => v,
        ServiceData::ScanProgress(msg) => written(v, "scan_output"@, msg@),
        ServiceData::PlanReminder(_) => v,
        ServiceData::ChatMessage(user, msg) => written(
            v,
            "chat_messages"@,
            seq!['['] + user@ + seq![']', ' '] + msg@,
        ),
        ServiceData::ChatUserList(users) => UiStateView {
            chat_users: users_text(string_views(users@)),
            updated: v.updated.insert("chat_users"@, true),
            ..v
        },
    }
}

/// What the window does besides updating the buffers.
pub open spec fn data_effect_matches(d: ServiceData, e: WindowEffect) -> bool {
    match d {
        ServiceData::ServiceStatus(m, running, _) => if m == Module::Ping {
            if running {
                e is PingTitle
            } else {
                e is ResetTitle
            }
        } else {
            e is Nothing
        },
        ServiceData::PingState { progress, total, color } => e matches WindowEffect::Taskbar {
            progress: p,
            total: t,
            color: c,
        } && p == progress && t == total && c@ == color@,
        ServiceData::PlanReminder(msg) => e matches WindowEffect::ShowReminder(m) && m@ == msg@,
        _ => e is Nothing,
    }
}

/// Applies a service message to the UI state and says what else the window
/// has to do.
pub fn handle_service_data(state: &mut UiState, data: ServiceData, stamp: &str) -> (e: WindowEffect)
    ensures
        final(state)@ == data_state(old(state)@, data, stamp@),
        data_effect_matches(data, e),
{
    match data {
        ServiceData::ServiceStatus(m, running, _) => {
            match m {
                Module::Ping => update_module_running(state, "ping", running),
                Module::Scan => update_module_running(state, "scan", running),
                Module::Http => update_module_running(state, "http", running),
                _ => {},
            }
            match m {
                Module::Ping => if running {
                    WindowEffect::PingTitle
                } else {
                    WindowEffect::ResetTitle
                },
                _ => WindowEffect::Nothing,
            }
        },
        ServiceData::PingStats(stats) => {
            set_ping_stats(state, stats.as_str());
            WindowEffect::Nothing
        },
        ServiceData::Log(m, msg) => {
            route_log(state, m, msg.as_str(), stamp);
            WindowEffect::Nothing
        },
        ServiceData::PingState { progress, total, color } => WindowEffect::Taskbar {
            progress,
            total,
            color,
        },
        ServiceData::ScanProgress(msg) => {
            write_to(state, "scan_output", msg.as_str());
            WindowEffect::Nothing
        },
        ServiceData::PlanReminder(msg) => WindowEffect::ShowReminder(msg),
        ServiceData::ChatMessage(user, msg) => {
            let mut line = String::new();
            push_char(&mut line, '[');
            push_str(&mut line, user.as_str());
            push_char(&mut line, ']');
            push_char(&mut line, ' ');
            push_str(&mut line, msg.as_str());
            assert(line@ =~= seq!['['] + user@ + seq![']', ' '] + msg@);
            write_to(state, "chat_messages", line.as_str());
            WindowEffect::Nothing
        },
        ServiceData::ChatUserList(users) => {
            set_chat_users(state, users.as_slice());
            WindowEffect::Nothing
        },
    }
}

/// The window title while ping runs: `Ping TARGET`, or `Ping Ping` when no
/// target is configured.
pub fn ping_title(target: Option<&str>) -> (r: String)
    ensures
        r@ == "Ping "@ + match target {
            Some(t) => t@,
            None => "Ping"@,
        },
{
    let mut s = owned("Ping ");
    match target {
        Some(t) => push_str(&mut s, t),
        None => push_str(&mut s, "Ping"),
    }
    s
}

// ---------------------------------------------------------------------------
// Start/stop requests
// ---------------------------------------------------------------------------

/// What a service reported after a start/stop request.
#[derive(Debug, Clone, Copy, PartialEq, Eq)]
pub enum ToggleResult {
    Started,
    Stopped,
    /// Neither (the request changed nothing).
    Unchanged,
}

/// The state after `module` answered a start/stop request.
pub open spec fn toggle_state(v: UiStateView, module: Seq<char>, r: ToggleResult, stamp: Seq<char>) -> UiStateView {
    if module == "ping"@ || module == "scan"@ || module == "http"@ {
        match r {
            ToggleResult::Started => module_running_set(v, module, true),
            ToggleResult::Stopped => module_running_set(v, module, false),
            ToggleResult::Unchanged => v,
        }
    } else if module == "tftpd"@ {
        match r {
            ToggleResult::Started => module_running_set(v, module, true),
            ToggleResult::Stopped => written(
                module_running_set(v, module, false),
                "tftpd_log"@,
                stamped(stamp, "TFTP server stopped"@),
            ),
            ToggleResult::Unchanged => v,
        }
    } else if module == "chat"@ {
        match r {
            ToggleResult::Stopped => UiStateView {
                chat_users: users_text(Seq::empty()),
                updated: v.updated.insert("chat_users"@, true),
                ..v
            },
            _ => v,
        }
    } else {
        v
    }
}

/// Records what `module` answered to a start/stop request.  Returns whether
/// the HTTP button must be redrawn (with the new running state).
pub fn apply_toggle_result(state: &mut UiState, module: &str, r: ToggleResult, stamp: &str) -> (http_button: Option<bool>)
    ensures
        final(state)@ == toggle_state(old(state)@, module@, r, stamp@),
        http_button == (if module@ == "http"@ {
            match r {
                ToggleResult::Started => Some(true),
                ToggleResult::Stopped => Some(false),
                ToggleResult::Unchanged => None,
            }
        } else {
            None
        }),
{
    if eq_str(module, "ping") || eq_str(module, "scan") || eq_str(module, "http") {
        match r {
            ToggleResult::Started => update_module_running(state, module, true),
            ToggleResult::Stopped => update_module_running(state, module, false),
            ToggleResult::Unchanged => {},
        }
        if eq_str(module, "http") {
            match r {
                ToggleResult::Started => Some(true),
                ToggleResult::Stopped => Some(false),
                ToggleResult::Unchanged => None,
            }
        } else {
            None
        }
    } else if eq_str(module, "tftpd") {
        match r {
            ToggleResult::Started => update_module_running(state, module, true),
            ToggleResult::Stopped => {
                update_module_running(state, module, false);
                let line = fmt_log(stamp, "TFTP server stopped");
                write_to(state, "tftpd_log", line.as_str());
            },
            ToggleResult::Unchanged => {},
        }
        None
    } else if eq_str(module, "chat") {
        match r {
            ToggleResult::Stopped => {
                let none: Vec<String> = Vec::new();
                assert(string_views(none@) =~= Seq::<Seq<char>>::empty());
                set_chat_users(state, none.as_slice());
            },
            _ => {},
        }
        None
    } else {
        None
    }
}

// ---------------------------------------------------------------------------
// Update checks
// ---------------------------------------------------------------------------

/// Writes the outcome of an update check to the settings output, unless the
/// application is shutting down.  `platform` names the running platform and
/// `size_mb` is the download size as shown.  Returns whether the update
/// dialog is to be shown.
pub fn report_version_check(
    state: &mut UiState,
    status: &UpdateStatus,
    shutting_down: bool,
    platform: &str,
    size_mb: &str,
    stamp: &str,
) -> (show_dialog: bool)
    ensures
        shutting_down ==> final(state)@ == old(state)@ && !show_dialog,
        !shutting_down ==> match *status {
            UpdateStatus::UpdateAvailable(remote, _) => show_dialog && final(state)@ == written(
                written(
                    old(state)@,
                    "settings_output"@,
                    "Update available: "@ + remote.version@ + " ("@ + remote.release_date@ + ")"@
                        + (if remote.platforms@.contains_key(platform@) {
                        ", "@ + size_mb@ + " MB"@
                    } else {
                        Seq::empty()
                    }) + (if crate::text::trim_seq(remote.release_notes@).len() > 0 {
                        seq!['\n', '\n'] + crate::text::trim_seq(remote.release_notes@)
                    } else {
                        Seq::empty()
                    }),
                ),
                "settings_output"@,
                Seq::empty(),
            ),
            UpdateStatus::UpToDate => !show_dialog && final(state)@ == written(
                old(state)@,
                "settings_output"@,
                stamped(stamp@, "Application is up to date"@),
            ),
            UpdateStatus::CheckError(e) => !show_dialog && final(state)@ == written(
                old(state)@,
                "settings_output"@,
                stamped(stamp@, "Update check failed: "@ + e@),
            ),
        },
{
    if shutting_down {
        return false;
    }
    match status {
        UpdateStatus::UpdateAvailable(remote, _) => {
            let msg = remote.format_prompt(platform, size_mb);
            write_to(state, "settings_output", msg.as_str());
            write_to(state, "settings_output", "");
            proof {
                reveal_strlit("");
            }
            true
        },
        UpdateStatus::UpToDate => {
            let line = fmt_log(stamp, "Application is up to date");
            write_to(state, "settings_output", line.as_str());
            false
        },
        UpdateStatus::CheckError(e) => {
            let mut m = owned("Update check failed: ");
            push_str(&mut m, e.as_str());
            let line = fmt_log(stamp, m.as_str());
            write_to(state, "settings_output", line.as_str());
            false
        },
    }
}

/// What the user chose in the update dialog.
pub open spec fn choice_message(choice: Option<i32>, version: Seq<char>) -> Option<Seq<char>> {
    match choice {
        Some(0) => Some("Downloading and installing update..."@),
        Some(1) => Some("Update deferred"@),
        Some(2) => Some("Version "@ + version + " skipped"@),
        _ => None,
    }
}

/// The settings output line for the update dialog's answer (0 update,
/// 1 later, 2 skip this version); the download starts on 0.
pub fn upgrade_choice_message(choice: Option<i32>, version: &str) -> (r: Option<String>)
    ensures
        match r {
            Some(m) => choice_message(choice, version@) == Some(m@),
            None => choice_message(choice, version@) is None,
        },
{
    match choice {
        Some(0) => Some(owned("Downloading and installing update...")),
        Some(1) => Some(owned("Update deferred")),
        Some(2) => {
            let mut m = owned("Version ");
            push_str(&mut m, version);
            push_str(&mut m, " skipped");
            Some(m)
        },
        _ => None,
    }
}

} // verus!
