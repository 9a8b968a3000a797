//! What surrounds the transcription: the session log, the tray menu and the browser's arguments.

use vstd::prelude::*;
use vstd::string::*;
use crate::paths::DataPath;
use crate::text::same;

verus! {

/// How large the session log may be before it is rotated: two megabytes.
pub const LOG_MAX_BYTES: u64 = 2 * 1024 * 1024;

/// The path of the session log.
pub fn log_file_path() -> (path: DataPath)
    ensures
        path@ == seq!["logs"@, "session.log"@],
{
    DataPath::of("logs", "session.log")
}

/// The path of the session log before the current one.
pub fn rotated_log_path() -> (path: DataPath)
    ensures
        path@ == seq!["logs"@, "session.log.1"@],
{
    DataPath::of("logs", "session.log.1")
}

/// What is done for a line of the session log.
pub struct LogStep {
    /// Whether the log is first put in the place of the one before it.
    pub rotate: bool,
    /// What is then written at the end of the log.
    pub entry: String,
}

/// Whether a log of this size is rotated; one that cannot be looked at is not.
pub open spec fn rotates(size: Option<u64>) -> bool {
    size matches Some(bytes) && bytes > LOG_MAX_BYTES
}

/// What is done for a line of the session log, which is of `size` bytes, if it can be looked at.
pub fn log_event(line: &str, size: Option<u64>) -> (step: LogStep)
    ensures
        step.rotate == rotates(size),
        step.entry@ == line@ + "\n"@,
{
    let rotate = match size {
        Some(bytes) => bytes > LOG_MAX_BYTES,
        None => false,
    };
    LogStep { rotate, entry: line.to_string().concat("\n") }
}

/// How large a log of `size` bytes is once an entry of `entry` bytes is written.
pub open spec fn log_size_after(size: u64, entry: nat) -> nat {
    if rotates(Some(size)) {
        entry
    } else {
        size as nat + entry
    }
}

/// The log does not grow without bound: once written to, it is no larger than the limit and the
/// last entry.
pub proof fn log_stays_small(size: u64, entry: nat)
    ensures
        log_size_after(size, entry) <= LOG_MAX_BYTES + entry,
{
}

/// What an entry of the tray menu does.
#[derive(Clone, Copy, PartialEq, Eq, Structural)]
pub enum MenuAction {
    /// Hides the pill, or shows it.
    ShowHide,
    /// Opens the settings.
    OpenSettings,
    /// Quits.
    Quit,
    /// Nothing.
    Ignore,
}

/// What the tray menu's entry `id` does.
pub fn menu_action(id: &str) -> (action: MenuAction)
    ensures
        action == if id@ == "show_hide"@ {
            MenuAction::ShowHide
        } else if id@ == "settings"@ {
            MenuAction::OpenSettings
        } else if id@ == "quit"@ {
            MenuAction::Quit
        } else {
            MenuAction::Ignore
        },
{
    if same(id, "show_hide") {
        MenuAction::ShowHide
    } else if same(id, "settings") {
        MenuAction::OpenSettings
    } else if same(id, "quit") {
        MenuAction::Quit
    } else {
        MenuAction::Ignore
    }
}

/// The browser's arguments that let it play sound and record without asking.
pub open spec fn media_arguments() -> Seq<char> {
    "--autoplay-policy=no-user-gesture-required --use-fake-ui-for-media-stream"@
}

/// The browser's arguments: those that are set already, and those that let it play sound and record
/// without asking.
pub fn webview_arguments(existing: &str) -> (arguments: String)
    ensures
        arguments@ == if existing@.len() == 0 {
            media_arguments()
        } else {
            existing@ + " "@ + media_arguments()
        },
{
    let ours = "--autoplay-policy=no-user-gesture-required --use-fake-ui-for-media-stream";
    if existing.is_empty() {
        ours.to_string()
    } else {
        existing.to_string().concat(" ").concat(ours)
    }
}

/// The browser keeps the arguments that it has and gets ours behind them, with a blank between.
pub proof fn browser_arguments_are_kept(existing: &str, arguments: String)
    requires
        call_ensures(webview_arguments, (existing,), arguments),
    ensures
        existing@.is_prefix_of(arguments@),
        "--autoplay-policy=no-user-gesture-required --use-fake-ui-for-media-stream"@.is_suffix_of(
            arguments@,
        ),
        existing@.len() > 0 ==> arguments@ == existing@ + " "@
            + "--autoplay-policy=no-user-gesture-required --use-fake-ui-for-media-stream"@,
        existing@.len() == 0 ==> arguments@
            == "--autoplay-policy=no-user-gesture-required --use-fake-ui-for-media-stream"@,
{
    let ours = "--autoplay-policy=no-user-gesture-required --use-fake-ui-for-media-stream"@;
    assert(arguments@.subrange(0, existing@.len() as int) =~= existing@);
    assert(arguments@.subrange(arguments@.len() - ours.len(), arguments@.len() as int) =~= ours);
}

/// Every line is logged whole, as a line of its own, and a log is rotated just where it is larger
/// than two megabytes.
pub proof fn every_line_is_logged(line: &str, size: Option<u64>, step: LogStep)
    requires
        call_ensures(log_event, (line, size), step),
    ensures
        step.entry@ == line@.push('\n'),
        step.rotate <==> (size is Some && size->0 > 2_097_152),
{
    reveal_strlit("\n");
    assert(step.entry@ =~= line@.push('\n'));
}

} // verus!
