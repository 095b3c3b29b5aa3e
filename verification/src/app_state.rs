//! The front end's shared state pieces: notices, confirmations, bounded
//! logs, the overlays' key handling, and what each bound action does.
use vstd::prelude::*;
use crate::key::Key;
use crate::text::{concat_str, copy_str, str_eq};

verus! {

/// Milliseconds a notice stays visible.
pub const NOTICE_TIMEOUT_MS: u64 = 6000;

/// Whether the program keeps running.
#[derive(Debug, Clone, Copy, PartialEq, Eq, Structural)]
pub enum AppState {
    Running,
    Quitting,
}

impl Default for AppState {
    fn default() -> (res: AppState)
        ensures
            res == AppState::Running,
    {
        AppState::Running
    }
}

/// The tone of a notice.
#[derive(Debug, Clone, Copy, PartialEq, Eq, Structural)]
pub enum NoticeKind {
    Info,
    Success,
    Warning,
    Error,
}

/// A short message shown at the bottom of the screen since `shown_at_ms`.
pub struct Notice {
    pub kind: NoticeKind,
    pub message: String,
    pub shown_at_ms: u64,
}

impl Notice {
    /// A notice shown at `now_ms`.
    pub fn new(kind: NoticeKind, message: String, now_ms: u64) -> (res: Notice)
        ensures
            res.kind == kind,
            res.message == message,
            res.shown_at_ms == now_ms,
    {
        Notice { kind, message, shown_at_ms: now_ms }
    }

    /// Whether the notice has been shown for longer than its time.
    pub fn is_expired(&self, now_ms: u64) -> (res: bool)
        ensures
            res == (now_ms > self.shown_at_ms && now_ms - self.shown_at_ms > NOTICE_TIMEOUT_MS),
    {
        now_ms > self.shown_at_ms && now_ms - self.shown_at_ms > NOTICE_TIMEOUT_MS
    }
}

/// The notice left after checking for expiry at `now_ms`.
pub fn dismiss_if_expired(notice: Option<Notice>, now_ms: u64) -> (res: Option<Notice>)
    ensures
        (notice matches Some(n) && now_ms > n.shown_at_ms && now_ms - n.shown_at_ms > NOTICE_TIMEOUT_MS)
            ==> res is None,
        !(notice matches Some(n) && now_ms > n.shown_at_ms && now_ms - n.shown_at_ms
            > NOTICE_TIMEOUT_MS) ==> res == notice,
{
    match notice {
        Some(n) => {
            if n.is_expired(now_ms) {
                None
            } else {
                Some(n)
            }
        },
        None => None,
    }
}

/// What a confirmed dialog does.
#[derive(Debug, Clone, PartialEq, Eq)]
pub enum ConfirmationAction {
    RemoveFolder(String),
    RemoveCloud(String),
    ResetTuiConfig,
}

/// A question asked before a destructive action.
pub struct Confirmation {
    pub title: String,
    pub description: String,
    pub confirm_label: String,
    pub action: ConfirmationAction,
}

/// The question asked before removing folder `name`.
pub fn folder_removal_confirmation(name: &str) -> (res: Confirmation)
    ensures
        res.title@ == "Remove folder?"@,
        res.description@ == "‘"@ + name@
            + "’ will be removed from CloudHost. Files in the local folder will not be deleted."@,
        res.confirm_label@ == "remove folder"@,
        res.action matches ConfirmationAction::RemoveFolder(n) && n@ == name@,
{
    let d = concat_str("‘", name);
    Confirmation {
        title: String::from_str("Remove folder?"),
        description: concat_str(
            d.as_str(),
            "’ will be removed from CloudHost. Files in the local folder will not be deleted.",
        ),
        confirm_label: String::from_str("remove folder"),
        action: ConfirmationAction::RemoveFolder(copy_str(name)),
    }
}

/// The question asked before removing cloud `name`.
pub fn cloud_removal_confirmation(name: &str) -> (res: Confirmation)
    ensures
        res.title@ == "Remove cloud?"@,
        res.description@ == "‘"@ + name@
            + "’ and its CloudHost password will be removed. Any running server will be stopped; local folders and files will stay intact."@,
        res.confirm_label@ == "remove cloud"@,
        res.action matches ConfirmationAction::RemoveCloud(n) && n@ == name@,
{
    let d = concat_str("‘", name);
    Confirmation {
        title: String::from_str("Remove cloud?"),
        description: concat_str(
            d.as_str(),
            "’ and its CloudHost password will be removed. Any running server will be stopped; local folders and files will stay intact.",
        ),
        confirm_label: String::from_str("remove cloud"),
        action: ConfirmationAction::RemoveCloud(copy_str(name)),
    }
}

/// The question asked before resetting the key bindings.
pub fn reset_confirmation() -> (res: Confirmation)
    ensures
        res.title@ == "Reset TUI configuration?"@,
        res.description@
            == "Your custom keybindings and TUI preferences will be replaced with CloudHost defaults."@,
        res.confirm_label@ == "reset configuration"@,
        res.action == ConfirmationAction::ResetTuiConfig,
{
    Confirmation {
        title: String::from_str("Reset TUI configuration?"),
        description: String::from_str(
            "Your custom keybindings and TUI preferences will be replaced with CloudHost defaults.",
        ),
        confirm_label: String::from_str("reset configuration"),
        action: ConfirmationAction::ResetTuiConfig,
    }
}

/// What a key does while an overlay is open.
#[derive(Debug, Clone, Copy, PartialEq, Eq, Structural)]
pub enum OverlayOutcome {
    /// No overlay: the key goes on to the rest of the screen.
    NotHandled,
    /// The overlay takes the key and nothing happens.
    Swallowed,
    /// The help overlay closes.
    CloseHelp,
    /// The pending action is carried out.
    Confirm,
    /// The pending action is dropped ("Action cancelled.").
    Cancel,
}

/// How the help overlay and a pending confirmation take a key: help closes
/// on Escape or `?`; a confirmation goes ahead on Enter, `y` or `Y`, and is
/// dropped on Escape, `n` or `N`; both swallow every other key.
pub open spec fn overlay_outcome(help_open: bool, confirming: bool, key: Key) -> OverlayOutcome {
    if help_open {
        if key == Key::Esc || key == Key::Char('?') {
            OverlayOutcome::CloseHelp
        } else {
            OverlayOutcome::Swallowed
        }
    } else if confirming {
        if key == Key::Enter || key == Key::Char('y') || key == Key::Char('Y') {
            OverlayOutcome::Confirm
        } else if key == Key::Esc || key == Key::Char('n') || key == Key::Char('N') {
            OverlayOutcome::Cancel
        } else {
            OverlayOutcome::Swallowed
        }
    } else {
        OverlayOutcome::NotHandled
    }
}

/// Decides what a key does while an overlay is open.
pub fn overlay_key(help_open: bool, confirming: bool, key: Key) -> (res: OverlayOutcome)
    ensures
        res == overlay_outcome(help_open, confirming, key),
{
    if help_open {
        return match key {
            Key::Esc | Key::Char('?') => OverlayOutcome::CloseHelp,
            _ => OverlayOutcome::Swallowed,
        };
    }
    if confirming {
        return match key {
            Key::Enter | Key::Char('y') | Key::Char('Y') => OverlayOutcome::Confirm,
            Key::Esc | Key::Char('n') | Key::Char('N') => OverlayOutcome::Cancel,
            _ => OverlayOutcome::Swallowed,
        };
    }
    OverlayOutcome::NotHandled
}

/// A log that keeps its newest lines: appending past the limit drops the
/// oldest line.
pub open spec fn bounded_push(lines: Seq<Seq<char>>, line: Seq<char>, max: nat) -> Seq<Seq<char>> {
    let p = lines.push(line);
    if p.len() > max {
        p.drop_first()
    } else {
        p
    }
}

/// The characters of a list of strings.
pub open spec fn lines_view(v: Seq<String>) -> Seq<Seq<char>> {
    v.map_values(|s: String| s@)
}

/// Appends a line to a log of at most `max` lines.
pub fn push_bounded(lines: &mut Vec<String>, line: String, max: usize)
    ensures
        lines_view(final(lines)@) == bounded_push(lines_view(old(lines)@), line@, max as nat),
{
    let ghost before = lines@;
    lines.push(line);
    assert(lines_view(lines@) =~= lines_view(before).push(line@));
    if lines.len() > max {
        lines.remove(0);
        assert(lines_view(lines@) =~= lines_view(before).push(line@).drop_first());
    }
}

/// A bounded log stays within its limit.
pub proof fn law_bounded_log_stays_bounded(lines: Seq<Seq<char>>, line: Seq<char>, max: nat)
    requires
        lines.len() <= max,
    ensures
        bounded_push(lines, line, max).len() <= max || (max == 0 && bounded_push(lines, line, max).len() == 0),
        bounded_push(lines, line, max).len() > 0 ==> bounded_push(lines, line, max).last() == line,
{
}

/// What a bound action asks the front end to do.
#[derive(Debug, Clone, Copy, PartialEq, Eq, Structural)]
pub enum ActionCommand {
    Quit,
    NextTab,
    PreviousTab,
    ToggleDebug,
    ToggleHelp,
    StartStopCloud,
    OpenCloud,
    AddFolder,
    CreateCloud,
    RemoveFolderOrCloud,
    SetCloudPassword,
    SelectAllFolders,
    Edit,
    TogglePasswordVisibility,
    CycleFocusForward,
    CycleFocusBackward,
    NavigateUp,
    NavigateDown,
    NavigateToTop,
    NavigateToBottom,
    ToggleSelection,
    Refresh,
    ReloadTuiConfig,
    ReloadStorageConfig,
    ReloadAllConfigs,
    ExecuteAction,
}

/// The command of each action name; unknown names have none.
pub open spec fn command_of(name: Seq<char>) -> Option<ActionCommand> {
    if name == "Quit"@ {
        Some(ActionCommand::Quit)
    } else if name == "Next Tab"@ {
        Some(ActionCommand::NextTab)
    } else if name == "Previous Tab"@ {
        Some(ActionCommand::PreviousTab)
    } else if name == "Toggle Debug"@ {
        Some(ActionCommand::ToggleDebug)
    } else if name == "Toggle Help"@ {
        Some(ActionCommand::ToggleHelp)
    } else if name == "Start/Stop Cloud"@ {
        Some(ActionCommand::StartStopCloud)
    } else if name == "Open Cloud"@ {
        Some(ActionCommand::OpenCloud)
    } else if name == "Add Folder"@ {
        Some(ActionCommand::AddFolder)
    } else if name == "Create Cloud"@ {
        Some(ActionCommand::CreateCloud)
    } else if name == "Remove Folder / Cloud"@ {
        Some(ActionCommand::RemoveFolderOrCloud)
    } else if name == "Set Cloud Password"@ {
        Some(ActionCommand::SetCloudPassword)
    } else if name == "Select All Folders"@ {
        Some(ActionCommand::SelectAllFolders)
    } else if name == "Edit"@ {
        Some(ActionCommand::Edit)
    } else if name == "Toggle Password Visibility"@ {
        Some(ActionCommand::TogglePasswordVisibility)
    } else if name == "Cycle Focus Forward"@ {
        Some(ActionCommand::CycleFocusForward)
    } else if name == "Cycle Focus Backward"@ {
        Some(ActionCommand::CycleFocusBackward)
    } else if name == "Navigate Up"@ {
        Some(ActionCommand::NavigateUp)
    } else if name == "Navigate Down"@ {
        Some(ActionCommand::NavigateDown)
    } else if name == "Navigate to Top"@ {
        Some(ActionCommand::NavigateToTop)
    } else if name == "Navigate to Bottom"@ {
        Some(ActionCommand::NavigateToBottom)
    } else if name == "Toggle Selection"@ {
        Some(ActionCommand::ToggleSelection)
    } else if name == "Refresh/Reload"@ {
        Some(ActionCommand::Refresh)
    } else if name == "Reload TUI Config"@ {
        Some(ActionCommand::ReloadTuiConfig)
    } else if name == "Reload Storage Config"@ {
        Some(ActionCommand::ReloadStorageConfig)
    } else if name == "Reload All Configs"@ {
        Some(ActionCommand::ReloadAllConfigs)
    } else if name == "Execute Action"@ {
        Some(ActionCommand::ExecuteAction)
    } else {
        None
    }
}

/// The command of an action name.
pub fn action_command(name: &str) -> (res: Option<ActionCommand>)
    ensures
        res == command_of(name@),
{
    if str_eq(name, "Quit") {
        Some(ActionCommand::Quit)
    } else if str_eq(name, "Next Tab") {
        Some(ActionCommand::NextTab)
    } else if str_eq(name, "Previous Tab") {
        Some(ActionCommand::PreviousTab)
    } else if str_eq(name, "Toggle Debug") {
        Some(ActionCommand::ToggleDebug)
    } else if str_eq(name, "Toggle Help") {
        Some(ActionCommand::ToggleHelp)
    } else if str_eq(name, "Start/Stop Cloud") {
        Some(ActionCommand::StartStopCloud)
    } else if str_eq(name, "Open Cloud") {
        Some(ActionCommand::OpenCloud)
    } else if str_eq(name, "Add Folder") {
        Some(ActionCommand::AddFolder)
    } else if str_eq(name, "Create Cloud") {
        Some(ActionCommand::CreateCloud)
    } else if str_eq(name, "Remove Folder / Cloud") {
        Some(ActionCommand::RemoveFolderOrCloud)
    } else if str_eq(name, "Set Cloud Password") {
        Some(ActionCommand::SetCloudPassword)
    } else if str_eq(name, "Select All Folders") {
        Some(ActionCommand::SelectAllFolders)
    } else if str_eq(name, "Edit") {
        Some(ActionCommand::Edit)
    } else if str_eq(name, "Toggle Password Visibility") {
        Some(ActionCommand::TogglePasswordVisibility)
    } else if str_eq(name, "Cycle Focus Forward") {
        Some(ActionCommand::CycleFocusForward)
    } else if str_eq(name, "Cycle Focus Backward") {
        Some(ActionCommand::CycleFocusBackward)
    } else if str_eq(name, "Navigate Up") {
        Some(ActionCommand::NavigateUp)
    } else if str_eq(name, "Navigate Down") {
        Some(ActionCommand::NavigateDown)
    } else if str_eq(name, "Navigate to Top") {
        Some(ActionCommand::NavigateToTop)
    } else if str_eq(name, "Navigate to Bottom") {
        Some(ActionCommand::NavigateToBottom)
    } else if str_eq(name, "Toggle Selection") {
        Some(ActionCommand::ToggleSelection)
    } else if str_eq(name, "Refresh/Reload") {
        Some(ActionCommand::Refresh)
    } else if str_eq(name, "Reload TUI Config") {
        Some(ActionCommand::ReloadTuiConfig)
    } else if str_eq(name, "Reload Storage Config") {
        Some(ActionCommand::ReloadStorageConfig)
    } else if str_eq(name, "Reload All Configs") {
        Some(ActionCommand::ReloadAllConfigs)
    } else if str_eq(name, "Execute Action") {
        Some(ActionCommand::ExecuteAction)
    } else {
        None
    }
}

/// The key a navigation command stands for.
pub open spec fn navigation_key(c: ActionCommand) -> Option<Key> {
    match c {
        ActionCommand::NavigateUp => Some(Key::Char('k')),
        ActionCommand::NavigateDown => Some(Key::Char('j')),
        ActionCommand::NavigateToTop => Some(Key::Char('g')),
        ActionCommand::NavigateToBottom => Some(Key::Char('G')),
        _ => None,
    }
}

/// The key a navigation command is carried out with.
pub fn command_navigation_key(c: ActionCommand) -> (res: Option<Key>)
    ensures
        res == navigation_key(c),
{
    match c {
        ActionCommand::NavigateUp => Some(Key::Char('k')),
        ActionCommand::NavigateDown => Some(Key::Char('j')),
        ActionCommand::NavigateToTop => Some(Key::Char('g')),
        ActionCommand::NavigateToBottom => Some(Key::Char('G')),
        _ => None,
    }
}

/// Every action of the default bindings has a command.
pub proof fn law_default_actions_have_commands()
    ensures
        forall|n: Seq<char>| crate::keymap::default_actions().dom().contains(n) ==> command_of(n) is Some,
{
    assert forall|n: Seq<char>| crate::keymap::default_actions().dom().contains(n) implies command_of(n) is Some by {
    }
}

} // verus!
