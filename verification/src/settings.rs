//! The settings tab: its actions and the selection among them.
use vstd::prelude::*;
use crate::key::{Key, ListState, is_up, is_down};

verus! {

/// What the settings tab offers, in display order.
#[derive(Debug, Clone, Copy, PartialEq, Eq, Structural)]
pub enum SettingsAction {
    OpenTuiConfig,
    OpenStorageConfig,
    ReloadTuiConfig,
    ReloadStorageConfig,
    ReloadAllConfigs,
    ResetTuiConfig,
}

/// Number of settings actions.
pub const SETTINGS_ACTION_COUNT: usize = 6;

/// The action at a position in display order (the last one past the end).
pub open spec fn settings_action_at(i: nat) -> SettingsAction {
    if i == 0 {
        SettingsAction::OpenTuiConfig
    } else if i == 1 {
        SettingsAction::OpenStorageConfig
    } else if i == 2 {
        SettingsAction::ReloadTuiConfig
    } else if i == 3 {
        SettingsAction::ReloadStorageConfig
    } else if i == 4 {
        SettingsAction::ReloadAllConfigs
    } else {
        SettingsAction::ResetTuiConfig
    }
}

/// The title shown for an action.
pub open spec fn settings_title(a: SettingsAction) -> Seq<char> {
    match a {
        SettingsAction::OpenTuiConfig => "Open TUI config"@,
        SettingsAction::OpenStorageConfig => "Open storage config"@,
        SettingsAction::ReloadTuiConfig => "Reload TUI config"@,
        SettingsAction::ReloadStorageConfig => "Reload storage config"@,
        SettingsAction::ReloadAllConfigs => "Reload all configs"@,
        SettingsAction::ResetTuiConfig => "Reset TUI config"@,
    }
}

/// The description shown for an action.
pub open spec fn settings_description(a: SettingsAction) -> Seq<char> {
    match a {
        SettingsAction::OpenTuiConfig => "Edit keybindings and TUI preferences in your default editor."@,
        SettingsAction::OpenStorageConfig => "Edit the saved folder and cloud definitions."@,
        SettingsAction::ReloadTuiConfig => "Apply the latest TUI keybindings without restarting."@,
        SettingsAction::ReloadStorageConfig => "Reload saved folders and clouds, then refresh the UI."@,
        SettingsAction::ReloadAllConfigs => "Reload both configuration files."@,
        SettingsAction::ResetTuiConfig => "Restore the default TUI configuration after confirmation."@,
    }
}

/// The key-binding action an entry runs, for those that have one.
pub open spec fn settings_config_action(a: SettingsAction) -> Option<Seq<char>> {
    match a {
        SettingsAction::ReloadTuiConfig => Some("Reload TUI Config"@),
        SettingsAction::ReloadStorageConfig => Some("Reload Storage Config"@),
        SettingsAction::ReloadAllConfigs => Some("Reload All Configs"@),
        _ => None,
    }
}

impl SettingsAction {
    /// All actions in display order.
    pub fn all() -> (res: Vec<SettingsAction>)
        ensures
            res.len() == SETTINGS_ACTION_COUNT,
            forall|i: int| 0 <= i < SETTINGS_ACTION_COUNT ==> #[trigger] res@[i] == settings_action_at(i as nat),
    {
        vec![
            SettingsAction::OpenTuiConfig,
            SettingsAction::OpenStorageConfig,
            SettingsAction::ReloadTuiConfig,
            SettingsAction::ReloadStorageConfig,
            SettingsAction::ReloadAllConfigs,
            SettingsAction::ResetTuiConfig,
        ]
    }

    /// The action at position `i`, or the last one when `i` is past the end.
    pub fn at(i: usize) -> (res: SettingsAction)
        ensures
            res == settings_action_at(i as nat),
    {
        if i == 0 {
            SettingsAction::OpenTuiConfig
        } else if i == 1 {
            SettingsAction::OpenStorageConfig
        } else if i == 2 {
            SettingsAction::ReloadTuiConfig
        } else if i == 3 {
            SettingsAction::ReloadStorageConfig
        } else if i == 4 {
            SettingsAction::ReloadAllConfigs
        } else {
            SettingsAction::ResetTuiConfig
        }
    }

    /// Short title.
    pub fn title(self) -> (res: &'static str)
        ensures
            res@ == settings_title(self),
    {
        match self {
            SettingsAction::OpenTuiConfig => "Open TUI config",
            SettingsAction::OpenStorageConfig => "Open storage config",
            SettingsAction::ReloadTuiConfig => "Reload TUI config",
            SettingsAction::ReloadStorageConfig => "Reload storage config",
            SettingsAction::ReloadAllConfigs => "Reload all configs",
            SettingsAction::ResetTuiConfig => "Reset TUI config",
        }
    }

    /// One-line explanation.
    pub fn description(self) -> (res: &'static str)
        ensures
            res@ == settings_description(self),
    {
        match self {
            SettingsAction::OpenTuiConfig => "Edit keybindings and TUI preferences in your default editor.",
            SettingsAction::OpenStorageConfig => "Edit the saved folder and cloud definitions.",
            SettingsAction::ReloadTuiConfig => "Apply the latest TUI keybindings without restarting.",
            SettingsAction::ReloadStorageConfig => "Reload saved folders and clouds, then refresh the UI.",
            SettingsAction::ReloadAllConfigs => "Reload both configuration files.",
            SettingsAction::ResetTuiConfig => "Restore the default TUI configuration after confirmation.",
        }
    }

    /// The key-binding action this entry runs, if it is one.
    pub fn config_action(self) -> (res: Option<&'static str>)
        ensures
            res.is_some() == settings_config_action(self).is_some(),
            res.is_some() ==> res.unwrap()@ == settings_config_action(self).unwrap(),
    {
        match self {
            SettingsAction::ReloadTuiConfig => Some("Reload TUI Config"),
            SettingsAction::ReloadStorageConfig => Some("Reload Storage Config"),
            SettingsAction::ReloadAllConfigs => Some("Reload All Configs"),
            _ => None,
        }
    }

    /// Whether the action throws work away and so asks for confirmation.
    pub fn is_destructive(self) -> (res: bool)
        ensures
            res == (self == SettingsAction::ResetTuiConfig),
    {
        match self {
            SettingsAction::ResetTuiConfig => true,
            _ => false,
        }
    }
}

/// Selection state of the settings tab.
pub struct SettingsState {
    pub list_state: ListState,
}

/// Where a navigation key moves the selection from row `current`; `None`
/// for keys that do not navigate.
pub open spec fn settings_nav(current: nat, key: Key) -> Option<nat> {
    let last = (SETTINGS_ACTION_COUNT - 1) as nat;
    if is_up(key) {
        Some(if current == 0 { 0 } else { (current - 1) as nat })
    } else if is_down(key) {
        Some(if current + 1 < last { current + 1 } else { last })
    } else if key == Key::Char('g') {
        Some(0)
    } else if key == Key::Char('G') {
        Some(last)
    } else {
        None
    }
}

/// The row counted as selected: the selection, or the first row.
pub open spec fn selected_or_first(l: ListState) -> nat {
    match l.selected {
        Some(i) => i as nat,
        None => 0,
    }
}

impl Default for SettingsState {
    fn default() -> (res: SettingsState)
        ensures
            res.list_state.selected is None,
    {
        SettingsState { list_state: ListState::new() }
    }
}

impl SettingsState {
    /// The first action selected.
    pub fn new() -> (res: SettingsState)
        ensures
            res.list_state.selected == Some(0usize),
    {
        let mut list_state = ListState::new();
        list_state.select(Some(0));
        SettingsState { list_state }
    }

    /// Names the focused element.
    pub fn get_focused_element(&self) -> (res: String)
        ensures
            res@ == "SettingsList"@,
    {
        String::from_str("SettingsList")
    }

    /// Up/`k`, Down/`j`, `g` and `G` move the selection within the actions;
    /// other keys are not handled.
    pub fn handle_navigation(&mut self, key: Key) -> (handled: bool)
        ensures
            handled == settings_nav(selected_or_first(old(self).list_state), key).is_some(),
            handled ==> final(self).list_state.selected == Some(
                settings_nav(selected_or_first(old(self).list_state), key).unwrap() as usize,
            ),
            !handled ==> final(self).list_state == old(self).list_state,
            final(self).list_state.offset == old(self).list_state.offset,
    {
        let current = match self.list_state.selected() {
            Some(i) => i,
            None => 0,
        };
        let last = SETTINGS_ACTION_COUNT - 1;
        let next = match key {
            Key::Up | Key::Char('k') => if current == 0 {
                0
            } else {
                current - 1
            },
            Key::Down | Key::Char('j') => if current < last {
                current + 1
            } else {
                last
            },
            Key::Char('g') => 0,
            Key::Char('G') => last,
            _ => {
                return false;
            },
        };
        self.list_state.select(Some(next));
        true
    }

    /// The selected action; past the end, the last one.
    pub fn selected_action(&self) -> (res: SettingsAction)
        ensures
            res == settings_action_at(selected_or_first(self.list_state)),
    {
        let index = match self.list_state.selected() {
            Some(i) => i,
            None => 0,
        };
        SettingsAction::at(index)
    }
}

/// From a row on an action, any navigation key leaves the selection on an
/// action.
pub proof fn law_navigation_stays_in_range(current: nat, key: Key)
    requires
        current < SETTINGS_ACTION_COUNT,
    ensures
        settings_nav(current, key) matches Some(n) ==> n < SETTINGS_ACTION_COUNT,
{
}

} // verus!
