use cloudhost::dashboard::{DashboardPanel, DashboardState};
use cloudhost::key::Key;
use cloudhost::modal::{centered_rect, Rect};
use cloudhost::password::{PasswordCreationState, PasswordMode};
use cloudhost::settings::{SettingsAction, SettingsState};
use cloudhost::tabs::SelectedTab;

#[test]
fn navigation_stays_within_available_actions() {
    let mut state = SettingsState::new();

    for _ in 0..20 {
        state.handle_navigation(Key::Down);
    }
    assert_eq!(state.selected_action(), SettingsAction::ResetTuiConfig);

    for _ in 0..20 {
        state.handle_navigation(Key::Up);
    }
    assert_eq!(state.selected_action(), SettingsAction::OpenTuiConfig);
}

#[test]
fn settings_jump_keys_and_other_keys() {
    let mut state = SettingsState::new();
    assert!(state.handle_navigation(Key::Char('G')));
    assert_eq!(state.list_state.selected(), Some(5));
    assert!(state.handle_navigation(Key::Char('g')));
    assert_eq!(state.list_state.selected(), Some(0));
    assert!(!state.handle_navigation(Key::Char('z')));
    assert_eq!(state.list_state.selected(), Some(0));
    assert_eq!(SettingsAction::ReloadAllConfigs.config_action(), Some("Reload All Configs"));
    assert_eq!(SettingsAction::OpenTuiConfig.config_action(), None);
    assert!(SettingsAction::ResetTuiConfig.is_destructive());
    assert!(!SettingsAction::ReloadTuiConfig.is_destructive());
    assert_eq!(SettingsAction::OpenStorageConfig.title(), "Open storage config");
    assert_eq!(SettingsAction::all().len(), 6);
}

#[test]
fn activity_navigation_respects_bounds() {
    let mut state = DashboardState::new();
    state.focused_panel = DashboardPanel::Activity;
    state.activity_list_state.select(Some(2));

    assert!(state.handle_activity_navigation(Key::Down, 3));
    assert_eq!(state.activity_list_state.selected(), Some(2));

    assert!(state.handle_activity_navigation(Key::Char('g'), 3));
    assert_eq!(state.activity_list_state.selected(), Some(0));

    assert!(state.handle_activity_navigation(Key::Char('G'), 3));
    assert_eq!(state.activity_list_state.selected(), Some(2));
}

#[test]
fn activity_navigation_outside_its_panel_is_ignored() {
    let mut state = DashboardState::new();
    assert!(!state.handle_activity_navigation(Key::Down, 3));
    state.focused_panel = DashboardPanel::Activity;
    assert!(state.handle_activity_navigation(Key::Char('j'), 0));
    assert!(!state.handle_activity_navigation(Key::Char('g'), 0));
    assert!(state.handle_activity_navigation(Key::Up, 4));
    assert_eq!(state.activity_list_state.selected(), Some(2));
}

#[test]
fn dashboard_focus_cycles_both_ways() {
    let mut state = DashboardState::new();
    state.cycle_focus_forward();
    assert_eq!(state.get_focused_element(), "overview");
    state.cycle_focus_backward();
    state.cycle_focus_backward();
    assert_eq!(state.focused_panel, DashboardPanel::Activity);
    assert!(state.handle_navigation(Key::Tab));
    assert_eq!(state.focused_panel, DashboardPanel::Services);
}

#[test]
fn centers_and_keeps_a_gutter_when_space_allows() {
    let area = Rect::new(10, 5, 100, 40);
    let modal = centered_rect(area, 60, 20);

    assert_eq!(modal, Rect::new(30, 15, 60, 20));
}

#[test]
fn never_extends_beyond_a_small_terminal() {
    let area = Rect::new(3, 4, 12, 7);
    let modal = centered_rect(area, 60, 20);

    assert!(modal.x >= area.x);
    assert!(modal.y >= area.y);
    assert!(modal.x + modal.width <= area.x + area.width);
    assert!(modal.y + modal.height <= area.y + area.height);
    assert_eq!(modal.width, 10);
    assert_eq!(modal.height, 5);
}

#[test]
fn dialog_in_an_empty_or_tiny_area() {
    let empty = Rect::new(4, 4, 0, 10);
    assert_eq!(centered_rect(empty, 10, 10), empty);
    let tiny = Rect::new(0, 0, 1, 2);
    assert_eq!(centered_rect(tiny, 10, 10), Rect::new(0, 0, 1, 1));
    assert_eq!(Rect::new(65530, 0, 10, 3).width, 5);
}

#[test]
fn tabs_wrap_around() {
    assert_eq!(SelectedTab::Server.previous(), SelectedTab::Settings);
    assert_eq!(SelectedTab::Settings.next(), SelectedTab::Server);
    assert_eq!(SelectedTab::Client.next(), SelectedTab::Settings);
    let t = SelectedTab::Client;
    assert_eq!(t.next().previous(), t);
    assert_eq!(t.next().next().next(), t);
    assert_eq!(SelectedTab::Settings.label(), "Settings");
}

fn type_str(state: &mut PasswordCreationState, s: &str) {
    for c in s.chars() {
        state.handle_password_input(c);
    }
}

#[test]
fn short_password_is_refused() {
    let mut state = PasswordCreationState::new();
    state.start_creating_password();
    assert!(state.is_creating_password());
    type_str(&mut state, "short");
    state.handle_password_input('\n');
    assert_eq!(state.get_error().map(|e| e.as_str()), Some("Password must be at least 8 characters"));
    assert_eq!(*state.get_password_mode(), PasswordMode::Creating);
    assert_eq!(state.get_masked_password(), "*****");
}

#[test]
fn matching_confirmation_completes_entry() {
    let mut state = PasswordCreationState::new();
    state.start_creating_password();
    type_str(&mut state, "correct horse");
    state.handle_password_input('\r');
    assert_eq!(*state.get_password_mode(), PasswordMode::Confirming);
    assert!(!state.is_password_creation_complete());
    type_str(&mut state, "correct horse");
    assert_eq!(state.get_masked_confirm().len(), 13);
    state.handle_password_input('\n');
    assert!(state.is_password_creation_complete());
    assert_eq!(state.get_password(), "correct horse");
}

#[test]
fn mismatched_confirmation_is_cleared() {
    let mut state = PasswordCreationState::new();
    state.start_creating_password();
    type_str(&mut state, "password1");
    state.handle_password_input('\n');
    type_str(&mut state, "password2");
    state.handle_password_input('\n');
    assert_eq!(state.get_error().map(|e| e.as_str()), Some("Passwords do not match"));
    assert_eq!(state.get_masked_confirm(), "");
    assert!(!state.is_password_creation_complete());
}

#[test]
fn typing_is_capped_backspace_deletes_and_escape_cancels() {
    let mut state = PasswordCreationState::new();
    state.start_creating_password();
    for _ in 0..60 {
        state.handle_password_input('a');
    }
    assert_eq!(state.get_password().len(), 50);
    state.handle_password_input('\x7f');
    assert_eq!(state.get_password().len(), 49);
    state.handle_password_input('é');
    assert_eq!(state.get_password().len(), 49);
    state.handle_password_input('\x1b');
    assert!(!state.is_creating_password());
    assert_eq!(state.get_password(), "");
}

#[test]
fn typing_then_deleting_restores_the_field() {
    let mut state = PasswordCreationState::new();
    state.start_creating_password();
    type_str(&mut state, "abc");
    state.handle_password_input('\n');
    state.handle_password_input('d');
    state.handle_password_input('\x08');
    assert_eq!(state.get_password(), "abc");
    assert!(state.get_error().is_none());
}
