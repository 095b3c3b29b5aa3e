use cloudhost::app_state::{
    action_command, cloud_removal_confirmation, dismiss_if_expired, folder_removal_confirmation, overlay_key,
    push_bounded, reset_confirmation, ActionCommand, ConfirmationAction, Notice, NoticeKind, OverlayOutcome,
};
use cloudhost::cloud::{Cloud, CloudFolder};
use cloudhost::clouds_config::CloudsConfig;
use cloudhost::clouds_tab::{CloudFocusedPanel, CloudsState, ClientState};
use cloudhost::error::ServerError;
use cloudhost::folders_tab::{FocusedPanel, FoldersState};
use cloudhost::key::Key;
use cloudhost::orchestrator::Orchestrator;
use cloudhost::running::{forget_running, record_running, running_port};
use cloudhost::server_config::{generate_jwt_secret, ServerConfig};
use cloudhost::server_tab::{CloudFolderInputField, ServerState};
use cloudhost::tabs::SelectedTab;

fn folder(name: &str, path: &str) -> CloudFolder {
    CloudFolder::new(name.to_string(), path.to_string())
}

#[test]
fn folder_marks_toggle_and_list_names_by_position() {
    let mut state = FoldersState::default();
    state.cloud_folders = vec![folder("a", "/a"), folder("b", "/b"), folder("c", "/c")];
    state.toggle_folder_selection(2);
    state.toggle_folder_selection(0);
    assert_eq!(state.get_selected_folders_count(), 2);
    assert_eq!(state.get_selected_folder_names(), vec!["a", "c"]);
    state.toggle_folder_selection(0);
    assert!(!state.is_folder_selected(0));
    state.select_all_folders();
    assert_eq!(state.get_selected_folders_count(), 3);
    state.clear_folder_selections();
    assert_eq!(state.get_selected_folders_count(), 0);
}

#[test]
fn editing_a_cloud_marks_its_folders() {
    let mut state = FoldersState::default();
    state.cloud_folders = vec![folder("a", "/a"), folder("b", "/b"), folder("c", "/c")];
    state.clouds = vec![Cloud::new("home".to_string(), vec![folder("c", "/c"), folder("a", "/a")])];
    state.start_editing_cloud();
    assert!(state.editing_cloud);
    assert_eq!(state.edit_cloud_name, "home");
    assert_eq!(state.get_edit_cloud_selected_folder_names(), vec!["a", "c"]);
    state.toggle_cloud_folder_selection(1);
    assert!(state.is_cloud_folder_selected(1));
    state.clear_cloud_edit();
    assert!(!state.editing_cloud);
    state.selected_folder_index = 1;
    state.start_editing_folder();
    assert_eq!(state.edit_folder_path, "/b");
    state.clear_folder_edit();
    assert_eq!(state.edit_folder_name, "");
}

#[test]
fn folder_lists_navigate_within_bounds() {
    let mut state = FoldersState::default();
    state.cloud_folders = vec![folder("a", "/a"), folder("b", "/b")];
    assert!(state.handle_navigation(Key::Down));
    assert!(state.handle_navigation(Key::Down));
    assert_eq!(state.selected_folder_index, 1);
    assert!(state.handle_navigation(Key::Char('g')));
    assert_eq!(state.selected_folder_index, 0);
    state.cycle_focus_forward();
    assert_eq!(state.focused_panel, FocusedPanel::Clouds);
    assert!(state.handle_navigation(Key::Char('G')));
    assert_eq!(state.selected_cloud_index, 0);
    state.focused_panel = FocusedPanel::Info;
    assert!(!state.handle_navigation(Key::Down));
    assert_eq!(state.get_focused_element(), "InfoPanel");
}

#[test]
fn clouds_tab_records_starts_stops_and_keeps_a_bounded_log() {
    let mut state = CloudsState::new();
    assert_eq!(state.selected_for_start(), None);
    assert_eq!(state.cloud_start_error.as_deref(), Some("❌ No cloud selected"));
    state.clouds = vec![Cloud::new("home".to_string(), vec![folder("a", "/a")])];
    assert_eq!(state.selected_for_start().as_deref(), Some("home"));
    state.record_start("home", Ok(3000));
    assert_eq!(state.get_cloud_port("home"), Some(3000));
    assert_eq!(state.cloud_logs.last().map(|s| s.as_str()), Some("✅ Started cloud 'home' on port 3000"));
    state.record_start("home", Err(ServerError::ServerAlreadyRunning));
    assert_eq!(state.cloud_start_error.as_deref(), Some("❌ Server already running"));
    state.record_stop("home", Ok(()));
    assert!(!state.is_cloud_running("home"));
    assert_eq!(state.cloud_logs.last().map(|s| s.as_str()), Some("🛑 Stopped cloud 'home'"));
    state.record_stop_all(Ok(()));
    assert_eq!(state.cloud_logs.last().map(|s| s.as_str()), Some("🛑 Stopped all clouds"));
    for i in 0..150 {
        state.add_cloud_log(format!("line {i}"));
    }
    assert_eq!(state.cloud_logs.len(), 100);
    assert_eq!(state.cloud_logs[99], "line 149");
    state.cycle_focus_backward();
    assert_eq!(state.focused_panel, CloudFocusedPanel::CloudLogs);
    assert_eq!(state.get_focused_element(), "cloud_logs");
    assert!(!ClientState::new().handle_navigation(Key::Down));
}

#[test]
fn clouds_tab_password_goes_through_the_orchestrator() {
    let mut config = CloudsConfig::default();
    config.add_cloud(Cloud::new("home".to_string(), vec![folder("a", "/a")])).ok().unwrap();
    let mut orch = Orchestrator::new(config);
    let mut state = CloudsState::new();
    assert_eq!(state.set_password(&mut orch, "secret12"), Err("No cloud selected".to_string()));
    state.clouds = orch.get_clouds();
    state.start_creating_password();
    assert!(state.password_creation.is_creating_password());
    assert!(!state.has_password(&orch));
    assert!(state.set_password(&mut orch, "secret12").is_ok());
    assert!(!state.password_creation.is_creating_password());
    assert!(state.has_password(&orch));
    assert!(state.verify_password(&orch, "secret12"));
}

#[test]
fn running_table_replaces_and_forgets_ports() {
    let mut r: Vec<(String, u16)> = Vec::new();
    record_running(&mut r, "a", 3000);
    record_running(&mut r, "b", 3001);
    record_running(&mut r, "a", 3005);
    assert_eq!(r.len(), 2);
    assert_eq!(running_port(&r, "a"), Some(3005));
    forget_running(&mut r, "a");
    assert_eq!(running_port(&r, "a"), None);
    assert_eq!(running_port(&r, "b"), Some(3001));
}

#[test]
fn server_tab_folder_dialog() {
    let mut state = ServerState::default();
    state.start_creating_cloudfolder();
    assert!(state.creating_cloudfolder);
    assert!(!state.handle_cloudfolder_input(Key::Enter));
    assert_eq!(state.cloudfolder_input_field, CloudFolderInputField::Name);
    for c in " root ".chars() {
        state.handle_cloudfolder_input(Key::Char(c));
    }
    assert!(!state.handle_cloudfolder_input(Key::Enter));
    assert_eq!(state.cloudfolder_input_field, CloudFolderInputField::Path);
    assert!(state.handle_cloudfolder_input(Key::Enter));
    assert!(state.create_cloudfolder().is_none());
    assert_eq!(state.cloudfolder_creation_error.as_deref(), Some("Cloudfolder path cannot be empty"));
    state.handle_cloudfolder_input(Key::Char('/'));
    assert_eq!(state.cloudfolder_creation_error, None);
    let f = state.create_cloudfolder().unwrap();
    assert_eq!((f.name.as_str(), f.folder_path.as_str()), ("root", "/"));
    state.cloudfolders.push(f);
    assert!(state.cloudfolder_exists("root"));
    assert!(state.create_cloudfolder().is_none());
    assert_eq!(state.cloudfolder_creation_error.as_deref(), Some("Cloudfolder 'root' already exists"));
    state.new_cloudfolder_name = "other".to_string();
    state.new_cloudfolder_path = "/definitely/not/there".to_string();
    assert!(state.create_cloudfolder().is_none());
    assert_eq!(
        state.cloudfolder_creation_error.as_deref(),
        Some("Folder '/definitely/not/there' does not exist")
    );
    state.handle_cloudfolder_input(Key::Esc);
    assert!(!state.creating_cloudfolder);
    assert_eq!(state.new_cloudfolder_name, "");
}

#[test]
fn server_tab_logs_and_folder_wrapping() {
    let mut state = ServerState::default();
    for i in 0..25 {
        state.add_server_log("12:00:00.000", &format!("m{i}"));
    }
    assert_eq!(state.server_logs.len(), 20);
    assert_eq!(state.server_logs[19], "[12:00:00.000] m24");
    assert!(state.is_at_bottom());
    state.scroll_logs_down();
    assert_eq!(state.server_logs_list_state.selected(), Some(0));
    state.scroll_logs_to_bottom();
    assert_eq!(state.server_logs_list_state.selected(), Some(19));
    state.scroll_logs_up();
    assert_eq!(state.server_logs_list_state.selected(), Some(18));
    state.cloudfolders = vec![folder("a", "/a"), folder("b", "/b"), folder("c", "/c")];
    state.previous_cloudfolder();
    assert_eq!(state.selected_cloudfolder_index, 2);
    state.next_cloudfolder();
    assert_eq!(state.selected_cloudfolder_index, 0);
    assert!(state.handle_navigation(Key::Char('G')));
    assert_eq!(state.selected_cloudfolder_index, 2);
    state.reload_after_removal(vec![folder("a", "/a")]);
    assert_eq!(state.selected_cloudfolder_index, 0);
    state.cycle_focus_forward();
    assert!(!state.handle_navigation(Key::Char('j')));
}

#[test]
fn server_config_keeps_one_folder_per_name() {
    let mut config = ServerConfig::default();
    assert_eq!(config.server_port, 3000);
    assert!(config.jwt_secret.starts_with("cloudtui-secret-"));
    assert!(generate_jwt_secret().starts_with("cloudtui-secret-"));
    config.add_cloudfolder("a".to_string(), "/a".to_string());
    config.add_cloudfolder("a".to_string(), "/b".to_string());
    config.add_cloudfolder("b".to_string(), "/b".to_string());
    assert_eq!(config.get_cloudfolders().len(), 2);
    assert_eq!(config.get_cloudfolder("a").map(|f| f.folder_path.as_str()), Some("/a"));
    config.remove_cloudfolder("a");
    assert!(config.get_cloudfolder("a").is_none());
    assert!(!config.has_password());
    assert!(config.set_password("pa55word").is_ok());
    assert!(config.verify_password("pa55word"));
    assert!(!config.verify_password("nope"));
}

#[test]
fn notices_confirmations_and_overlays() {
    let n = Notice::new(NoticeKind::Info, "hi".to_string(), 1000);
    assert!(!n.is_expired(7000));
    assert!(n.is_expired(7001));
    assert!(dismiss_if_expired(Some(n), 8000).is_none());
    let c = folder_removal_confirmation("Photos");
    assert_eq!(c.title, "Remove folder?");
    assert_eq!(c.action, ConfirmationAction::RemoveFolder("Photos".to_string()));
    assert!(c.description.starts_with("‘Photos’ will be removed"));
    assert_eq!(cloud_removal_confirmation("x").confirm_label, "remove cloud");
    assert_eq!(reset_confirmation().action, ConfirmationAction::ResetTuiConfig);
    assert_eq!(overlay_key(true, true, Key::Char('?')), OverlayOutcome::CloseHelp);
    assert_eq!(overlay_key(true, false, Key::Char('x')), OverlayOutcome::Swallowed);
    assert_eq!(overlay_key(false, true, Key::Char('Y')), OverlayOutcome::Confirm);
    assert_eq!(overlay_key(false, true, Key::Esc), OverlayOutcome::Cancel);
    assert_eq!(overlay_key(false, false, Key::Esc), OverlayOutcome::NotHandled);
    assert_eq!(action_command("Navigate to Top"), Some(ActionCommand::NavigateToTop));
    assert_eq!(action_command("Nope"), None);
    let mut lines = vec!["a".to_string()];
    push_bounded(&mut lines, "b".to_string(), 1);
    assert_eq!(lines, vec!["b".to_string()]);
    assert_eq!(SelectedTab::wrapped(4), SelectedTab::Client);
    assert_eq!(ServerError::InvalidPath("p".to_string()).error_code(), "INVALID_PATH");
    assert_eq!(ServerError::ServerNotRunning.detail(), "Server not running");
}
