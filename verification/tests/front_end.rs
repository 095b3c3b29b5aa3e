use cloudhost::app_state::{AppState, NoticeKind};
use cloudhost::cloud::{Cloud, CloudFolder};
use cloudhost::clouds_config::CloudsConfig;
use cloudhost::folders_tab::FocusedPanel;
use cloudhost::front_end::{App, AppTab, ConfigFile, Effect, PathCheck, ReloadTarget};
use cloudhost::key::Key;
use cloudhost::keymap::Config;
use cloudhost::orchestrator::Orchestrator;

fn press(app: &mut App, key: Key) {
    app.handle_dynamic_key(key, false, PathCheck::Directory);
}

fn type_text(app: &mut App, text: &str) {
    for c in text.chars() {
        press(app, Key::Char(c));
    }
}

fn notice(app: &App) -> (NoticeKind, String) {
    let n = app.notice.as_ref().expect("a notice should be shown");
    (n.kind, n.message.clone())
}

fn storage_app() -> App {
    let mut config = CloudsConfig::default();
    config
        .add_cloud_folder(CloudFolder::new("docs".to_string(), "/srv/docs".to_string()))
        .unwrap();
    config
        .add_cloud_folder(CloudFolder::new("photos".to_string(), "/srv/photos".to_string()))
        .unwrap();
    let mut app = App::new(Config::default(), Orchestrator::new(config), 0, "12:00:00.000".to_string());
    app.selected_tab = AppTab::Storage;
    app
}

#[test]
fn quit_key_ends_the_main_loop() {
    let mut app = App::default();
    press(&mut app, Key::Char('q'));
    assert_eq!(app.state, AppState::Quitting);
}

#[test]
fn tab_sequence_moves_to_the_next_tab() {
    let mut app = App::default();
    press(&mut app, Key::Char('g'));
    assert_eq!(app.selected_tab, AppTab::Dashboard);
    press(&mut app, Key::Char('t'));
    assert_eq!(app.selected_tab, AppTab::Storage);
    press(&mut app, Key::Char('g'));
    press(&mut app, Key::Char('T'));
    assert_eq!(app.selected_tab, AppTab::Dashboard);
}

#[test]
fn front_end_tabs_wrap_around() {
    assert_eq!(AppTab::Settings.next(), AppTab::Dashboard);
    assert_eq!(AppTab::Dashboard.previous(), AppTab::Settings);
    assert_eq!(AppTab::at(4), AppTab::Storage);
    assert_eq!(AppTab::Storage.name(), "storage");
}

#[test]
fn folder_dialog_adds_a_folder_and_asks_to_save() {
    let mut app = storage_app();
    press(&mut app, Key::Char('a'));
    assert!(app.storage.creating_folder);
    type_text(&mut app, " music ");
    press(&mut app, Key::Enter);
    type_text(&mut app, "/srv/music");
    press(&mut app, Key::Enter);
    assert!(!app.storage.creating_folder);
    let folders = &app.orchestrator.clouds_config.cloud_folders;
    assert_eq!(folders.len(), 3);
    assert_eq!(folders[2].name, "music");
    assert_eq!(folders[2].folder_path, "/srv/music");
    assert_eq!(notice(&app), (NoticeKind::Success, "Added folder ‘music’.".to_string()));
    assert_eq!(app.storage.cloud_folders.len(), 3);
    let effects = app.take_effects();
    assert_eq!(effects.len(), 1);
    assert!(matches!(effects[0], Effect::SaveStorage));
    assert!(app.take_effects().is_empty());
}

#[test]
fn folder_dialog_refuses_a_missing_path_and_a_taken_name() {
    let mut app = storage_app();
    app.start_adding_folder();
    app.storage.new_folder_name = "music".to_string();
    app.storage.new_folder_path = " /nowhere ".to_string();
    app.complete_folder_creation(PathCheck::Missing);
    assert_eq!(app.storage.folder_creation_error.as_deref(), Some("Path '/nowhere' does not exist"));
    app.complete_folder_creation(PathCheck::NotDirectory);
    assert_eq!(app.storage.folder_creation_error.as_deref(), Some("'/nowhere' is not a directory"));
    app.storage.new_folder_name = "docs".to_string();
    app.complete_folder_creation(PathCheck::Directory);
    assert_eq!(
        app.storage.folder_creation_error.as_deref(),
        Some("Validation error: Cloud folder 'docs' already exists")
    );
    app.storage.new_folder_name = "   ".to_string();
    app.complete_folder_creation(PathCheck::Directory);
    assert_eq!(app.storage.folder_creation_error.as_deref(), Some("Folder name cannot be empty"));
    assert!(app.storage.creating_folder);
    assert_eq!(app.orchestrator.clouds_config.cloud_folders.len(), 2);
    assert!(app.take_effects().is_empty());
}

#[test]
fn creating_a_cloud_needs_marked_folders() {
    let mut app = storage_app();
    press(&mut app, Key::Char('n'));
    assert!(!app.storage.creating_cloud);
    assert_eq!(
        notice(&app),
        (NoticeKind::Warning, "Select at least one folder before creating a cloud.".to_string())
    );
}

#[test]
fn cloud_dialog_creates_a_cloud_from_the_marked_folders() {
    let mut app = storage_app();
    press(&mut app, Key::Char('v'));
    assert!(app.storage.is_folder_selected(0));
    press(&mut app, Key::Char('n'));
    assert!(app.storage.creating_cloud);
    type_text(&mut app, "family");
    press(&mut app, Key::Enter);
    let clouds = &app.orchestrator.clouds_config.clouds;
    assert_eq!(clouds.len(), 1);
    assert_eq!(clouds[0].name, "family");
    assert_eq!(clouds[0].cloud_folders.len(), 1);
    assert_eq!(clouds[0].cloud_folders[0].name, "docs");
    assert!(clouds[0].password_hash.is_none());
    assert!(app.storage.password_creation.creating_password);
    assert_eq!(app.storage.get_selected_folders_count(), 0);
    assert_eq!(
        notice(&app),
        (NoticeKind::Success, "Created cloud ‘family’. Set a password to finish.".to_string())
    );
}

#[test]
fn starting_a_cloud_without_password_reports_why() {
    let mut config = CloudsConfig::default();
    let folder = CloudFolder::new("docs".to_string(), "/srv/docs".to_string());
    config.add_cloud_folder(folder.clone()).unwrap();
    config.add_cloud(Cloud::new("family".to_string(), vec![folder])).unwrap();
    let mut app = App::new(Config::default(), Orchestrator::new(config), 0, String::new());
    press(&mut app, Key::Char('s'));
    assert_eq!(
        notice(&app),
        (
            NoticeKind::Error,
            "❌ Validation error: Cloud 'family' has no password set. Set a password first.".to_string()
        )
    );
    assert!(app.take_effects().is_empty());
    assert!(!app.orchestrator.is_cloud_running("family"));
}

#[test]
fn start_stop_without_clouds_warns() {
    let mut app = App::default();
    app.start_stop_cloud();
    assert_eq!(notice(&app), (NoticeKind::Warning, "Create and select a cloud first.".to_string()));
    app.open_cloud();
    assert_eq!(
        notice(&app),
        (NoticeKind::Warning, "Start the selected cloud before opening it in a browser.".to_string())
    );
}

#[test]
fn removing_a_folder_asks_first_and_then_removes_it() {
    let mut app = storage_app();
    press(&mut app, Key::Char('d'));
    let confirmation = app.pending_confirmation.as_ref().expect("confirmation should be asked");
    assert_eq!(confirmation.title, "Remove folder?");
    assert_eq!(confirmation.confirm_label, "remove folder");
    press(&mut app, Key::Char('y'));
    assert!(app.pending_confirmation.is_none());
    assert_eq!(app.orchestrator.clouds_config.cloud_folders.len(), 1);
    assert_eq!(app.orchestrator.clouds_config.cloud_folders[0].name, "photos");
    assert_eq!(
        notice(&app),
        (NoticeKind::Success, "Removed folder ‘docs’. Its files were left untouched.".to_string())
    );
}

#[test]
fn a_cancelled_confirmation_changes_nothing() {
    let mut app = storage_app();
    app.storage.focused_panel = FocusedPanel::Folders;
    app.request_remove_folder();
    press(&mut app, Key::Esc);
    assert!(app.pending_confirmation.is_none());
    assert_eq!(app.orchestrator.clouds_config.cloud_folders.len(), 2);
    assert_eq!(notice(&app), (NoticeKind::Info, "Action cancelled.".to_string()));
}

#[test]
fn settings_actions_become_effects() {
    let mut app = App::default();
    app.selected_tab = AppTab::Settings;
    press(&mut app, Key::Enter);
    let effects = app.take_effects();
    assert_eq!(effects.len(), 1);
    assert!(matches!(effects[0], Effect::OpenConfig(ConfigFile::Tui)));
    app.settings.list_state.select(Some(4));
    press(&mut app, Key::Enter);
    let effects = app.take_effects();
    assert!(matches!(effects[0], Effect::Reload(ReloadTarget::All)));
    app.settings.list_state.select(Some(5));
    press(&mut app, Key::Enter);
    assert_eq!(
        app.pending_confirmation.as_ref().map(|c| c.title.clone()),
        Some("Reset TUI configuration?".to_string())
    );
}

#[test]
fn reload_outcomes_are_reported() {
    let mut app = App::default();
    app.finish_tui_reload(Err("broken file".to_string()));
    assert_eq!(
        notice(&app),
        (NoticeKind::Error, "Could not reload TUI configuration: broken file".to_string())
    );
    app.finish_all_reload(Err("broken file".to_string()), CloudsConfig::default());
    assert_eq!(notice(&app), (NoticeKind::Error, "Could not reload configuration: broken file".to_string()));
    let mut config = CloudsConfig::default();
    config
        .add_cloud_folder(CloudFolder::new("docs".to_string(), "/srv/docs".to_string()))
        .unwrap();
    app.finish_storage_reload(config);
    assert_eq!(app.storage.cloud_folders.len(), 1);
    assert_eq!(notice(&app), (NoticeKind::Success, "Reloaded storage configuration.".to_string()));
    app.finish_open_url("http://localhost:3000", Err("no browser".to_string()));
    assert_eq!(
        notice(&app),
        (NoticeKind::Error, "Could not open http://localhost:3000: no browser".to_string())
    );
}

#[test]
fn notices_expire_after_their_time() {
    let mut app = App::default();
    app.show_notice(NoticeKind::Info, "hello".to_string());
    app.set_clock(6000, String::new());
    app.dismiss_notice_if_expired();
    assert!(app.notice.is_some());
    app.set_clock(6001, String::new());
    app.dismiss_notice_if_expired();
    assert!(app.notice.is_none());
}

#[test]
fn debug_panel_keeps_the_latest_lines() {
    let mut app = App::default();
    app.set_clock(0, "09:30:00.000".to_string());
    app.toggle_debug();
    assert_eq!(app.debug_info, vec!["[09:30:00.000] Debug mode enabled".to_string()]);
    for i in 0..20 {
        app.add_debug(&format!("line {i}"));
    }
    assert_eq!(app.debug_info.len(), 10);
    assert_eq!(app.debug_info[9], "[09:30:00.000] line 19");
    app.toggle_debug();
    assert!(app.debug_info.is_empty());
}

#[test]
fn key_sequences_time_out_into_the_single_key() {
    let mut app = App::default();
    app.set_clock(0, String::new());
    press(&mut app, Key::Char('g'));
    app.set_clock(500, String::new());
    app.check_timeouts();
    assert!(app.input_state != cloudhost::dispatch::InputState::Normal);
    app.set_clock(1500, String::new());
    app.check_timeouts();
    assert_eq!(app.input_state, cloudhost::dispatch::InputState::Normal);
}

#[test]
fn setup_flow_serves_a_new_cloud() {
    let mut app = App::default();
    app.selected_tab = AppTab::Storage;
    press(&mut app, Key::Char('a'));
    type_text(&mut app, "tmp");
    press(&mut app, Key::Enter);
    type_text(&mut app, "/tmp");
    press(&mut app, Key::Enter);
    assert_eq!(app.orchestrator.clouds_config.cloud_folders.len(), 1);
    press(&mut app, Key::Char('v'));
    press(&mut app, Key::Char('n'));
    type_text(&mut app, "family");
    press(&mut app, Key::Enter);
    assert!(app.storage.password_creation.creating_password);
    type_text(&mut app, "secret123");
    press(&mut app, Key::Enter);
    type_text(&mut app, "secret123");
    press(&mut app, Key::Enter);
    assert_eq!(notice(&app), (NoticeKind::Success, "Password updated for cloud ‘family’.".to_string()));
    assert!(!app.storage.creating_cloud);
    assert!(app.orchestrator.verify_cloud_password("family", "secret123"));
    assert!(!app.orchestrator.verify_cloud_password("family", "secret124"));
    app.take_effects();

    press(&mut app, Key::Char('g'));
    press(&mut app, Key::Char('T'));
    assert_eq!(app.selected_tab, AppTab::Dashboard);
    press(&mut app, Key::Char('s'));
    assert_eq!(notice(&app), (NoticeKind::Success, "Started ‘family’.".to_string()));
    let effects = app.take_effects();
    assert_eq!(effects.len(), 1);
    match &effects[0] {
        Effect::Serve(plan) => {
            assert_eq!(plan.port, 3000);
            assert_eq!(plan.cloud.name, "family");
        }
        _ => panic!("the cloud should be served"),
    }
    assert_eq!(app.orchestrator.get_cloud_port("family"), Some(3000));
    press(&mut app, Key::Char('o'));
    let effects = app.take_effects();
    assert!(matches!(&effects[0], Effect::OpenUrl(url) if url == "http://localhost:3000"));
    press(&mut app, Key::Char('s'));
    assert_eq!(notice(&app), (NoticeKind::Info, "Stopped ‘family’.".to_string()));
    let effects = app.take_effects();
    assert!(matches!(&effects[0], Effect::Halt(name) if name == "family"));
    assert!(!app.orchestrator.is_cloud_running("family"));
}

#[test]
fn removing_a_running_cloud_stops_it_first() {
    let mut app = App::default();
    app.selected_tab = AppTab::Storage;
    press(&mut app, Key::Char('a'));
    type_text(&mut app, "tmp");
    press(&mut app, Key::Enter);
    type_text(&mut app, "/tmp");
    press(&mut app, Key::Enter);
    press(&mut app, Key::Char('v'));
    press(&mut app, Key::Char('n'));
    type_text(&mut app, "family");
    press(&mut app, Key::Enter);
    type_text(&mut app, "secret123");
    press(&mut app, Key::Enter);
    type_text(&mut app, "secret123");
    press(&mut app, Key::Enter);
    app.goto_tab(0);
    press(&mut app, Key::Char('s'));
    assert!(app.orchestrator.is_cloud_running("family"));
    app.take_effects();

    app.goto_tab(1);
    press(&mut app, Key::Tab);
    assert_eq!(app.storage.focused_panel, FocusedPanel::Clouds);
    press(&mut app, Key::Char('d'));
    assert!(app.pending_confirmation.is_some());
    press(&mut app, Key::Char('y'));
    assert!(app.pending_confirmation.is_none());
    assert!(!app.orchestrator.is_cloud_running("family"));
    assert_eq!(app.orchestrator.clouds_config.clouds.len(), 0);
    assert_eq!(notice(&app), (NoticeKind::Success, "Removed cloud ‘family’.".to_string()));
    let effects = app.take_effects();
    assert_eq!(effects.len(), 2);
    assert!(matches!(&effects[0], Effect::Halt(name) if name == "family"));
    assert!(matches!(&effects[1], Effect::SaveStorage));
}

#[test]
fn navigation_keys_move_the_selection_of_the_shown_tab() {
    let mut app = storage_app();
    app.execute_action("Navigate Down");
    assert_eq!(app.storage.selected_folder_index, 1);
    app.execute_action("Navigate Down");
    assert_eq!(app.storage.selected_folder_index, 1);
    app.execute_action("Navigate to Top");
    assert_eq!(app.storage.selected_folder_index, 0);
    app.execute_action("Navigate to Bottom");
    assert_eq!(app.storage.selected_folder_index, 1);
    app.execute_action("Navigate Up");
    assert_eq!(app.storage.selected_folder_index, 0);
    assert_eq!(app.selected_tab, AppTab::Storage);
}

#[test]
fn an_unknown_action_changes_nothing_but_the_debug_lines() {
    let mut app = storage_app();
    let folders_before = app.storage.selected_folder_index;
    app.execute_action("No Such Action");
    assert_eq!(app.storage.selected_folder_index, folders_before);
    assert_eq!(app.selected_tab, AppTab::Storage);
    assert!(app.take_effects().is_empty());
}
