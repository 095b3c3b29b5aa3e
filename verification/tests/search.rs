use cloudhost::cloud::{CloudFolder, UtcTime};
use cloudhost::dashboard::DashboardPanel;
use cloudhost::debug_log::{DebugMessage, LogLevel};
use cloudhost::front_end::{clock_text, App, AppTab};
use cloudhost::key::Key;
use cloudhost::search::{filtered_indices, settings_search_text, ListSearch, SearchTarget};
use cloudhost::settings::SettingsAction;

fn texts(items: &[&str]) -> Vec<String> {
    items.iter().map(|s| s.to_string()).collect()
}

#[test]
fn folder_search_filters_live_and_commits_only_on_enter() {
    let mut app = App::default();
    app.selected_tab = AppTab::Storage;
    app.storage.cloud_folders = vec![
        CloudFolder::new("Archive".to_string(), "/tmp/archive".to_string()),
        CloudFolder::new("Reports".to_string(), "/tmp/reports".to_string()),
        CloudFolder::new("Photos".to_string(), "/tmp/photos".to_string()),
    ];
    app.storage.selected_folder_index = 0;
    app.storage.folders_list_state.select(Some(0));

    assert!(app.start_list_search());
    for character in ['r', 'e', 'p'] {
        assert!(app.handle_list_search_key(Key::Char(character)));
    }

    assert_eq!(app.filtered_indices(SearchTarget::StorageFolders), vec![1]);
    assert_eq!(app.search_selected_index(SearchTarget::StorageFolders), Some(1));
    assert_eq!(app.storage.selected_folder_index, 0);

    assert!(app.handle_list_search_key(Key::Enter));
    assert!(app.search.is_none());
    assert_eq!(app.storage.selected_folder_index, 1);
    assert_eq!(app.storage.folders_list_state.selected(), Some(1));
}

#[test]
fn cancelling_a_search_restores_the_previous_activity_selection() {
    let mut app = App::default();
    app.selected_tab = AppTab::Dashboard;
    app.dashboard.focused_panel = DashboardPanel::Activity;
    app.activity = vec![
        DebugMessage {
            timestamp: UtcTime { secs: 36000, nanos: 0 },
            level: LogLevel::Info,
            source: "server".to_string(),
            message: "cloud started".to_string(),
        },
        DebugMessage {
            timestamp: UtcTime { secs: 36001, nanos: 0 },
            level: LogLevel::Warning,
            source: "server".to_string(),
            message: "disk space low".to_string(),
        },
    ];
    app.dashboard.activity_list_state.select(Some(0));

    assert!(app.start_list_search());
    for character in "disk".chars() {
        assert!(app.handle_list_search_key(Key::Char(character)));
    }
    assert_eq!(app.filtered_indices(SearchTarget::DashboardActivity), vec![1]);

    assert!(app.handle_list_search_key(Key::Esc));
    assert!(app.search.is_none());
    assert_eq!(app.dashboard.activity_list_state.selected(), Some(0));
}

#[test]
fn list_search_keeps_its_choice_until_enter() {
    let folders = texts(&["Archive", "Reports", "Photos"]);
    let mut search = ListSearch::start(SearchTarget::StorageFolders, Some(0), &folders);
    for character in ['r', 'e', 'p'] {
        assert_eq!(search.handle_key(Key::Char(character), &folders), None);
    }
    assert_eq!(search.filtered_indices(&folders), vec![1]);
    assert_eq!(search.selected_index, Some(1));
    assert_eq!(search.handle_key(Key::Enter, &folders), Some(true));
    assert_eq!(search.finish(true), Some(1));
}

#[test]
fn cancelled_list_search_gives_back_the_previous_selection() {
    let activity = texts(&[
        "10:00:00 INFO server cloud started",
        "10:00:01 WARN server disk space low",
    ]);
    let mut search = ListSearch::start(SearchTarget::DashboardActivity, Some(0), &activity);
    for character in "disk".chars() {
        assert_eq!(search.handle_key(Key::Char(character), &activity), None);
    }
    assert_eq!(search.filtered_indices(&activity), vec![1]);
    assert_eq!(search.handle_key(Key::Esc, &activity), Some(false));
    assert_eq!(search.finish(false), Some(0));
}

#[test]
fn activity_entries_are_searched_by_time_level_source_and_message() {
    let mut app = App::default();
    app.dashboard.focused_panel = DashboardPanel::Activity;
    app.activity = vec![DebugMessage {
        timestamp: UtcTime { secs: 36000 + 61, nanos: 0 },
        level: LogLevel::Error,
        source: "auth".to_string(),
        message: "bad token".to_string(),
    }];
    let texts = app.search_texts(SearchTarget::DashboardActivity);
    assert_eq!(texts, vec!["10:01:01 ERROR auth bad token".to_string()]);
    assert_eq!(clock_text(-1), "23:59:59");
    assert_eq!(clock_text(0), "00:00:00");
}

#[test]
fn search_ignores_case_and_moves_within_matches() {
    let items = texts(&["alpha", "Beta", "ALPHABET", "gamma"]);
    assert_eq!(filtered_indices("ALP", &items), vec![0, 2]);
    assert_eq!(filtered_indices("", &items), vec![0, 1, 2, 3]);
    let mut search = ListSearch::start(SearchTarget::StorageClouds, Some(3), &items);
    assert_eq!(search.selected_index, Some(3));
    search.handle_key(Key::Char('a'), &items);
    search.handle_key(Key::Char('l'), &items);
    assert_eq!(search.selected_index, Some(0));
    search.handle_key(Key::Down, &items);
    assert_eq!(search.selected_index, Some(2));
    search.handle_key(Key::Down, &items);
    assert_eq!(search.selected_index, Some(2));
    assert_eq!(search.selected_position(&items), Some(1));
    search.handle_key(Key::Up, &items);
    assert_eq!(search.selected_index, Some(0));
    search.handle_key(Key::Char('z'), &items);
    assert_eq!(search.selected_index, None);
    search.handle_key(Key::Backspace, &items);
    assert_eq!(search.selected_index, Some(0));
    assert_eq!(search.title_suffix(), " · /al█");
}

#[test]
fn settings_entries_are_searched_by_title_and_description() {
    let items: Vec<String> = SettingsAction::all().into_iter().map(settings_search_text).collect();
    assert_eq!(filtered_indices("reload", &items), vec![2, 3, 4]);
    assert_eq!(items[5], "Reset TUI config Restore the default TUI configuration after confirmation.");
}
