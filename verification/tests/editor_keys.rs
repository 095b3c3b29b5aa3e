use cloudhost::dispatch::{dispatch_key, key_name, InputState};
use cloudhost::editor::{build_editor_command, choose_editor, choose_terminal, is_terminal_editor};
use cloudhost::key::Key;
use cloudhost::keymap::Config;
use cloudhost::tab_app;

#[test]
fn terminal_editor_uses_a_new_terminal() {
    let command = build_editor_command("/tmp/clouds config.toml", "nvim -f", Some("xdg-terminal-exec"))
        .ok()
        .expect("command should be valid");

    assert_eq!(command.program, "xdg-terminal-exec");
    assert_eq!(command.args, ["--", "nvim", "-f", "/tmp/clouds config.toml"]);
}

#[test]
fn graphical_editor_is_launched_directly() {
    let command = build_editor_command("/tmp/tui-config.toml", "code --new-window", Some("ghostty"))
        .ok()
        .expect("command should be valid");

    assert_eq!(command.program, "code");
    assert_eq!(command.args, ["--new-window", "/tmp/tui-config.toml"]);
}

#[test]
fn other_terminals_get_dash_e_and_quoting_errors_are_reported() {
    let command = build_editor_command("/a b", "/usr/bin/vim", Some("alacritty --class x")).ok().unwrap();
    assert_eq!(command.program, "alacritty");
    assert_eq!(command.args, ["--class", "x", "-e", "/usr/bin/vim", "/a b"]);
    let default_terminal = build_editor_command("/c", "hx", None).ok().unwrap();
    assert_eq!(default_terminal.program, "xdg-terminal-exec");
    let bad = build_editor_command("/c", "vim 'unclosed", None);
    assert_eq!(bad.err().unwrap().message, "EDITOR/VISUAL contains invalid quoting");
    let empty = build_editor_command("/c", "nano", Some("   "));
    assert_eq!(empty.err().unwrap().message, "TERMINAL is empty");
    assert!(is_terminal_editor("/opt/bin/kakoune"));
    assert!(!is_terminal_editor("emacs"));
}

#[test]
fn editor_settings_prefer_visual_and_skip_blank_values() {
    assert_eq!(choose_editor(Some("code"), Some("vim")).as_deref(), Some("code"));
    assert_eq!(choose_editor(Some("  "), Some("vim")).as_deref(), Some("vim"));
    assert_eq!(choose_editor(None, Some("")), None);
    assert_eq!(choose_terminal(Some("\t")), None);
    assert_eq!(choose_terminal(Some("kitty")).as_deref(), Some("kitty"));
}

#[test]
fn key_names_match_binding_files() {
    assert_eq!(key_name(Key::Char('x'), false).as_deref(), Some("x"));
    assert_eq!(key_name(Key::Char('\u{3}'), false).as_deref(), Some("<Ctrl>c"));
    assert_eq!(key_name(Key::Tab, true).as_deref(), Some("<S-Tab>"));
    assert_eq!(key_name(Key::BackTab, false).as_deref(), Some("<S-Tab>"));
    assert_eq!(key_name(Key::Enter, false).as_deref(), Some("<Enter>"));
    assert_eq!(key_name(Key::Other, false), None);
}

#[test]
fn key_sequences_complete_within_the_time_limit() {
    let config = Config::default();
    let (state, action) = dispatch_key(&config, &InputState::Normal, "g", "dashboard", 10);
    assert_eq!(state, InputState::KeySequence("g".to_string(), 10));
    assert_eq!(action, None);
    let (state, action) = dispatch_key(&config, &state, "t", "dashboard", 200);
    assert_eq!(state, InputState::Normal);
    assert_eq!(action.as_deref(), Some("Next Tab"));
}

#[test]
fn leader_opens_a_sequence_and_timeouts_drop_the_key() {
    let config = Config::default();
    let (state, action) = dispatch_key(&config, &InputState::Normal, " ", "dashboard", 0);
    assert_eq!(state, InputState::KeySequence("<leader>".to_string(), 0));
    assert_eq!(action, None);
    let (state, _) = dispatch_key(&config, &InputState::KeySequence("g".to_string(), 0), "t", "dashboard", 5000);
    assert_eq!(state, InputState::Normal);
    let (state, action) = dispatch_key(&config, &InputState::Normal, "?", "settings", 0);
    assert_eq!(state, InputState::Normal);
    assert_eq!(action.as_deref(), Some("Toggle Help"));
}

#[test]
fn tab_app_count_prefix_selects_a_tab() {
    let mut app = tab_app::App::new(tab_app::Config::default());
    for k in [Key::Char('3'), Key::Char('g'), Key::Char('t')] {
        app.handle_key(k);
    }
    assert_eq!(app.selected_tab, tab_app::SelectedTab::Tab3);
    assert_eq!(app.input_state, tab_app::InputState::Normal);
    assert_eq!(app.pending_number, None);
    app.handle_key(Key::Char('g'));
    app.handle_key(Key::Char('T'));
    assert_eq!(app.selected_tab, tab_app::SelectedTab::Client);
    app.handle_key(Key::Left);
    app.handle_key(Key::Left);
    assert_eq!(app.selected_tab, tab_app::SelectedTab::Server);
    app.handle_key(Key::Char('q'));
    assert_eq!(app.state, tab_app::AppState::Quitting);
}

#[test]
fn tab_app_tabs_saturate_and_table_lookups() {
    assert_eq!(tab_app::SelectedTab::Tab4.next(), tab_app::SelectedTab::Tab4);
    assert_eq!(tab_app::SelectedTab::Server.previous(), tab_app::SelectedTab::Server);
    let config = tab_app::Config::default();
    assert_eq!(config.get_action("gt").map(|a| a.as_str()), Some("Next Tab"));
    assert_eq!(config.get_action("zz"), None);
    assert_eq!(config.get_keys_for_action("Quit"), vec!["q"]);
    let mut app = tab_app::App::new(config);
    app.handle_key(Key::Char('1'));
    app.handle_key(Key::Char('2'));
    assert_eq!(app.pending_number, Some(12));
    app.handle_key(Key::Up);
    assert_eq!(app.pending_number, None);
    assert_eq!(app.input_state, tab_app::InputState::Normal);
}

#[test]
fn tab_app_bindings_replace_a_key_like_a_map() {
    let mut config = tab_app::Config::new();
    config.bind("q".to_string(), "Quit".to_string());
    config.bind("x".to_string(), "Quit".to_string());
    config.bind("q".to_string(), "Next Tab".to_string());
    assert_eq!(config.keybindings.len(), 2);
    assert_eq!(config.get_action("q").map(|a| a.as_str()), Some("Next Tab"));
    assert_eq!(config.get_keys_for_action("Quit"), vec!["x".to_string()]);
    assert_eq!(tab_app::Config::default().get_keys_for_action("Quit"), vec!["q".to_string()]);
    assert!(tab_app::Config::default().get_keys_for_action("Nothing").is_empty());
}
