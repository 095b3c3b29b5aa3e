use cloudhost::action_map::{Action, ActionMap};
use cloudhost::error::TuiError;
use cloudhost::keymap::Config;
use std::collections::HashMap;

fn s(x: &str) -> String {
    x.to_string()
}

#[test]
fn default_bindings_are_unique_within_each_tab() {
    let config = Config::default();

    for tab in ["dashboard", "storage", "settings"] {
        let mut bindings = HashMap::new();
        for (name, action) in config.actions.entries() {
            if !action.applies_to(tab) {
                continue;
            }
            for key in &action.keys {
                assert_eq!(
                    bindings.insert(key, name),
                    None,
                    "{key} is assigned more than once in {tab}"
                );
            }
        }
    }
}

#[test]
fn defaults_include_discoverability_and_cloud_opening() {
    let config = Config::default();

    assert_eq!(config.get_keys_for_action("Toggle Help"), vec!["?"]);
    assert_eq!(config.get_keys_for_action("Open Cloud"), vec!["o"]);
    assert_eq!(config.get_keys_for_action("Set Cloud Password"), vec!["p"]);
    assert_eq!(config.get_keys_for_action("Add Folder"), vec!["a"]);
    assert_eq!(config.get_keys_for_action("Create Cloud"), vec!["n"]);
    assert_eq!(
        config.get_keys_for_action("Remove Folder / Cloud"),
        vec!["d", "x"]
    );
    assert_eq!(config.get_keys_for_action("Select All Folders"), vec!["A"]);
    assert!(config
        .get_keys_for_action("Toggle Selection")
        .contains(&"v".to_string()));
}

#[test]
fn password_binding_applies_to_dashboard_and_storage() {
    let config = Config::default();

    assert_eq!(
        config.get_action_for_key("p", "dashboard").as_deref(),
        Some("Set Cloud Password")
    );
    assert_eq!(
        config.get_action_for_key("p", "storage").as_deref(),
        Some("Set Cloud Password")
    );
    assert_eq!(config.get_action_for_key("p", "settings"), None);
}

#[test]
fn migration_preserves_keys_and_updates_domain_names() {
    let mut actions = ActionMap::new();
    actions.insert(s("Create New"), Action { keys: vec![s("c")], tab: s("folders") });
    actions.insert(s("Create Password"), Action { keys: vec![s("P")], tab: s("clouds") });
    actions.insert(s("Reload Clouds Config"), Action { keys: vec![s("R")], tab: s("settings") });
    actions.insert(s("Delete Folder"), Action { keys: vec![s("d"), s("x")], tab: s("folders") });
    actions.insert(s("Delete Cloud"), Action { keys: vec![s("D"), s("X")], tab: s("folders") });
    actions.insert(s("Select All Folders"), Action { keys: vec![s("a")], tab: s("folders") });
    let mut config = Config { leader: s(","), actions };

    assert!(config.needs_migration());
    config.migrate_to_latest();

    assert_eq!(config.leader, ",");
    assert_eq!(config.get_keys_for_action("Add Folder"), vec!["a"]);
    assert_eq!(config.get_keys_for_action("Create Cloud"), vec!["c"]);
    assert_eq!(
        config.get_keys_for_action("Remove Folder / Cloud"),
        vec!["d", "x"]
    );
    assert_eq!(config.get_keys_for_action("Select All Folders"), vec!["A"]);
    assert_eq!(config.get_keys_for_action("Set Cloud Password"), vec!["P"]);
    assert_eq!(
        config.get_keys_for_action("Reload Storage Config"),
        vec!["R"]
    );
    assert_eq!(
        config
            .get_action("Create Cloud")
            .map(|action| action.tab.as_str()),
        Some("storage")
    );
    assert_eq!(
        config
            .get_action("Set Cloud Password")
            .map(|action| action.tab.as_str()),
        Some("dashboard,storage")
    );
}

#[test]
fn default_bindings_need_no_migration() {
    let config = Config::default();
    assert_eq!(config.leader, " ");
    assert!(!config.needs_migration());
}

#[test]
fn migrated_bindings_need_no_further_migration() {
    let mut actions = ActionMap::new();
    actions.insert(s("Create New"), Action { keys: vec![s("c")], tab: s("folders") });
    actions.insert(s("Toggle Selection"), Action { keys: vec![s("<leader>"), s("v")], tab: s("clouds, folders") });
    let mut config = Config { leader: s(" "), actions };
    assert!(config.needs_migration());
    config.migrate_to_latest();
    assert!(!config.needs_migration());
}

#[test]
fn tab_specific_binding_wins_over_global() {
    let mut actions = ActionMap::new();
    actions.insert(s("Quit"), Action { keys: vec![s("q")], tab: s("any") });
    actions.insert(s("Zap"), Action { keys: vec![s("q")], tab: s("storage") });
    let config = Config { leader: s(" "), actions };
    assert_eq!(config.get_action_for_key("q", "storage").as_deref(), Some("Zap"));
    assert_eq!(config.get_action_for_key("q", "dashboard").as_deref(), Some("Quit"));
    assert_eq!(config.get_action_for_key("w", "dashboard"), None);
}

#[test]
fn tab_lists_are_trimmed_when_matching() {
    let a = Action { keys: vec![s("x")], tab: s(" dashboard , storage ") };
    assert!(a.applies_to("storage"));
    assert!(a.applies_to("dashboard"));
    assert!(!a.applies_to("settings"));
    let any = Action { keys: vec![], tab: s("any") };
    assert!(any.applies_to("settings"));
}

#[test]
fn unreadable_configuration_falls_back_to_defaults_and_is_saved() {
    let (config, save) = Config::load_or_default(Err(TuiError::FileSystem(s("missing"))));
    assert!(save);
    assert_eq!(config.get_keys_for_action("Toggle Help"), vec!["?"]);
}

#[test]
fn renaming_onto_an_existing_action_drops_the_old_one() {
    let mut actions = ActionMap::new();
    actions.insert(s("Old"), Action { keys: vec![s("o")], tab: s("any") });
    actions.insert(s("New"), Action { keys: vec![s("n")], tab: s("any") });
    let mut config = Config { leader: s(" "), actions };
    config.rename_action("Old", "New");
    assert!(config.get_action("Old").is_none());
    assert_eq!(config.get_keys_for_action("New"), vec!["n"]);
    config.rename_action("New", "Newer");
    assert_eq!(config.get_keys_for_action("Newer"), vec!["n"]);
    assert!(config.get_action("New").is_none());
}
