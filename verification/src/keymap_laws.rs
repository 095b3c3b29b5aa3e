//! What migration guarantees about the bindings it produces.
use vstd::prelude::*;
use crate::action_map::ActionView;
use crate::settings::{SettingsAction, settings_config_action};
use crate::keymap::{
    add_folder_step, binds_key, av, create_cloud_step, default_actions, defaults_step, drop_keys, ensure_key,
    has_old_tab_name, migrated, navigate_top_step, needs_migration_spec, password_step, remove_item_step,
    rename_spec, rename_tab, retab, retab_all_spec, select_all_step, toggle_selection_step,
};
use crate::text::{
    is_ws, join_with, lemma_split_join, lemma_split_nonempty, lemma_split_parts_free, lemma_split_single,
    lemma_trim_idempotent, lemma_trim_keeps_free, lemma_trim_plain, split_on, trim,
};

verus! {

/// A tab name written as a literal: without commas and trimmed.
proof fn lemma_plain_name(x: Seq<char>)
    requires
        x.len() > 0,
        forall|i: int| 0 <= i < x.len() ==> x[i] != ',' && x[i] != ' ' && !is_ws(x[i]),
    ensures
        !x.contains(','),
        trim(x) == x,
        split_on(x, ',') == seq![x],
{
    lemma_trim_plain(x);
    lemma_split_single(x, ',');
}

proof fn lemma_current_names()
    ensures
        !"dashboard"@.contains(','),
        !"storage"@.contains(','),
        trim("dashboard"@) == "dashboard"@,
        trim("storage"@) == "storage"@,
        "dashboard"@ != "clouds"@ && "dashboard"@ != "folders"@,
        "storage"@ != "clouds"@ && "storage"@ != "folders"@,
{
    reveal_strlit("dashboard");
    reveal_strlit("storage");
    reveal_strlit("clouds");
    reveal_strlit("folders");
    lemma_plain_name("dashboard"@);
    lemma_plain_name("storage"@);
}

/// After `retab` no tab of the specification has an older name.
pub proof fn lemma_retab_has_no_old_name(t: Seq<char>)
    ensures
        !has_old_tab_name(retab(t)),
{
    reveal_strlit(",");
    assert(","@ == seq![',']);
    let segs = split_on(t, ',');
    let parts = segs.map_values(|s: Seq<char>| rename_tab(trim(s)));
    lemma_split_nonempty(t, ',');
    lemma_split_parts_free(t, ',');
    lemma_current_names();
    assert forall|i: int| 0 <= i < parts.len() implies !#[trigger] parts[i].contains(',') by {
        lemma_trim_keeps_free(segs[i], ',');
    }
    lemma_split_join(parts, ',');
    assert(split_on(retab(t), ',') == parts);
    assert forall|i: int| 0 <= i < parts.len() implies !(#[trigger] trim(parts[i]) == "clouds"@ || trim(parts[i])
        == "folders"@) by {
        lemma_trim_idempotent(segs[i]);
    }
}


/// A literal tab specification without commas names no older tab.
proof fn lemma_plain_tab_is_current(x: Seq<char>)
    requires
        x.len() > 0,
        forall|i: int| 0 <= i < x.len() ==> x[i] != ',' && x[i] != ' ' && !is_ws(x[i]),
        x != "clouds"@,
        x != "folders"@,
    ensures
        !has_old_tab_name(x),
{
    lemma_plain_name(x);
    assert(trim(split_on(x, ',')[0]) == x);
}

/// The tab specifications that migration and the defaults write name no
/// older tab.
proof fn lemma_written_tabs_are_current()
    ensures
        !has_old_tab_name("any"@),
        !has_old_tab_name("dashboard"@),
        !has_old_tab_name("storage"@),
        !has_old_tab_name("settings"@),
        !has_old_tab_name("dashboard,storage"@),
{
    reveal_strlit("any");
    reveal_strlit("dashboard");
    reveal_strlit("storage");
    reveal_strlit("settings");
    reveal_strlit("clouds");
    reveal_strlit("folders");
    reveal_strlit(",");
    reveal_strlit("dashboard,storage");
    lemma_current_names();
    assert("any"@.len() != "folders"@.len() && "any"@.len() != "clouds"@.len());
    lemma_plain_tab_is_current("any"@);
    lemma_plain_tab_is_current("dashboard"@);
    lemma_plain_tab_is_current("storage"@);
    assert("settings"@.len() != "folders"@.len() && "settings"@.len() != "clouds"@.len());
    lemma_plain_tab_is_current("settings"@);
    let parts = seq!["dashboard"@, "storage"@];
    assert(parts.drop_last() =~= seq!["dashboard"@]);
    assert(join_with(parts.drop_last(), seq![',']) == "dashboard"@);
    assert("dashboard,storage"@ =~= join_with(parts, seq![',']));
    lemma_split_join(parts, ',');
    assert(split_on("dashboard,storage"@, ',') == parts);
}

/// The bindings after every step of migration but the defaults.
spec fn before_defaults(m: Map<Seq<char>, ActionView>) -> Map<Seq<char>, ActionView> {
    password_step(
        navigate_top_step(
            toggle_selection_step(
                select_all_step(
                    remove_item_step(
                        add_folder_step(
                            create_cloud_step(
                                rename_spec(
                                    retab_all_spec(m),
                                    "Reload Clouds Config"@,
                                    "Reload Storage Config"@,
                                ),
                            ),
                        ),
                    ),
                ),
            ),
        ),
    )
}

/// The action names that a step of migration reads, writes or removes.
spec fn migration_touches(k: Seq<char>) -> bool {
    ||| k == "Reload Clouds Config"@
    ||| k == "Reload Storage Config"@
    ||| k == "Create Cloud"@
    ||| k == "Add Source / Cloud"@
    ||| k == "Create New"@
    ||| k == "Add Folder"@
    ||| k == "Remove Folder / Cloud"@
    ||| k == "Remove Item"@
    ||| k == "Remove Source"@
    ||| k == "Delete Folder"@
    ||| k == "Remove Cloud"@
    ||| k == "Delete Cloud"@
    ||| k == "Select All Folders"@
    ||| k == "Select All Sources"@
    ||| k == "Toggle Selection"@
    ||| k == "Navigate to Top"@
    ||| k == "Create Password"@
    ||| k == "Set Password"@
    ||| k == "Set Cloud Password"@
}

/// An action that no step names only has its tab renamed.
proof fn lemma_untouched_action(m: Map<Seq<char>, ActionView>, k: Seq<char>)
    requires
        !migration_touches(k),
    ensures
        before_defaults(m).dom().contains(k) == m.dom().contains(k),
        m.dom().contains(k) ==> before_defaults(m)[k] == av(m[k].keys, retab(m[k].tab)),
{
}

/// No tab of the bindings names an older tab.
spec fn tabs_current(m: Map<Seq<char>, ActionView>) -> bool {
    forall|n: Seq<char>| #[trigger] m.dom().contains(n) ==> !has_old_tab_name(m[n].tab)
}

/// Every step of migration keeps the tabs current.
proof fn lemma_migrated_tabs_current(m: Map<Seq<char>, ActionView>)
    ensures
        tabs_current(migrated(m)),
{
    lemma_written_tabs_are_current();
    let m1 = retab_all_spec(m);
    assert forall|n: Seq<char>| #[trigger] m1.dom().contains(n) implies !has_old_tab_name(m1[n].tab) by {
        lemma_retab_has_no_old_name(m[n].tab);
    }
    let m2 = rename_spec(m1, "Reload Clouds Config"@, "Reload Storage Config"@);
    assert(tabs_current(m2));
    let m3 = create_cloud_step(m2);
    assert(tabs_current(m3));
    let m4 = add_folder_step(m3);
    assert(tabs_current(m4));
    let m5 = remove_item_step(m4);
    assert(tabs_current(m5));
    let m6 = select_all_step(m5);
    assert(tabs_current(m6));
    let m7 = toggle_selection_step(m6);
    assert(tabs_current(m7));
    let m8 = navigate_top_step(m7);
    assert(tabs_current(m8));
    let m9 = password_step(m8);
    assert(tabs_current(m9));
    let d = default_actions();
    assert(tabs_current(d));
    assert(tabs_current(defaults_step(m9)));
}

/// Dropping two keys leaves neither of them.
proof fn lemma_drop_keys_drops(ks: Seq<Seq<char>>, a: Seq<char>, b: Seq<char>)
    ensures
        !drop_keys(ks, a, b).contains(a),
        !drop_keys(ks, a, b).contains(b),
    decreases ks.len(),
{
    if ks.len() > 0 {
        lemma_drop_keys_drops(ks.drop_last(), a, b);
        let r = drop_keys(ks.drop_last(), a, b);
        if !(ks.last() == a || ks.last() == b) {
            assert forall|x: Seq<char>| x == a || x == b implies !r.push(ks.last()).contains(x) by {
                if r.push(ks.last()).contains(x) {
                    let i = choose|i: int| 0 <= i < r.push(ks.last()).len() && r.push(ks.last())[i] == x;
                    if i < r.len() {
                        assert(r[i] == x);
                    }
                }
            }
        }
    }
}

/// A key of `ensure_key(ks, x)` is `x` or a key of `ks`.
proof fn lemma_ensure_key_holds(ks: Seq<Seq<char>>, x: Seq<char>, y: Seq<char>)
    requires
        ensure_key(ks, x).contains(y),
    ensures
        y == x || ks.contains(y),
{
    if !ks.contains(x) {
        let i = choose|i: int| 0 <= i < ks.push(x).len() && ks.push(x)[i] == y;
        if i < ks.len() {
            assert(ks[i] == y);
        }
    }
}

/// No default action has one of the older names.
proof fn lemma_defaults_have_no_old_name()
    ensures
        !default_actions().dom().contains("Create New"@),
        !default_actions().dom().contains("Add Source / Cloud"@),
        !default_actions().dom().contains("Remove Source"@),
        !default_actions().dom().contains("Remove Cloud"@),
        !default_actions().dom().contains("Delete Folder"@),
        !default_actions().dom().contains("Delete Cloud"@),
        !default_actions().dom().contains("Select All Sources"@),
        !default_actions().dom().contains("Create Password"@),
        !default_actions().dom().contains("Set Password"@),
        !default_actions().dom().contains("Reload Clouds Config"@),
{
    reveal_strlit("Create New");
    reveal_strlit("Add Source / Cloud");
    reveal_strlit("Remove Source");
    reveal_strlit("Remove Cloud");
    reveal_strlit("Delete Folder");
    reveal_strlit("Delete Cloud");
    reveal_strlit("Select All Sources");
    reveal_strlit("Create Password");
    reveal_strlit("Set Password");
    reveal_strlit("Reload Clouds Config");
    reveal_strlit("Quit");
    reveal_strlit("Next Tab");
    reveal_strlit("Previous Tab");
    reveal_strlit("Start/Stop Cloud");
    reveal_strlit("Open Cloud");
    reveal_strlit("Add Folder");
    reveal_strlit("Create Cloud");
    reveal_strlit("Remove Folder / Cloud");
    reveal_strlit("Select All Folders");
    reveal_strlit("Edit");
    reveal_strlit("Set Cloud Password");
    reveal_strlit("Toggle Password Visibility");
    reveal_strlit("Reload TUI Config");
    reveal_strlit("Reload Storage Config");
    reveal_strlit("Reload All Configs");
    reveal_strlit("Navigate Up");
    reveal_strlit("Navigate Down");
    reveal_strlit("Navigate to Top");
    reveal_strlit("Navigate to Bottom");
    reveal_strlit("Cycle Focus Forward");
    reveal_strlit("Cycle Focus Backward");
    reveal_strlit("Toggle Debug");
    reveal_strlit("Toggle Help");
    reveal_strlit("Toggle Selection");
    reveal_strlit("Refresh/Reload");
    reveal_strlit("Execute Action");
    assert("Create New"@.len() == 10);
    assert("Add Source / Cloud"@.len() == 18);
    assert("Remove Source"@.len() == 13);
    assert("Remove Cloud"@.len() == 12);
    assert("Delete Folder"@.len() == 13);
    assert("Delete Cloud"@.len() == 12);
    assert("Select All Sources"@.len() == 18);
    assert("Create Password"@.len() == 15);
    assert("Set Password"@.len() == 12);
    assert("Reload Clouds Config"@.len() == 20);
    assert("Quit"@.len() == 4);
    assert("Next Tab"@.len() == 8);
    assert("Previous Tab"@.len() == 12);
    assert("Start/Stop Cloud"@.len() == 16);
    assert("Open Cloud"@.len() == 10);
    assert("Add Folder"@.len() == 10);
    assert("Create Cloud"@.len() == 12);
    assert("Remove Folder / Cloud"@.len() == 21);
    assert("Select All Folders"@.len() == 18);
    assert("Edit"@.len() == 4);
    assert("Set Cloud Password"@.len() == 18);
    assert("Toggle Password Visibility"@.len() == 26);
    assert("Reload TUI Config"@.len() == 17);
    assert("Reload Storage Config"@.len() == 21);
    assert("Reload All Configs"@.len() == 18);
    assert("Navigate Up"@.len() == 11);
    assert("Navigate Down"@.len() == 13);
    assert("Navigate to Top"@.len() == 15);
    assert("Navigate to Bottom"@.len() == 18);
    assert("Cycle Focus Forward"@.len() == 19);
    assert("Cycle Focus Backward"@.len() == 20);
    assert("Toggle Debug"@.len() == 12);
    assert("Toggle Help"@.len() == 11);
    assert("Toggle Selection"@.len() == 16);
    assert("Refresh/Reload"@.len() == 14);
    assert("Execute Action"@.len() == 14);
    assert("Create New"@[0] != "Open Cloud"@[0]);
    assert("Create New"@[0] != "Add Folder"@[0]);
    assert("Add Source / Cloud"@[0] != "Select All Folders"@[0]);
    assert("Add Source / Cloud"@[0] != "Set Cloud Password"@[0]);
    assert("Add Source / Cloud"@[0] != "Reload All Configs"@[0]);
    assert("Add Source / Cloud"@[0] != "Navigate to Bottom"@[0]);
    assert("Remove Source"@[0] != "Navigate Down"@[0]);
    assert("Remove Cloud"@[0] != "Previous Tab"@[0]);
    assert("Remove Cloud"@[0] != "Create Cloud"@[0]);
    assert("Remove Cloud"@[0] != "Toggle Debug"@[0]);
    assert("Delete Folder"@[0] != "Navigate Down"@[0]);
    assert("Delete Cloud"@[0] != "Previous Tab"@[0]);
    assert("Delete Cloud"@[0] != "Create Cloud"@[0]);
    assert("Delete Cloud"@[0] != "Toggle Debug"@[0]);
    assert("Select All Sources"@[11] != "Select All Folders"@[11]);
    assert("Select All Sources"@[2] != "Set Cloud Password"@[2]);
    assert("Select All Sources"@[0] != "Reload All Configs"@[0]);
    assert("Select All Sources"@[0] != "Navigate to Bottom"@[0]);
    assert("Create Password"@[0] != "Navigate to Top"@[0]);
    assert("Set Password"@[0] != "Previous Tab"@[0]);
    assert("Set Password"@[0] != "Create Cloud"@[0]);
    assert("Set Password"@[0] != "Toggle Debug"@[0]);
    assert("Reload Clouds Config"@[0] != "Cycle Focus Backward"@[0]);
}

/// The action names that migration writes differ from the older names
/// it removes and from the actions it leaves alone.
proof fn lemma_step_names_distinct()
    ensures
        "Create New"@ != "Reload Storage Config"@,
        "Create New"@ != "Create Cloud"@,
        "Create New"@ != "Add Folder"@,
        "Create New"@ != "Remove Folder / Cloud"@,
        "Create New"@ != "Select All Folders"@,
        "Create New"@ != "Toggle Selection"@,
        "Create New"@ != "Navigate to Top"@,
        "Create New"@ != "Set Cloud Password"@,
        "Add Source / Cloud"@ != "Reload Storage Config"@,
        "Add Source / Cloud"@ != "Create Cloud"@,
        "Add Source / Cloud"@ != "Add Folder"@,
        "Add Source / Cloud"@ != "Remove Folder / Cloud"@,
        "Add Source / Cloud"@ != "Select All Folders"@,
        "Add Source / Cloud"@ != "Toggle Selection"@,
        "Add Source / Cloud"@ != "Navigate to Top"@,
        "Add Source / Cloud"@ != "Set Cloud Password"@,
        "Remove Source"@ != "Reload Storage Config"@,
        "Remove Source"@ != "Create Cloud"@,
        "Remove Source"@ != "Add Folder"@,
        "Remove Source"@ != "Remove Folder / Cloud"@,
        "Remove Source"@ != "Select All Folders"@,
        "Remove Source"@ != "Toggle Selection"@,
        "Remove Source"@ != "Navigate to Top"@,
        "Remove Source"@ != "Set Cloud Password"@,
        "Remove Cloud"@ != "Reload Storage Config"@,
        "Remove Cloud"@ != "Create Cloud"@,
        "Remove Cloud"@ != "Add Folder"@,
        "Remove Cloud"@ != "Remove Folder / Cloud"@,
        "Remove Cloud"@ != "Select All Folders"@,
        "Remove Cloud"@ != "Toggle Selection"@,
        "Remove Cloud"@ != "Navigate to Top"@,
        "Remove Cloud"@ != "Set Cloud Password"@,
        "Delete Folder"@ != "Reload Storage Config"@,
        "Delete Folder"@ != "Create Cloud"@,
        "Delete Folder"@ != "Add Folder"@,
        "Delete Folder"@ != "Remove Folder / Cloud"@,
        "Delete Folder"@ != "Select All Folders"@,
        "Delete Folder"@ != "Toggle Selection"@,
        "Delete Folder"@ != "Navigate to Top"@,
        "Delete Folder"@ != "Set Cloud Password"@,
        "Delete Cloud"@ != "Reload Storage Config"@,
        "Delete Cloud"@ != "Create Cloud"@,
        "Delete Cloud"@ != "Add Folder"@,
        "Delete Cloud"@ != "Remove Folder / Cloud"@,
        "Delete Cloud"@ != "Select All Folders"@,
        "Delete Cloud"@ != "Toggle Selection"@,
        "Delete Cloud"@ != "Navigate to Top"@,
        "Delete Cloud"@ != "Set Cloud Password"@,
        "Select All Sources"@ != "Reload Storage Config"@,
        "Select All Sources"@ != "Create Cloud"@,
        "Select All Sources"@ != "Add Folder"@,
        "Select All Sources"@ != "Remove Folder / Cloud"@,
        "Select All Sources"@ != "Select All Folders"@,
        "Select All Sources"@ != "Toggle Selection"@,
        "Select All Sources"@ != "Navigate to Top"@,
        "Select All Sources"@ != "Set Cloud Password"@,
        "Create Password"@ != "Reload Storage Config"@,
        "Create Password"@ != "Create Cloud"@,
        "Create Password"@ != "Add Folder"@,
        "Create Password"@ != "Remove Folder / Cloud"@,
        "Create Password"@ != "Select All Folders"@,
        "Create Password"@ != "Toggle Selection"@,
        "Create Password"@ != "Navigate to Top"@,
        "Create Password"@ != "Set Cloud Password"@,
        "Set Password"@ != "Reload Storage Config"@,
        "Set Password"@ != "Create Cloud"@,
        "Set Password"@ != "Add Folder"@,
        "Set Password"@ != "Remove Folder / Cloud"@,
        "Set Password"@ != "Select All Folders"@,
        "Set Password"@ != "Toggle Selection"@,
        "Set Password"@ != "Navigate to Top"@,
        "Set Password"@ != "Set Cloud Password"@,
        "Reload Clouds Config"@ != "Reload Storage Config"@,
        "Reload Clouds Config"@ != "Create Cloud"@,
        "Reload Clouds Config"@ != "Add Folder"@,
        "Reload Clouds Config"@ != "Remove Folder / Cloud"@,
        "Reload Clouds Config"@ != "Select All Folders"@,
        "Reload Clouds Config"@ != "Toggle Selection"@,
        "Reload Clouds Config"@ != "Navigate to Top"@,
        "Reload Clouds Config"@ != "Set Cloud Password"@,
        !migration_touches("Execute Action"@),
        "Toggle Selection"@ != "Navigate to Top"@,
        "Toggle Selection"@ != "Create Password"@,
        "Toggle Selection"@ != "Set Password"@,
        "Toggle Selection"@ != "Set Cloud Password"@,
        "Navigate to Top"@ != "Create Password"@,
        "Navigate to Top"@ != "Set Password"@,
        "Navigate to Top"@ != "Set Cloud Password"@,
{
    reveal_strlit("Add Folder");
    reveal_strlit("Add Source / Cloud");
    reveal_strlit("Create Cloud");
    reveal_strlit("Create New");
    reveal_strlit("Create Password");
    reveal_strlit("Delete Cloud");
    reveal_strlit("Delete Folder");
    reveal_strlit("Execute Action");
    reveal_strlit("Navigate to Top");
    reveal_strlit("Reload Clouds Config");
    reveal_strlit("Reload Storage Config");
    reveal_strlit("Remove Cloud");
    reveal_strlit("Remove Folder / Cloud");
    reveal_strlit("Remove Item");
    reveal_strlit("Remove Source");
    reveal_strlit("Select All Folders");
    reveal_strlit("Select All Sources");
    reveal_strlit("Set Cloud Password");
    reveal_strlit("Set Password");
    reveal_strlit("Toggle Selection");
    assert("Add Folder"@.len() == 10);
    assert("Add Source / Cloud"@.len() == 18);
    assert("Create Cloud"@.len() == 12);
    assert("Create New"@.len() == 10);
    assert("Create Password"@.len() == 15);
    assert("Delete Cloud"@.len() == 12);
    assert("Delete Folder"@.len() == 13);
    assert("Execute Action"@.len() == 14);
    assert("Navigate to Top"@.len() == 15);
    assert("Reload Clouds Config"@.len() == 20);
    assert("Reload Storage Config"@.len() == 21);
    assert("Remove Cloud"@.len() == 12);
    assert("Remove Folder / Cloud"@.len() == 21);
    assert("Remove Item"@.len() == 11);
    assert("Remove Source"@.len() == 13);
    assert("Select All Folders"@.len() == 18);
    assert("Select All Sources"@.len() == 18);
    assert("Set Cloud Password"@.len() == 18);
    assert("Set Password"@.len() == 12);
    assert("Toggle Selection"@.len() == 16);
    assert("Create New"@[0] != "Add Folder"@[0]);
    assert("Create New"@[0] != "Add Folder"@[0]);
    assert("Add Source / Cloud"@[0] != "Select All Folders"@[0]);
    assert("Add Source / Cloud"@[0] != "Set Cloud Password"@[0]);
    assert("Add Source / Cloud"@[0] != "Select All Folders"@[0]);
    assert("Add Source / Cloud"@[0] != "Select All Sources"@[0]);
    assert("Add Source / Cloud"@[0] != "Set Cloud Password"@[0]);
    assert("Remove Source"@[0] != "Delete Folder"@[0]);
    assert("Remove Cloud"@[0] != "Create Cloud"@[0]);
    assert("Remove Cloud"@[0] != "Create Cloud"@[0]);
    assert("Remove Cloud"@[0] != "Delete Cloud"@[0]);
    assert("Remove Cloud"@[0] != "Set Password"@[0]);
    assert("Delete Folder"@[0] != "Remove Source"@[0]);
    assert("Delete Cloud"@[0] != "Create Cloud"@[0]);
    assert("Delete Cloud"@[0] != "Create Cloud"@[0]);
    assert("Delete Cloud"@[0] != "Remove Cloud"@[0]);
    assert("Delete Cloud"@[0] != "Set Password"@[0]);
    assert("Select All Sources"@[11] != "Select All Folders"@[11]);
    assert("Select All Sources"@[2] != "Set Cloud Password"@[2]);
    assert("Select All Sources"@[0] != "Add Source / Cloud"@[0]);
    assert("Select All Sources"@[11] != "Select All Folders"@[11]);
    assert("Select All Sources"@[2] != "Set Cloud Password"@[2]);
    assert("Create Password"@[0] != "Navigate to Top"@[0]);
    assert("Create Password"@[0] != "Navigate to Top"@[0]);
    assert("Set Password"@[0] != "Create Cloud"@[0]);
    assert("Set Password"@[0] != "Create Cloud"@[0]);
    assert("Set Password"@[0] != "Remove Cloud"@[0]);
    assert("Set Password"@[0] != "Delete Cloud"@[0]);
    assert("Navigate to Top"@[0] != "Create Password"@[0]);
}

/// `retab` leaves the settings tab as it is.
proof fn lemma_retab_settings()
    ensures
        retab("settings"@) == "settings"@,
{
    reveal_strlit("settings");
    reveal_strlit("clouds");
    reveal_strlit("folders");
    assert("settings"@.len() != "folders"@.len() && "settings"@.len() != "clouds"@.len());
    lemma_plain_name("settings"@);
    let parts = split_on("settings"@, ',').map_values(|s: Seq<char>| rename_tab(trim(s)));
    assert(parts =~= seq!["settings"@]);
}

/// No action of an older name is left before the defaults are added.
proof fn lemma_old_names_removed(m: Map<Seq<char>, ActionView>)
    ensures
        !before_defaults(m).dom().contains("Create New"@),
        !before_defaults(m).dom().contains("Add Source / Cloud"@),
        !before_defaults(m).dom().contains("Remove Source"@),
        !before_defaults(m).dom().contains("Remove Cloud"@),
        !before_defaults(m).dom().contains("Delete Folder"@),
        !before_defaults(m).dom().contains("Delete Cloud"@),
        !before_defaults(m).dom().contains("Select All Sources"@),
        !before_defaults(m).dom().contains("Create Password"@),
        !before_defaults(m).dom().contains("Set Password"@),
        !before_defaults(m).dom().contains("Reload Clouds Config"@),
{
    lemma_step_names_distinct();
}

/// The default keys of "Toggle Selection" and "Navigate to Top".
proof fn lemma_default_fixed_keys()
    ensures
        default_actions()["Toggle Selection"@].keys == seq!["v"@],
        default_actions()["Navigate to Top"@].keys == seq!["gg"@],
{
    reveal_strlit("Navigate to Top");
    reveal_strlit("Navigate to Bottom");
    reveal_strlit("Cycle Focus Forward");
    reveal_strlit("Cycle Focus Backward");
    reveal_strlit("Toggle Debug");
    reveal_strlit("Toggle Help");
    reveal_strlit("Toggle Selection");
    reveal_strlit("Refresh/Reload");
    reveal_strlit("Execute Action");
    assert("Navigate to Top"@.len() == 15);
    assert("Navigate to Bottom"@.len() == 18);
    assert("Cycle Focus Forward"@.len() == 19);
    assert("Cycle Focus Backward"@.len() == 20);
    assert("Toggle Debug"@.len() == 12);
    assert("Toggle Help"@.len() == 11);
    assert("Toggle Selection"@.len() == 16);
    assert("Refresh/Reload"@.len() == 14);
    assert("Execute Action"@.len() == 14);

}

/// What migration leaves of the keys of "Toggle Selection" and "Navigate
/// to Top".
proof fn lemma_fixed_keys(m: Map<Seq<char>, ActionView>)
    ensures
        !binds_key(migrated(m), "Toggle Selection"@, "<leader>"@),
        !binds_key(migrated(m), "Toggle Selection"@, " "@),
        !binds_key(migrated(m), "Navigate to Top"@, "g"@),
{
    lemma_step_names_distinct();
    lemma_default_fixed_keys();
    reveal_strlit("v");
    reveal_strlit("<leader>");
    reveal_strlit(" ");
    reveal_strlit("g");
    reveal_strlit("gg");
    assert("v"@.len() == 1 && "<leader>"@.len() == 8 && "gg"@.len() == 2 && "g"@.len() == 1);
    assert("v"@[0] != " "@[0]);
    let m1 = rename_spec(retab_all_spec(m), "Reload Clouds Config"@, "Reload Storage Config"@);
    let m6 = select_all_step(remove_item_step(add_folder_step(create_cloud_step(m1))));
    let m7 = toggle_selection_step(m6);
    let m8 = navigate_top_step(m7);
    let m9 = password_step(m8);
    assert(m9 == before_defaults(m));
    let ts = "Toggle Selection"@;
    let nt = "Navigate to Top"@;
    if m6.dom().contains(ts) {
        let ks = drop_keys(m6[ts].keys, "<leader>"@, " "@);
        lemma_drop_keys_drops(m6[ts].keys, "<leader>"@, " "@);
        if ensure_key(ks, "v"@).contains("<leader>"@) {
            lemma_ensure_key_holds(ks, "v"@, "<leader>"@);
        }
        if ensure_key(ks, "v"@).contains(" "@) {
            lemma_ensure_key_holds(ks, "v"@, " "@);
        }
        assert(m9[ts] == m7[ts]);
    } else {
        assert(!m9.dom().contains(ts));
        assert(migrated(m)[ts].keys == seq!["v"@]);
    }
    if m7.dom().contains(nt) {
        let ks = drop_keys(m7[nt].keys, "g"@, "g"@);
        lemma_drop_keys_drops(m7[nt].keys, "g"@, "g"@);
        if ensure_key(ks, "gg"@).contains("g"@) {
            lemma_ensure_key_holds(ks, "gg"@, "g"@);
        }
        assert(m9[nt] == m8[nt]);
    } else {
        assert(!m9.dom().contains(nt));
        assert(migrated(m)[nt].keys == seq!["gg"@]);
    }
}

/// Migrated bindings need no further migration, unless "Execute Action" was
/// present without the Enter key or outside the settings tab: migration
/// keeps such an action as it is.
pub proof fn law_migrated_bindings_are_current(m: Map<Seq<char>, ActionView>)
    requires
        m.dom().contains("Execute Action"@) ==> m["Execute Action"@].keys.contains("<Enter>"@)
            && m["Execute Action"@].tab == "settings"@,
    ensures
        !needs_migration_spec(migrated(m)),
{
    let ea = "Execute Action"@;
    let m9 = before_defaults(m);
    let mm = migrated(m);
    assert(mm == defaults_step(m9));
    lemma_step_names_distinct();
    lemma_defaults_have_no_old_name();
    lemma_old_names_removed(m);
    lemma_fixed_keys(m);
    lemma_migrated_tabs_current(m);
    lemma_untouched_action(m, ea);
    lemma_retab_settings();
    if !m.dom().contains(ea) {
        assert(mm[ea] == av(seq!["<Enter>"@], "settings"@));
        assert(seq!["<Enter>"@][0] == "<Enter>"@);
    }
    assert forall|n: Seq<char>| mm.dom().contains(n) implies !#[trigger] has_old_tab_name(mm[n].tab) by {
        assert(tabs_current(mm));
    }
}


/// The settings entries that run a key-binding action are exactly the three
/// reloads, and each action they name is bound by default on the settings
/// tab.
pub proof fn law_settings_reloads_are_bound(a: SettingsAction)
    ensures
        settings_config_action(a) is Some <==> (a == SettingsAction::ReloadTuiConfig || a
            == SettingsAction::ReloadStorageConfig || a == SettingsAction::ReloadAllConfigs),
        settings_config_action(a) matches Some(n) ==> default_actions().dom().contains(n)
            && default_actions()[n].tab == "settings"@ && crate::keymap::applies(
            default_actions()[n].tab,
            "settings"@,
        ),
{
    reveal_strlit("Reload TUI Config");
    reveal_strlit("Reload Storage Config");
    reveal_strlit("Reload All Configs");
    reveal_strlit("Navigate Up");
    reveal_strlit("Navigate Down");
    reveal_strlit("Navigate to Top");
    reveal_strlit("Navigate to Bottom");
    reveal_strlit("Cycle Focus Forward");
    reveal_strlit("Cycle Focus Backward");
    reveal_strlit("Toggle Debug");
    reveal_strlit("Toggle Help");
    reveal_strlit("Toggle Selection");
    reveal_strlit("Refresh/Reload");
    reveal_strlit("Execute Action");
    reveal_strlit("settings");
    assert("Reload TUI Config"@.len() == 17);
    assert("Reload Storage Config"@.len() == 21);
    assert("Reload All Configs"@.len() == 18);
    assert("Navigate Up"@.len() == 11);
    assert("Navigate Down"@.len() == 13);
    assert("Navigate to Top"@.len() == 15);
    assert("Navigate to Bottom"@.len() == 18);
    assert("Cycle Focus Forward"@.len() == 19);
    assert("Cycle Focus Backward"@.len() == 20);
    assert("Toggle Debug"@.len() == 12);
    assert("Toggle Help"@.len() == 11);
    assert("Toggle Selection"@.len() == 16);
    assert("Refresh/Reload"@.len() == 14);
    assert("Execute Action"@.len() == 14);
    assert("Reload All Configs"@[0] != "Navigate to Bottom"@[0]);
    assert("settings"@.len() > 0);
    lemma_plain_name("settings"@);
    assert(trim(split_on("settings"@, ',')[0]) == "settings"@);
}

} // verus!
