//! The terminal front end as a state machine: which tab is shown, what a key
//! press does, and how the dialogs of the storage tab turn into changes of
//! the folder and cloud configuration. Work that needs the outside world
//! (serving a cloud, opening a browser or an editor, reading files) is
//! handed back as an `Effect`; its outcome comes back through a `finish_`
//! method.
use vstd::prelude::*;
use crate::app_state::{
    AppState, Confirmation, ConfirmationAction, Notice, NoticeKind, NOTICE_TIMEOUT_MS, OverlayOutcome,
    cloud_removal_confirmation, folder_removal_confirmation, overlay_key, overlay_outcome,
};
use crate::cloud::{Cloud, CloudFolder, copy_folders, find_folder, folder_names, is_first_index};
use crate::clouds_config::{cloud_names, find_cloud};
use crate::dashboard::DashboardState;
use crate::dispatch::{InputState, KEY_SEQUENCE_TIMEOUT_MS, dispatch_key, key_name};
use crate::app_state::{ActionCommand, action_command, command_of};
use crate::clouds_config::CloudsConfig;
use crate::folders_tab::{CloudEditFocus, FocusedPanel, FolderInputField, FoldersState};
use crate::key::Key;
use crate::text::trim;
use crate::keymap::Config;
use crate::orchestrator::{Orchestrator, StartPlan, running_names};
use crate::settings::{SettingsAction, SettingsState};
use crate::search::{ListSearch, SearchTarget, settings_search_text};
use crate::debug_log::{DebugMessage, level_label};
use crate::text::{concat_str, copy_str};

verus! {

/// The tabs of the front end, in display order.
#[derive(Debug, Clone, Copy, PartialEq, Eq, Structural)]
pub enum AppTab {
    Dashboard,
    Storage,
    Settings,
}

/// Position of a tab.
pub open spec fn app_tab_index(t: AppTab) -> nat {
    match t {
        AppTab::Dashboard => 0,
        AppTab::Storage => 1,
        AppTab::Settings => 2,
    }
}

/// The tab at a position modulo the number of tabs.
pub open spec fn app_tab_at(i: nat) -> AppTab {
    if i % 3 == 0 {
        AppTab::Dashboard
    } else if i % 3 == 1 {
        AppTab::Storage
    } else {
        AppTab::Settings
    }
}

/// The name under which key bindings refer to a tab.
pub open spec fn app_tab_name(t: AppTab) -> Seq<char> {
    match t {
        AppTab::Dashboard => "dashboard"@,
        AppTab::Storage => "storage"@,
        AppTab::Settings => "settings"@,
    }
}

impl AppTab {
    /// The next tab, wrapping around.
    pub fn next(self) -> (res: AppTab)
        ensures
            res == app_tab_at(app_tab_index(self) + 1),
    {
        match self {
            AppTab::Dashboard => AppTab::Storage,
            AppTab::Storage => AppTab::Settings,
            AppTab::Settings => AppTab::Dashboard,
        }
    }

    /// The previous tab, wrapping around.
    pub fn previous(self) -> (res: AppTab)
        ensures
            res == app_tab_at(app_tab_index(self) + 2),
    {
        match self {
            AppTab::Dashboard => AppTab::Settings,
            AppTab::Storage => AppTab::Dashboard,
            AppTab::Settings => AppTab::Storage,
        }
    }

    /// The tab at `index`, counted modulo the number of tabs.
    pub fn at(index: usize) -> (res: AppTab)
        ensures
            res == app_tab_at(index as nat),
    {
        let r = index % 3;
        if r == 0 {
            AppTab::Dashboard
        } else if r == 1 {
            AppTab::Storage
        } else {
            AppTab::Settings
        }
    }

    /// The name key bindings use for the tab.
    pub fn name(self) -> (res: &'static str)
        ensures
            res@ == app_tab_name(self),
    {
        match self {
            AppTab::Dashboard => "dashboard",
            AppTab::Storage => "storage",
            AppTab::Settings => "settings",
        }
    }
}

/// Which configuration file an effect is about.
#[derive(Debug, Clone, Copy, PartialEq, Eq, Structural)]
pub enum ConfigFile {
    Tui,
    Storage,
}

/// What to reload.
#[derive(Debug, Clone, Copy, PartialEq, Eq, Structural)]
pub enum ReloadTarget {
    Tui,
    Storage,
    All,
}

/// Work the front end asks of its surroundings.
pub enum Effect {
    /// Serve a cloud on the port of the plan; the orchestrator already
    /// records it as running.
    Serve(StartPlan),
    /// Stop serving a cloud; the orchestrator no longer records it.
    Halt(String),
    /// Open an address in the browser, then report through `finish_open_url`.
    OpenUrl(String),
    /// Open a configuration file in an editor (writing it first when it is
    /// missing), then report through `finish_open_config`.
    OpenConfig(ConfigFile),
    /// Read configuration again, then report through `finish_tui_reload`
    /// and `finish_storage_reload`.
    Reload(ReloadTarget),
    /// Write the default bindings, then report through `finish_reset`.
    ResetTuiConfig,
    /// Write the folder and cloud configuration.
    SaveStorage,
}

/// Most lines kept in the debug panel.
pub const DEBUG_LINES: usize = 10;

/// The state of the front end.
pub struct App {
    pub state: AppState,
    pub selected_tab: AppTab,
    pub config: Config,
    pub input_state: InputState,
    pub debug_mode: bool,
    pub debug_info: Vec<String>,
    pub notice: Option<Notice>,
    pub pending_confirmation: Option<Confirmation>,
    pub help_open: bool,
    pub orchestrator: Orchestrator,
    pub dashboard: DashboardState,
    pub storage: FoldersState,
    pub settings: SettingsState,
    /// Milliseconds on the caller's clock at the latest event.
    pub now_ms: u64,
    /// The wall-clock time of the latest event, as debug lines show it.
    pub clock_label: String,
    /// Work asked for and not yet taken by the caller, oldest first.
    pub effects: Vec<Effect>,
    /// The activity of the selected cloud's server, oldest first.
    pub activity: Vec<crate::debug_log::DebugMessage>,
    /// The cloud whose activity is shown.
    pub activity_cloud: Option<String>,
    /// The list search in progress, if any.
    pub search: Option<ListSearch>,
}

/// What the caller found at a folder path.
#[derive(Debug, Clone, Copy, PartialEq, Eq, Structural)]
pub enum PathCheck {
    Missing,
    NotDirectory,
    Directory,
}

/// A text field after a key: Backspace drops the last character, a
/// character is appended, other keys leave it.
pub open spec fn typed(s: Seq<char>, key: Key) -> Seq<char> {
    match key {
        Key::Backspace => if s.len() > 0 {
            s.drop_last()
        } else {
            s
        },
        Key::Char(c) => s.push(c),
        _ => s,
    }
}

/// Applies a key to a text field (see `typed`).
fn type_into(s: &mut String, key: Key)
    ensures
        final(s)@ == typed(old(s)@, key),
{
    match key {
        Key::Backspace => {
            let _ = crate::text::pop_char(s);
        },
        Key::Char(c) => crate::text::push_char(s, c),
        _ => {},
    }
}

/// The error shown for a folder path that cannot be used, if any.
pub open spec fn path_problem(path: Seq<char>, check: PathCheck) -> Option<Seq<char>> {
    match check {
        PathCheck::Missing => Some("Path '"@ + path + "' does not exist"@),
        PathCheck::NotDirectory => Some("'"@ + path + "' is not a directory"@),
        PathCheck::Directory => None,
    }
}

/// The message for a path that cannot be used.
fn path_problem_text(path: &str, check: PathCheck) -> (res: Option<String>)
    ensures
        opt_name(res) == path_problem(path@, check),
{
    match check {
        PathCheck::Missing => {
            let a = concat_str("Path '", path);
            Some(concat_str(a.as_str(), "' does not exist"))
        },
        PathCheck::NotDirectory => {
            let a = concat_str("'", path);
            Some(concat_str(a.as_str(), "' is not a directory"))
        },
        PathCheck::Directory => None,
    }
}

/// `‘`, a name, `’`, with text before and after.
pub open spec fn curly(prefix: Seq<char>, name: Seq<char>, suffix: Seq<char>) -> Seq<char> {
    prefix + "‘"@ + name + "’"@ + suffix
}

/// Text with a name in curly quotes.
fn curly_text(prefix: &str, name: &str, suffix: &str) -> (res: String)
    ensures
        res@ == curly(prefix@, name@, suffix@),
{
    let a = concat_str(prefix, "‘");
    let b = concat_str(a.as_str(), name);
    let c = concat_str(b.as_str(), "’");
    concat_str(c.as_str(), suffix)
}

/// The folder views of a list.
pub open spec fn folder_views(v: Seq<CloudFolder>) -> Seq<crate::cloud::CloudFolderView> {
    v.map_values(|f: CloudFolder| f@)
}

/// The cloud views of a list.
pub open spec fn cloud_views(v: Seq<Cloud>) -> Seq<crate::cloud::CloudView> {
    v.map_values(|c: Cloud| c@)
}

/// The name at position `i` of `names`, if there is one.
pub open spec fn name_at(names: Seq<Seq<char>>, i: usize) -> Option<Seq<char>> {
    if i < names.len() {
        Some(names[i as int])
    } else {
        None
    }
}

/// Where a selection lands in a new list of `names`: on the first entry of
/// the previously selected name, else on the first entry, and never past
/// the last one.
pub open spec fn reselect(names: Seq<Seq<char>>, previous: Option<Seq<char>>) -> usize {
    match previous {
        Some(n) => if names.contains(n) {
            (choose|i: int| is_first_index(names, n, i)) as usize
        } else {
            0
        },
        None => 0,
    }
}

/// The selection of a list of `len` entries at `index`: none when empty.
pub open spec fn list_selection(len: nat, index: usize) -> Option<usize> {
    if len > 0 {
        Some(index)
    } else {
        None
    }
}

/// Position of the first entry of `name`, or 0.
fn reselect_folder(v: &Vec<CloudFolder>, name: &Option<String>) -> (res: usize)
    ensures
        res == reselect(folder_names(v@), match name {
            Some(n) => Some(n@),
            None => None,
        }),
        v@.len() > 0 ==> res < v@.len(),
{
    match name {
        Some(n) => match find_folder(v, n.as_str()) {
            Some(i) => {
                proof {
                    let names = folder_names(v@);
                    assert(names[i as int] == n@);
                    assert(names.contains(n@));
                    let c = choose|k: int| is_first_index(names, n@, k);
                    assert(c == i as int) by {
                        if c < i as int {
                            assert(names[c] != n@);
                        } else if c > i as int {
                            assert(names[i as int] != n@);
                        }
                    }
                }
                i
            },
            None => 0,
        },
        None => 0,
    }
}

/// Position of the first cloud named `name`, or 0.
fn reselect_cloud(v: &Vec<Cloud>, name: &Option<String>) -> (res: usize)
    ensures
        res == reselect(cloud_names(v@), match name {
            Some(n) => Some(n@),
            None => None,
        }),
        v@.len() > 0 ==> res < v@.len(),
{
    match name {
        Some(n) => match find_cloud(v, n.as_str()) {
            Some(i) => {
                proof {
                    let names = cloud_names(v@);
                    assert(names[i as int] == n@);
                    assert(names.contains(n@));
                    let c = choose|k: int| is_first_index(names, n@, k);
                    assert(c == i as int) by {
                        if c < i as int {
                            assert(names[c] != n@);
                        } else if c > i as int {
                            assert(names[i as int] != n@);
                        }
                    }
                }
                i
            },
            None => 0,
        },
        None => 0,
    }
}

/// The name of the folder at `i`, if there is one.
fn folder_name_at(v: &Vec<CloudFolder>, i: usize) -> (res: Option<String>)
    ensures
        match res {
            Some(n) => name_at(folder_names(v@), i) == Some(n@),
            None => name_at(folder_names(v@), i) is None,
        },
{
    if i < v.len() {
        Some(copy_str(v[i].name.as_str()))
    } else {
        None
    }
}

/// The name of the cloud at `i`, if there is one.
fn cloud_name_at(v: &Vec<Cloud>, i: usize) -> (res: Option<String>)
    ensures
        match res {
            Some(n) => name_at(cloud_names(v@), i) == Some(n@),
            None => name_at(cloud_names(v@), i) is None,
        },
{
    if i < v.len() {
        Some(copy_str(v[i].name.as_str()))
    } else {
        None
    }
}

/// Whether `names` holds `n`.
fn holds_name(names: &Vec<String>, n: &str) -> (res: bool)
    ensures
        res == names@.map_values(|s: String| s@).contains(n@),
{
    let ghost views = names@.map_values(|s: String| s@);
    let mut i: usize = 0;
    while i < names.len()
        invariant
            i <= names.len(),
            views == names@.map_values(|s: String| s@),
            forall|j: int| 0 <= j < i ==> views[j] != n@,
        decreases names.len() - i,
    {
        if crate::text::str_eq(names[i].as_str(), n) {
            assert(views[i as int] == n@);
            return true;
        }
        i = i + 1;
    }
    false
}

/// The optional name as a view.
pub open spec fn opt_name(o: Option<String>) -> Option<Seq<char>> {
    match o {
        Some(n) => Some(n@),
        None => None,
    }
}

/// What copying the configuration into the tabs gives: the tabs show the
/// orchestrator's folders, clouds and running servers, each selection stays
/// on the entry of the same name, and the marks stay on the folders of the
/// same names.
pub open spec fn sync_done(a: App, b: App) -> bool {
    let cfg = a.orchestrator.clouds_config;
    let folders = cfg.cloud_folders@;
    let clouds = cfg.clouds@;
    let s0 = a.storage;
    let d0 = a.dashboard;
    let s = b.storage;
    let d = b.dashboard;
    &&& folder_views(s.cloud_folders@) == folder_views(folders)
    &&& cloud_views(s.clouds@) == cloud_views(clouds)
    &&& cloud_views(d.clouds@) == cloud_views(clouds)
    &&& s.selected_folder_index == reselect(
        folder_names(folders),
        name_at(folder_names(s0.cloud_folders@), s0.selected_folder_index),
    )
    &&& s.folders_list_state.selected == list_selection(folders.len(), s.selected_folder_index)
    &&& s.selected_cloud_index == reselect(
        cloud_names(clouds),
        name_at(cloud_names(s0.clouds@), s0.selected_cloud_index),
    )
    &&& s.clouds_list_state.selected == list_selection(clouds.len(), s.selected_cloud_index)
    &&& d.selected_cloud_index == reselect(
        cloud_names(clouds),
        name_at(cloud_names(d0.clouds@), d0.selected_cloud_index),
    )
    &&& d.clouds_list_state.selected == list_selection(clouds.len(), d.selected_cloud_index)
    &&& s.selected_folders@ == Set::new(
        |i: usize|
            i < folders.len() && crate::folders_tab::marked_names(
                s0.cloud_folders@,
                s0.selected_folders@,
                s0.cloud_folders@.len(),
            ).contains(folders[i as int].name@),
    )
    &&& running_names(d.running_clouds@) == running_names(a.orchestrator.running_clouds@)
    &&& crate::orchestrator::running_ports(d.running_clouds@) == crate::orchestrator::running_ports(
        a.orchestrator.running_clouds@,
    )
}

/// What copying the configuration into the tabs leaves alone: everything
/// but the lists of the two tabs, their selections and the running list.
#[verifier::opaque]
pub open spec fn sync_frame(a: App, b: App) -> bool {
    &&& b == (App { storage: b.storage, dashboard: b.dashboard, ..a })
    &&& b.storage == (FoldersState {
        cloud_folders: b.storage.cloud_folders,
        selected_folders: b.storage.selected_folders,
        selected_folder_index: b.storage.selected_folder_index,
        folders_list_state: selected_as(
            a.storage.folders_list_state,
            list_selection(b.storage.cloud_folders@.len(), b.storage.selected_folder_index),
        ),
        clouds: b.storage.clouds,
        selected_cloud_index: b.storage.selected_cloud_index,
        clouds_list_state: selected_as(
            a.storage.clouds_list_state,
            list_selection(b.storage.clouds@.len(), b.storage.selected_cloud_index),
        ),
        ..a.storage
    })
    &&& b.dashboard == (DashboardState {
        clouds: b.dashboard.clouds,
        selected_cloud_index: b.dashboard.selected_cloud_index,
        clouds_list_state: selected_as(
            a.dashboard.clouds_list_state,
            list_selection(b.dashboard.clouds@.len(), b.dashboard.selected_cloud_index),
        ),
        running_clouds: b.dashboard.running_clouds,
        ..a.dashboard
    })
}

impl App {
    /// Copies folders, clouds and running servers from the orchestrator into
    /// the tabs, keeping each selection on the entry of the same name and the
    /// marks on the folders of the same names.
    pub fn sync_from_orchestrator(&mut self)
        ensures
            old(self).orchestrator.wf() ==> final(self).orchestrator.wf(),
            sync_done(*old(self), *final(self)),
            sync_frame(*old(self), *final(self)),
            final(self).orchestrator == old(self).orchestrator,
            final(self).selected_tab == old(self).selected_tab,
            final(self).config == old(self).config,
            final(self).pending_confirmation == old(self).pending_confirmation,
            final(self).notice == old(self).notice,
            final(self).state == old(self).state,
            final(self).storage.creating_folder == old(self).storage.creating_folder,
            final(self).storage.creating_cloud == old(self).storage.creating_cloud,
            final(self).storage.editing_folder == old(self).storage.editing_folder,
            final(self).storage.editing_cloud == old(self).storage.editing_cloud,
            final(self).storage.focused_panel == old(self).storage.focused_panel,
            final(self).storage.new_cloud_name == old(self).storage.new_cloud_name,
            final(self).storage.password_creation == old(self).storage.password_creation,
            final(self).dashboard.password_creation == old(self).dashboard.password_creation,
            final(self).dashboard.focused_panel == old(self).dashboard.focused_panel,
            final(self).effects == old(self).effects,
            final(self).help_open == old(self).help_open,
            final(self).debug_info == old(self).debug_info,
            final(self).debug_mode == old(self).debug_mode,
            final(self).input_state == old(self).input_state,
            final(self).settings == old(self).settings,
            final(self).search == old(self).search,
            final(self).activity == old(self).activity,
            final(self).activity_cloud == old(self).activity_cloud,
            final(self).now_ms == old(self).now_ms,
    {
        reveal(sync_frame);
        let marked_names = self.storage.get_selected_folder_names();
        let folder_name = folder_name_at(&self.storage.cloud_folders, self.storage.selected_folder_index);
        let cloud_name = cloud_name_at(&self.storage.clouds, self.storage.selected_cloud_index);
        let server_cloud_name = cloud_name_at(&self.dashboard.clouds, self.dashboard.selected_cloud_index);

        let folders = copy_folders(&self.orchestrator.clouds_config.cloud_folders);
        let clouds = self.orchestrator.get_clouds();
        let dashboard_clouds = self.orchestrator.get_clouds();
        let ghost cfg = self.orchestrator.clouds_config;
        proof {
            assert(folder_views(folders@) == folder_views(cfg.cloud_folders@));
            assert(folders@.len() == folder_views(folders@).len());
            assert(folder_names(folders@) =~= folder_names(cfg.cloud_folders@)) by {
                assert forall|i: int| 0 <= i < folders@.len() implies folder_names(folders@)[i]
                    == folder_names(cfg.cloud_folders@)[i] by {
                    assert(folder_views(folders@)[i] == folders@[i]@);
                    assert(folder_views(cfg.cloud_folders@)[i] == cfg.cloud_folders@[i]@);
                }
            }
            assert(cloud_views(clouds@) == cloud_views(cfg.clouds@));
            assert(clouds@.len() == cloud_views(clouds@).len());
            assert(cloud_names(clouds@) =~= cloud_names(cfg.clouds@)) by {
                assert forall|i: int| 0 <= i < clouds@.len() implies cloud_names(clouds@)[i] == cloud_names(
                    cfg.clouds@,
                )[i] by {
                    assert(cloud_views(clouds@)[i] == clouds@[i]@);
                    assert(cloud_views(cfg.clouds@)[i] == cfg.clouds@[i]@);
                }
            }
            assert(cloud_views(dashboard_clouds@) == cloud_views(cfg.clouds@));
            assert(dashboard_clouds@.len() == cloud_views(dashboard_clouds@).len());
            assert(cloud_names(dashboard_clouds@) =~= cloud_names(cfg.clouds@)) by {
                assert forall|i: int| 0 <= i < dashboard_clouds@.len() implies cloud_names(dashboard_clouds@)[i]
                    == cloud_names(cfg.clouds@)[i] by {
                    assert(cloud_views(dashboard_clouds@)[i] == dashboard_clouds@[i]@);
                    assert(cloud_views(cfg.clouds@)[i] == cfg.clouds@[i]@);
                }
            }
        }

        // marks follow the folder names
        let ghost old_marked = crate::folders_tab::marked_names(
            self.storage.cloud_folders@,
            self.storage.selected_folders@,
            self.storage.cloud_folders@.len(),
        );
        let mut marks: std::collections::HashSet<usize> = std::collections::HashSet::new();
        let mut i: usize = 0;
        while i < folders.len()
            invariant
                i <= folders.len(),
                marked_names@.map_values(|s: String| s@) == old_marked,
                marks@ == Set::new(|j: usize| j < i && old_marked.contains(folders@[j as int].name@)),
            decreases folders.len() - i,
        {
            if holds_name(&marked_names, folders[i].name.as_str()) {
                marks.insert(i);
            }
            assert(marks@ =~= Set::new(|j: usize| j < i + 1 && old_marked.contains(folders@[j as int].name@)));
            i = i + 1;
        }

        let fi = reselect_folder(&folders, &folder_name);
        let ci = reselect_cloud(&clouds, &cloud_name);
        let di = reselect_cloud(&dashboard_clouds, &server_cloud_name);
        let folder_count = folders.len();
        let cloud_count = clouds.len();
        self.storage.cloud_folders = folders;
        self.storage.selected_folders = marks;
        self.storage.selected_folder_index = fi;
        self.storage.folders_list_state.select(if folder_count > 0 { Some(fi) } else { None });
        self.storage.clouds = clouds;
        self.storage.selected_cloud_index = ci;
        self.storage.clouds_list_state.select(if cloud_count > 0 { Some(ci) } else { None });
        self.dashboard.clouds = dashboard_clouds;
        self.dashboard.selected_cloud_index = di;
        self.dashboard.clouds_list_state.select(if cloud_count > 0 { Some(di) } else { None });
        self.dashboard.running_clouds = self.orchestrator.get_running_clouds();
        assert(Set::new(|j: usize| j < folder_count && old_marked.contains(self.storage.cloud_folders@[j as int].name@))
            =~= Set::new(|j: usize| j < folder_count && old_marked.contains(cfg.cloud_folders@[j as int].name@))) by {
            assert forall|j: usize| j < folder_count implies self.storage.cloud_folders@[j as int].name@
                == cfg.cloud_folders@[j as int].name@ by {
                assert(folder_names(self.storage.cloud_folders@)[j as int] == folder_names(cfg.cloud_folders@)[j as int]);
            }
        }
    }

    /// A notice of `kind` with `message` with `message`, shown now.
    pub fn show_notice(&mut self, kind: NoticeKind, message: String)
        ensures
            old(self).orchestrator.wf() ==> final(self).orchestrator.wf(),
            final(self).notice matches Some(n) && n.kind == kind && n.message == message && n.shown_at_ms
                == old(self).now_ms,
            *final(self) == (App { notice: final(self).notice, ..*old(self) }),
            final(self).storage == old(self).storage,
            final(self).dashboard == old(self).dashboard,
            final(self).orchestrator == old(self).orchestrator,
            final(self).selected_tab == old(self).selected_tab,
            final(self).pending_confirmation == old(self).pending_confirmation,
            final(self).state == old(self).state,
            final(self).effects == old(self).effects,
            final(self).config == old(self).config,
            final(self).help_open == old(self).help_open,
            final(self).debug_info == old(self).debug_info,
            final(self).debug_mode == old(self).debug_mode,
            final(self).input_state == old(self).input_state,
            final(self).settings == old(self).settings,
            final(self).now_ms == old(self).now_ms,
            final(self).activity == old(self).activity,
    {
        self.notice = Some(Notice::new(kind, message, self.now_ms));
    }

    /// Drops the notice once it has been shown long enough.
    pub fn dismiss_notice_if_expired(&mut self)
        ensures
            old(self).orchestrator.wf() ==> final(self).orchestrator.wf(),
            final(self).notice == (match old(self).notice {
                Some(n) => if old(self).now_ms > n.shown_at_ms && old(self).now_ms - n.shown_at_ms
                    > NOTICE_TIMEOUT_MS {
                    None
                } else {
                    Some(n)
                },
                None => None,
            }),
            *final(self) == (App { notice: final(self).notice, ..*old(self) }),
    {
        let expired = match &self.notice {
            Some(n) => n.is_expired(self.now_ms),
            None => false,
        };
        if expired {
            self.notice = None;
        }
    }

    /// Adds a line to the debug panel while debug mode is on, keeping the
    /// latest `DEBUG_LINES`.
    pub fn add_debug(&mut self, message: &str)
        ensures
            old(self).orchestrator.wf() ==> final(self).orchestrator.wf(),
            !old(self).debug_mode ==> final(self).debug_info@ == old(self).debug_info@,
            old(self).debug_info@.len() <= DEBUG_LINES ==> final(self).debug_info@.len() <= DEBUG_LINES,
            old(self).debug_mode ==> final(self).debug_info@.len() > 0 && final(self).debug_info@.last()@
                == "["@ + old(self).clock_label@ + "] "@ + message@,
            *final(self) == (App { debug_info: final(self).debug_info, ..*old(self) }),
            final(self).storage == old(self).storage,
            final(self).dashboard == old(self).dashboard,
            final(self).orchestrator == old(self).orchestrator,
            final(self).notice == old(self).notice,
            final(self).selected_tab == old(self).selected_tab,
            final(self).pending_confirmation == old(self).pending_confirmation,
            final(self).state == old(self).state,
            final(self).debug_mode == old(self).debug_mode,
            final(self).effects == old(self).effects,
            final(self).config == old(self).config,
            final(self).help_open == old(self).help_open,
            final(self).input_state == old(self).input_state,
            final(self).settings == old(self).settings,
            final(self).now_ms == old(self).now_ms,
            final(self).activity == old(self).activity,
    {
        if self.debug_mode {
            let open = concat_str("[", self.clock_label.as_str());
            let stamp = concat_str(open.as_str(), "] ");
            let line = concat_str(stamp.as_str(), message);
            self.debug_info.push(line);
            if self.debug_info.len() > DEBUG_LINES {
                self.debug_info.remove(0);
            }
        }
    }

    /// Turns debug mode on or off; turning it off clears the panel.
    pub fn toggle_debug(&mut self)
        ensures
            old(self).orchestrator.wf() ==> final(self).orchestrator.wf(),
            final(self).debug_mode == !old(self).debug_mode,
            old(self).debug_mode ==> final(self).debug_info@.len() == 0,
            !old(self).debug_mode ==> final(self).debug_info@.len() > 0 && final(self).debug_info@.last()@
                == "["@ + old(self).clock_label@ + "] "@ + "Debug mode enabled"@,
            *final(self) == (App {
                debug_mode: !old(self).debug_mode,
                debug_info: final(self).debug_info,
                ..*old(self)
            }),
    {
        self.debug_mode = !self.debug_mode;
        if self.debug_mode {
            self.add_debug("Debug mode enabled");
        } else {
            self.debug_info.clear();
        }
    }

    /// Ends the main loop.
    pub fn quit(&mut self)
        ensures
            old(self).orchestrator.wf() ==> final(self).orchestrator.wf(),
            final(self).state == AppState::Quitting,
            *final(self) == (App { state: AppState::Quitting, ..*old(self) }),
    {
        self.state = AppState::Quitting;
    }

    /// Shows the next tab.
    pub fn next_tab(&mut self)
        ensures
            old(self).orchestrator.wf() ==> final(self).orchestrator.wf(),
            final(self).selected_tab == app_tab_at(app_tab_index(old(self).selected_tab) + 1),
            *final(self) == (App {
                selected_tab: final(self).selected_tab,
                debug_info: final(self).debug_info,
                ..*old(self)
            }),
    {
        self.selected_tab = self.selected_tab.next();
        self.add_debug("next_tab");
    }

    /// Shows the previous tab.
    pub fn previous_tab(&mut self)
        ensures
            old(self).orchestrator.wf() ==> final(self).orchestrator.wf(),
            final(self).selected_tab == app_tab_at(app_tab_index(old(self).selected_tab) + 2),
            *final(self) == (App {
                selected_tab: final(self).selected_tab,
                debug_info: final(self).debug_info,
                ..*old(self)
            }),
    {
        self.selected_tab = self.selected_tab.previous();
        self.add_debug("previous_tab");
    }

    /// Shows the tab at `index`, counted modulo the number of tabs.
    pub fn goto_tab(&mut self, index: usize)
        ensures
            old(self).orchestrator.wf() ==> final(self).orchestrator.wf(),
            final(self).selected_tab == app_tab_at(index as nat),
            *final(self) == (App { selected_tab: app_tab_at(index as nat), ..*old(self) }),
    {
        self.selected_tab = AppTab::at(index);
    }
}

/// What completing the folder dialog does (see `App::complete_folder_creation`).
pub open spec fn folder_creation_outcome(pre: App, post: App, check: PathCheck) -> bool {
    let name = trim(pre.storage.new_folder_name@);
    let path = trim(pre.storage.new_folder_path@);
    let folders0 = pre.orchestrator.clouds_config.cloud_folders@;
    let err = post.storage.folder_creation_error;
    let refused = name.len() == 0 || path_problem(path, check) is Some || folder_names(folders0).contains(name);
    &&& name.len() == 0 ==> (err matches Some(e) && e@ == "Folder name cannot be empty"@)
    &&& name.len() > 0 && path_problem(path, check) is Some ==> (err matches Some(e) && Some(e@) == path_problem(
        path,
        check,
    ))
    &&& name.len() > 0 && path_problem(path, check) is None && folder_names(folders0).contains(name) ==> (
    err matches Some(e) && e@ == "Validation error: "@ + crate::clouds_config::folder_exists_msg(name))
    &&& refused ==> {
        &&& post.orchestrator.clouds_config.cloud_folders@ == folders0
        &&& post.storage.creating_folder == pre.storage.creating_folder
        &&& post.effects == pre.effects
    }
    &&& !refused ==> {
        &&& folder_views(post.orchestrator.clouds_config.cloud_folders@) == folder_views(folders0).push(
            crate::cloud::CloudFolderView { name, folder_path: path },
        )
        &&& !post.storage.creating_folder
        &&& err is None
        &&& post.notice matches Some(n) && n.kind == NoticeKind::Success && n.message@ == curly(
            "Added folder "@,
            name,
            "."@,
        )
        &&& post.effects@ == pre.effects@.push(Effect::SaveStorage)
    }
    &&& post.orchestrator.clouds_config.clouds@ == pre.orchestrator.clouds_config.clouds@
    &&& post.orchestrator.running_clouds == pre.orchestrator.running_clouds
    &&& post.selected_tab == pre.selected_tab
    &&& post.state == pre.state
}

impl App {
    /// Hands the pending work to the caller.
    pub fn take_effects(&mut self) -> (res: Vec<Effect>)
        ensures
            res@ == old(self).effects@,
            final(self).effects@.len() == 0,
    {
        let mut taken: Vec<Effect> = Vec::new();
        std::mem::swap(&mut taken, &mut self.effects);
        taken
    }

    /// Opens the folder dialog on the storage tab.
    pub fn start_adding_folder(&mut self)
        ensures
            old(self).orchestrator.wf() ==> final(self).orchestrator.wf(),
            folder_dialog_opened(*old(self), *final(self)),
    {
        reveal(folder_dialog_opened);
        if self.selected_tab == AppTab::Storage {
            self.storage.creating_folder = true;
            self.storage.new_folder_name = String::new();
            self.storage.new_folder_path = String::new();
            self.storage.folder_input_field = FolderInputField::Name;
            self.storage.folder_creation_error = None;
        }
    }

    /// Adds the folder of the dialog: the name and the path are trimmed; an
    /// empty name, a path that is missing or no directory, and a name
    /// already taken are shown in the dialog. On success the dialog closes
    /// and the configuration is saved.
    pub fn complete_folder_creation(&mut self, check: PathCheck)
        ensures
            old(self).orchestrator.wf() ==> final(self).orchestrator.wf(),
            folder_creation_outcome(*old(self), *final(self), check),
    {
        let name = crate::text::trim_str(self.storage.new_folder_name.as_str());
        let path = crate::text::trim_str(self.storage.new_folder_path.as_str());
        if name.as_str().unicode_len() == 0 {
            self.storage.folder_creation_error = Some(String::from_str("Folder name cannot be empty"));
            return;
        }
        match path_problem_text(path.as_str(), check) {
            Some(problem) => {
                self.storage.folder_creation_error = Some(problem);
                return;
            },
            None => {},
        }
        let folder = CloudFolder::new(copy_str(name.as_str()), copy_str(path.as_str()));
        let ghost folders0 = self.orchestrator.clouds_config.cloud_folders@;
        let ghost fv = folder@;
        match self.orchestrator.clouds_config.add_cloud_folder(folder) {
            Err(e) => {
                self.storage.folder_creation_error = Some(e.message());
            },
            Ok(()) => {
                assert(folder_views(self.orchestrator.clouds_config.cloud_folders@) =~= folder_views(
                    folders0,
                ).push(fv));
                self.sync_from_orchestrator();
                let line = concat_str("Added folder ", name.as_str());
                self.add_debug(line.as_str());
                let msg = curly_text("Added folder ", name.as_str(), ".");
                self.show_notice(NoticeKind::Success, msg);
                self.storage.creating_folder = false;
                self.storage.folder_creation_error = None;
                self.effects.push(Effect::SaveStorage);
            },
        }
    }
}

/// The other field of a folder dialog.
pub open spec fn other_field(f: FolderInputField) -> FolderInputField {
    match f {
        FolderInputField::Name => FolderInputField::Path,
        FolderInputField::Path => FolderInputField::Name,
    }
}

/// Keys a text dialog takes.
pub open spec fn is_dialog_key(key: Key) -> bool {
    key == Key::Esc || key == Key::Enter || key == Key::Tab || key == Key::BackTab || key == Key::Backspace
        || key is Char
}

/// What a key does in the folder dialog (see `App::handle_folder_creation_input`).
pub open spec fn folder_dialog_step(pre: App, post: App, key: Key, check: PathCheck) -> bool {
    let s0 = pre.storage;
    let s = post.storage;
    if key == Key::Esc {
        !s.creating_folder && s.folder_creation_error is None && post.orchestrator == pre.orchestrator
    } else if key == Key::Enter {
        if s0.folder_input_field == FolderInputField::Name {
            &&& s.folder_input_field == (if s0.new_folder_name@.len() > 0 {
                FolderInputField::Path
            } else {
                FolderInputField::Name
            })
            &&& s.creating_folder == s0.creating_folder
            &&& post.orchestrator == pre.orchestrator
        } else if s0.new_folder_path@.len() > 0 {
            folder_creation_outcome(pre, post, check)
        } else {
            post.storage == pre.storage && post.orchestrator == pre.orchestrator
        }
    } else if key == Key::Tab || key == Key::BackTab {
        s.folder_input_field == other_field(s0.folder_input_field) && s.creating_folder == s0.creating_folder
            && post.orchestrator == pre.orchestrator
    } else if key == Key::Backspace || key is Char {
        &&& s0.folder_input_field == FolderInputField::Name ==> s.new_folder_name@ == typed(
            s0.new_folder_name@,
            key,
        ) && s.new_folder_path == s0.new_folder_path
        &&& s0.folder_input_field == FolderInputField::Path ==> s.new_folder_path@ == typed(
            s0.new_folder_path@,
            key,
        ) && s.new_folder_name == s0.new_folder_name
        &&& s.folder_input_field == s0.folder_input_field
        &&& s.creating_folder == s0.creating_folder
        &&& post.orchestrator == pre.orchestrator
    } else {
        post.storage == pre.storage && post.orchestrator == pre.orchestrator
    }
}

impl App {
    /// Passes a key to the folder dialog; `check` is what the caller found
    /// at the trimmed path of the dialog. Returns whether the key was taken.
    pub fn handle_folder_creation_input(&mut self, key: Key, check: PathCheck) -> (handled: bool)
        ensures
            old(self).orchestrator.wf() ==> final(self).orchestrator.wf(),
            handled == is_dialog_key(key),
            folder_dialog_step(*old(self), *final(self), key, check),
    {
        match key {
            Key::Esc => {
                self.storage.creating_folder = false;
                self.storage.folder_creation_error = None;
                true
            },
            Key::Enter => {
                match self.storage.folder_input_field {
                    FolderInputField::Name => {
                        if self.storage.new_folder_name.as_str().unicode_len() > 0 {
                            self.storage.folder_input_field = FolderInputField::Path;
                        }
                    },
                    FolderInputField::Path => {
                        if self.storage.new_folder_path.as_str().unicode_len() > 0 {
                            self.complete_folder_creation(check);
                        }
                    },
                }
                true
            },
            Key::Tab | Key::BackTab => {
                self.storage.folder_input_field = match self.storage.folder_input_field {
                    FolderInputField::Name => FolderInputField::Path,
                    FolderInputField::Path => FolderInputField::Name,
                };
                true
            },
            Key::Backspace | Key::Char(_) => {
                match self.storage.folder_input_field {
                    FolderInputField::Name => type_into(&mut self.storage.new_folder_name, key),
                    FolderInputField::Path => type_into(&mut self.storage.new_folder_path, key),
                }
                true
            },
            _ => false,
        }
    }
}

/// What completing the folder edit dialog does (see `App::complete_folder_edit`).
pub open spec fn folder_edit_outcome(pre: App, post: App, check: PathCheck) -> bool {
    let name = trim(pre.storage.edit_folder_name@);
    let path = trim(pre.storage.edit_folder_path@);
    let old_name = pre.storage.edit_folder_original_name@;
    let folders0 = pre.orchestrator.clouds_config.cloud_folders@;
    let err = post.storage.folder_edit_error;
    let taken = old_name != name && folder_names(folders0).contains(name);
    let missing = !taken && !folder_names(folders0).contains(old_name);
    let refused = name.len() == 0 || path_problem(path, check) is Some || taken || missing;
    &&& name.len() == 0 ==> (err matches Some(e) && e@ == "Folder name cannot be empty"@)
    &&& name.len() > 0 && path_problem(path, check) is Some ==> (err matches Some(e) && Some(e@) == path_problem(
        path,
        check,
    ))
    &&& name.len() > 0 && path_problem(path, check) is None && taken ==> (err matches Some(e) && e@
        == "Validation error: "@ + crate::clouds_config::folder_exists_msg(name))
    &&& name.len() > 0 && path_problem(path, check) is None && missing ==> (err matches Some(e) && e@
        == "Validation error: "@ + crate::clouds_config::folder_missing_msg(old_name))
    &&& refused ==> {
        &&& post.orchestrator.clouds_config.cloud_folders@ == folders0
        &&& post.storage.editing_folder == pre.storage.editing_folder
        &&& post.effects == pre.effects
    }
    &&& !refused ==> {
        &&& exists|i: int|
            is_first_index(folder_names(folders0), old_name, i) && folder_views(
                post.orchestrator.clouds_config.cloud_folders@,
            ) == folder_views(folders0).update(i, crate::cloud::CloudFolderView { name, folder_path: path })
        &&& !post.storage.editing_folder
        &&& err is None
        &&& post.notice matches Some(n) && n.kind == NoticeKind::Success && n.message@ == curly(
            "Updated folder "@,
            name,
            "."@,
        )
        &&& post.effects@ == pre.effects@.push(Effect::SaveStorage)
    }
    &&& post.orchestrator.clouds_config.clouds@ == pre.orchestrator.clouds_config.clouds@
    &&& post.orchestrator.running_clouds == pre.orchestrator.running_clouds
    &&& post.selected_tab == pre.selected_tab
    &&& post.state == pre.state
}

impl App {
    /// Saves the folder edit dialog: the name and path are trimmed; an empty
    /// name, an unusable path, a name of another folder and a folder that
    /// is gone are shown in the dialog. On success the dialog closes and the
    /// configuration is saved.
    pub fn complete_folder_edit(&mut self, check: PathCheck)
        ensures
            old(self).orchestrator.wf() ==> final(self).orchestrator.wf(),
            folder_edit_outcome(*old(self), *final(self), check),
    {
        let name = crate::text::trim_str(self.storage.edit_folder_name.as_str());
        let path = crate::text::trim_str(self.storage.edit_folder_path.as_str());
        let old_name = copy_str(self.storage.edit_folder_original_name.as_str());
        if name.as_str().unicode_len() == 0 {
            self.storage.folder_edit_error = Some(String::from_str("Folder name cannot be empty"));
            return;
        }
        match path_problem_text(path.as_str(), check) {
            Some(problem) => {
                self.storage.folder_edit_error = Some(problem);
                return;
            },
            None => {},
        }
        let folder = CloudFolder::new(copy_str(name.as_str()), copy_str(path.as_str()));
        let ghost folders0 = self.orchestrator.clouds_config.cloud_folders@;
        let ghost fv = folder@;
        match self.orchestrator.clouds_config.update_cloud_folder(old_name.as_str(), folder) {
            Err(e) => {
                self.storage.folder_edit_error = Some(e.message());
            },
            Ok(()) => {
                proof {
                    let i = choose|i: int|
                        is_first_index(folder_names(folders0), old_name@, i)
                            && self.orchestrator.clouds_config.cloud_folders@ == folders0.update(i, folder);
                    assert(folder_views(self.orchestrator.clouds_config.cloud_folders@) =~= folder_views(
                        folders0,
                    ).update(i, fv));
                }
                self.sync_from_orchestrator();
                let line = concat_str("Updated folder ", name.as_str());
                self.add_debug(line.as_str());
                let msg = curly_text("Updated folder ", name.as_str(), ".");
                self.show_notice(NoticeKind::Success, msg);
                self.storage.editing_folder = false;
                self.storage.edit_folder_original_name = String::new();
                self.storage.edit_folder_name = String::new();
                self.storage.edit_folder_path = String::new();
                self.storage.folder_edit_error = None;
                self.effects.push(Effect::SaveStorage);
            },
        }
    }
}

/// The first folder of `v` named `n`.
pub open spec fn first_folder(v: Seq<CloudFolder>, n: Seq<char>) -> CloudFolder {
    v[choose|i: int| is_first_index(folder_names(v), n, i)]
}

/// For each name, the view of the first folder of that name.
pub open spec fn chosen_folders(v: Seq<CloudFolder>, names: Seq<Seq<char>>) -> Seq<crate::cloud::CloudFolderView> {
    names.map_values(|n: Seq<char>| first_folder(v, n)@)
}

/// Every marked name is the name of a folder.
proof fn lemma_marked_names_present(v: Seq<CloudFolder>, marked: Set<usize>, upto: nat)
    ensures
        forall|j: int|
            0 <= j < crate::folders_tab::marked_names(v, marked, upto).len() ==> folder_names(v).contains(
                #[trigger] crate::folders_tab::marked_names(v, marked, upto)[j],
            ),
    decreases upto,
{
    if upto > 0 {
        lemma_marked_names_present(v, marked, (upto - 1) as nat);
        let i = (upto - 1) as usize;
        let rest = crate::folders_tab::marked_names(v, marked, (upto - 1) as nat);
        let all = crate::folders_tab::marked_names(v, marked, upto);
        if marked.contains(i) && i < v.len() {
            assert(folder_names(v)[i as int] == v[i as int].name@);
            assert(all == rest.push(v[i as int].name@));
            assert forall|j: int| 0 <= j < all.len() implies folder_names(v).contains(#[trigger] all[j]) by {
                if j < rest.len() {
                    assert(all[j] == rest[j]);
                } else {
                    assert(all[j] == folder_names(v)[i as int]);
                }
            }
        } else {
            assert(all == rest);
        }
    }
}

/// The folders of `v` named by `names`, first of each name; names not
/// found are skipped.
fn folders_named(v: &Vec<CloudFolder>, names: &Vec<String>) -> (res: Vec<CloudFolder>)
    requires
        forall|j: int| 0 <= j < names@.len() ==> folder_names(v@).contains(#[trigger] names@[j]@),
    ensures
        folder_views(res@) == chosen_folders(v@, names@.map_values(|s: String| s@)),
{
    let ghost ns = names@.map_values(|s: String| s@);
    let mut res: Vec<CloudFolder> = Vec::new();
    let mut k: usize = 0;
    while k < names.len()
        invariant
            k <= names.len(),
            ns == names@.map_values(|s: String| s@),
            forall|j: int| 0 <= j < names@.len() ==> folder_names(v@).contains(#[trigger] names@[j]@),
            folder_views(res@) == chosen_folders(v@, ns.take(k as int)),
        decreases names.len() - k,
    {
        let ghost before = res@;
        assert(folder_names(v@).contains(names@[k as int]@));
        match find_folder(v, names[k].as_str()) {
            Some(i) => {
                res.push(v[i].copy());
                proof {
                    let n = names@[k as int]@;
                    let c = choose|q: int| is_first_index(folder_names(v@), n, q);
                    assert(c == i as int) by {
                        if c < i as int {
                            assert(folder_names(v@)[c] != n);
                        } else if c > i as int {
                            assert(folder_names(v@)[i as int] != n);
                        }
                    }
                    assert(ns.take(k + 1) =~= ns.take(k as int).push(n));
                    assert(folder_views(res@) =~= folder_views(before).push(v@[i as int]@));
                    assert(chosen_folders(v@, ns.take(k + 1)) =~= chosen_folders(v@, ns.take(k as int)).push(
                        first_folder(v@, n)@,
                    ));
                }
            },
            None => {
                assert(false);
            },
        }
        k = k + 1;
    }
    assert(ns.take(names@.len() as int) =~= ns);
    res
}

/// The names marked in the storage tab.
pub open spec fn storage_marked_names(s: FoldersState) -> Seq<Seq<char>> {
    crate::folders_tab::marked_names(s.cloud_folders@, s.selected_folders@, s.cloud_folders@.len())
}

/// What completing the cloud dialog does (see `App::complete_cloud_creation`).
pub open spec fn cloud_creation_outcome(pre: App, post: App) -> bool {
    let name = trim(pre.storage.new_cloud_name@);
    let marked = storage_marked_names(pre.storage);
    let clouds0 = pre.orchestrator.clouds_config.clouds@;
    let err = post.storage.cloud_creation_error;
    let refused = name.len() == 0 || marked.len() == 0 || cloud_names(clouds0).contains(name);
    &&& name.len() == 0 ==> (err matches Some(e) && e@ == "Cloud name cannot be empty"@)
    &&& name.len() > 0 && marked.len() == 0 ==> (err matches Some(e) && e@
        == "Select at least one folder before creating a cloud."@)
    &&& name.len() > 0 && marked.len() > 0 && cloud_names(clouds0).contains(name) ==> (err matches Some(e)
        && e@ == "Validation error: "@ + crate::clouds_config::cloud_exists_msg(name))
    &&& refused ==> {
        &&& post.orchestrator.clouds_config.clouds@ == clouds0
        &&& post.storage.creating_cloud == pre.storage.creating_cloud
        &&& post.storage.password_creation == pre.storage.password_creation
        &&& post.effects == pre.effects
    }
    &&& !refused ==> {
        let c = post.orchestrator.clouds_config.clouds@.last();
        &&& post.orchestrator.clouds_config.clouds@.len() == clouds0.len() + 1
        &&& post.orchestrator.clouds_config.clouds@.drop_last() == clouds0
        &&& c.name@ == name
        &&& folder_views(c.cloud_folders@) == chosen_folders(pre.storage.cloud_folders@, marked)
        &&& c.password_hash is None
        &&& post.storage.selected_folders@ == Set::<usize>::empty()
        &&& post.storage.password_creation@ == crate::password::fresh_password(true)
        &&& post.notice matches Some(n) && n.kind == NoticeKind::Success && n.message@ == curly(
            "Created cloud "@,
            name,
            ". Set a password to finish."@,
        )
        &&& post.effects@ == pre.effects@.push(Effect::SaveStorage)
    }
    &&& post.orchestrator.clouds_config.cloud_folders@ == pre.orchestrator.clouds_config.cloud_folders@
    &&& post.orchestrator.running_clouds == pre.orchestrator.running_clouds
    &&& post.selected_tab == pre.selected_tab
    &&& post.state == pre.state
}

impl App {
    /// Opens the cloud dialog on the storage tab once a folder is marked;
    /// without marks a warning is shown instead.
    pub fn start_creating_cloud(&mut self)
        ensures
            old(self).orchestrator.wf() ==> final(self).orchestrator.wf(),
            cloud_dialog_opened(*old(self), *final(self)),
    {
        reveal(cloud_dialog_opened);
        if self.selected_tab == AppTab::Storage {
            if self.storage.get_selected_folders_count() == 0 {
                self.show_notice(
                    NoticeKind::Warning,
                    String::from_str("Select at least one folder before creating a cloud."),
                );
                return;
            }
            self.storage.start_creating_cloud();
        }
    }

    /// Creates the cloud of the dialog from the marked folders: the name is
    /// trimmed; an empty name, no marked folder and a name already taken are
    /// shown in the dialog. On success the marks are cleared, password entry
    /// opens for the new cloud and the configuration is saved.
    pub fn complete_cloud_creation(&mut self)
        ensures
            old(self).orchestrator.wf() ==> final(self).orchestrator.wf(),
            cloud_creation_outcome(*old(self), *final(self)),
    {
        let name = crate::text::trim_str(self.storage.new_cloud_name.as_str());
        if name.as_str().unicode_len() == 0 {
            self.storage.cloud_creation_error = Some(String::from_str("Cloud name cannot be empty"));
            return;
        }
        let marked = self.storage.get_selected_folder_names();
        if marked.len() == 0 {
            self.storage.cloud_creation_error = Some(
                String::from_str("Select at least one folder before creating a cloud."),
            );
            return;
        }
        proof {
            lemma_marked_names_present(
                self.storage.cloud_folders@,
                self.storage.selected_folders@,
                self.storage.cloud_folders@.len(),
            );
            assert forall|j: int| 0 <= j < marked@.len() implies folder_names(self.storage.cloud_folders@).contains(
                #[trigger] marked@[j]@,
            ) by {
                assert(marked@.map_values(|s: String| s@)[j] == marked@[j]@);
            }
        }
        let folders = folders_named(&self.storage.cloud_folders, &marked);
        assert(folders@.len() == folder_views(folders@).len());
        assert(folders@.len() == marked@.len());
        let cloud = Cloud::new(copy_str(name.as_str()), folders);
        let ghost clouds0 = self.orchestrator.clouds_config.clouds@;
        match self.orchestrator.clouds_config.add_cloud(cloud) {
            Err(e) => {
                self.storage.cloud_creation_error = Some(e.message());
            },
            Ok(()) => {
                assert(self.orchestrator.clouds_config.clouds@.drop_last() =~= clouds0);
                self.sync_from_orchestrator();
                let line = concat_str("Created cloud ", name.as_str());
                self.add_debug(line.as_str());
                let msg = curly_text("Created cloud ", name.as_str(), ". Set a password to finish.");
                self.show_notice(NoticeKind::Success, msg);
                self.storage.clear_folder_selections();
                self.storage.password_creation.start_creating_password();
                self.effects.push(Effect::SaveStorage);
            },
        }
    }
}

/// The character password entry gets for a key: Enter submits, Esc
/// cancels, Backspace deletes; `None` for keys it does not take.
pub open spec fn password_char(key: Key) -> Option<char> {
    match key {
        Key::Char(c) => Some(c),
        Key::Enter => Some('\n'),
        Key::Esc => Some('\x1b'),
        Key::Backspace => Some('\x08'),
        _ => None,
    }
}

/// `password_char` on a key.
fn password_char_of(key: Key) -> (res: Option<char>)
    ensures
        res == password_char(key),
{
    match key {
        Key::Char(c) => Some(c),
        Key::Enter => Some('\n'),
        Key::Esc => Some('\x1b'),
        Key::Backspace => Some('\x08'),
        _ => None,
    }
}

/// The cloud whose password the storage tab sets: the new cloud while one
/// is being created, else the selected cloud.
pub open spec fn storage_password_target(s: FoldersState) -> Option<Seq<char>> {
    if s.new_cloud_name@.len() > 0 {
        Some(trim(s.new_cloud_name@))
    } else if s.selected_cloud_index < s.clouds@.len() {
        Some(s.clouds@[s.selected_cloud_index as int].name@)
    } else {
        None
    }
}

/// Whether finishing password entry on the storage tab sets a password:
/// the storage tab is shown, the entry `pw` is complete, and there is a
/// cloud to set it for.
pub open spec fn storage_password_due(pre: App, pw: crate::password::PasswordView) -> bool {
    pre.selected_tab == AppTab::Storage && crate::password::password_complete(pw) && storage_password_target(
        pre.storage,
    ) is Some
}

/// What setting the password `pw.input` for the storage tab's cloud does
/// (see `App::complete_cloud_password_creation`).
pub open spec fn storage_password_set(pre: App, post: App, pw: crate::password::PasswordView) -> bool {
    let s0 = pre.storage;
    let s = post.storage;
    let name = storage_password_target(s0)->Some_0;
    let set = {
        &&& cloud_names(pre.orchestrator.clouds_config.clouds@).contains(name)
        &&& post.orchestrator.password_accepted(name, pw.input)
        &&& s.password_creation@ == crate::password::fresh_password(false)
        &&& (s0.new_cloud_name@.len() > 0 ==> !s.creating_cloud && s.new_cloud_name@.len() == 0)
        &&& post.notice matches Some(n) && n.kind == NoticeKind::Success && n.message@ == curly(
            "Password updated for cloud "@,
            name,
            "."@,
        )
        &&& post.effects@ == pre.effects@.push(Effect::SaveStorage)
    };
    let refused = {
        &&& s.password_creation.password_error is Some
        &&& post.orchestrator.clouds_config.clouds@ == pre.orchestrator.clouds_config.clouds@
        &&& post.effects == pre.effects
    };
    &&& set || refused
    &&& !cloud_names(pre.orchestrator.clouds_config.clouds@).contains(name) ==> refused
    &&& post.orchestrator.clouds_config.cloud_folders@ == pre.orchestrator.clouds_config.cloud_folders@
    &&& post.orchestrator.running_clouds@ == pre.orchestrator.running_clouds@
    &&& post.orchestrator.next_port == pre.orchestrator.next_port
}

impl App {
    /// Sets the password typed on the storage tab for its cloud (see
    /// `storage_password_target`) once entry is complete.
    pub fn complete_cloud_password_creation(&mut self)
        ensures
            old(self).orchestrator.wf() ==> final(self).orchestrator.wf(),
            storage_password_due(*old(self), old(self).storage.password_creation@) ==> storage_password_set(
                *old(self),
                *final(self),
                old(self).storage.password_creation@,
            ),
            !storage_password_due(*old(self), old(self).storage.password_creation@) ==> final(self).storage
                == old(self).storage && final(self).orchestrator == old(self).orchestrator && final(self).effects
                == old(self).effects,
            final(self).selected_tab == old(self).selected_tab,
            final(self).state == old(self).state,
    {
        if !(self.selected_tab == AppTab::Storage && self.storage.password_creation.is_password_creation_complete()) {
            return;
        }
        let name = if self.storage.new_cloud_name.as_str().unicode_len() > 0 {
            crate::text::trim_str(self.storage.new_cloud_name.as_str())
        } else if self.storage.selected_cloud_index < self.storage.clouds.len() {
            copy_str(self.storage.clouds[self.storage.selected_cloud_index].name.as_str())
        } else {
            return;
        };
        let password = copy_str(self.storage.password_creation.get_password());
        match self.orchestrator.set_cloud_password(name.as_str(), password.as_str()) {
            Err(e) => {
                self.storage.password_creation.password_error = Some(e.message());
            },
            Ok(()) => {
                let line = concat_str("Password set successfully for cloud ", name.as_str());
                self.add_debug(line.as_str());
                let msg = curly_text("Password updated for cloud ", name.as_str(), ".");
                self.show_notice(NoticeKind::Success, msg);
                self.storage.password_creation.clear_password_creation();
                if self.storage.new_cloud_name.as_str().unicode_len() > 0 {
                    self.storage.clear_cloud_creation();
                }
                self.effects.push(Effect::SaveStorage);
            },
        }
    }

    /// Passes a key to password entry on the storage tab; Tab is taken and
    /// ignored. Returns whether the key was taken.
    pub fn handle_password_creation_input(&mut self, key: Key) -> (handled: bool)
        ensures
            old(self).orchestrator.wf() ==> final(self).orchestrator.wf(),
            handled == (password_char(key) is Some || key == Key::Tab || key == Key::BackTab),
            password_char(key) is None ==> final(self).storage == old(self).storage && final(self).orchestrator
                == old(self).orchestrator,
            password_char(key) matches Some(c) ==> ({
                let pw = crate::password::password_step(old(self).storage.password_creation@, c);
                &&& storage_password_due(*old(self), pw) ==> storage_password_set(*old(self), *final(self), pw)
                &&& !storage_password_due(*old(self), pw) ==> final(self).storage.password_creation@ == pw
                    && final(self).orchestrator == old(self).orchestrator && final(self).effects == old(self).effects
            }),
            final(self).selected_tab == old(self).selected_tab,
            final(self).state == old(self).state,
    {
        let c = match password_char_of(key) {
            Some(c) => c,
            None => {
                return key == Key::Tab || key == Key::BackTab;
            },
        };
        self.storage.password_creation.handle_password_input(c);
        if self.storage.password_creation.is_password_creation_complete() {
            self.complete_cloud_password_creation();
        }
        true
    }
}

/// What a key does in the cloud dialog while no password is being typed
/// (see `App::handle_cloud_creation_input`).
pub open spec fn cloud_dialog_step(pre: App, post: App, key: Key) -> bool {
    let s0 = pre.storage;
    let s = post.storage;
    if key == Key::Esc {
        &&& !s.creating_cloud
        &&& s.new_cloud_name@.len() == 0
        &&& s.password_creation@ == crate::password::fresh_password(false)
        &&& post.orchestrator == pre.orchestrator
    } else if key == Key::Enter {
        if s0.new_cloud_name@.len() > 0 {
            cloud_creation_outcome(pre, post)
        } else {
            post.storage == pre.storage && post.orchestrator == pre.orchestrator
        }
    } else if key == Key::Backspace || key is Char {
        s.new_cloud_name@ == typed(s0.new_cloud_name@, key) && s.creating_cloud == s0.creating_cloud
            && post.orchestrator == pre.orchestrator
    } else {
        post.storage == pre.storage && post.orchestrator == pre.orchestrator
    }
}

impl App {
    /// Passes a key to the cloud dialog, or to its password entry once the
    /// cloud exists. Returns whether the key was taken.
    pub fn handle_cloud_creation_input(&mut self, key: Key) -> (handled: bool)
        ensures
            old(self).orchestrator.wf() ==> final(self).orchestrator.wf(),
            old(self).storage.password_creation.creating_password ==> handled == (password_char(key) is Some
                || key == Key::Tab || key == Key::BackTab),
            old(self).storage.password_creation.creating_password ==> (password_char(key) matches Some(c)
                ==> ({
                let pw = crate::password::password_step(old(self).storage.password_creation@, c);
                &&& storage_password_due(*old(self), pw) ==> storage_password_set(*old(self), *final(self), pw)
                &&& !storage_password_due(*old(self), pw) ==> final(self).storage.password_creation@ == pw
                    && final(self).orchestrator == old(self).orchestrator
            })),
            !old(self).storage.password_creation.creating_password ==> handled == is_dialog_key(key)
                && cloud_dialog_step(*old(self), *final(self), key),
            final(self).selected_tab == old(self).selected_tab,
            final(self).state == old(self).state,
    {
        if self.storage.password_creation.creating_password {
            return self.handle_password_creation_input(key);
        }
        match key {
            Key::Esc => {
                self.storage.clear_cloud_creation();
                true
            },
            Key::Enter => {
                if self.storage.new_cloud_name.as_str().unicode_len() > 0 {
                    self.complete_cloud_creation();
                }
                true
            },
            Key::Backspace | Key::Char(_) => {
                type_into(&mut self.storage.new_cloud_name, key);
                true
            },
            Key::Tab | Key::BackTab => true,
            _ => false,
        }
    }
}

/// What a key does in the folder edit dialog (see `App::handle_folder_edit_input`).
pub open spec fn folder_edit_step(pre: App, post: App, key: Key, check: PathCheck) -> bool {
    let s0 = pre.storage;
    let s = post.storage;
    if key == Key::Esc {
        !s.editing_folder && s.folder_edit_error is None && post.orchestrator == pre.orchestrator
    } else if key == Key::Enter {
        if s0.edit_folder_input_field == FolderInputField::Name {
            &&& s.edit_folder_input_field == (if s0.edit_folder_name@.len() > 0 {
                FolderInputField::Path
            } else {
                FolderInputField::Name
            })
            &&& s.editing_folder == s0.editing_folder
            &&& post.orchestrator == pre.orchestrator
        } else if s0.edit_folder_path@.len() > 0 {
            folder_edit_outcome(pre, post, check)
        } else {
            post.storage == pre.storage && post.orchestrator == pre.orchestrator
        }
    } else if key == Key::Tab || key == Key::BackTab {
        s.edit_folder_input_field == other_field(s0.edit_folder_input_field) && s.editing_folder
            == s0.editing_folder && post.orchestrator == pre.orchestrator
    } else if key == Key::Backspace || key is Char {
        &&& s0.edit_folder_input_field == FolderInputField::Name ==> s.edit_folder_name@ == typed(
            s0.edit_folder_name@,
            key,
        ) && s.edit_folder_path == s0.edit_folder_path
        &&& s0.edit_folder_input_field == FolderInputField::Path ==> s.edit_folder_path@ == typed(
            s0.edit_folder_path@,
            key,
        ) && s.edit_folder_name == s0.edit_folder_name
        &&& s.edit_folder_input_field == s0.edit_folder_input_field
        &&& s.editing_folder == s0.editing_folder
        &&& post.orchestrator == pre.orchestrator
    } else {
        post.storage == pre.storage && post.orchestrator == pre.orchestrator
    }
}

impl App {
    /// Passes a key to the folder edit dialog; `check` is what the caller
    /// found at the trimmed path of the dialog. Returns whether the key was
    /// taken.
    pub fn handle_folder_edit_input(&mut self, key: Key, check: PathCheck) -> (handled: bool)
        ensures
            old(self).orchestrator.wf() ==> final(self).orchestrator.wf(),
            handled == is_dialog_key(key),
            folder_edit_step(*old(self), *final(self), key, check),
    {
        match key {
            Key::Esc => {
                self.storage.clear_folder_edit();
                true
            },
            Key::Enter => {
                match self.storage.edit_folder_input_field {
                    FolderInputField::Name => {
                        if self.storage.edit_folder_name.as_str().unicode_len() > 0 {
                            self.storage.edit_folder_input_field = FolderInputField::Path;
                        }
                    },
                    FolderInputField::Path => {
                        if self.storage.edit_folder_path.as_str().unicode_len() > 0 {
                            self.complete_folder_edit(check);
                        }
                    },
                }
                true
            },
            Key::Tab | Key::BackTab => {
                self.storage.edit_folder_input_field = match self.storage.edit_folder_input_field {
                    FolderInputField::Name => FolderInputField::Path,
                    FolderInputField::Path => FolderInputField::Name,
                };
                true
            },
            Key::Backspace | Key::Char(_) => {
                match self.storage.edit_folder_input_field {
                    FolderInputField::Name => type_into(&mut self.storage.edit_folder_name, key),
                    FolderInputField::Path => type_into(&mut self.storage.edit_folder_path, key),
                }
                true
            },
            _ => false,
        }
    }
}

/// The names marked in the cloud edit dialog.
pub open spec fn edit_marked_names(s: FoldersState) -> Seq<Seq<char>> {
    crate::folders_tab::marked_names(s.cloud_folders@, s.edit_cloud_selected_folders@, s.cloud_folders@.len())
}

/// The password of the first cloud named `name`, if it is configured.
pub open spec fn kept_password(o: Orchestrator, name: Seq<char>) -> Option<String> {
    if cloud_names(o.clouds_config.clouds@).contains(name) {
        o.config_cloud(name).password_hash
    } else {
        None
    }
}

/// What saving the cloud edit dialog does (see `App::complete_cloud_edit`).
pub open spec fn cloud_edit_outcome(pre: App, post: App) -> bool {
    let name = trim(pre.storage.edit_cloud_name@);
    let old_name = pre.storage.edit_cloud_original_name@;
    let marked = edit_marked_names(pre.storage);
    let clouds0 = pre.orchestrator.clouds_config.clouds@;
    let err = post.storage.cloud_edit_error;
    let taken = old_name != name && cloud_names(clouds0).contains(name);
    let missing = !taken && !cloud_names(clouds0).contains(old_name);
    let refused = name.len() == 0 || marked.len() == 0 || taken || missing;
    &&& name.len() == 0 ==> (err matches Some(e) && e@ == "Cloud name cannot be empty"@)
    &&& name.len() > 0 && marked.len() == 0 ==> (err matches Some(e) && e@ == "Cloud must have at least one folder"@)
    &&& name.len() > 0 && marked.len() > 0 && taken ==> (err matches Some(e) && e@ == "Validation error: "@
        + crate::clouds_config::cloud_exists_msg(name))
    &&& name.len() > 0 && marked.len() > 0 && missing ==> (err matches Some(e) && e@ == "Validation error: "@
        + crate::clouds_config::cloud_missing_msg(old_name))
    &&& refused ==> {
        &&& post.orchestrator.clouds_config.clouds@ == clouds0
        &&& post.storage.editing_cloud == pre.storage.editing_cloud
        &&& post.effects == pre.effects
    }
    &&& !refused ==> {
        &&& exists|i: int|
            #![trigger is_first_index(cloud_names(clouds0), old_name, i)]
            is_first_index(cloud_names(clouds0), old_name, i) && post.orchestrator.clouds_config.clouds@.len()
                == clouds0.len() && (forall|j: int|
                0 <= j < clouds0.len() && j != i ==> post.orchestrator.clouds_config.clouds@[j] == clouds0[j]) && {
                let c = post.orchestrator.clouds_config.clouds@[i];
                &&& c.name@ == name
                &&& folder_views(c.cloud_folders@) == chosen_folders(pre.storage.cloud_folders@, marked)
                &&& opt_name(c.password_hash) == opt_name(kept_password(pre.orchestrator, old_name))
            }
        &&& post.effects@ == pre.effects@.push(Effect::SaveStorage)
        &&& kept_password(pre.orchestrator, old_name) is None ==> (err matches Some(e) && e@
            == "Cloud updated successfully, but no password is set. Please set a password before starting the cloud."@)
        &&& kept_password(pre.orchestrator, old_name) is Some ==> {
            &&& !post.storage.editing_cloud
            &&& err is None
            &&& post.notice matches Some(n) && n.kind == NoticeKind::Success && n.message@ == curly(
                "Updated cloud "@,
                name,
                "."@,
            )
        }
    }
    &&& post.orchestrator.clouds_config.cloud_folders@ == pre.orchestrator.clouds_config.cloud_folders@
    &&& post.orchestrator.running_clouds == pre.orchestrator.running_clouds
    &&& post.selected_tab == pre.selected_tab
    &&& post.state == pre.state
}

impl App {
    /// Opens the edit dialog on the focused list of the storage tab: the
    /// selected folder, or the selected cloud with its folders marked.
    pub fn start_editing_storage_item(&mut self)
        ensures
            old(self).orchestrator.wf() ==> final(self).orchestrator.wf(),
            editing_opened(*old(self), *final(self)),
    {
        reveal(editing_opened);
        if self.selected_tab == AppTab::Storage {
            match self.storage.focused_panel {
                FocusedPanel::Folders => {
                    if self.storage.cloud_folders.len() > 0 {
                        self.storage.start_editing_folder();
                    } else {
                        self.add_debug("No folders to edit");
                    }
                },
                FocusedPanel::Clouds => {
                    if self.storage.clouds.len() > 0 {
                        self.storage.start_editing_cloud();
                        self.storage.cloud_edit_focus = CloudEditFocus::Name;
                    } else {
                        self.add_debug("No clouds to edit");
                    }
                },
                FocusedPanel::Info => {},
            }
        }
    }

    /// Saves the cloud edit dialog: the name is trimmed; an empty name, no
    /// marked folder, the name of another cloud and a cloud that is gone
    /// are shown in the dialog. The cloud keeps its password and token
    /// secret. Without a password the change is kept and a hint shown in
    /// the dialog; otherwise the dialog closes. Either way the
    /// configuration is saved.
    pub fn complete_cloud_edit(&mut self)
        ensures
            old(self).orchestrator.wf() ==> final(self).orchestrator.wf(),
            cloud_edit_outcome(*old(self), *final(self)),
    {
        let name = crate::text::trim_str(self.storage.edit_cloud_name.as_str());
        let old_name = copy_str(self.storage.edit_cloud_original_name.as_str());
        if name.as_str().unicode_len() == 0 {
            self.storage.cloud_edit_error = Some(String::from_str("Cloud name cannot be empty"));
            return;
        }
        let marked = self.storage.get_edit_cloud_selected_folder_names();
        if marked.len() == 0 {
            self.storage.cloud_edit_error = Some(String::from_str("Cloud must have at least one folder"));
            return;
        }
        proof {
            lemma_marked_names_present(
                self.storage.cloud_folders@,
                self.storage.edit_cloud_selected_folders@,
                self.storage.cloud_folders@.len(),
            );
            assert forall|j: int| 0 <= j < marked@.len() implies folder_names(self.storage.cloud_folders@).contains(
                #[trigger] marked@[j]@,
            ) by {
                assert(marked@.map_values(|s: String| s@)[j] == marked@[j]@);
            }
        }
        let folders = folders_named(&self.storage.cloud_folders, &marked);
        assert(folders@.len() == folder_views(folders@).len());
        assert(folders@.len() == marked@.len());
        let ghost folder_seq = folders@;
        let new_cloud = match self.orchestrator.get_cloud(old_name.as_str()) {
            Some(c) => Cloud {
                name: copy_str(name.as_str()),
                cloud_folders: folders,
                password_hash: c.password_hash,
                password_changed_at: c.password_changed_at,
                jwt_secret: c.jwt_secret,
            },
            None => Cloud::new(copy_str(name.as_str()), folders),
        };
        let ghost nc = new_cloud;
        let ghost clouds0 = self.orchestrator.clouds_config.clouds@;
        match self.orchestrator.clouds_config.update_cloud(old_name.as_str(), new_cloud) {
            Err(e) => {
                self.storage.cloud_edit_error = Some(e.message());
            },
            Ok(()) => {
                self.effects.push(Effect::SaveStorage);
                proof {
                    let i = choose|i: int|
                        is_first_index(cloud_names(clouds0), old_name@, i) && self.orchestrator.clouds_config.clouds@
                            == clouds0.update(i, nc);
                    assert(self.orchestrator.clouds_config.clouds@[i] == nc);
                    let names0 = cloud_names(clouds0);
                    let names1 = cloud_names(self.orchestrator.clouds_config.clouds@);
                    assert(names1 =~= names0.update(i, name@));
                    assert forall|j: int| 0 <= j < i implies names1[j] != name@ by {
                        assert(names1[j] == names0[j]);
                        if names0[j] == name@ {
                            if old_name@ != name@ {
                                assert(names0.contains(name@));
                            } else {
                                assert(names0[j] != old_name@);
                            }
                        }
                    }
                    assert(is_first_index(names1, name@, i));
                    self.orchestrator.lemma_config_cloud_at(name@, i);
                }
                if !self.orchestrator.cloud_has_password(name.as_str()) {
                    self.storage.cloud_edit_error = Some(
                        String::from_str(
                            "Cloud updated successfully, but no password is set. Please set a password before starting the cloud.",
                        ),
                    );
                    return;
                }
                self.sync_from_orchestrator();
                let line = concat_str("Updated cloud ", name.as_str());
                self.add_debug(line.as_str());
                let msg = curly_text("Updated cloud ", name.as_str(), ".");
                self.show_notice(NoticeKind::Success, msg);
                self.storage.clear_cloud_edit();
            },
        }
    }
}

/// Whether the character `c` toggles a folder in the cloud edit dialog's
/// folder list: the leader key or a key of "Toggle Selection".
pub open spec fn is_toggle_char(config: Config, c: char) -> bool {
    seq![c] == config.leader@ || (config.actions@.dom().contains("Toggle Selection"@)
        && config.actions@["Toggle Selection"@].keys.contains(seq![c]))
}

/// The marks of the cloud edit dialog after toggling the highlighted folder
/// (nothing happens without folders).
pub open spec fn toggled_edit_marks(s: FoldersState) -> Set<usize> {
    if s.cloud_folders@.len() == 0 {
        s.edit_cloud_selected_folders@
    } else if s.edit_cloud_selected_folders@.contains(s.selected_folder_index) {
        s.edit_cloud_selected_folders@.remove(s.selected_folder_index)
    } else {
        s.edit_cloud_selected_folders@.insert(s.selected_folder_index)
    }
}

/// What a key does in the cloud edit dialog (see `App::handle_cloud_edit_input`).
pub open spec fn cloud_edit_step(pre: App, post: App, key: Key) -> bool {
    let s0 = pre.storage;
    let s = post.storage;
    let focus = s0.cloud_edit_focus;
    if key == Key::Esc {
        !s.editing_cloud && s.edit_cloud_selected_folders@ == Set::<usize>::empty() && post.orchestrator
            == pre.orchestrator
    } else if key == Key::Enter {
        if s0.edit_cloud_name@.len() > 0 {
            cloud_edit_outcome(pre, post)
        } else {
            post.storage == pre.storage && post.orchestrator == pre.orchestrator
        }
    } else if key == Key::Tab || key == Key::BackTab {
        s.cloud_edit_focus == (if focus == CloudEditFocus::Name {
            CloudEditFocus::Folders
        } else {
            CloudEditFocus::Name
        }) && s.editing_cloud == s0.editing_cloud && post.orchestrator == pre.orchestrator
    } else if key == Key::Backspace {
        s.edit_cloud_name@ == (if focus == CloudEditFocus::Name {
            typed(s0.edit_cloud_name@, key)
        } else {
            s0.edit_cloud_name@
        }) && s.editing_cloud == s0.editing_cloud && post.orchestrator == pre.orchestrator
    } else if key is Char {
        let c = key->Char_0;
        &&& focus == CloudEditFocus::Name && seq![c] == pre.config.leader@ ==> s.edit_cloud_selected_folders@
            == toggled_edit_marks(s0) && s.edit_cloud_name == s0.edit_cloud_name
        &&& focus == CloudEditFocus::Name && seq![c] != pre.config.leader@ ==> s.edit_cloud_name@ == s0.edit_cloud_name@.push(
            c,
        ) && s.edit_cloud_selected_folders == s0.edit_cloud_selected_folders
        &&& focus == CloudEditFocus::Folders && is_toggle_char(pre.config, c) ==> s.edit_cloud_selected_folders@
            == toggled_edit_marks(s0)
        &&& focus == CloudEditFocus::Folders && !is_toggle_char(pre.config, c) && (c == 'j' || c == 'k')
            ==> s.selected_folder_index == crate::folders_tab::list_target(
            s0.selected_folder_index,
            s0.cloud_folders@.len(),
            key,
        )->Some_0
        &&& s.editing_cloud == s0.editing_cloud
        &&& post.orchestrator == pre.orchestrator
    } else if (key == Key::Up || key == Key::Down) && focus == CloudEditFocus::Folders {
        s.selected_folder_index == crate::folders_tab::list_target(
            s0.selected_folder_index,
            s0.cloud_folders@.len(),
            key,
        )->Some_0 && s.editing_cloud == s0.editing_cloud && post.orchestrator == pre.orchestrator
    } else {
        post.storage == pre.storage && post.orchestrator == pre.orchestrator
    }
}

/// Whether the cloud edit dialog takes a key.
pub open spec fn cloud_edit_takes(pre: App, key: Key) -> bool {
    let focus = pre.storage.cloud_edit_focus;
    ||| key == Key::Esc || key == Key::Enter || key == Key::Tab || key == Key::BackTab || key == Key::Backspace
    ||| (key matches Key::Char(c) && (focus == CloudEditFocus::Name || is_toggle_char(pre.config, c) || c == 'j'
        || c == 'k'))
    ||| ((key == Key::Up || key == Key::Down) && focus == CloudEditFocus::Folders)
}

/// Whether `c` is a key of "Toggle Selection".
fn toggles_selection(config: &Config, c: char) -> (res: bool)
    ensures
        res == (config.actions@.dom().contains("Toggle Selection"@) && config.actions@["Toggle Selection"@].keys.contains(
            seq![c],
        )),
{
    let keys = config.get_keys_for_action("Toggle Selection");
    let k = crate::text::char_to_string(c);
    let ghost views = crate::action_map::strs(keys@);
    let mut i: usize = 0;
    while i < keys.len()
        invariant
            i <= keys.len(),
            views == crate::action_map::strs(keys@),
            views == (if config.actions@.dom().contains("Toggle Selection"@) {
                config.actions@["Toggle Selection"@].keys
            } else {
                Seq::<Seq<char>>::empty()
            }),
            k@ == seq![c],
            forall|j: int| 0 <= j < i ==> views[j] != seq![c],
        decreases keys.len() - i,
    {
        if crate::text::str_eq(keys[i].as_str(), k.as_str()) {
            assert(views[i as int] == seq![c]);
            assert(views.len() > 0);
            return true;
        }
        i = i + 1;
    }
    false
}

impl App {
    /// Toggles the highlighted folder for the cloud being edited.
    fn toggle_highlighted_edit_folder(&mut self)
        ensures
            old(self).orchestrator.wf() ==> final(self).orchestrator.wf(),
            final(self).storage.edit_cloud_selected_folders@ == toggled_edit_marks(old(self).storage),
            final(self).storage == (FoldersState {
                edit_cloud_selected_folders: final(self).storage.edit_cloud_selected_folders,
                ..old(self).storage
            }),
            final(self).orchestrator == old(self).orchestrator,
            final(self).config == old(self).config,
            final(self).effects == old(self).effects,
            final(self).selected_tab == old(self).selected_tab,
            final(self).state == old(self).state,
    {
        if self.storage.cloud_folders.len() > 0 {
            let current = self.storage.selected_folder_index;
            self.storage.toggle_cloud_folder_selection(current);
        }
    }

    /// Passes a key to the cloud edit dialog. Returns whether the key was
    /// taken.
    pub fn handle_cloud_edit_input(&mut self, key: Key) -> (handled: bool)
        ensures
            old(self).orchestrator.wf() ==> final(self).orchestrator.wf(),
            handled == cloud_edit_takes(*old(self), key),
            cloud_edit_step(*old(self), *final(self), key),
    {
        match key {
            Key::Esc => {
                self.storage.clear_cloud_edit();
                true
            },
            Key::Enter => {
                if self.storage.edit_cloud_name.as_str().unicode_len() > 0 {
                    self.complete_cloud_edit();
                }
                true
            },
            Key::Tab | Key::BackTab => {
                self.storage.cloud_edit_focus = match self.storage.cloud_edit_focus {
                    CloudEditFocus::Name => CloudEditFocus::Folders,
                    CloudEditFocus::Folders => CloudEditFocus::Name,
                };
                true
            },
            Key::Backspace => {
                if self.storage.cloud_edit_focus == CloudEditFocus::Name {
                    type_into(&mut self.storage.edit_cloud_name, key);
                }
                true
            },
            Key::Char(c) => {
                let k = crate::text::char_to_string(c);
                let is_leader = crate::text::str_eq(k.as_str(), self.config.leader.as_str());
                match self.storage.cloud_edit_focus {
                    CloudEditFocus::Name => {
                        if is_leader {
                            self.toggle_highlighted_edit_folder();
                        } else {
                            crate::text::push_char(&mut self.storage.edit_cloud_name, c);
                        }
                        true
                    },
                    CloudEditFocus::Folders => {
                        if is_leader || toggles_selection(&self.config, c) {
                            self.toggle_highlighted_edit_folder();
                            true
                        } else if c == 'j' || c == 'k' {
                            self.storage.handle_folders_navigation(key);
                            true
                        } else {
                            false
                        }
                    },
                }
            },
            Key::Up | Key::Down => {
                if self.storage.cloud_edit_focus == CloudEditFocus::Folders {
                    self.storage.handle_folders_navigation(key);
                    true
                } else {
                    false
                }
            },
            _ => false,
        }
    }
}

/// The confirmation asked before removing the folder `name`.
pub open spec fn is_folder_confirmation(c: Confirmation, name: Seq<char>) -> bool {
    &&& c.title@ == "Remove folder?"@
    &&& c.description@ == "‘"@ + name
        + "’ will be removed from CloudHost. Files in the local folder will not be deleted."@
    &&& c.confirm_label@ == "remove folder"@
    &&& c.action matches ConfirmationAction::RemoveFolder(n) && n@ == name
}

/// The confirmation asked before removing the cloud `name`.
pub open spec fn is_cloud_confirmation(c: Confirmation, name: Seq<char>) -> bool {
    &&& c.title@ == "Remove cloud?"@
    &&& c.description@ == "‘"@ + name
        + "’ and its CloudHost password will be removed. Any running server will be stopped; local folders and files will stay intact."@
    &&& c.confirm_label@ == "remove cloud"@
    &&& c.action matches ConfirmationAction::RemoveCloud(n) && n@ == name
}

/// What removing the folder `name` does (see `App::remove_folder`).
pub open spec fn folder_removal_outcome(pre: App, post: App, name: Seq<char>) -> bool {
    let folders0 = pre.orchestrator.clouds_config.cloud_folders@;
    &&& folder_names(folders0).contains(name) ==> {
        &&& exists|i: int|
            is_first_index(folder_names(folders0), name, i)
                && post.orchestrator.clouds_config.cloud_folders@ == folders0.remove(i)
        &&& post.notice matches Some(n) && n.kind == NoticeKind::Success && n.message@ == curly(
            "Removed folder "@,
            name,
            ". Its files were left untouched."@,
        )
        &&& post.effects@ == pre.effects@.push(Effect::SaveStorage)
    }
    &&& !folder_names(folders0).contains(name) ==> {
        &&& post.orchestrator.clouds_config.cloud_folders@ == folders0
        &&& post.notice matches Some(n) && n.kind == NoticeKind::Error && n.message@ == "Could not remove folder: "@
            + ("Validation error: "@ + crate::clouds_config::folder_missing_msg(name))
        &&& post.effects == pre.effects
    }
    &&& post.orchestrator.clouds_config.clouds@ == pre.orchestrator.clouds_config.clouds@
    &&& post.orchestrator.running_clouds == pre.orchestrator.running_clouds
}

/// What removing the cloud `name` from the configuration does (see
/// `App::remove_cloud`).
pub open spec fn cloud_removal_outcome(pre: App, post: App, name: Seq<char>) -> bool {
    let clouds0 = pre.orchestrator.clouds_config.clouds@;
    &&& cloud_names(clouds0).contains(name) ==> {
        &&& exists|i: int|
            is_first_index(cloud_names(clouds0), name, i) && post.orchestrator.clouds_config.clouds@
                == clouds0.remove(i)
        &&& post.notice matches Some(n) && n.kind == NoticeKind::Success && n.message@ == curly(
            "Removed cloud "@,
            name,
            "."@,
        )
        &&& post.effects@ == pre.effects@.push(Effect::SaveStorage)
    }
    &&& !cloud_names(clouds0).contains(name) ==> {
        &&& post.orchestrator.clouds_config.clouds@ == clouds0
        &&& post.notice matches Some(n) && n.kind == NoticeKind::Error && n.message@ == "Could not remove cloud: "@
            + ("Validation error: "@ + crate::clouds_config::cloud_missing_msg(name))
        &&& post.effects == pre.effects
    }
    &&& post.orchestrator.clouds_config.cloud_folders@ == pre.orchestrator.clouds_config.cloud_folders@
    &&& post.orchestrator.running_clouds == pre.orchestrator.running_clouds
}

impl App {
    /// Removes the folder `folder_name` from the configuration.
    pub fn remove_folder(&mut self, folder_name: &str)
        ensures
            old(self).orchestrator.wf() ==> final(self).orchestrator.wf(),
            folder_removal_outcome(*old(self), *final(self), folder_name@),
            final(self).selected_tab == old(self).selected_tab,
            final(self).state == old(self).state,
            final(self).pending_confirmation == old(self).pending_confirmation,
    {
        match self.orchestrator.clouds_config.remove_cloud_folder(folder_name) {
            Err(e) => {
                let m = e.message();
                let line = concat_str("Failed to remove folder: ", m.as_str());
                self.add_debug(line.as_str());
                let msg = concat_str("Could not remove folder: ", m.as_str());
                self.show_notice(NoticeKind::Error, msg);
            },
            Ok(()) => {
                self.sync_from_orchestrator();
                let msg = curly_text("Removed folder ", folder_name, ". Its files were left untouched.");
                self.show_notice(NoticeKind::Success, msg);
                let line = concat_str("Removed folder ", folder_name);
                self.add_debug(line.as_str());
                self.effects.push(Effect::SaveStorage);
            },
        }
    }

    /// Removes the cloud `cloud_name` from the configuration.
    pub fn remove_cloud(&mut self, cloud_name: &str)
        ensures
            old(self).orchestrator.wf() ==> final(self).orchestrator.wf(),
            cloud_removal_outcome(*old(self), *final(self), cloud_name@),
            final(self).selected_tab == old(self).selected_tab,
            final(self).state == old(self).state,
            final(self).pending_confirmation == old(self).pending_confirmation,
    {
        match self.orchestrator.clouds_config.remove_cloud(cloud_name) {
            Err(e) => {
                let m = e.message();
                let line = concat_str("Failed to remove cloud: ", m.as_str());
                self.add_debug(line.as_str());
                let msg = concat_str("Could not remove cloud: ", m.as_str());
                self.show_notice(NoticeKind::Error, msg);
            },
            Ok(()) => {
                self.sync_from_orchestrator();
                let msg = curly_text("Removed cloud ", cloud_name, ".");
                self.show_notice(NoticeKind::Success, msg);
                let line = concat_str("Deleted cloud ", cloud_name);
                self.add_debug(line.as_str());
                self.effects.push(Effect::SaveStorage);
            },
        }
    }

    /// Asks to confirm removing the selected folder; without one a warning
    /// is shown.
    pub fn request_remove_folder(&mut self)
        ensures
            old(self).orchestrator.wf() ==> final(self).orchestrator.wf(),
            ({
                let s = old(self).storage;
                if old(self).selected_tab == AppTab::Storage && s.focused_panel == FocusedPanel::Folders
                    && s.selected_folder_index < s.cloud_folders@.len() {
                    final(self).pending_confirmation matches Some(c) && is_folder_confirmation(
                        c,
                        s.cloud_folders@[s.selected_folder_index as int].name@,
                    )
                } else {
                    final(self).notice matches Some(n) && n.kind == NoticeKind::Warning && n.message@
                        == "Select a folder to remove."@
                }
            }),
            *final(self) == (App {
                pending_confirmation: final(self).pending_confirmation,
                notice: final(self).notice,
                ..*old(self)
            }),
            final(self).orchestrator == old(self).orchestrator,
            final(self).storage == old(self).storage,
            final(self).effects == old(self).effects,
    {
        if self.selected_tab == AppTab::Storage && self.storage.focused_panel == FocusedPanel::Folders
            && self.storage.selected_folder_index < self.storage.cloud_folders.len() {
            let name = copy_str(self.storage.cloud_folders[self.storage.selected_folder_index].name.as_str());
            self.pending_confirmation = Some(folder_removal_confirmation(name.as_str()));
        } else {
            self.show_notice(NoticeKind::Warning, String::from_str("Select a folder to remove."));
        }
    }
}

impl App {
    /// Asks to confirm removing the selected cloud; without one a warning
    /// is shown.
    pub fn request_remove_cloud(&mut self)
        ensures
            old(self).orchestrator.wf() ==> final(self).orchestrator.wf(),
            ({
                let s = old(self).storage;
                if old(self).selected_tab == AppTab::Storage && s.focused_panel == FocusedPanel::Clouds
                    && s.selected_cloud_index < s.clouds@.len() {
                    final(self).pending_confirmation matches Some(c) && is_cloud_confirmation(
                        c,
                        s.clouds@[s.selected_cloud_index as int].name@,
                    )
                } else {
                    final(self).notice matches Some(n) && n.kind == NoticeKind::Warning && n.message@
                        == "Select a cloud to remove."@
                }
            }),
            *final(self) == (App {
                pending_confirmation: final(self).pending_confirmation,
                notice: final(self).notice,
                ..*old(self)
            }),
            final(self).orchestrator == old(self).orchestrator,
            final(self).storage == old(self).storage,
            final(self).effects == old(self).effects,
    {
        if self.selected_tab == AppTab::Storage && self.storage.focused_panel == FocusedPanel::Clouds
            && self.storage.selected_cloud_index < self.storage.clouds.len() {
            let name = copy_str(self.storage.clouds[self.storage.selected_cloud_index].name.as_str());
            self.pending_confirmation = Some(cloud_removal_confirmation(name.as_str()));
        } else {
            self.show_notice(NoticeKind::Warning, String::from_str("Select a cloud to remove."));
        }
    }

    /// Asks to confirm removing the selected entry of the focused list.
    pub fn request_remove_focused_item(&mut self)
        ensures
            old(self).orchestrator.wf() ==> final(self).orchestrator.wf(),
            removal_requested(*old(self), *final(self)),
    {
        reveal(removal_requested);
        match self.storage.focused_panel {
            FocusedPanel::Clouds => self.request_remove_cloud(),
            _ => self.request_remove_folder(),
        }
    }

    /// Carries out the confirmed action: removing a folder, removing a cloud
    /// (its server stopped first), or asking to reset the key bindings.
    pub fn confirm_pending_action(&mut self)
        ensures
            old(self).orchestrator.wf() ==> final(self).orchestrator.wf(),
            confirmation_done(*old(self), *final(self)),
    {
        reveal(confirmation_done);
        let confirmation = match self.pending_confirmation.take() {
            Some(c) => c,
            None => {
                return;
            },
        };
        match confirmation.action {
            ConfirmationAction::RemoveFolder(name) => self.remove_folder(name.as_str()),
            ConfirmationAction::RemoveCloud(name) => {
                if self.orchestrator.is_cloud_running(name.as_str()) {
                    let stopped = self.orchestrator.stop_cloud(name.as_str());
                    self.effects.push(Effect::Halt(copy_str(name.as_str())));
                    proof {
                        assert(self.effects@.drop_last() =~= old(self).effects@);
                    }
                    self.dashboard.record_stop(name.as_str(), stopped);
                    let line = concat_str("Stopped cloud before removal: ", name.as_str());
                    self.add_debug(line.as_str());
                }
                let ghost m0 = *self;
                self.remove_cloud(name.as_str());
                proof {
                    if running_names(old(self).orchestrator.running_clouds@).contains(name@) {
                        assert(halted_for_removal(*old(self), m0, name@));
                    }
                }
            },
            ConfirmationAction::ResetTuiConfig => {
                self.effects.push(Effect::ResetTuiConfig);
            },
        }
    }

    /// Gives a key to the help overlay or the pending confirmation, when
    /// one is open. Returns whether it took the key.
    pub fn handle_overlay_key(&mut self, key: Key) -> (handled: bool)
        ensures
            old(self).orchestrator.wf() ==> final(self).orchestrator.wf(),
            handled == (overlay_outcome(old(self).help_open, old(self).pending_confirmation is Some, key)
                != OverlayOutcome::NotHandled),
            overlay_outcome(old(self).help_open, old(self).pending_confirmation is Some, key)
                == OverlayOutcome::NotHandled ==> *final(self) == *old(self),
            overlay_done(*old(self), *final(self), key),
    {
        reveal(overlay_done);
        match overlay_key(self.help_open, self.pending_confirmation.is_some(), key) {
            OverlayOutcome::NotHandled => false,
            OverlayOutcome::Swallowed => true,
            OverlayOutcome::CloseHelp => {
                self.help_open = false;
                true
            },
            OverlayOutcome::Confirm => {
                self.confirm_pending_action();
                true
            },
            OverlayOutcome::Cancel => {
                self.pending_confirmation = None;
                self.show_notice(NoticeKind::Info, String::from_str("Action cancelled."));
                true
            },
        }
    }
}

/// The cloud selected on the dashboard, if any.
pub open spec fn dashboard_selection(d: DashboardState) -> Option<Seq<char>> {
    if d.selected_cloud_index < d.clouds@.len() {
        Some(d.clouds@[d.selected_cloud_index as int].name@)
    } else {
        None
    }
}

/// How asking to serve the cloud `name` ends: with a port handed out,
/// the cloud marked running and serving asked of the caller, or with the
/// reason it cannot start shown on the dashboard and nothing else changed.
pub open spec fn server_started(a: App, b: App, name: Seq<char>) -> bool {
    &&& a.orchestrator.can_start(name) && a.orchestrator.next_port < u16::MAX ==> {
        ||| {
            &&& b.orchestrator.running_clouds@.len() == a.orchestrator.running_clouds@.len() + 1
            &&& b.orchestrator.running_clouds@.last().0@ == name
            &&& b.orchestrator.running_clouds@.last().1 == a.orchestrator.next_port
            &&& b.effects@.len() == a.effects@.len() + 1
            &&& b.effects@.last() matches Effect::Serve(plan) && plan.port == a.orchestrator.next_port
                && plan.cloud@ == a.orchestrator.config_cloud(name)@
            &&& b.dashboard.cloud_start_error is None
        }
        ||| {
            &&& b.orchestrator.running_clouds@ == a.orchestrator.running_clouds@
            &&& b.effects == a.effects
            &&& b.dashboard.cloud_start_error matches Some(e) && exists|i: int|
                0 <= i < a.orchestrator.config_cloud(name).cloud_folders@.len() && e@ == "❌ "@ + (
                "Invalid path: "@ + ("Cloud folder path does not exist: "@
                    + a.orchestrator.config_cloud(name).cloud_folders@[i].folder_path@))
        }
    }
    &&& !(a.orchestrator.can_start(name) && a.orchestrator.next_port < u16::MAX) ==> {
        &&& b.orchestrator.running_clouds@ == a.orchestrator.running_clouds@
        &&& b.effects == a.effects
        &&& b.dashboard.cloud_start_error is Some
    }
}

/// How asking to stop the cloud `name` ends: a running cloud is dropped
/// from the running list and stopping is asked of the caller; otherwise the
/// dashboard shows that it was not running.
pub open spec fn server_stopped(a: App, b: App, name: Seq<char>) -> bool {
    &&& running_names(a.orchestrator.running_clouds@).contains(name) ==> {
        &&& exists|i: int|
            is_first_index(running_names(a.orchestrator.running_clouds@), name, i)
                && b.orchestrator.running_clouds@ == a.orchestrator.running_clouds@.remove(i)
        &&& b.effects@.len() == a.effects@.len() + 1
        &&& b.effects@.last() matches Effect::Halt(h) && h@ == name
        &&& b.dashboard.cloud_start_error is None
    }
    &&& !running_names(a.orchestrator.running_clouds@).contains(name) ==> {
        &&& b.orchestrator.running_clouds@ == a.orchestrator.running_clouds@
        &&& b.effects == a.effects
        &&& b.dashboard.cloud_start_error matches Some(e) && e@ == "❌ "@ + "Server not running"@
    }
}

impl App {
    /// Starts serving the cloud `name`: the orchestrator checks it and hands
    /// out a port, the dashboard records the outcome, and serving is asked
    /// of the caller. When no port is left the start is refused.
    fn start_server_of(&mut self, name: &str)
        ensures
            old(self).orchestrator.wf() ==> final(self).orchestrator.wf(),
            final(self).orchestrator.clouds_config == old(self).orchestrator.clouds_config,
            server_started(*old(self), *final(self), name@),
            *final(self) == (App {
                orchestrator: final(self).orchestrator,
                dashboard: final(self).dashboard,
                effects: final(self).effects,
                ..*old(self)
            }),
            final(self).dashboard.clouds == old(self).dashboard.clouds,
            final(self).dashboard.selected_cloud_index == old(self).dashboard.selected_cloud_index,
            final(self).storage == old(self).storage,
            final(self).selected_tab == old(self).selected_tab,
            final(self).state == old(self).state,
            final(self).pending_confirmation == old(self).pending_confirmation,
            final(self).config == old(self).config,
            final(self).input_state == old(self).input_state,
            final(self).notice == old(self).notice,
            final(self).effects@.len() >= old(self).effects@.len(),
            final(self).effects@.subrange(0, old(self).effects@.len() as int) == old(self).effects@,
    {
        if self.orchestrator.next_port == u16::MAX {
            self.dashboard.record_start(
                name,
                Err(crate::error::ServerError::Network(String::from_str("no free port left"))),
            );
            return;
        }
        let exists = match find_cloud(&self.orchestrator.clouds_config.clouds, name) {
            Some(i) => crate::orchestrator::folder_existence(&self.orchestrator.clouds_config.clouds[i]),
            None => Vec::new(),
        };
        proof {
            let names = cloud_names(self.orchestrator.clouds_config.clouds@);
            if names.contains(name@) {
                let k = choose|k: int| is_first_index(names, name@, k);
                let i = choose|i: int| is_first_index(names, name@, i) && exists@.len()
                    == self.orchestrator.clouds_config.clouds@[i].cloud_folders@.len();
                assert(i == k) by {
                    if i < k {
                        assert(names[i] == name@);
                    } else if k < i {
                        assert(names[k] == name@);
                    }
                }
            }
        }
        let ghost cc = self.orchestrator.config_cloud(name@);
        match self.orchestrator.start_cloud(name, &exists) {
            Ok(plan) => {
                let port = plan.port;
                self.effects.push(Effect::Serve(plan));
                self.dashboard.record_start(name, Ok(port));
            },
            Err(e) => {
                proof {
                    crate::orchestrator::lemma_first_missing_bound(exists@);
                }
                self.dashboard.record_start(name, Err(e));
            },
        }
    }

    /// Stops serving the cloud `name`; stopping is asked of the caller.
    fn stop_server_of(&mut self, name: &str)
        ensures
            old(self).orchestrator.wf() ==> final(self).orchestrator.wf(),
            final(self).orchestrator.clouds_config == old(self).orchestrator.clouds_config,
            server_stopped(*old(self), *final(self), name@),
            *final(self) == (App {
                orchestrator: final(self).orchestrator,
                dashboard: final(self).dashboard,
                effects: final(self).effects,
                ..*old(self)
            }),
            final(self).dashboard.clouds == old(self).dashboard.clouds,
            final(self).dashboard.selected_cloud_index == old(self).dashboard.selected_cloud_index,
            final(self).storage == old(self).storage,
            final(self).selected_tab == old(self).selected_tab,
            final(self).state == old(self).state,
            final(self).pending_confirmation == old(self).pending_confirmation,
            final(self).config == old(self).config,
            final(self).input_state == old(self).input_state,
            final(self).notice == old(self).notice,
            final(self).effects@.len() >= old(self).effects@.len(),
            final(self).effects@.subrange(0, old(self).effects@.len() as int) == old(self).effects@,
    {
        let stopped = self.orchestrator.stop_cloud(name);
        if stopped.is_ok() {
            self.effects.push(Effect::Halt(copy_str(name)));
        }
        self.dashboard.record_stop(name, stopped);
    }

    /// Starts the selected cloud of the dashboard, or stops it when it runs,
    /// and tells how it went.
    pub fn start_stop_cloud(&mut self)
        ensures
            old(self).orchestrator.wf() ==> final(self).orchestrator.wf(),
            start_stop_done(*old(self), *final(self)),
    {
        reveal(start_stop_done);
        if self.dashboard.selected_cloud_index >= self.dashboard.clouds.len() {
            self.show_notice(NoticeKind::Warning, String::from_str("Create and select a cloud first."));
            return;
        }
        let name = copy_str(self.dashboard.clouds[self.dashboard.selected_cloud_index].name.as_str());
        let running = self.dashboard.is_cloud_running(name.as_str());
        if running {
            self.stop_server_of(name.as_str());
        } else {
            self.start_server_of(name.as_str());
        }
        match &self.dashboard.cloud_start_error {
            Some(e) => {
                let m = copy_str(e.as_str());
                self.show_notice(NoticeKind::Error, m);
            },
            None => {
                if running {
                    let m = curly_text("Stopped ", name.as_str(), ".");
                    self.show_notice(NoticeKind::Info, m);
                } else {
                    let m = curly_text("Started ", name.as_str(), ".");
                    self.show_notice(NoticeKind::Success, m);
                }
            },
        }
    }

    /// Asks to open the selected cloud in the browser while it runs.
    pub fn open_cloud(&mut self)
        ensures
            old(self).orchestrator.wf() ==> final(self).orchestrator.wf(),
            open_cloud_done(*old(self), *final(self)),
    {
        reveal(open_cloud_done);
        let url = if self.dashboard.selected_cloud_index < self.dashboard.clouds.len() {
            let name = self.dashboard.clouds[self.dashboard.selected_cloud_index].name.as_str();
            self.orchestrator.get_cloud_server_url(name)
        } else {
            None
        };
        match url {
            Some(u) => {
                self.effects.push(Effect::OpenUrl(u));
                assert(self.effects@.drop_last() =~= old(self).effects@);
            },
            None => self.show_notice(
                NoticeKind::Warning,
                String::from_str("Start the selected cloud before opening it in a browser."),
            ),
        }
    }

    /// Tells how opening `url` went.
    pub fn finish_open_url(&mut self, url: &str, result: Result<(), String>)
        ensures
            old(self).orchestrator.wf() ==> final(self).orchestrator.wf(),
            result is Ok ==> (final(self).notice matches Some(n) && n.kind == NoticeKind::Info && n.message@
                == "Opened "@ + url@),
            result matches Err(e) ==> (final(self).notice matches Some(n) && n.kind == NoticeKind::Error
                && n.message@ == "Could not open "@ + url@ + ": "@ + e@),
            final(self).orchestrator == old(self).orchestrator,
            final(self).storage == old(self).storage,
    {
        match result {
            Ok(()) => {
                let m = concat_str("Opened ", url);
                self.show_notice(NoticeKind::Info, m);
            },
            Err(e) => {
                let a = concat_str("Could not open ", url);
                let b = concat_str(a.as_str(), ": ");
                let m = concat_str(b.as_str(), e.as_str());
                self.show_notice(NoticeKind::Error, m);
            },
        }
    }
}

impl App {
    /// Opens password entry for the selected cloud of the dashboard or of
    /// the storage tab's cloud list; without one a warning is shown.
    pub fn start_setting_cloud_password(&mut self)
        ensures
            old(self).orchestrator.wf() ==> final(self).orchestrator.wf(),
            password_entry_opened(*old(self), *final(self)),
    {
        reveal(password_entry_opened);
        match self.selected_tab {
            AppTab::Dashboard => {
                if self.dashboard.clouds.len() > 0 {
                    self.dashboard.start_creating_password();
                } else {
                    self.show_notice(NoticeKind::Warning, String::from_str("Select a cloud first."));
                }
            },
            AppTab::Storage => {
                if self.storage.focused_panel == FocusedPanel::Clouds && self.storage.selected_cloud_index
                    < self.storage.clouds.len() {
                    self.storage.password_creation.start_creating_password();
                } else {
                    self.show_notice(NoticeKind::Warning, String::from_str("Select a cloud first."));
                }
            },
            AppTab::Settings => {},
        }
    }

    /// Shows or hides the password of the selected cloud on the storage tab.
    pub fn toggle_cloud_password_display(&mut self)
        ensures
            old(self).orchestrator.wf() ==> final(self).orchestrator.wf(),
            password_display_toggled(*old(self), *final(self)),
    {
        reveal(password_display_toggled);
        if self.selected_tab == AppTab::Storage && self.storage.focused_panel == FocusedPanel::Clouds
            && self.storage.selected_cloud_index < self.storage.clouds.len() {
            self.storage.password_visible = !self.storage.password_visible;
            if self.storage.password_visible {
                self.add_debug("Password display toggled to: visible");
            } else {
                self.add_debug("Password display toggled to: hidden");
            }
        }
    }

    /// Marks every folder when the folder list of the storage tab is
    /// focused; otherwise a warning is shown.
    pub fn select_all_folders(&mut self)
        ensures
            old(self).orchestrator.wf() ==> final(self).orchestrator.wf(),
            all_folders_marked(*old(self), *final(self)),
    {
        reveal(all_folders_marked);
        if self.selected_tab == AppTab::Storage && self.storage.focused_panel == FocusedPanel::Folders {
            self.storage.select_all_folders();
            let count = self.storage.get_selected_folders_count();
            let digits = crate::text::u64_to_decimal(count as u64);
            let a = concat_str("Selected all ", digits.as_str());
            let m = concat_str(a.as_str(), " folders.");
            self.add_debug(m.as_str());
            self.show_notice(NoticeKind::Info, m);
        } else {
            self.show_notice(NoticeKind::Warning, String::from_str("Focus the Folders panel to select folders."));
        }
    }

    /// Marks or unmarks the highlighted folder of the storage tab.
    pub fn toggle_selection(&mut self)
        ensures
            old(self).orchestrator.wf() ==> final(self).orchestrator.wf(),
            selection_toggled(*old(self), *final(self)),
    {
        reveal(selection_toggled);
        if self.selected_tab == AppTab::Storage && self.storage.focused_panel == FocusedPanel::Folders
            && self.storage.cloud_folders.len() > 0 {
            let i = self.storage.selected_folder_index;
            self.storage.toggle_folder_selection(i);
            self.add_debug("Toggled selection for the highlighted folder");
        }
    }

    /// Sets the password typed on the dashboard for its selected cloud; a
    /// cloud that was serving is restarted so the new password applies.
    pub fn complete_dashboard_password_creation(&mut self)
        ensures
            old(self).orchestrator.wf() ==> final(self).orchestrator.wf(),
            dashboard_password_saved(*old(self), *final(self)),
    {
        reveal(dashboard_password_saved);
        if self.dashboard.selected_cloud_index >= self.dashboard.clouds.len() {
            self.dashboard.password_creation.password_error = Some(String::from_str("No cloud selected"));
            return;
        }
        let name = copy_str(self.dashboard.clouds[self.dashboard.selected_cloud_index].name.as_str());
        let password = copy_str(self.dashboard.password_creation.get_password());
        match self.dashboard.set_password(&mut self.orchestrator, password.as_str()) {
            Err(_) => {},
            Ok(()) => {
                self.dashboard.clear_password_creation();
                self.dashboard.password_creation.password_success = true;
                self.dashboard.cloud_start_error = None;
                let ghost n0 = old(self).effects@.len();
                self.effects.push(Effect::SaveStorage);
                let ghost e1 = self.effects@;
                assert(e1[n0 as int] == Effect::SaveStorage);
                let line = concat_str("Password set successfully for cloud ", name.as_str());
                self.add_debug(line.as_str());
                let msg = curly_text("Password updated for cloud ", name.as_str(), ".");
                self.show_notice(NoticeKind::Success, msg);
                let was_running = self.dashboard.is_cloud_running(name.as_str());
                if was_running {
                    self.add_debug("Stopping server to apply password changes");
                    self.stop_server_of(name.as_str());
                    assert(self.effects@.subrange(0, e1.len() as int) == e1);
                    assert(self.effects@[n0 as int] == e1[n0 as int]);
                }
                self.sync_from_orchestrator();
                let ghost e2 = self.effects@;
                assert(e2.subrange(0, e1.len() as int) == e1);
                assert(e2[n0 as int] == e1[n0 as int]);
                if was_running {
                    self.add_debug("Restarting server with new password");
                    self.start_server_of(name.as_str());
                    assert(self.effects@.subrange(0, e2.len() as int) == e2);
                    assert(self.effects@[n0 as int] == e2[n0 as int]);
                }
            },
        }
    }
}

/// The effect a settings action asks for; resetting asks for confirmation
/// instead.
pub open spec fn settings_effect(a: SettingsAction) -> Option<Effect> {
    match a {
        SettingsAction::OpenTuiConfig => Some(Effect::OpenConfig(ConfigFile::Tui)),
        SettingsAction::OpenStorageConfig => Some(Effect::OpenConfig(ConfigFile::Storage)),
        SettingsAction::ReloadTuiConfig => Some(Effect::Reload(ReloadTarget::Tui)),
        SettingsAction::ReloadStorageConfig => Some(Effect::Reload(ReloadTarget::Storage)),
        SettingsAction::ReloadAllConfigs => Some(Effect::Reload(ReloadTarget::All)),
        SettingsAction::ResetTuiConfig => None,
    }
}

impl App {
    /// Runs the selected settings action.
    pub fn execute_settings_action(&mut self)
        ensures
            old(self).orchestrator.wf() ==> final(self).orchestrator.wf(),
            settings_action_done(*old(self), *final(self)),
    {
        reveal(settings_action_done);
        match self.settings.selected_action() {
            SettingsAction::OpenTuiConfig => self.effects.push(Effect::OpenConfig(ConfigFile::Tui)),
            SettingsAction::OpenStorageConfig => self.effects.push(Effect::OpenConfig(ConfigFile::Storage)),
            SettingsAction::ReloadTuiConfig => self.effects.push(Effect::Reload(ReloadTarget::Tui)),
            SettingsAction::ReloadStorageConfig => self.effects.push(Effect::Reload(ReloadTarget::Storage)),
            SettingsAction::ReloadAllConfigs => self.effects.push(Effect::Reload(ReloadTarget::All)),
            SettingsAction::ResetTuiConfig => {
                self.pending_confirmation = Some(crate::app_state::reset_confirmation());
            },
        }
    }

    /// Tells how opening a configuration file at `path` went.
    pub fn finish_open_config(&mut self, file: ConfigFile, path: &str, result: Result<(), String>)
        ensures
            old(self).orchestrator.wf() ==> final(self).orchestrator.wf(),
            result is Ok ==> (final(self).notice matches Some(n) && n.kind == NoticeKind::Info && n.message@
                == (if file == ConfigFile::Tui {
                "Opened the TUI configuration."@
            } else {
                "Opened the storage configuration."@
            })),
            result matches Err(e) ==> (final(self).notice matches Some(n) && n.kind == NoticeKind::Error
                && n.message@ == "Could not open "@ + path@ + ": "@ + e@),
            final(self).orchestrator == old(self).orchestrator,
            final(self).config == old(self).config,
    {
        match result {
            Ok(()) => {
                let m = match file {
                    ConfigFile::Tui => String::from_str("Opened the TUI configuration."),
                    ConfigFile::Storage => String::from_str("Opened the storage configuration."),
                };
                self.show_notice(NoticeKind::Info, m);
            },
            Err(e) => {
                let a = concat_str("Could not open ", path);
                let b = concat_str(a.as_str(), ": ");
                let m = concat_str(b.as_str(), e.as_str());
                self.show_notice(NoticeKind::Error, m);
            },
        }
    }

    /// Takes the key bindings read again, or tells why they could not be.
    pub fn finish_tui_reload(&mut self, result: Result<Config, String>)
        ensures
            old(self).orchestrator.wf() ==> final(self).orchestrator.wf(),
            result matches Ok(c) ==> final(self).config == c && (final(self).notice matches Some(n) && n.kind
                == NoticeKind::Success && n.message@ == "Reloaded TUI configuration."@),
            result matches Err(e) ==> final(self).config == old(self).config && (final(self).notice matches Some(n)
                && n.kind == NoticeKind::Error && n.message@ == "Could not reload TUI configuration: "@ + e@),
            final(self).orchestrator == old(self).orchestrator,
            final(self).effects == old(self).effects,
    {
        match result {
            Ok(c) => {
                self.config = c;
                self.show_notice(NoticeKind::Success, String::from_str("Reloaded TUI configuration."));
            },
            Err(e) => {
                let m = concat_str("Could not reload TUI configuration: ", e.as_str());
                self.show_notice(NoticeKind::Error, m);
            },
        }
    }

    /// Replaces the folder and cloud configuration: servers of clouds no
    /// longer configured are stopped, the others restarted on new ports.
    fn apply_storage_config(&mut self, new_config: CloudsConfig)
        ensures
            old(self).orchestrator.wf() ==> final(self).orchestrator.wf(),
            final(self).orchestrator.clouds_config == new_config,
            final(self).effects@.len() >= old(self).effects@.len(),
            final(self).effects@.subrange(0, old(self).effects@.len() as int) == old(self).effects@,
            final(self).config == old(self).config,
            final(self).selected_tab == old(self).selected_tab,
            final(self).state == old(self).state,
            final(self).notice == old(self).notice,
    {
        let plan = self.orchestrator.begin_reload(new_config);
        let ghost cfg = self.orchestrator.clouds_config;
        let ghost e0 = old(self).effects@;
        let mut i: usize = 0;
        while i < plan.stop.len()
            invariant
                i <= plan.stop.len(),
                self.orchestrator.clouds_config == cfg,
                self.effects@.len() >= e0.len(),
                self.effects@.subrange(0, e0.len() as int) == e0,
                self.config == old(self).config,
                self.selected_tab == old(self).selected_tab,
                self.state == old(self).state,
                self.notice == old(self).notice,
                old(self).orchestrator.wf() ==> self.orchestrator.wf(),
            decreases plan.stop.len() - i,
        {
            let ghost before = self.effects@;
            self.effects.push(Effect::Halt(copy_str(plan.stop[i].as_str())));
            assert(self.effects@.subrange(0, e0.len() as int) =~= before.subrange(0, e0.len() as int));
            i = i + 1;
        }
        let mut j: usize = 0;
        while j < plan.restart.len()
            invariant
                j <= plan.restart.len(),
                self.orchestrator.clouds_config == cfg,
                self.effects@.len() >= e0.len(),
                self.effects@.subrange(0, e0.len() as int) == e0,
                self.config == old(self).config,
                self.selected_tab == old(self).selected_tab,
                self.state == old(self).state,
                self.notice == old(self).notice,
                old(self).orchestrator.wf() ==> self.orchestrator.wf(),
            decreases plan.restart.len() - j,
        {
            let ghost before = self.effects@;
            self.effects.push(Effect::Halt(copy_str(plan.restart[j].as_str())));
            assert(self.effects@.subrange(0, e0.len() as int) =~= before.subrange(0, e0.len() as int));
            let ghost mid = self.effects@;
            self.start_server_of(plan.restart[j].as_str());
            assert(self.effects@.subrange(0, mid.len() as int) == mid);
            assert(self.effects@.subrange(0, e0.len() as int) =~= mid.subrange(0, e0.len() as int));
            j = j + 1;
        }
        self.sync_from_orchestrator();
    }

    /// Takes the folder and cloud configuration read again (the caller
    /// falls back to an empty one when the file cannot be read).
    pub fn finish_storage_reload(&mut self, new_config: CloudsConfig)
        ensures
            old(self).orchestrator.wf() ==> final(self).orchestrator.wf(),
            final(self).orchestrator.clouds_config == new_config,
            final(self).notice matches Some(n) && n.kind == NoticeKind::Success && n.message@
                == "Reloaded storage configuration."@,
            final(self).config == old(self).config,
    {
        self.apply_storage_config(new_config);
        self.show_notice(NoticeKind::Success, String::from_str("Reloaded storage configuration."));
    }

    /// Takes both configurations read again; when the key bindings cannot
    /// be read nothing is reloaded and the reason is shown.
    pub fn finish_all_reload(&mut self, tui: Result<Config, String>, storage: CloudsConfig)
        ensures
            old(self).orchestrator.wf() ==> final(self).orchestrator.wf(),
            tui matches Ok(c) ==> final(self).config == c && final(self).orchestrator.clouds_config == storage
                && (final(self).notice matches Some(n) && n.kind == NoticeKind::Success && n.message@
                == "Reloaded all configuration."@),
            tui matches Err(e) ==> final(self).config == old(self).config && final(self).orchestrator
                == old(self).orchestrator && (final(self).notice matches Some(n) && n.kind == NoticeKind::Error
                && n.message@ == "Could not reload configuration: "@ + e@),
    {
        match tui {
            Ok(c) => {
                self.config = c;
                self.apply_storage_config(storage);
                self.show_notice(NoticeKind::Success, String::from_str("Reloaded all configuration."));
            },
            Err(e) => {
                let m = concat_str("Could not reload configuration: ", e.as_str());
                self.show_notice(NoticeKind::Error, m);
            },
        }
    }

    /// Takes the default key bindings once written, or tells why they
    /// could not be.
    pub fn finish_reset(&mut self, result: Result<Config, String>)
        ensures
            old(self).orchestrator.wf() ==> final(self).orchestrator.wf(),
            result matches Ok(c) ==> final(self).config == c && (final(self).notice matches Some(n) && n.kind
                == NoticeKind::Success && n.message@ == "Restored the default TUI configuration."@),
            result matches Err(e) ==> final(self).config == old(self).config && (final(self).notice matches Some(n)
                && n.kind == NoticeKind::Error && n.message@ == "Could not reset the TUI configuration: "@ + e@),
            final(self).orchestrator == old(self).orchestrator,
    {
        match result {
            Ok(c) => {
                self.config = c;
                self.show_notice(NoticeKind::Success, String::from_str("Restored the default TUI configuration."));
            },
            Err(e) => {
                let m = concat_str("Could not reset the TUI configuration: ", e.as_str());
                self.show_notice(NoticeKind::Error, m);
            },
        }
    }
}

/// Frame of the parts a focus or navigation step leaves alone.
pub open spec fn keeps_data(pre: App, post: App) -> bool {
    &&& post.orchestrator == pre.orchestrator
    &&& post.effects == pre.effects
    &&& post.config == pre.config
    &&& post.selected_tab == pre.selected_tab
    &&& post.state == pre.state
    &&& post.input_state == pre.input_state
}

/// What a navigation key does to the shown tab: it moves that tab's
/// selection (on the dashboard, Tab moves the focus) and changes nothing
/// else.
#[verifier::opaque]
pub open spec fn tab_navigation_done(a: App, b: App, key: Key) -> bool {
    &&& b == (App { dashboard: b.dashboard, storage: b.storage, settings: b.settings, ..a })
    &&& match a.selected_tab {
        AppTab::Dashboard => {
            &&& b.storage == a.storage
            &&& b.settings == a.settings
            &&& if a.dashboard.focused_panel == crate::dashboard::DashboardPanel::Activity {
                &&& b.dashboard == (DashboardState {
                    activity_list_state: b.dashboard.activity_list_state,
                    ..a.dashboard
                })
                &&& b.dashboard.activity_list_state.offset == a.dashboard.activity_list_state.offset
                &&& a.activity@.len() == 0 ==> b.dashboard == a.dashboard
                &&& a.activity@.len() > 0 ==> match crate::dashboard::activity_target(
                    a.dashboard.activity_list_state.selected,
                    a.activity@.len(),
                    key,
                ) {
                    Some(t) => b.dashboard.activity_list_state.selected == Some(t as usize),
                    None => b.dashboard == a.dashboard,
                }
            } else {
                &&& b.dashboard == (DashboardState {
                    selected_cloud_index: crate::dashboard::services_target(a.dashboard, key),
                    focused_panel: if key == Key::Tab {
                        crate::dashboard::panel_after(a.dashboard.focused_panel)
                    } else {
                        a.dashboard.focused_panel
                    },
                    clouds_list_state: b.dashboard.clouds_list_state,
                    ..a.dashboard
                })
                &&& b.dashboard.clouds_list_state.offset == a.dashboard.clouds_list_state.offset
                &&& b.dashboard.selected_cloud_index != a.dashboard.selected_cloud_index
                    ==> b.dashboard.clouds_list_state.selected == Some(b.dashboard.selected_cloud_index)
            }
        },
        AppTab::Storage => {
            &&& b.dashboard == a.dashboard
            &&& b.settings == a.settings
            &&& match a.storage.focused_panel {
                FocusedPanel::Folders => {
                    &&& b.storage == (FoldersState {
                        selected_folder_index: crate::folders_tab::moved_index(
                            a.storage.selected_folder_index,
                            a.storage.cloud_folders@.len(),
                            key,
                        ),
                        folders_list_state: b.storage.folders_list_state,
                        ..a.storage
                    })
                    &&& b.storage.folders_list_state.offset == a.storage.folders_list_state.offset
                },
                FocusedPanel::Clouds => {
                    &&& b.storage == (FoldersState {
                        selected_cloud_index: crate::folders_tab::moved_index(
                            a.storage.selected_cloud_index,
                            a.storage.clouds@.len(),
                            key,
                        ),
                        clouds_list_state: b.storage.clouds_list_state,
                        ..a.storage
                    })
                    &&& b.storage.clouds_list_state.offset == a.storage.clouds_list_state.offset
                },
                FocusedPanel::Info => b.storage == a.storage,
            }
        },
        AppTab::Settings => {
            &&& b.dashboard == a.dashboard
            &&& b.storage == a.storage
            &&& match crate::settings::settings_nav(crate::settings::selected_or_first(a.settings.list_state), key) {
                Some(t) => b.settings.list_state == (crate::key::ListState {
                    selected: Some(t as usize),
                    ..a.settings.list_state
                }),
                None => b.settings == a.settings,
            }
        },
    }
}

impl App {
    /// Moves focus to the next element of the shown tab.
    pub fn cycle_focus_forward(&mut self)
        ensures
            old(self).orchestrator.wf() ==> final(self).orchestrator.wf(),
            focus_moved_forward(*old(self), *final(self)),
    {
        reveal(focus_moved_forward);
        match self.selected_tab {
            AppTab::Dashboard => self.dashboard.cycle_focus_forward(),
            AppTab::Storage => self.storage.cycle_focus_forward(),
            AppTab::Settings => {},
        }
    }

    /// Moves focus to the previous element of the shown tab.
    pub fn cycle_focus_backward(&mut self)
        ensures
            old(self).orchestrator.wf() ==> final(self).orchestrator.wf(),
            focus_moved_backward(*old(self), *final(self)),
    {
        reveal(focus_moved_backward);
        match self.selected_tab {
            AppTab::Dashboard => self.dashboard.cycle_focus_backward(),
            AppTab::Storage => self.storage.cycle_focus_backward(),
            AppTab::Settings => {},
        }
    }

    /// Names the focused element of the shown tab.
    pub fn get_current_focused_element(&self) -> (res: String)
        ensures
            self.selected_tab == AppTab::Settings ==> res@ == "SettingsList"@,
    {
        match self.selected_tab {
            AppTab::Dashboard => self.dashboard.get_focused_element(),
            AppTab::Storage => self.storage.get_focused_element(),
            AppTab::Settings => self.settings.get_focused_element(),
        }
    }

    /// Moves the selection of the focused list of the shown tab. Returns
    /// whether the key moved anything.
    pub fn handle_tab_navigation(&mut self, key: Key) -> (handled: bool)
        ensures
            old(self).orchestrator.wf() ==> final(self).orchestrator.wf(),
            old(self).selected_tab == AppTab::Storage && old(self).storage.focused_panel == FocusedPanel::Folders
                ==> handled == crate::folders_tab::list_target(
                old(self).storage.selected_folder_index,
                old(self).storage.cloud_folders@.len(),
                key,
            ) is Some,
            old(self).selected_tab == AppTab::Settings ==> handled == crate::settings::settings_nav(
                crate::settings::selected_or_first(old(self).settings.list_state),
                key,
            ).is_some(),
            keeps_data(*old(self), *final(self)),
            tab_navigation_done(*old(self), *final(self), key),
    {
        reveal(tab_navigation_done);
        match self.selected_tab {
            AppTab::Dashboard => {
                if self.dashboard.focused_panel == crate::dashboard::DashboardPanel::Activity {
                    let n = self.activity.len();
                    self.dashboard.handle_activity_navigation(key, n)
                } else {
                    self.dashboard.handle_navigation(key)
                }
            },
            AppTab::Storage => self.storage.handle_navigation(key),
            AppTab::Settings => self.settings.handle_navigation(key),
        }
    }

    /// Carries out the action bound to a key.
    pub fn execute_action(&mut self, action: &str)
        ensures
            old(self).orchestrator.wf() ==> final(self).orchestrator.wf(),
            action_done(*old(self), *final(self), action@),
    {
        reveal(action_done);
        match action_command(action) {
            None => {
                let line = concat_str("Unknown action: ", action);
                self.add_debug(line.as_str());
            },
            Some(c) => match c {
                ActionCommand::Quit => self.quit(),
                ActionCommand::NextTab => self.next_tab(),
                ActionCommand::PreviousTab => self.previous_tab(),
                ActionCommand::ToggleDebug => self.toggle_debug(),
                ActionCommand::ToggleHelp => {
                    self.help_open = !self.help_open;
                },
                ActionCommand::StartStopCloud => self.start_stop_cloud(),
                ActionCommand::OpenCloud => self.open_cloud(),
                ActionCommand::AddFolder => self.start_adding_folder(),
                ActionCommand::CreateCloud => self.start_creating_cloud(),
                ActionCommand::RemoveFolderOrCloud => self.request_remove_focused_item(),
                ActionCommand::SetCloudPassword => self.start_setting_cloud_password(),
                ActionCommand::SelectAllFolders => self.select_all_folders(),
                ActionCommand::Edit => self.start_editing_storage_item(),
                ActionCommand::TogglePasswordVisibility => self.toggle_cloud_password_display(),
                ActionCommand::CycleFocusForward => self.cycle_focus_forward(),
                ActionCommand::CycleFocusBackward => self.cycle_focus_backward(),
                ActionCommand::NavigateUp => {
                    self.handle_tab_navigation(Key::Char('k'));
                },
                ActionCommand::NavigateDown => {
                    self.handle_tab_navigation(Key::Char('j'));
                },
                ActionCommand::NavigateToTop => {
                    self.handle_tab_navigation(Key::Char('g'));
                },
                ActionCommand::NavigateToBottom => {
                    self.handle_tab_navigation(Key::Char('G'));
                },
                ActionCommand::ToggleSelection => self.toggle_selection(),
                ActionCommand::Refresh => {
                    self.sync_from_orchestrator();
                    let ghost m0 = *self;
                    assert(sync_done(*old(self), m0));
                    self.add_debug("Refreshed data from orchestrator");
                    self.show_notice(NoticeKind::Success, String::from_str("Refreshed cloud data."));
                },
                ActionCommand::ReloadTuiConfig => self.effects.push(Effect::Reload(ReloadTarget::Tui)),
                ActionCommand::ReloadStorageConfig => self.effects.push(Effect::Reload(ReloadTarget::Storage)),
                ActionCommand::ReloadAllConfigs => self.effects.push(Effect::Reload(ReloadTarget::All)),
                ActionCommand::ExecuteAction => {
                    if self.selected_tab == AppTab::Settings {
                        self.execute_settings_action();
                    }
                },
            },
        }
    }
}

/// What starting or stopping the selected dashboard cloud does.
#[verifier::opaque]
pub open spec fn start_stop_done(a: App, b: App) -> bool {
    &&& b == (App {
        orchestrator: b.orchestrator,
        dashboard: b.dashboard,
        effects: b.effects,
        notice: b.notice,
        ..a
    })
    &&& b.orchestrator.clouds_config == a.orchestrator.clouds_config
    &&& dashboard_selection(a.dashboard) is None ==> {
        &&& b == (App { notice: b.notice, ..a })
        &&& b.notice matches Some(n) && n.kind == NoticeKind::Warning && n.message@
            == "Create and select a cloud first."@
    }
    &&& dashboard_selection(a.dashboard) matches Some(name) ==> {
        let running = running_names(a.dashboard.running_clouds@).contains(name);
        &&& running ==> server_stopped(a, b, name)
        &&& !running ==> server_started(a, b, name)
        &&& b.dashboard.cloud_start_error is None ==> (b.notice matches Some(n) && (if running {
            n.kind == NoticeKind::Info && n.message@ == curly("Stopped "@, name, "."@)
        } else {
            n.kind == NoticeKind::Success && n.message@ == curly("Started "@, name, "."@)
        }))
        &&& b.dashboard.cloud_start_error matches Some(e) ==> (b.notice matches Some(n)
            && n.kind == NoticeKind::Error && n.message@ == e@)
    }
}

/// What opening the selected dashboard cloud in a browser does.
#[verifier::opaque]
pub open spec fn open_cloud_done(a: App, b: App) -> bool {
    &&& b == (App { effects: b.effects, notice: b.notice, ..a })
    &&& ({
        let sel = dashboard_selection(a.dashboard);
        if sel is Some && running_names(a.orchestrator.running_clouds@).contains(sel->Some_0) {
            &&& b.notice == a.notice
            &&& b.effects@.len() == a.effects@.len() + 1
            &&& b.effects@.drop_last() == a.effects@
            &&& b.effects@.last() matches Effect::OpenUrl(u) && exists|i: int|
                is_first_index(running_names(a.orchestrator.running_clouds@), sel->Some_0, i) && u@
                    == crate::orchestrator::local_url(a.orchestrator.running_clouds@[i].1)
        } else {
            &&& b.effects == a.effects
            &&& b.notice matches Some(n) && n.kind == NoticeKind::Warning && n.message@
                == "Start the selected cloud before opening it in a browser."@
        }
    })
}

/// What opening the new-folder dialog does.
#[verifier::opaque]
pub open spec fn folder_dialog_opened(a: App, b: App) -> bool {
    &&& b == (App { storage: b.storage, ..a })
    &&& a.selected_tab == AppTab::Storage ==> {
        &&& b.storage == (FoldersState {
            creating_folder: true,
            new_folder_name: b.storage.new_folder_name,
            new_folder_path: b.storage.new_folder_path,
            folder_input_field: FolderInputField::Name,
            folder_creation_error: None,
            ..a.storage
        })
        &&& b.storage.new_folder_name@.len() == 0
        &&& b.storage.new_folder_path@.len() == 0
    }
    &&& a.selected_tab != AppTab::Storage ==> b == a
}

/// What opening the new-cloud dialog does.
#[verifier::opaque]
pub open spec fn cloud_dialog_opened(a: App, b: App) -> bool {
    &&& b == (App { storage: b.storage, notice: b.notice, ..a })
    &&& a.selected_tab == AppTab::Storage && a.storage.selected_folders@.len() == 0 ==> {
        &&& b.storage == a.storage
        &&& b.notice matches Some(n) && n.kind == NoticeKind::Warning && n.message@
            == "Select at least one folder before creating a cloud."@
    }
    &&& a.selected_tab == AppTab::Storage && a.storage.selected_folders@.len() > 0 ==> {
        &&& b.notice == a.notice
        &&& b.storage == (FoldersState {
            creating_cloud: true,
            new_cloud_name: b.storage.new_cloud_name,
            cloud_creation_error: None,
            ..a.storage
        })
        &&& b.storage.new_cloud_name@.len() == 0
    }
    &&& a.selected_tab != AppTab::Storage ==> b == a
}

/// What asking to remove the focused storage item does.
#[verifier::opaque]
pub open spec fn removal_requested(a: App, b: App) -> bool {
    &&& b == (App { pending_confirmation: b.pending_confirmation, notice: b.notice, ..a })
    &&& b.orchestrator == a.orchestrator
    &&& b.storage == a.storage
    &&& b.effects == a.effects
    &&& a.selected_tab == AppTab::Storage && a.storage.focused_panel == FocusedPanel::Folders
        && a.storage.selected_folder_index < a.storage.cloud_folders@.len() ==> (b.pending_confirmation matches Some(c)
        && is_folder_confirmation(c, a.storage.cloud_folders@[a.storage.selected_folder_index as int].name@))
    &&& a.selected_tab == AppTab::Storage && a.storage.focused_panel == FocusedPanel::Clouds
        && a.storage.selected_cloud_index < a.storage.clouds@.len() ==> (b.pending_confirmation matches Some(c)
        && is_cloud_confirmation(c, a.storage.clouds@[a.storage.selected_cloud_index as int].name@))
    &&& !(a.selected_tab == AppTab::Storage && a.storage.focused_panel == FocusedPanel::Clouds
        && a.storage.selected_cloud_index < a.storage.clouds@.len()) && a.storage.focused_panel
        == FocusedPanel::Clouds ==> (b.notice matches Some(n) && n.kind == NoticeKind::Warning && n.message@
        == "Select a cloud to remove."@)
    &&& !(a.selected_tab == AppTab::Storage && a.storage.focused_panel == FocusedPanel::Folders
        && a.storage.selected_folder_index < a.storage.cloud_folders@.len()) && a.storage.focused_panel
        != FocusedPanel::Clouds ==> (b.notice matches Some(n) && n.kind == NoticeKind::Warning && n.message@
        == "Select a folder to remove."@)
}

/// What starting password entry for the selected cloud does.
#[verifier::opaque]
pub open spec fn password_entry_opened(a: App, b: App) -> bool {
    &&& b == (App { dashboard: b.dashboard, storage: b.storage, notice: b.notice, ..a })
    &&& a.selected_tab == AppTab::Dashboard && a.dashboard.clouds@.len() > 0 ==> {
        &&& b.storage == a.storage
        &&& b.notice == a.notice
        &&& b.dashboard == (DashboardState { password_creation: b.dashboard.password_creation, ..a.dashboard })
        &&& b.dashboard.password_creation@ == (if a.dashboard.has_selection() {
            crate::password::fresh_password(true)
        } else {
            a.dashboard.password_creation@
        })
    }
    &&& a.selected_tab == AppTab::Storage && a.storage.focused_panel == FocusedPanel::Clouds
        && a.storage.selected_cloud_index < a.storage.clouds@.len() ==> {
        &&& b.dashboard == a.dashboard
        &&& b.notice == a.notice
        &&& b.storage == (FoldersState { password_creation: b.storage.password_creation, ..a.storage })
        &&& b.storage.password_creation@ == crate::password::fresh_password(true)
    }
    &&& (a.selected_tab == AppTab::Dashboard && a.dashboard.clouds@.len() == 0) || (a.selected_tab
        == AppTab::Storage && !(a.storage.focused_panel == FocusedPanel::Clouds
        && a.storage.selected_cloud_index < a.storage.clouds@.len())) ==> {
        &&& b.dashboard == a.dashboard
        &&& b.storage == a.storage
        &&& b.notice matches Some(n) && n.kind == NoticeKind::Warning && n.message@ == "Select a cloud first."@
    }
    &&& a.selected_tab == AppTab::Settings ==> b == a
}

/// What marking every folder does.
#[verifier::opaque]
pub open spec fn all_folders_marked(a: App, b: App) -> bool {
    &&& b == (App { storage: b.storage, debug_info: b.debug_info, notice: b.notice, ..a })
    &&& a.selected_tab == AppTab::Storage && a.storage.focused_panel == FocusedPanel::Folders ==> {
        &&& b.storage == (FoldersState { selected_folders: b.storage.selected_folders, ..a.storage })
        &&& b.storage.selected_folders@ == Set::new(|i: usize| i < a.storage.cloud_folders@.len())
        &&& b.notice matches Some(n) && n.kind == NoticeKind::Info && n.message@ == "Selected all "@
            + crate::text::decimal(b.storage.selected_folders@.len()) + " folders."@
    }
    &&& !(a.selected_tab == AppTab::Storage && a.storage.focused_panel == FocusedPanel::Folders) ==> {
        &&& b.storage == a.storage
        &&& b.debug_info == a.debug_info
        &&& b.notice matches Some(n) && n.kind == NoticeKind::Warning && n.message@
            == "Focus the Folders panel to select folders."@
    }
}

/// What opening the edit dialog for the focused storage item does.
#[verifier::opaque]
pub open spec fn editing_opened(a: App, b: App) -> bool {
    &&& b == (App { storage: b.storage, debug_info: b.debug_info, ..a })
    &&& a.selected_tab == AppTab::Storage && a.storage.focused_panel == FocusedPanel::Folders
        && a.storage.selected_folder_index < a.storage.cloud_folders@.len() ==> {
        let f = a.storage.cloud_folders@[a.storage.selected_folder_index as int];
        &&& b.storage == (FoldersState {
            editing_folder: true,
            edit_folder_original_name: b.storage.edit_folder_original_name,
            edit_folder_name: b.storage.edit_folder_name,
            edit_folder_path: b.storage.edit_folder_path,
            edit_folder_input_field: FolderInputField::Name,
            folder_edit_error: None,
            ..a.storage
        })
        &&& b.storage.edit_folder_original_name@ == f.name@
        &&& b.storage.edit_folder_name@ == f.name@
        &&& b.storage.edit_folder_path@ == f.folder_path@
    }
    &&& a.selected_tab == AppTab::Storage && a.storage.focused_panel == FocusedPanel::Clouds
        && a.storage.selected_cloud_index < a.storage.clouds@.len() ==> {
        let c = a.storage.clouds@[a.storage.selected_cloud_index as int];
        &&& b.storage == (FoldersState {
            editing_cloud: true,
            edit_cloud_original_name: b.storage.edit_cloud_original_name,
            edit_cloud_name: b.storage.edit_cloud_name,
            cloud_edit_error: None,
            edit_cloud_selected_folders: b.storage.edit_cloud_selected_folders,
            cloud_edit_focus: CloudEditFocus::Name,
            ..a.storage
        })
        &&& b.storage.edit_cloud_original_name@ == c.name@
        &&& b.storage.edit_cloud_name@ == c.name@
        &&& b.storage.edit_cloud_selected_folders@ == Set::new(
            |i: usize|
                i < a.storage.cloud_folders@.len() && folder_names(c.cloud_folders@).contains(
                    a.storage.cloud_folders@[i as int].name@,
                ),
        )
    }
    &&& !(a.selected_tab == AppTab::Storage && a.storage.focused_panel == FocusedPanel::Folders
        && a.storage.selected_folder_index < a.storage.cloud_folders@.len()) && !(a.selected_tab
        == AppTab::Storage && a.storage.focused_panel == FocusedPanel::Clouds && a.storage.selected_cloud_index
        < a.storage.clouds@.len()) ==> b.storage == (if a.selected_tab == AppTab::Storage
        && a.storage.focused_panel == FocusedPanel::Clouds && a.storage.clouds@.len() > 0 {
        FoldersState { cloud_edit_focus: CloudEditFocus::Name, ..a.storage }
    } else {
        a.storage
    })
}

/// What showing or hiding the selected cloud's password does.
#[verifier::opaque]
pub open spec fn password_display_toggled(a: App, b: App) -> bool {
    &&& b == (App { storage: b.storage, debug_info: b.debug_info, ..a })
    &&& b.storage == (FoldersState { password_visible: b.storage.password_visible, ..a.storage })
    &&& b.storage.password_visible == (if a.selected_tab == AppTab::Storage
        && a.storage.focused_panel == FocusedPanel::Clouds && a.storage.selected_cloud_index
        < a.storage.clouds@.len() {
        !a.storage.password_visible
    } else {
        a.storage.password_visible
    })
}

/// What moving focus to the next element of the shown tab does.
#[verifier::opaque]
pub open spec fn focus_moved_forward(a: App, b: App) -> bool {
    &&& b == (App { dashboard: b.dashboard, storage: b.storage, ..a })
    &&& match a.selected_tab {
        AppTab::Dashboard => b.storage == a.storage && b.dashboard == (DashboardState {
            focused_panel: crate::dashboard::panel_after(a.dashboard.focused_panel),
            ..a.dashboard
        }),
        AppTab::Storage => b.dashboard == a.dashboard && b.storage == (FoldersState {
            focused_panel: if a.storage.focused_panel == FocusedPanel::Folders {
                FocusedPanel::Clouds
            } else {
                FocusedPanel::Folders
            },
            ..a.storage
        }),
        AppTab::Settings => b == a,
    }
}

/// What moving focus to the previous element of the shown tab does.
#[verifier::opaque]
pub open spec fn focus_moved_backward(a: App, b: App) -> bool {
    &&& b == (App { dashboard: b.dashboard, storage: b.storage, ..a })
    &&& match a.selected_tab {
        AppTab::Dashboard => b.storage == a.storage && b.dashboard == (DashboardState {
            focused_panel: crate::dashboard::panel_before(a.dashboard.focused_panel),
            ..a.dashboard
        }),
        AppTab::Storage => b.dashboard == a.dashboard && b.storage == (FoldersState {
            focused_panel: if a.storage.focused_panel == FocusedPanel::Folders {
                FocusedPanel::Clouds
            } else {
                FocusedPanel::Folders
            },
            ..a.storage
        }),
        AppTab::Settings => b == a,
    }
}

/// What marking or unmarking the focused folder does.
#[verifier::opaque]
pub open spec fn selection_toggled(a: App, b: App) -> bool {
    &&& b == (App { storage: b.storage, debug_info: b.debug_info, ..a })
    &&& b.storage == (FoldersState { selected_folders: b.storage.selected_folders, ..a.storage })
    &&& a.selected_tab == AppTab::Storage && a.storage.focused_panel == FocusedPanel::Folders
        && a.storage.cloud_folders@.len() > 0 ==> b.storage.selected_folders@ == (if a.storage.selected_folders@.contains(
        a.storage.selected_folder_index,
    ) {
        a.storage.selected_folders@.remove(a.storage.selected_folder_index)
    } else {
        a.storage.selected_folders@.insert(a.storage.selected_folder_index)
    })
    &&& !(a.selected_tab == AppTab::Storage && a.storage.focused_panel == FocusedPanel::Folders
        && a.storage.cloud_folders@.len() > 0) ==> b == a
}

/// What running the highlighted settings action does.
#[verifier::opaque]
pub open spec fn settings_action_done(a: App, b: App) -> bool {
    &&& b == (App { effects: b.effects, pending_confirmation: b.pending_confirmation, ..a })
    &&& ({
        let act = crate::settings::settings_action_at(crate::settings::selected_or_first(a.settings.list_state));
        match settings_effect(act) {
            Some(e) => b.effects@ == a.effects@.push(e) && b.pending_confirmation
                == a.pending_confirmation,
            None => b.effects == a.effects && (b.pending_confirmation matches Some(
                c,
            ) && c.action == ConfirmationAction::ResetTuiConfig && c.title@ == "Reset TUI configuration?"@),
        }
    })
}

/// What the action named `action` does to the front end: an unknown name
/// only adds a debug line, and each command does what the method that
/// carries it out states.
#[verifier::opaque]
pub open spec fn action_done(a: App, b: App, action: Seq<char>) -> bool {
    match command_of(action) {
        None => b == (App { debug_info: b.debug_info, ..a }),
        Some(c) => match c {
            ActionCommand::Quit => b == (App { state: AppState::Quitting, ..a }),
            ActionCommand::NextTab => b == (App {
                selected_tab: app_tab_at(app_tab_index(a.selected_tab) + 1),
                debug_info: b.debug_info,
                ..a
            }),
            ActionCommand::PreviousTab => b == (App {
                selected_tab: app_tab_at(app_tab_index(a.selected_tab) + 2),
                debug_info: b.debug_info,
                ..a
            }),
            ActionCommand::ToggleDebug => {
                &&& b == (App { debug_mode: !a.debug_mode, debug_info: b.debug_info, ..a })
                &&& a.debug_mode ==> b.debug_info@.len() == 0
                &&& !a.debug_mode ==> b.debug_info@.len() > 0 && b.debug_info@.last()@ == "["@ + a.clock_label@
                    + "] "@ + "Debug mode enabled"@
            },
            ActionCommand::ToggleHelp => b == (App { help_open: !a.help_open, ..a }),
            ActionCommand::StartStopCloud => start_stop_done(a, b),
            ActionCommand::OpenCloud => open_cloud_done(a, b),
            ActionCommand::AddFolder => folder_dialog_opened(a, b),
            ActionCommand::CreateCloud => cloud_dialog_opened(a, b),
            ActionCommand::RemoveFolderOrCloud => removal_requested(a, b),
            ActionCommand::SetCloudPassword => password_entry_opened(a, b),
            ActionCommand::SelectAllFolders => all_folders_marked(a, b),
            ActionCommand::Edit => editing_opened(a, b),
            ActionCommand::TogglePasswordVisibility => password_display_toggled(a, b),
            ActionCommand::CycleFocusForward => focus_moved_forward(a, b),
            ActionCommand::CycleFocusBackward => focus_moved_backward(a, b),
            ActionCommand::NavigateUp => tab_navigation_done(a, b, Key::Char('k')),
            ActionCommand::NavigateDown => tab_navigation_done(a, b, Key::Char('j')),
            ActionCommand::NavigateToTop => tab_navigation_done(a, b, Key::Char('g')),
            ActionCommand::NavigateToBottom => tab_navigation_done(a, b, Key::Char('G')),
            ActionCommand::ToggleSelection => selection_toggled(a, b),
            ActionCommand::Refresh => {
                &&& exists|m: App| #[trigger] sync_done(a, m) && sync_frame(a, m) && b == (App {
                    debug_info: b.debug_info,
                    notice: b.notice,
                    ..m
                })
                &&& b.notice matches Some(n) && n.kind == NoticeKind::Success && n.message@
                    == "Refreshed cloud data."@
            },
            ActionCommand::ReloadTuiConfig => b == (App {
                effects: b.effects,
                ..a
            }) && b.effects@ == a.effects@.push(Effect::Reload(ReloadTarget::Tui)),
            ActionCommand::ReloadStorageConfig => b == (App {
                effects: b.effects,
                ..a
            }) && b.effects@ == a.effects@.push(Effect::Reload(ReloadTarget::Storage)),
            ActionCommand::ReloadAllConfigs => b == (App {
                effects: b.effects,
                ..a
            }) && b.effects@ == a.effects@.push(Effect::Reload(ReloadTarget::All)),
            ActionCommand::ExecuteAction => if a.selected_tab == AppTab::Settings {
                settings_action_done(a, b)
            } else {
                b == a
            },
        },
    }
}

/// A key that reached the bindings: `m` is `a` with the key's debug line,
/// the bound action, if any, takes `m` to `b`, and `f` is `b` with the key
/// sequence state the bindings left.
pub open spec fn key_ran(a: App, m: App, b: App, f: App, act: Option<Seq<char>>) -> bool {
    &&& m == (App { debug_info: m.debug_info, ..a })
    &&& match act {
        Some(n) => action_done(m, b, n),
        None => b == m,
    }
    &&& f == (App { input_state: f.input_state, ..b })
}

/// A key sequence that timed out: `m` is `a` with expired notices dropped,
/// the action bound to the sequence, if any, takes `m` to `b`, and `f` is
/// `b` back in normal input.
pub open spec fn timeout_ran(a: App, m: App, b: App, f: App, act: Option<Seq<char>>) -> bool {
    &&& m == (App { notice: m.notice, ..a })
    &&& match act {
        Some(n) => action_done(m, b, n),
        None => b == m,
    }
    &&& f == (App { input_state: InputState::Normal, ..b })
}

/// What confirming the pending question does: the confirmed removal or reset is carried out and the question is closed.
#[verifier::opaque]
pub open spec fn confirmation_done(a: App, b: App) -> bool {
    &&& a.pending_confirmation is None ==> b == a
    &&& a.pending_confirmation matches Some(c) ==> {
        &&& b.pending_confirmation is None
        &&& b.selected_tab == a.selected_tab
        &&& b.state == a.state
        &&& match c.action {
            ConfirmationAction::RemoveFolder(n) => folder_removal_outcome(
                App { pending_confirmation: None, ..a },
                b,
                n@,
            ),
            ConfirmationAction::RemoveCloud(n) => {
                let running = running_names(a.orchestrator.running_clouds@).contains(n@);
                &&& !running ==> cloud_removal_outcome(App { pending_confirmation: None, ..a }, b, n@)
                &&& running ==> exists|m: App|
                    #[trigger] halted_for_removal(a, m, n@) && cloud_removal_outcome(m, b, n@)
            },
            ConfirmationAction::ResetTuiConfig => b == (App {
                pending_confirmation: None,
                effects: b.effects,
                ..a
            }) && b.effects@ == a.effects@.push(Effect::ResetTuiConfig),
        }
    }
}

/// A running cloud about to be removed is stopped first: `m` is `a` with
/// the question closed, the cloud dropped from the running list and its
/// stopping asked of the caller.
pub open spec fn halted_for_removal(a: App, m: App, name: Seq<char>) -> bool {
    &&& m.pending_confirmation is None
    &&& m.orchestrator.clouds_config == a.orchestrator.clouds_config
    &&& exists|i: int|
        is_first_index(running_names(a.orchestrator.running_clouds@), name, i)
            && m.orchestrator.running_clouds@ == a.orchestrator.running_clouds@.remove(i)
    &&& m.effects@.len() == a.effects@.len() + 1
    &&& m.effects@.drop_last() == a.effects@
    &&& m.effects@.last() matches Effect::Halt(h) && h@ == name
    &&& m.selected_tab == a.selected_tab
    &&& m.state == a.state
}

/// What a key does while the help or a question is open: Esc or `?`
/// closes the help, a yes confirms the question and a no cancels it with a
/// notice; every other key is swallowed.
#[verifier::opaque]
pub open spec fn overlay_done(a: App, b: App, key: Key) -> bool {
    match overlay_outcome(a.help_open, a.pending_confirmation is Some, key) {
        OverlayOutcome::CloseHelp => b == (App { help_open: false, ..a }),
        OverlayOutcome::Confirm => confirmation_done(a, b),
        OverlayOutcome::Cancel => {
            &&& b == (App { pending_confirmation: None, notice: b.notice, ..a })
            &&& b.notice matches Some(n) && n.kind == NoticeKind::Info && n.message@ == "Action cancelled."@
        },
        OverlayOutcome::Swallowed => b == a,
        OverlayOutcome::NotHandled => b == a,
    }
}

/// A list selection set to `sel`; clearing it also scrolls back to the top.
pub open spec fn selected_as(l: crate::key::ListState, sel: Option<usize>) -> crate::key::ListState {
    crate::key::ListState { selected: sel, offset: if sel is None { 0 } else { l.offset } }
}

/// What closing a list search does: the search ends and the list it ran on
/// selects the match kept by Enter (`commit`) or goes back to where it was
/// before the search; nothing else changes.
#[verifier::opaque]
pub open spec fn search_finished(a: App, b: App, commit: bool) -> bool {
    match a.search {
        None => b == a,
        Some(s) => search_settled(
            App { search: None, ..a },
            b,
            s.target,
            if commit { s.selected_index } else { s.previous_selected_index },
            commit,
        ),
    }
}

/// Where the list of a closed search ends up: on the item `chosen` when
/// the search was kept (`commit`) and that item exists, else where it was.
pub open spec fn search_settled(a: App, b: App, target: SearchTarget, chosen: Option<usize>, commit: bool) -> bool {
    &&& b == (App { dashboard: b.dashboard, storage: b.storage, settings: b.settings, ..a })
    &&& match target {
        SearchTarget::DashboardServices => {
            let len = a.dashboard.clouds@.len();
            let i = if commit && below(chosen, len) is Some {
                chosen->Some_0
            } else {
                a.dashboard.selected_cloud_index
            };
            &&& b.storage == a.storage
            &&& b.settings == a.settings
            &&& b.dashboard == (DashboardState {
                selected_cloud_index: i,
                clouds_list_state: selected_as(a.dashboard.clouds_list_state, below(Some(i), len)),
                ..a.dashboard
            })
        },
        SearchTarget::DashboardActivity => {
            &&& b.storage == a.storage
            &&& b.settings == a.settings
            &&& b.dashboard == (DashboardState {
                activity_list_state: selected_as(
                    a.dashboard.activity_list_state,
                    below(chosen, a.activity@.len()),
                ),
                ..a.dashboard
            })
        },
        SearchTarget::StorageFolders | SearchTarget::CloudEditFolders => {
            let len = a.storage.cloud_folders@.len();
            let i = if commit && below(chosen, len) is Some {
                chosen->Some_0
            } else {
                a.storage.selected_folder_index
            };
            &&& b.dashboard == a.dashboard
            &&& b.settings == a.settings
            &&& b.storage == (FoldersState {
                selected_folder_index: i,
                folders_list_state: selected_as(a.storage.folders_list_state, below(Some(i), len)),
                ..a.storage
            })
        },
        SearchTarget::StorageClouds => {
            let len = a.storage.clouds@.len();
            let moved = commit && below(chosen, len) is Some;
            let i = if moved { chosen->Some_0 } else { a.storage.selected_cloud_index };
            &&& b.dashboard == a.dashboard
            &&& b.settings == a.settings
            &&& b.storage == (FoldersState {
                selected_cloud_index: i,
                password_visible: if moved { false } else { a.storage.password_visible },
                clouds_list_state: selected_as(a.storage.clouds_list_state, below(Some(i), len)),
                ..a.storage
            })
        },
        SearchTarget::Settings => {
            &&& b.dashboard == a.dashboard
            &&& b.storage == a.storage
            &&& b.settings.list_state == selected_as(
                a.settings.list_state,
                below(chosen, crate::settings::SETTINGS_ACTION_COUNT as nat),
            )
        },
    }
}

/// What a key does while a list search is open: Escape and Enter close it
/// (see `search_finished`), Backspace and characters edit the query, the
/// arrows move among the matches, and other keys are swallowed.
#[verifier::opaque]
pub open spec fn search_key_done(a: App, b: App, key: Key) -> bool {
    match a.search {
        None => b == a,
        Some(s) => {
            let texts = search_texts_of(a, s.target);
            match key {
                Key::Esc => search_finished(a, b, false),
                Key::Enter => search_finished(a, b, true),
                Key::Backspace | Key::Up | Key::Down | Key::Char(_) => {
                    &&& b == (App { search: b.search, ..a })
                    &&& b.search matches Some(t) && t == (ListSearch {
                        query: t.query,
                        selected_index: t.selected_index,
                        ..s
                    }) && match key {
                        Key::Backspace => {
                            &&& t.query@ == (if s.query@.len() > 0 {
                                s.query@.drop_last()
                            } else {
                                s.query@
                            })
                            &&& t.selected_index == crate::search::keep_or_first(
                                s.selected_index,
                                crate::search::matching(texts, t.query@),
                            )
                        },
                        Key::Char(c) => {
                            &&& t.query@ == s.query@.push(c)
                            &&& t.selected_index == crate::search::keep_or_first(
                                s.selected_index,
                                crate::search::matching(texts, t.query@),
                            )
                        },
                        _ => {
                            &&& t.query == s.query
                            &&& t.selected_index == crate::search::moved(
                                crate::search::matching(texts, s.query@),
                                s.selected_index,
                                key == Key::Down,
                            )
                        },
                    }
                },
                _ => b == a,
            }
        },
    }
}

/// What saving the password typed on the dashboard does: the selected cloud accepts it and the storage configuration is saved, or the reason it was refused is shown.
#[verifier::opaque]
pub open spec fn dashboard_password_saved(a: App, b: App) -> bool {
    &&& dashboard_selection(a.dashboard) is None ==> (b.dashboard.password_creation.password_error matches Some(
        e,
    ) && e@ == "No cloud selected"@) && b.orchestrator == a.orchestrator
    &&& dashboard_selection(a.dashboard) matches Some(name) ==> {
        let pw = a.dashboard.password_creation@.input;
        ||| {
            &&& b.notice matches Some(n) && n.kind == NoticeKind::Success && n.message@ == curly(
                "Password updated for cloud "@,
                name,
                "."@,
            )
            &&& b.orchestrator.password_accepted(name, pw)
            &&& b.orchestrator.clouds_config.cloud_folders@ == a.orchestrator.clouds_config.cloud_folders@
            &&& b.effects@.len() > a.effects@.len()
            &&& b.effects@[a.effects@.len() as int] == Effect::SaveStorage
        }
        ||| {
            &&& b.dashboard.password_creation.password_error is Some
            &&& b.orchestrator.clouds_config.clouds@ == a.orchestrator.clouds_config.clouds@
            &&& b.effects == a.effects
        }
    }
    &&& b.selected_tab == a.selected_tab
    &&& b.state == a.state
}

/// A key given to password entry on the dashboard: `m` is `a` with the
/// key's debug line; a key that stands for a character is typed into the
/// entry (giving `p`), and when that completes the entry the password is
/// saved (see `dashboard_password_saved`); other keys change nothing.
pub open spec fn dashboard_password_key(a: App, m: App, p: App, b: App, key: Key) -> bool {
    &&& m == (App { debug_info: m.debug_info, ..a })
    &&& match password_char(key) {
        None => b == m,
        Some(c) => {
            &&& p == (App {
                dashboard: DashboardState { password_creation: p.dashboard.password_creation, ..m.dashboard },
                ..m
            })
            &&& p.dashboard.password_creation@ == crate::password::password_step(m.dashboard.password_creation@, c)
            &&& if crate::password::password_complete(p.dashboard.password_creation@) {
                dashboard_password_saved(p, b)
            } else {
                b == p
            }
        },
    }
}

/// What opening a list search does: a search of the list in view starts
/// with an empty query, remembering the list's selection, keys leave any
/// sequence, and nothing else changes.
#[verifier::opaque]
pub open spec fn list_search_started(a: App, b: App) -> bool {
    &&& b == (App { search: b.search, input_state: InputState::Normal, ..a })
    &&& search_target_of(a) matches Some(target) && b.search matches Some(s) && s.target == target
        && s.query@.len() == 0 && s.previous_selected_index == selection_of(a, target) && s.selected_index
        == crate::search::keep_or_first(
        s.previous_selected_index,
        crate::search::matching(search_texts_of(a, target), Seq::empty()),
    )
}

/// No search is in progress and the key does not start one.
pub open spec fn no_search_key(a: App, key: Key) -> bool {
    a.search is None && !(key == Key::Char('/') && search_target_of(a) is Some)
}

/// Whether a dialog or password entry owns the keys, in the order they are
/// asked.
pub open spec fn dialog_open(a: App) -> bool {
    ||| a.dashboard.password_creation.creating_password
    ||| a.storage.creating_folder
    ||| a.storage.creating_cloud
    ||| a.storage.password_creation.creating_password
    ||| a.storage.editing_folder
    ||| a.storage.editing_cloud
}

impl App {
    /// The trimmed path of the open folder dialog, whose kind the caller
    /// checks on disk before passing a key.
    pub fn folder_path_to_check(&self) -> (res: Option<String>)
        ensures
            self.storage.creating_folder ==> opt_name(res) == Some(trim(self.storage.new_folder_path@)),
            !self.storage.creating_folder && self.storage.editing_folder ==> opt_name(res) == Some(
                trim(self.storage.edit_folder_path@),
            ),
            !self.storage.creating_folder && !self.storage.editing_folder ==> res is None,
    {
        if self.storage.creating_folder {
            Some(crate::text::trim_str(self.storage.new_folder_path.as_str()))
        } else if self.storage.editing_folder {
            Some(crate::text::trim_str(self.storage.edit_folder_path.as_str()))
        } else {
            None
        }
    }

    /// Handles one key press: an open overlay or list search takes it first,
    /// then an open dialog or password entry, then the key bindings.
    #[verifier::rlimit(30)]
    pub fn handle_dynamic_key(&mut self, key: Key, shift: bool, check: PathCheck)
        ensures
            old(self).orchestrator.wf() ==> final(self).orchestrator.wf(),
            old(self).help_open || old(self).pending_confirmation is Some ==> overlay_done(*old(self), *final(self), key),
            !old(self).help_open && old(self).pending_confirmation is None && old(self).search is Some ==> final(self).orchestrator
                == old(self).orchestrator && final(self).effects == old(self).effects && search_key_done(
                *old(self),
                *final(self),
                key,
            ),
            !old(self).help_open && old(self).pending_confirmation is None && old(self).search is None && key
                == Key::Char('/') && search_target_of(*old(self)) is Some ==> final(self).search is Some
                && final(self).orchestrator == old(self).orchestrator && final(self).storage == old(self).storage
                && list_search_started(*old(self), *final(self)),
            !old(self).help_open && old(self).pending_confirmation is None && no_search_key(*old(self), key)
                && crate::dispatch::key_label(key, shift)
                is None ==> *final(self) == *old(self),
            !old(self).help_open && old(self).pending_confirmation is None && no_search_key(*old(self), key)
                && crate::dispatch::key_label(key, shift)
                is Some && !dialog_open(*old(self)) ==> exists|action: Option<Seq<char>>, m: App, b: App|
                #[trigger] key_ran(*old(self), m, b, *final(self), action) && crate::dispatch::dispatch(
                    old(self).config.actions@,
                    old(self).config.leader@,
                    old(self).input_state,
                    crate::dispatch::key_label(key, shift)->Some_0,
                    app_tab_name(old(self).selected_tab),
                    old(self).now_ms,
                    final(self).input_state,
                    action,
                ),
            !old(self).help_open && old(self).pending_confirmation is None && no_search_key(*old(self), key)
                && crate::dispatch::key_label(key, shift)
                is Some && old(self).dashboard.password_creation.creating_password ==> exists|m: App, p: App|
                #[trigger] dashboard_password_key(*old(self), m, p, *final(self), key),
            !old(self).help_open && old(self).pending_confirmation is None && no_search_key(*old(self), key)
                && crate::dispatch::key_label(key, shift)
                is Some && !old(self).dashboard.password_creation.creating_password && old(self).storage.creating_folder
                && is_dialog_key(key) ==> folder_dialog_step(*old(self), *final(self), key, check),
            !old(self).help_open && old(self).pending_confirmation is None && no_search_key(*old(self), key)
                && crate::dispatch::key_label(key, shift)
                is Some && !old(self).dashboard.password_creation.creating_password && !old(self).storage.creating_folder
                && old(self).storage.password_creation.creating_password && password_char(key) is Some ==> {
                let pw = crate::password::password_step(old(self).storage.password_creation@, password_char(key)->Some_0);
                &&& storage_password_due(*old(self), pw) ==> storage_password_set(*old(self), *final(self), pw)
                &&& !storage_password_due(*old(self), pw) ==> final(self).storage.password_creation@ == pw
                    && final(self).orchestrator == old(self).orchestrator
            },
            !old(self).help_open && old(self).pending_confirmation is None && no_search_key(*old(self), key)
                && crate::dispatch::key_label(key, shift)
                is Some && !old(self).dashboard.password_creation.creating_password && !old(self).storage.creating_folder
                && old(self).storage.creating_cloud && !old(self).storage.password_creation.creating_password
                && is_dialog_key(key) ==> cloud_dialog_step(*old(self), *final(self), key),
            !old(self).help_open && old(self).pending_confirmation is None && no_search_key(*old(self), key)
                && crate::dispatch::key_label(key, shift)
                is Some && !old(self).dashboard.password_creation.creating_password && !old(self).storage.creating_folder
                && !old(self).storage.creating_cloud && !old(self).storage.password_creation.creating_password
                && old(self).storage.editing_folder && is_dialog_key(key) ==> folder_edit_step(
                *old(self),
                *final(self),
                key,
                check,
            ),
            !old(self).help_open && old(self).pending_confirmation is None && no_search_key(*old(self), key)
                && crate::dispatch::key_label(key, shift)
                is Some && !old(self).dashboard.password_creation.creating_password && !old(self).storage.creating_folder
                && !old(self).storage.creating_cloud && !old(self).storage.password_creation.creating_password
                && !old(self).storage.editing_folder && old(self).storage.editing_cloud && cloud_edit_takes(
                *old(self),
                key,
            ) ==> cloud_edit_step(*old(self), *final(self), key),
    {
        if self.handle_overlay_key(key) {
            return;
        }
        if self.handle_list_search_key(key) {
            return;
        }
        if key == Key::Char('/') && self.start_list_search() {
            return;
        }
        let key_str = match key_name(key, shift) {
            Some(k) => k,
            None => {
                return;
            },
        };
        let tab = self.selected_tab.name();
        let a = concat_str("Key: ", key_str.as_str());
        let b = concat_str(a.as_str(), " -> tab: ");
        let line = concat_str(b.as_str(), tab);
        self.add_debug(line.as_str());
        if self.dashboard.password_creation.creating_password {
            let ghost m0 = *self;
            match password_char_of(key) {
                Some(c) => {
                    self.dashboard.handle_password_input(c);
                    let ghost p0 = *self;
                    if self.dashboard.password_creation.is_password_creation_complete() {
                        self.complete_dashboard_password_creation();
                    }
                    assert(dashboard_password_key(*old(self), m0, p0, *self, key));
                },
                None => {
                    assert(dashboard_password_key(*old(self), m0, m0, *self, key));
                },
            }
            return;
        }
        if self.storage.creating_folder && self.handle_folder_creation_input(key, check) {
            return;
        }
        if self.storage.creating_cloud && self.handle_cloud_creation_input(key) {
            return;
        }
        if self.storage.password_creation.creating_password && !self.storage.creating_cloud
            && self.handle_password_creation_input(key) {
            return;
        }
        if self.storage.editing_folder && self.handle_folder_edit_input(key, check) {
            return;
        }
        if self.storage.editing_cloud && self.handle_cloud_edit_input(key) {
            return;
        }
        let ghost cfg0 = self.config;
        let ghost st0 = self.input_state;
        let ghost now0 = self.now_ms;
        let ghost m0 = *self;
        let (next, action) = dispatch_key(&self.config, &self.input_state, key_str.as_str(), tab, self.now_ms);
        let ghost act = crate::dispatch::opt_view(action);
        assert(crate::dispatch::dispatch(cfg0.actions@, cfg0.leader@, st0, key_str@, tab@, now0, next, act));
        let ghost state_after = next;
        match action {
            Some(name) => self.execute_action(name.as_str()),
            None => {},
        }
        let ghost b0 = *self;
        self.input_state = next;
        proof {
            if !dialog_open(*old(self)) {
                assert(key_ran(*old(self), m0, b0, *self, act));
                assert(cfg0 == old(self).config);
                assert(st0 == old(self).input_state);
                assert(now0 == old(self).now_ms);
                assert(crate::dispatch::key_label(key, shift)->Some_0 == key_str@);
                assert(crate::dispatch::dispatch(
                    old(self).config.actions@,
                    old(self).config.leader@,
                    old(self).input_state,
                    crate::dispatch::key_label(key, shift)->Some_0,
                    app_tab_name(old(self).selected_tab),
                    old(self).now_ms,
                    self.input_state,
                    act,
                ));
            }
        }
    }

    /// Drops an expired notice and runs the action of a key sequence that
    /// timed out.
    pub fn check_timeouts(&mut self)
        ensures
            old(self).orchestrator.wf() ==> final(self).orchestrator.wf(),
            old(self).input_state is KeySequence && ({
                let start = old(self).input_state->KeySequence_1;
                old(self).now_ms > start && old(self).now_ms - start > KEY_SEQUENCE_TIMEOUT_MS
            }) ==> final(self).input_state == InputState::Normal,
            old(self).input_state is KeySequence && ({
                let start = old(self).input_state->KeySequence_1;
                old(self).now_ms > start && old(self).now_ms - start > KEY_SEQUENCE_TIMEOUT_MS
            }) ==> exists|action: Option<Seq<char>>, m: App, b: App|
                #[trigger] timeout_ran(*old(self), m, b, *final(self), action) && crate::dispatch::is_lookup(
                    old(self).config.actions@,
                    old(self).input_state->KeySequence_0@,
                    app_tab_name(old(self).selected_tab),
                    action,
                ),
            !(old(self).input_state is KeySequence && ({
                let start = old(self).input_state->KeySequence_1;
                old(self).now_ms > start && old(self).now_ms - start > KEY_SEQUENCE_TIMEOUT_MS
            })) ==> final(self).input_state == old(self).input_state && final(self).orchestrator == old(
                self,
            ).orchestrator && final(self).storage == old(self).storage && *final(self) == (App {
                notice: final(self).notice,
                ..*old(self)
            }),
    {
        self.dismiss_notice_if_expired();
        let ghost m0 = *self;
        let timed_out = match &self.input_state {
            InputState::KeySequence(seq, start) => {
                if self.now_ms > *start && self.now_ms - *start > KEY_SEQUENCE_TIMEOUT_MS {
                    Some(copy_str(seq.as_str()))
                } else {
                    None
                }
            },
            InputState::Normal => None,
        };
        match timed_out {
            Some(seq) => {
                let tab = self.selected_tab.name();
                let found = self.config.get_action_for_key(seq.as_str(), tab);
                let ghost act = crate::dispatch::opt_view(found);
                match found {
                    Some(name) => self.execute_action(name.as_str()),
                    None => {},
                }
                let ghost b0 = *self;
                self.input_state = InputState::Normal;
                assert(timeout_ran(*old(self), m0, b0, *self, act));
            },
            None => {},
        }
    }

    /// Records the time of the latest event.
    pub fn set_clock(&mut self, now_ms: u64, clock_label: String)
        ensures
            final(self).now_ms == now_ms,
            final(self).clock_label == clock_label,
            final(self).orchestrator == old(self).orchestrator,
            final(self).storage == old(self).storage,
            final(self).input_state == old(self).input_state,
    {
        self.now_ms = now_ms;
        self.clock_label = clock_label;
    }

    /// A front end on the dashboard with the given bindings and
    /// orchestrator, the tabs filled from it.
    pub fn new(config: Config, orchestrator: Orchestrator, now_ms: u64, clock_label: String) -> (res: App)
        ensures
            res.state == AppState::Running,
            res.selected_tab == AppTab::Dashboard,
            res.config == config,
            res.orchestrator == orchestrator,
            res.input_state == InputState::Normal,
            res.notice is None,
            res.pending_confirmation is None,
            !res.help_open,
            !res.debug_mode,
            res.effects@.len() == 0,
            res.search is None,
            folder_views(res.storage.cloud_folders@) == folder_views(orchestrator.clouds_config.cloud_folders@),
            cloud_views(res.dashboard.clouds@) == cloud_views(orchestrator.clouds_config.clouds@),
            !dialog_open(res),
    {
        let mut app = App {
            state: AppState::Running,
            selected_tab: AppTab::Dashboard,
            config,
            input_state: InputState::Normal,
            debug_mode: false,
            debug_info: Vec::new(),
            notice: None,
            pending_confirmation: None,
            help_open: false,
            orchestrator,
            dashboard: DashboardState::new(),
            storage: FoldersState::default(),
            settings: SettingsState::new(),
            now_ms,
            clock_label,
            effects: Vec::new(),
            activity: Vec::new(),
            activity_cloud: None,
            search: None,
        };
        app.sync_from_orchestrator();
        app
    }
}

/// Two decimal digits of `n < 100`.
pub open spec fn two_digits(n: nat) -> Seq<char> {
    if n < 10 {
        "0"@ + crate::text::decimal(n)
    } else {
        crate::text::decimal(n)
    }
}

/// The time of day of a moment given in seconds since 1970, in UTC, as
/// `HH:MM:SS`.
pub open spec fn utc_clock(secs: int) -> Seq<char> {
    let d = secs % 86400;
    two_digits((d / 3600) as nat) + ":"@ + two_digits(((d % 3600) / 60) as nat) + ":"@ + two_digits((d % 60) as nat)
}

/// The text an activity entry is searched by: time, level, source and
/// message.
pub open spec fn activity_text(m: DebugMessage) -> Seq<char> {
    utc_clock(m.timestamp.secs as int) + " "@ + level_label(m.level) + " "@ + m.source@ + " "@ + m.message@
}

/// Two digits of a number below 100.
fn two_digit_text(n: u64) -> (res: String)
    requires
        n < 100,
    ensures
        res@ == two_digits(n as nat),
{
    let d = crate::text::u64_to_decimal(n);
    if n < 10 {
        concat_str("0", d.as_str())
    } else {
        d
    }
}

/// The seconds since midnight of a moment (Euclidean remainder).
fn second_of_day(secs: i64) -> (res: u64)
    ensures
        res as int == (secs as int) % 86400,
        res < 86400,
{
    if secs >= 0 {
        let r = (secs as u64) % 86400;
        proof {
            vstd::arithmetic::div_mod::lemma_fundamental_div_mod_converse(
                secs as int,
                86400,
                (secs as u64 / 86400) as int,
                r as int,
            );
        }
        r
    } else {
        let b: u64 = (-(secs + 1)) as u64;
        let rb = b % 86400;
        let qb = b / 86400;
        let r = 86399 - rb;
        proof {
            assert(b as int == qb as int * 86400 + rb as int);
            assert(secs as int == (-(qb as int) - 1) * 86400 + r as int);
            vstd::arithmetic::div_mod::lemma_fundamental_div_mod_converse(
                secs as int,
                86400,
                -(qb as int) - 1,
                r as int,
            );
        }
        r
    }
}

/// `utc_clock` of a moment.
pub fn clock_text(secs: i64) -> (res: String)
    ensures
        res@ == utc_clock(secs as int),
{
    let d = second_of_day(secs);
    let h = two_digit_text(d / 3600);
    let m = two_digit_text((d % 3600) / 60);
    let s = two_digit_text(d % 60);
    let a = concat_str(h.as_str(), ":");
    let b = concat_str(a.as_str(), m.as_str());
    let c = concat_str(b.as_str(), ":");
    concat_str(c.as_str(), s.as_str())
}

/// The texts of the items of a searchable list, in list order.
pub open spec fn search_texts_of(a: App, target: SearchTarget) -> Seq<Seq<char>> {
    match target {
        SearchTarget::DashboardServices => cloud_names(a.dashboard.clouds@),
        SearchTarget::DashboardActivity => a.activity@.map_values(|m: DebugMessage| activity_text(m)),
        SearchTarget::StorageFolders => folder_names(a.storage.cloud_folders@),
        SearchTarget::CloudEditFolders => folder_names(a.storage.cloud_folders@),
        SearchTarget::StorageClouds => cloud_names(a.storage.clouds@),
        SearchTarget::Settings => Seq::new(
            crate::settings::SETTINGS_ACTION_COUNT as nat,
            |i: int|
                crate::settings::settings_title(crate::settings::settings_action_at(i as nat)) + " "@
                    + crate::settings::settings_description(crate::settings::settings_action_at(i as nat)),
        ),
    }
}

/// The list a search started now would search: the folder list of the
/// cloud edit dialog, or the focused list of the shown tab; none while
/// another dialog owns the keys.
pub open spec fn search_target_of(a: App) -> Option<SearchTarget> {
    if a.storage.editing_cloud {
        if a.storage.cloud_edit_focus == CloudEditFocus::Folders {
            Some(SearchTarget::CloudEditFolders)
        } else {
            None
        }
    } else if a.dashboard.password_creation.creating_password || a.storage.creating_folder || a.storage.creating_cloud
        || a.storage.password_creation.creating_password || a.storage.editing_folder {
        None
    } else {
        match a.selected_tab {
            AppTab::Dashboard => match a.dashboard.focused_panel {
                crate::dashboard::DashboardPanel::Services => Some(SearchTarget::DashboardServices),
                crate::dashboard::DashboardPanel::Activity => Some(SearchTarget::DashboardActivity),
                crate::dashboard::DashboardPanel::Overview => None,
            },
            AppTab::Storage => match a.storage.focused_panel {
                FocusedPanel::Folders => Some(SearchTarget::StorageFolders),
                FocusedPanel::Clouds => Some(SearchTarget::StorageClouds),
                FocusedPanel::Info => None,
            },
            AppTab::Settings => Some(SearchTarget::Settings),
        }
    }
}

/// `i` when it is below `len`.
pub open spec fn below(i: Option<usize>, len: nat) -> Option<usize> {
    match i {
        Some(k) => if k < len {
            Some(k)
        } else {
            None
        },
        None => None,
    }
}

/// The current selection of a searchable list, if it is on an item.
pub open spec fn selection_of(a: App, target: SearchTarget) -> Option<usize> {
    match target {
        SearchTarget::DashboardServices => below(Some(a.dashboard.selected_cloud_index), a.dashboard.clouds@.len()),
        SearchTarget::DashboardActivity => below(a.dashboard.activity_list_state.selected, a.activity@.len()),
        SearchTarget::StorageFolders => below(Some(a.storage.selected_folder_index), a.storage.cloud_folders@.len()),
        SearchTarget::CloudEditFolders => below(Some(a.storage.selected_folder_index), a.storage.cloud_folders@.len()),
        SearchTarget::StorageClouds => below(Some(a.storage.selected_cloud_index), a.storage.clouds@.len()),
        SearchTarget::Settings => below(a.settings.list_state.selected, crate::settings::SETTINGS_ACTION_COUNT as nat),
    }
}

/// Moves the dashboard's service selection to a kept search match.
fn settle_services(d: &mut DashboardState, chosen: Option<usize>, commit: bool)
    ensures
        ({
            let len = old(d).clouds@.len();
            let i = if commit && below(chosen, len) is Some { chosen->Some_0 } else { old(d).selected_cloud_index };
            *final(d) == (DashboardState {
                selected_cloud_index: i,
                clouds_list_state: selected_as(old(d).clouds_list_state, below(Some(i), len)),
                ..*old(d)
            })
        }),
{
    if commit {
        match below_of(chosen, d.clouds.len()) {
            Some(i) => {
                d.selected_cloud_index = i;
            },
            None => {},
        }
    }
    let sel = below_of(Some(d.selected_cloud_index), d.clouds.len());
    d.clouds_list_state.select(sel);
}

/// Moves the folder selection to a kept search match.
fn settle_folders(st: &mut FoldersState, chosen: Option<usize>, commit: bool)
    ensures
        ({
            let len = old(st).cloud_folders@.len();
            let i = if commit && below(chosen, len) is Some { chosen->Some_0 } else { old(st).selected_folder_index };
            *final(st) == (FoldersState {
                selected_folder_index: i,
                folders_list_state: selected_as(old(st).folders_list_state, below(Some(i), len)),
                ..*old(st)
            })
        }),
{
    if commit {
        match below_of(chosen, st.cloud_folders.len()) {
            Some(i) => {
                st.selected_folder_index = i;
            },
            None => {},
        }
    }
    let sel = below_of(Some(st.selected_folder_index), st.cloud_folders.len());
    st.folders_list_state.select(sel);
}

/// Moves the cloud selection to a kept search match, hiding the password
/// shown for the previous one.
fn settle_clouds(st: &mut FoldersState, chosen: Option<usize>, commit: bool)
    ensures
        ({
            let len = old(st).clouds@.len();
            let moved = commit && below(chosen, len) is Some;
            let i = if moved { chosen->Some_0 } else { old(st).selected_cloud_index };
            *final(st) == (FoldersState {
                selected_cloud_index: i,
                password_visible: if moved { false } else { old(st).password_visible },
                clouds_list_state: selected_as(old(st).clouds_list_state, below(Some(i), len)),
                ..*old(st)
            })
        }),
{
    if commit {
        match below_of(chosen, st.clouds.len()) {
            Some(i) => {
                st.selected_cloud_index = i;
                st.password_visible = false;
            },
            None => {},
        }
    }
    let sel = below_of(Some(st.selected_cloud_index), st.clouds.len());
    st.clouds_list_state.select(sel);
}

/// `below` on values.
fn below_of(i: Option<usize>, len: usize) -> (res: Option<usize>)
    ensures
        res == below(i, len as nat),
{
    match i {
        Some(k) => if k < len {
            Some(k)
        } else {
            None
        },
        None => None,
    }
}

fn cloud_name_list(v: &Vec<Cloud>) -> (res: Vec<String>)
    ensures
        crate::search::views(res@) == cloud_names(v@),
{
    let mut res: Vec<String> = Vec::new();
    let mut i: usize = 0;
    while i < v.len()
        invariant
            i <= v.len(),
            crate::search::views(res@) == cloud_names(v@).take(i as int),
        decreases v.len() - i,
    {
        let ghost before = res@;
        res.push(copy_str(v[i].name.as_str()));
        assert(crate::search::views(res@) =~= crate::search::views(before).push(v@[i as int].name@));
        assert(cloud_names(v@).take(i + 1) =~= cloud_names(v@).take(i as int).push(v@[i as int].name@));
        i = i + 1;
    }
    assert(cloud_names(v@).take(v@.len() as int) =~= cloud_names(v@));
    res
}

fn folder_name_list(v: &Vec<CloudFolder>) -> (res: Vec<String>)
    ensures
        crate::search::views(res@) == folder_names(v@),
{
    let mut res: Vec<String> = Vec::new();
    let mut i: usize = 0;
    while i < v.len()
        invariant
            i <= v.len(),
            crate::search::views(res@) == folder_names(v@).take(i as int),
        decreases v.len() - i,
    {
        let ghost before = res@;
        res.push(copy_str(v[i].name.as_str()));
        assert(crate::search::views(res@) =~= crate::search::views(before).push(v@[i as int].name@));
        assert(folder_names(v@).take(i + 1) =~= folder_names(v@).take(i as int).push(v@[i as int].name@));
        i = i + 1;
    }
    assert(folder_names(v@).take(v@.len() as int) =~= folder_names(v@));
    res
}

/// `activity_text` of an entry.
fn activity_text_of(m: &DebugMessage) -> (res: String)
    ensures
        res@ == activity_text(*m),
{
    let t = clock_text(m.timestamp.secs);
    let a = concat_str(t.as_str(), " ");
    let b = concat_str(a.as_str(), m.level.label());
    let c = concat_str(b.as_str(), " ");
    let d = concat_str(c.as_str(), m.source.as_str());
    let e = concat_str(d.as_str(), " ");
    concat_str(e.as_str(), m.message.as_str())
}

impl App {
    /// The texts of the items of a searchable list.
    pub fn search_texts(&self, target: SearchTarget) -> (res: Vec<String>)
        ensures
            crate::search::views(res@) == search_texts_of(*self, target),
    {
        match target {
            SearchTarget::DashboardServices => cloud_name_list(&self.dashboard.clouds),
            SearchTarget::StorageClouds => cloud_name_list(&self.storage.clouds),
            SearchTarget::StorageFolders | SearchTarget::CloudEditFolders => folder_name_list(&self.storage.cloud_folders),
            SearchTarget::DashboardActivity => {
                let mut res: Vec<String> = Vec::new();
                let ghost want = self.activity@.map_values(|m: DebugMessage| activity_text(m));
                let mut i: usize = 0;
                while i < self.activity.len()
                    invariant
                        i <= self.activity.len(),
                        want == self.activity@.map_values(|m: DebugMessage| activity_text(m)),
                        crate::search::views(res@) == want.take(i as int),
                    decreases self.activity.len() - i,
                {
                    let ghost before = res@;
                    let t = activity_text_of(&self.activity[i]);
                    let ghost tv = t@;
                    res.push(t);
                    assert(crate::search::views(res@) =~= crate::search::views(before).push(tv));
                    assert(want.take(i + 1) =~= want.take(i as int).push(want[i as int]));
                    i = i + 1;
                }
                assert(want.take(self.activity@.len() as int) =~= want);
                res
            },
            SearchTarget::Settings => {
                let mut res: Vec<String> = Vec::new();
                let ghost want = search_texts_of(*self, SearchTarget::Settings);
                let mut i: usize = 0;
                while i < crate::settings::SETTINGS_ACTION_COUNT
                    invariant
                        i <= crate::settings::SETTINGS_ACTION_COUNT,
                        want == search_texts_of(*self, SearchTarget::Settings),
                        crate::search::views(res@) == want.take(i as int),
                    decreases crate::settings::SETTINGS_ACTION_COUNT - i,
                {
                    let ghost before = res@;
                    let t = settings_search_text(SettingsAction::at(i));
                    let ghost tv = t@;
                    res.push(t);
                    assert(crate::search::views(res@) =~= crate::search::views(before).push(tv));
                    assert(want.take(i + 1) =~= want.take(i as int).push(want[i as int]));
                    i = i + 1;
                }
                assert(want.take(crate::settings::SETTINGS_ACTION_COUNT as int) =~= want);
                res
            },
        }
    }

    /// The list a search started now would search (see `search_target_of`).
    pub fn search_target_for_current_context(&self) -> (res: Option<SearchTarget>)
        ensures
            res == search_target_of(*self),
    {
        if self.storage.editing_cloud {
            if self.storage.cloud_edit_focus == CloudEditFocus::Folders {
                return Some(SearchTarget::CloudEditFolders);
            }
            return None;
        }
        if self.dashboard.password_creation.creating_password || self.storage.creating_folder
            || self.storage.creating_cloud || self.storage.password_creation.creating_password
            || self.storage.editing_folder {
            return None;
        }
        match self.selected_tab {
            AppTab::Dashboard => match self.dashboard.focused_panel {
                crate::dashboard::DashboardPanel::Services => Some(SearchTarget::DashboardServices),
                crate::dashboard::DashboardPanel::Activity => Some(SearchTarget::DashboardActivity),
                crate::dashboard::DashboardPanel::Overview => None,
            },
            AppTab::Storage => match self.storage.focused_panel {
                FocusedPanel::Folders => Some(SearchTarget::StorageFolders),
                FocusedPanel::Clouds => Some(SearchTarget::StorageClouds),
                FocusedPanel::Info => None,
            },
            AppTab::Settings => Some(SearchTarget::Settings),
        }
    }

    /// The current selection of a searchable list (see `selection_of`).
    pub fn selected_index_for_search_target(&self, target: SearchTarget) -> (res: Option<usize>)
        ensures
            res == selection_of(*self, target),
    {
        match target {
            SearchTarget::DashboardServices => below_of(Some(self.dashboard.selected_cloud_index), self.dashboard.clouds.len()),
            SearchTarget::DashboardActivity => below_of(self.dashboard.activity_list_state.selected(), self.activity.len()),
            SearchTarget::StorageFolders | SearchTarget::CloudEditFolders => below_of(
                Some(self.storage.selected_folder_index),
                self.storage.cloud_folders.len(),
            ),
            SearchTarget::StorageClouds => below_of(Some(self.storage.selected_cloud_index), self.storage.clouds.len()),
            SearchTarget::Settings => below_of(self.settings.list_state.selected(), crate::settings::SETTINGS_ACTION_COUNT),
        }
    }

    /// Starts searching the list of the current context. Returns whether
    /// there is one.
    pub fn start_list_search(&mut self) -> (started: bool)
        ensures
            old(self).orchestrator.wf() ==> final(self).orchestrator.wf(),
            started == search_target_of(*old(self)) is Some,
            started ==> (final(self).search matches Some(s) && s.target == search_target_of(*old(self))->Some_0
                && s.query@.len() == 0 && s.previous_selected_index == selection_of(
                *old(self),
                s.target,
            ) && s.selected_index == crate::search::keep_or_first(
                s.previous_selected_index,
                crate::search::matching(search_texts_of(*old(self), s.target), Seq::empty()),
            )) && final(self).input_state == InputState::Normal,
            started ==> list_search_started(*old(self), *final(self)),
            !started ==> *final(self) == *old(self),
            final(self).orchestrator == old(self).orchestrator,
            final(self).storage == old(self).storage,
            final(self).effects == old(self).effects,
    {
        let target = match self.search_target_for_current_context() {
            Some(t) => t,
            None => {
                return false;
            },
        };
        let previous = self.selected_index_for_search_target(target);
        let texts = self.search_texts(target);
        self.search = Some(ListSearch::start(target, previous, &texts));
        self.input_state = InputState::Normal;
        proof {
            reveal(list_search_started);
        }
        true
    }

    /// Ends the search: Enter moves the selection of the searched list to
    /// the chosen match, Escape restores the selection from before.
    pub fn finish_list_search(&mut self, commit: bool)
        ensures
            old(self).orchestrator.wf() ==> final(self).orchestrator.wf(),
            search_finished(*old(self), *final(self), commit),
            final(self).search is None,
            final(self).orchestrator == old(self).orchestrator,
            final(self).effects == old(self).effects,
    {
        reveal(search_finished);
        let search = match self.search.take() {
            Some(s) => s,
            None => {
                return;
            },
        };
        let target = search.target;
        let chosen = search.finish(commit);
        self.settle_search(target, chosen, commit);
    }

    /// Moves the list a closed search ran on to its outcome.
    fn settle_search(&mut self, target: SearchTarget, chosen: Option<usize>, commit: bool)
        ensures
            old(self).orchestrator.wf() ==> final(self).orchestrator.wf(),
            search_settled(*old(self), *final(self), target, chosen, commit),
    {
        match target {
            SearchTarget::DashboardServices => settle_services(&mut self.dashboard, chosen, commit),
            SearchTarget::DashboardActivity => {
                let sel = below_of(chosen, self.activity.len());
                self.dashboard.activity_list_state.select(sel);
            },
            SearchTarget::StorageFolders | SearchTarget::CloudEditFolders => settle_folders(
                &mut self.storage,
                chosen,
                commit,
            ),
            SearchTarget::StorageClouds => settle_clouds(&mut self.storage, chosen, commit),
            SearchTarget::Settings => {
                let sel = below_of(chosen, crate::settings::SETTINGS_ACTION_COUNT);
                self.settings.list_state.select(sel);
            },
        }
    }

    /// Gives a key to the search in progress: Escape cancels, Enter keeps
    /// the match, Backspace and characters edit the query, the arrows move
    /// among the matches. Returns whether a search took the key.
    #[verifier::rlimit(60)]
    pub fn handle_list_search_key(&mut self, key: Key) -> (handled: bool)
        ensures
            old(self).orchestrator.wf() ==> final(self).orchestrator.wf(),
            handled == old(self).search is Some,
            old(self).search is Some && (key == Key::Esc || key == Key::Enter) ==> final(self).search is None,
            old(self).search matches Some(s) ==> (key is Char ==> (final(self).search matches Some(t) && t.query@
                == s.query@.push(key->Char_0) && t.selected_index == crate::search::keep_or_first(
                s.selected_index,
                crate::search::matching(search_texts_of(*old(self), s.target), t.query@),
            ))),
            old(self).search is None ==> *final(self) == *old(self),
            final(self).orchestrator == old(self).orchestrator,
            final(self).effects == old(self).effects,
            search_key_done(*old(self), *final(self), key),
    {
        reveal(search_key_done);
        reveal(search_finished);
        let mut search = match self.search.take() {
            Some(s) => s,
            None => {
                return false;
            },
        };
        let texts = self.search_texts(search.target);
        match key {
            Key::Esc | Key::Enter | Key::Backspace | Key::Up | Key::Down | Key::Char(_) => {
                match search.handle_key(key, &texts) {
                    Some(commit) => {
                        self.search = Some(search);
                        self.finish_list_search(commit);
                    },
                    None => {
                        self.search = Some(search);
                    },
                }
            },
            _ => {
                self.search = Some(search);
            },
        }
        true
    }
}

/// Most activity entries kept.
pub const ACTIVITY_LIMIT: usize = 100;

/// The latest `ACTIVITY_LIMIT` entries.
pub open spec fn latest_activity(logs: Seq<DebugMessage>) -> Seq<DebugMessage> {
    if logs.len() > ACTIVITY_LIMIT {
        logs.subrange(logs.len() - ACTIVITY_LIMIT, logs.len() as int)
    } else {
        logs
    }
}

/// Whether the activity list follows the newest entry: the shown cloud
/// changed, nothing is selected, or the last entry was selected.
pub open spec fn follows_latest(a: App) -> bool {
    let prev = a.activity@.len();
    ||| opt_name(a.activity_cloud) != dashboard_selection(a.dashboard)
    ||| match a.dashboard.activity_list_state.selected {
        None => true,
        Some(i) => i >= (if prev > 0 { prev - 1 } else { 0 }),
    }
}

impl App {
    /// Takes the activity of the selected cloud's server (`logs`, as the
    /// caller read it for `dashboard_selection`): the latest entries are
    /// kept, and the selection follows the newest entry unless the user
    /// moved away from it. While the activity list is searched its
    /// selection stays.
    pub fn refresh_activity(&mut self, logs: Vec<DebugMessage>)
        ensures
            old(self).orchestrator.wf() ==> final(self).orchestrator.wf(),
            ({
                let sel = dashboard_selection(old(self).dashboard);
                let act = final(self).activity@;
                &&& act == (if sel is Some {
                    latest_activity(logs@)
                } else {
                    Seq::<DebugMessage>::empty()
                })
                &&& opt_name(final(self).activity_cloud) == sel
                &&& !(old(self).search matches Some(s) && s.target == SearchTarget::DashboardActivity) ==> final(self).dashboard.activity_list_state.selected
                    == (if act.len() == 0 {
                    None
                } else if follows_latest(*old(self)) {
                    Some((act.len() - 1) as usize)
                } else {
                    match old(self).dashboard.activity_list_state.selected {
                        Some(i) => Some(if i < act.len() - 1 { i } else { (act.len() - 1) as usize }),
                        None => None,
                    }
                })
            }),
            final(self).orchestrator == old(self).orchestrator,
            final(self).storage == old(self).storage,
            final(self).effects == old(self).effects,
            final(self).dashboard.clouds == old(self).dashboard.clouds,
            final(self).dashboard.selected_cloud_index == old(self).dashboard.selected_cloud_index,
    {
        let prev = self.activity.len();
        let searching = match &self.search {
            Some(s) => s.target == SearchTarget::DashboardActivity,
            None => false,
        };
        let selected_cloud = cloud_name_at(&self.dashboard.clouds, self.dashboard.selected_cloud_index);
        let changed = match (&self.activity_cloud, &selected_cloud) {
            (Some(a), Some(b)) => !crate::text::str_eq(a.as_str(), b.as_str()),
            (None, None) => false,
            _ => true,
        };
        let last_prev = if prev > 0 { prev - 1 } else { 0 };
        let follow = changed || match self.dashboard.activity_list_state.selected() {
            None => true,
            Some(i) => i >= last_prev,
        };
        let mut kept: Vec<DebugMessage> = Vec::new();
        if selected_cloud.is_some() {
            let mut all = logs;
            if all.len() > ACTIVITY_LIMIT {
                let at = all.len() - ACTIVITY_LIMIT;
                kept = all.split_off(at);
            } else {
                kept = all;
            }
        }
        self.activity = kept;
        self.activity_cloud = selected_cloud;
        if !searching {
            let n = self.activity.len();
            if n == 0 {
                self.dashboard.activity_list_state.select(None);
            } else if follow {
                self.dashboard.activity_list_state.select(Some(n - 1));
            } else {
                match self.dashboard.activity_list_state.selected() {
                    Some(i) => {
                        let j = if i < n - 1 { i } else { n - 1 };
                        self.dashboard.activity_list_state.select(Some(j));
                    },
                    None => {},
                }
            }
        }
    }
}

/// The search in progress on `target`, if any.
pub open spec fn search_on(a: App, target: SearchTarget) -> Option<ListSearch> {
    match a.search {
        Some(s) => if s.target == target {
            Some(s)
        } else {
            None
        },
        None => None,
    }
}

impl App {
    /// Whether `target` is being searched.
    pub fn is_searching(&self, target: SearchTarget) -> (res: bool)
        ensures
            res == search_on(*self, target) is Some,
    {
        match &self.search {
            Some(s) => s.target == target,
            None => false,
        }
    }

    /// The positions of the items of `target` that match its search query;
    /// all of them when it is not searched.
    pub fn filtered_indices(&self, target: SearchTarget) -> (res: Vec<usize>)
        ensures
            res@ == crate::search::matching(search_texts_of(*self, target), match search_on(*self, target) {
                Some(s) => s.query@,
                None => Seq::empty(),
            }),
    {
        let texts = self.search_texts(target);
        match &self.search {
            Some(s) => {
                if s.target == target {
                    return s.filtered_indices(&texts);
                }
            },
            None => {},
        }
        proof {
            reveal_strlit("");
            assert(""@ =~= Seq::<char>::empty());
        }
        crate::search::filtered_indices("", &texts)
    }

    /// The item Enter would select in the search of `target`.
    pub fn search_selected_index(&self, target: SearchTarget) -> (res: Option<usize>)
        ensures
            res == (match search_on(*self, target) {
                Some(s) => s.selected_index,
                None => None,
            }),
    {
        match &self.search {
            Some(s) => if s.target == target {
                s.selected_index
            } else {
                None
            },
            None => None,
        }
    }

    /// The position of that item among the matches.
    pub fn search_selected_position(&self, target: SearchTarget) -> (res: Option<usize>)
        ensures
            search_on(*self, target) is None ==> res is None,
            search_on(*self, target) matches Some(s) ==> (s.selected_index is None ==> res is None),
            search_on(*self, target) matches Some(s) ==> (s.selected_index matches Some(i) ==> {
                let m = crate::search::matching(search_texts_of(*self, target), s.query@);
                if m.contains(i) {
                    res == Some(crate::search::position_or_zero(m, s.selected_index) as usize)
                } else {
                    res is None
                }
            }),
    {
        match &self.search {
            Some(s) => if s.target == target {
                let texts = self.search_texts(target);
                s.selected_position(&texts)
            } else {
                None
            },
            None => None,
        }
    }

    /// The suffix of the title of `target` while it is searched.
    pub fn search_title_suffix(&self, target: SearchTarget) -> (res: String)
        ensures
            search_on(*self, target) matches Some(s) ==> res@ == " · /"@ + s.query@ + "█"@,
            search_on(*self, target) is None ==> res@.len() == 0,
    {
        match &self.search {
            Some(s) => if s.target == target {
                s.title_suffix()
            } else {
                String::new()
            },
            None => String::new(),
        }
    }
}

impl Default for App {
    /// A front end with the default bindings and no folders or clouds.
    fn default() -> (res: App)
        ensures
            res.state == AppState::Running,
            res.selected_tab == AppTab::Dashboard,
            res.search is None,
            res.orchestrator.clouds_config.clouds@.len() == 0,
            res.orchestrator.clouds_config.cloud_folders@.len() == 0,
    {
        App::new(Config::default(), Orchestrator::default(), 0, String::new())
    }
}

/// Typing a character into a dialog field and erasing it again leaves the
/// field as it was.
pub proof fn law_type_then_erase(s: Seq<char>, c: char)
    ensures
        typed(typed(s, Key::Char(c)), Key::Backspace) == s,
{
    assert(s.push(c).drop_last() =~= s);
}

/// Moving to the next tab and back returns to the same tab, and three
/// steps forward go all the way round.
pub proof fn law_app_tabs_cycle(t: AppTab)
    ensures
        app_tab_at(app_tab_index(app_tab_at(app_tab_index(t) + 1)) + 2) == t,
        app_tab_at(app_tab_index(app_tab_at(app_tab_index(app_tab_at(app_tab_index(t) + 1)) + 1)) + 1) == t,
{
}

} // verus!
