//! The server tab of the first front end: one server, its shared folders,
//! the dialog that adds a folder, and the server log.
use vstd::prelude::*;
use crate::app_state::{bounded_push, lines_view, push_bounded};
use crate::cloud::{CloudFolder, find_folder, folder_names};
use crate::key::{Key, ListState};
use crate::paths::{path_exists, path_join};
use crate::text::{concat_str, copy_str, pop_char, push_char, starts_with, str_starts_with, trim, trim_str};

verus! {

/// Lines kept in the server log.
pub const MAX_SERVER_LOGS: usize = 20;

/// The panels of the server tab, in focus order.
#[derive(Debug, Clone, Copy, PartialEq, Eq, Structural)]
pub enum FocusedPanel {
    CloudFolders,
    ServerInfo,
    ServerLogs,
}

/// The field of the folder dialog being typed into.
#[derive(Debug, Clone, Copy, PartialEq, Eq, Structural)]
pub enum CloudFolderInputField {
    Name,
    Path,
}

/// State of the server tab.
pub struct ServerState {
    pub cloudfolders: Vec<CloudFolder>,
    pub selected_cloudfolder_index: usize,
    pub creating_cloudfolder: bool,
    pub new_cloudfolder_name: String,
    pub new_cloudfolder_path: String,
    pub cloudfolder_input_field: CloudFolderInputField,
    pub cloudfolder_creation_error: Option<String>,
    pub server_start_error: Option<String>,
    pub server_logs: Vec<String>,
    pub log_scroll_offset: usize,
    pub focused_panel: FocusedPanel,
    pub server_port: Option<u16>,
    pub server_logs_list_state: ListState,
}

/// Calls `dirs::home_dir` (read from the environment); nothing is claimed.
#[verifier::external_body]
fn home_dir() -> (res: Option<String>) {
    dirs::home_dir().map(|d| d.to_string_lossy().into_owned())
}

/// Calls `Path::is_dir`; the answer depends on the disk, so nothing is
/// claimed.
#[verifier::external_body]
fn path_is_dir(p: &str) -> (res: bool) {
    std::path::Path::new(p).is_dir()
}

/// Why the directory `path` cannot back a folder, given whether it exists
/// and whether it is a directory, if it cannot.
pub open spec fn disk_folder_refusal(path: Seq<char>, on_disk: bool, is_dir: bool) -> Option<Seq<char>> {
    if !on_disk {
        Some("Folder '"@ + path + "' does not exist"@)
    } else if !is_dir {
        Some("'"@ + path + "' is not a directory"@)
    } else {
        None
    }
}

/// The folder `name` at `path` when the disk says `path` is an existing
/// directory, else why not (see `disk_folder_refusal`).
pub fn folder_from_checks(name: String, path: String, on_disk: bool, is_dir: bool) -> (res: Result<CloudFolder, String>)
    ensures
        match disk_folder_refusal(path@, on_disk, is_dir) {
            Some(m) => res matches Err(e) && e@ == m,
            None => res matches Ok(f) && f.name@ == name@ && f.folder_path@ == path@,
        },
{
    if !on_disk {
        let a = concat_str("Folder '", path.as_str());
        return Err(concat_str(a.as_str(), "' does not exist"));
    }
    if !is_dir {
        let a = concat_str("'", path.as_str());
        return Err(concat_str(a.as_str(), "' is not a directory"));
    }
    Ok(CloudFolder::new(name, path))
}

/// Why the typed name and path cannot make a folder before the disk is
/// looked at, if they cannot.
pub open spec fn typed_folder_refusal(folders: Seq<CloudFolder>, name: Seq<char>, path: Seq<char>) -> Option<Seq<char>> {
    if trim(name).len() == 0 {
        Some("Cloudfolder name cannot be empty"@)
    } else if trim(path).len() == 0 {
        Some("Cloudfolder path cannot be empty"@)
    } else if folder_names(folders).contains(trim(name)) {
        Some("Cloudfolder '"@ + trim(name) + "' already exists"@)
    } else {
        None
    }
}

/// The typed path with a leading `~/` taken from `home` when there is one.
pub open spec fn expanded(path: Seq<char>, home: Option<Seq<char>>) -> Seq<char> {
    if starts_with(path, "~/"@) && home is Some {
        crate::paths::joined_path(home->Some_0, path.skip(2))
    } else {
        path
    }
}

impl Default for ServerState {
    fn default() -> (res: ServerState)
        ensures
            res.cloudfolders@.len() == 0,
            !res.creating_cloudfolder,
            res.cloudfolder_input_field == CloudFolderInputField::Name,
            res.focused_panel == FocusedPanel::CloudFolders,
            res.server_logs@.len() == 0,
            res.server_port is None,
    {
        ServerState {
            cloudfolders: Vec::new(),
            selected_cloudfolder_index: 0,
            creating_cloudfolder: false,
            new_cloudfolder_name: String::new(),
            new_cloudfolder_path: String::new(),
            cloudfolder_input_field: CloudFolderInputField::Name,
            cloudfolder_creation_error: None,
            server_start_error: None,
            server_logs: Vec::new(),
            log_scroll_offset: 0,
            focused_panel: FocusedPanel::CloudFolders,
            server_port: None,
            server_logs_list_state: ListState::new(),
        }
    }
}

impl ServerState {
    /// Opens the folder dialog.
    pub fn start_creating_cloudfolder(&mut self)
        ensures
            final(self).creating_cloudfolder,
            final(self).cloudfolders == old(self).cloudfolders,
    {
        self.creating_cloudfolder = true;
    }

    /// Closes the folder dialog and forgets what was typed.
    pub fn clear_cloudfolder_creation_input(&mut self)
        ensures
            !final(self).creating_cloudfolder,
            final(self).new_cloudfolder_name@.len() == 0,
            final(self).new_cloudfolder_path@.len() == 0,
            final(self).cloudfolder_input_field == CloudFolderInputField::Name,
            final(self).cloudfolder_creation_error is None,
            final(self).cloudfolders == old(self).cloudfolders,
    {
        self.creating_cloudfolder = false;
        self.new_cloudfolder_name = String::new();
        self.new_cloudfolder_path = String::new();
        self.cloudfolder_input_field = CloudFolderInputField::Name;
        self.cloudfolder_creation_error = None;
    }

    /// Whether a folder is named `name`.
    pub fn cloudfolder_exists(&self, name: &str) -> (res: bool)
        ensures
            res == folder_names(self.cloudfolders@).contains(name@),
    {
        find_folder(&self.cloudfolders, name).is_some()
    }

    /// Checks the typed folder: a name and a path, a name not taken, and a
    /// path (with `~/` expanded) that is an existing directory. Returns the
    /// folder to add, or records why not in the dialog's error. The home
    /// directory and what is on disk are read from outside; the outcome is
    /// the one `folder_from_checks` gives for them. Whether the directory
    /// can be read is the caller's check.
    pub fn create_cloudfolder(&mut self) -> (res: Option<CloudFolder>)
        ensures
            typed_folder_refusal(old(self).cloudfolders@, old(self).new_cloudfolder_name@, old(self).new_cloudfolder_path@)
                matches Some(m) ==> res is None && (final(self).cloudfolder_creation_error matches Some(e) && e@ == m),
            typed_folder_refusal(old(self).cloudfolders@, old(self).new_cloudfolder_name@, old(self).new_cloudfolder_path@)
                is None ==> exists|home: Option<Seq<char>>, on_disk: bool, is_dir: bool|
                match #[trigger] disk_folder_refusal(
                    expanded(trim(old(self).new_cloudfolder_path@), home),
                    on_disk,
                    is_dir,
                ) {
                    Some(m) => res is None && (final(self).cloudfolder_creation_error matches Some(e) && e@ == m),
                    None => res matches Some(f) && f.name@ == trim(old(self).new_cloudfolder_name@)
                        && f.folder_path@ == expanded(trim(old(self).new_cloudfolder_path@), home)
                        && final(self).cloudfolder_creation_error == old(self).cloudfolder_creation_error,
                },
            res is None ==> final(self).cloudfolder_creation_error is Some,
            final(self).cloudfolders == old(self).cloudfolders,
            final(self).new_cloudfolder_name == old(self).new_cloudfolder_name,
            final(self).new_cloudfolder_path == old(self).new_cloudfolder_path,
    {
        let name = trim_str(self.new_cloudfolder_name.as_str());
        let folder_path = trim_str(self.new_cloudfolder_path.as_str());
        if name.unicode_len() == 0 {
            self.cloudfolder_creation_error = Some(String::from_str("Cloudfolder name cannot be empty"));
            return None;
        }
        if folder_path.unicode_len() == 0 {
            self.cloudfolder_creation_error = Some(String::from_str("Cloudfolder path cannot be empty"));
            return None;
        }
        if find_folder(&self.cloudfolders, name.as_str()).is_some() {
            let a = concat_str("Cloudfolder '", name.as_str());
            self.cloudfolder_creation_error = Some(concat_str(a.as_str(), "' already exists"));
            return None;
        }
        proof {
            reveal_strlit("~/");
        }
        let home = if str_starts_with(folder_path.as_str(), "~/") {
            home_dir()
        } else {
            None
        };
        let expanded_path = match &home {
            Some(h) => {
                let n = folder_path.unicode_len();
                path_join(h.as_str(), folder_path.as_str().substring_char(2, n))
            },
            None => copy_str(folder_path.as_str()),
        };
        let ghost hv = match home {
            Some(h) => Some(h@),
            None => None,
        };
        proof {
            assert(folder_path@.skip(2) =~= folder_path@.subrange(2, folder_path@.len() as int));
            assert(expanded_path@ == expanded(folder_path@, hv));
        }
        let on_disk = path_exists(expanded_path.as_str());
        let is_dir = if on_disk {
            path_is_dir(expanded_path.as_str())
        } else {
            false
        };
        let ghost p = expanded_path@;
        match folder_from_checks(name, expanded_path, on_disk, is_dir) {
            Ok(f) => {
                assert(disk_folder_refusal(p, on_disk, is_dir) is None);
                Some(f)
            },
            Err(m) => {
                assert(disk_folder_refusal(p, on_disk, is_dir) == Some(m@));
                self.cloudfolder_creation_error = Some(m);
                None
            },
        }
    }

    /// Records that the directory of a new folder could not be read.
    pub fn directory_unreadable(&mut self, path: &str, reason: &str)
        ensures
            final(self).cloudfolder_creation_error matches Some(e) && e@ == "Cannot read directory '"@ + path@ + "': "@
                + reason@,
            final(self).cloudfolders == old(self).cloudfolders,
    {
        let a = concat_str("Cannot read directory '", path);
        let b = concat_str(a.as_str(), "': ");
        self.cloudfolder_creation_error = Some(concat_str(b.as_str(), reason));
    }

    /// Applies a key to the folder dialog: Enter moves from a non-blank
    /// name to the path, and on the path asks for the folder to be created
    /// (the answer is `true`); Escape closes; Tab switches fields;
    /// characters and Backspace edit the field and clear the error.
    pub fn handle_cloudfolder_input(&mut self, key: Key) -> (create: bool)
        ensures
            create == (key == Key::Enter && old(self).cloudfolder_input_field == CloudFolderInputField::Path),
            key == Key::Enter && old(self).cloudfolder_input_field == CloudFolderInputField::Name ==> final(self).cloudfolder_input_field
                == (if trim(old(self).new_cloudfolder_name@).len() > 0 {
                CloudFolderInputField::Path
            } else {
                CloudFolderInputField::Name
            }),
            key == Key::Esc ==> !final(self).creating_cloudfolder && final(self).new_cloudfolder_name@.len() == 0
                && final(self).new_cloudfolder_path@.len() == 0,
            key == Key::Tab ==> final(self).cloudfolder_input_field != old(self).cloudfolder_input_field,
            key matches Key::Char(c) ==> final(self).cloudfolder_creation_error is None && (if old(self).cloudfolder_input_field
                == CloudFolderInputField::Name {
                final(self).new_cloudfolder_name@ == old(self).new_cloudfolder_name@.push(c)
                    && final(self).new_cloudfolder_path == old(self).new_cloudfolder_path
            } else {
                final(self).new_cloudfolder_path@ == old(self).new_cloudfolder_path@.push(c)
                    && final(self).new_cloudfolder_name == old(self).new_cloudfolder_name
            }),
            key == Key::Backspace ==> final(self).cloudfolder_creation_error is None,
            final(self).cloudfolders == old(self).cloudfolders,
    {
        match key {
            Key::Enter => {
                if self.cloudfolder_input_field == CloudFolderInputField::Name {
                    let t = trim_str(self.new_cloudfolder_name.as_str());
                    if t.unicode_len() > 0 {
                        self.cloudfolder_input_field = CloudFolderInputField::Path;
                    }
                    false
                } else {
                    true
                }
            },
            Key::Esc => {
                self.clear_cloudfolder_creation_input();
                false
            },
            Key::Tab => {
                self.cloudfolder_input_field = match self.cloudfolder_input_field {
                    CloudFolderInputField::Name => CloudFolderInputField::Path,
                    CloudFolderInputField::Path => CloudFolderInputField::Name,
                };
                false
            },
            Key::Char(c) => {
                match self.cloudfolder_input_field {
                    CloudFolderInputField::Name => {
                        push_char(&mut self.new_cloudfolder_name, c);
                    },
                    CloudFolderInputField::Path => {
                        push_char(&mut self.new_cloudfolder_path, c);
                    },
                }
                self.cloudfolder_creation_error = None;
                false
            },
            Key::Backspace => {
                match self.cloudfolder_input_field {
                    CloudFolderInputField::Name => {
                        pop_char(&mut self.new_cloudfolder_name);
                    },
                    CloudFolderInputField::Path => {
                        pop_char(&mut self.new_cloudfolder_path);
                    },
                }
                self.cloudfolder_creation_error = None;
                false
            },
            _ => false,
        }
    }

    /// Adds a line stamped with `stamp` to the server log, which keeps the
    /// last twenty.
    pub fn add_server_log(&mut self, stamp: &str, message: &str)
        ensures
            lines_view(final(self).server_logs@) == bounded_push(
                lines_view(old(self).server_logs@),
                "["@ + stamp@ + "] "@ + message@,
                MAX_SERVER_LOGS as nat,
            ),
            final(self).log_scroll_offset == old(self).log_scroll_offset,
            final(self).cloudfolders == old(self).cloudfolders,
    {
        let a = concat_str("[", stamp);
        let b = concat_str(a.as_str(), "] ");
        let line = concat_str(b.as_str(), message);
        push_bounded(&mut self.server_logs, line, MAX_SERVER_LOGS);
    }

    /// The name of the selected folder, the one to remove.
    pub fn selected_cloudfolder_name(&self) -> (res: Option<String>)
        ensures
            self.selected_cloudfolder_index < self.cloudfolders@.len() ==> (res matches Some(n) && n@
                == self.cloudfolders@[self.selected_cloudfolder_index as int].name@),
            self.selected_cloudfolder_index >= self.cloudfolders@.len() ==> res is None,
    {
        if self.selected_cloudfolder_index < self.cloudfolders.len() {
            Some(copy_str(self.cloudfolders[self.selected_cloudfolder_index].name.as_str()))
        } else {
            None
        }
    }

    /// Takes the folders reloaded after a removal and keeps the selection on
    /// a folder.
    pub fn reload_after_removal(&mut self, folders: Vec<CloudFolder>)
        ensures
            final(self).cloudfolders == folders,
            old(self).selected_cloudfolder_index >= folders@.len() && folders@.len() > 0 ==> final(self).selected_cloudfolder_index
                == folders@.len() - 1,
            !(old(self).selected_cloudfolder_index >= folders@.len() && folders@.len() > 0) ==> final(self).selected_cloudfolder_index
                == old(self).selected_cloudfolder_index,
    {
        self.cloudfolders = folders;
        if self.selected_cloudfolder_index >= self.cloudfolders.len() && self.cloudfolders.len() > 0 {
            self.selected_cloudfolder_index = self.cloudfolders.len() - 1;
        }
    }

    /// Moves the folder selection up, stopping at the first.
    pub fn navigate_cloudfolder_up(&mut self)
        ensures
            final(self).selected_cloudfolder_index == (if old(self).selected_cloudfolder_index > 0 {
                (old(self).selected_cloudfolder_index - 1) as usize
            } else {
                0
            }),
            final(self).cloudfolders == old(self).cloudfolders,
            final(self).focused_panel == old(self).focused_panel,
    {
        if self.selected_cloudfolder_index > 0 {
            self.selected_cloudfolder_index = self.selected_cloudfolder_index - 1;
        }
    }

    /// Moves the folder selection down, stopping at the last.
    pub fn navigate_cloudfolder_down(&mut self)
        ensures
            final(self).selected_cloudfolder_index == (if old(self).selected_cloudfolder_index + 1 < old(self).cloudfolders@.len() {
                (old(self).selected_cloudfolder_index + 1) as usize
            } else {
                old(self).selected_cloudfolder_index
            }),
            final(self).cloudfolders == old(self).cloudfolders,
            final(self).focused_panel == old(self).focused_panel,
    {
        if self.cloudfolders.len() > 0 && self.selected_cloudfolder_index < self.cloudfolders.len() - 1 {
            self.selected_cloudfolder_index = self.selected_cloudfolder_index + 1;
        }
    }

    /// The previous folder, wrapping from the first to the last.
    pub fn previous_cloudfolder(&mut self)
        ensures
            old(self).cloudfolders@.len() > 0 ==> final(self).selected_cloudfolder_index == (if old(self).selected_cloudfolder_index == 0 {
                (old(self).cloudfolders@.len() - 1) as usize
            } else {
                (old(self).selected_cloudfolder_index - 1) as usize
            }),
            old(self).cloudfolders@.len() == 0 ==> final(self).selected_cloudfolder_index == old(self).selected_cloudfolder_index,
            final(self).cloudfolders == old(self).cloudfolders,
    {
        if self.cloudfolders.len() > 0 {
            self.selected_cloudfolder_index = if self.selected_cloudfolder_index == 0 {
                self.cloudfolders.len() - 1
            } else {
                self.selected_cloudfolder_index - 1
            };
        }
    }

    /// The next folder, wrapping from the last to the first.
    pub fn next_cloudfolder(&mut self)
        requires
            old(self).selected_cloudfolder_index < usize::MAX,
        ensures
            old(self).cloudfolders@.len() > 0 ==> final(self).selected_cloudfolder_index == (old(self).selected_cloudfolder_index
                + 1) % (old(self).cloudfolders@.len() as int),
            old(self).cloudfolders@.len() == 0 ==> final(self).selected_cloudfolder_index == old(self).selected_cloudfolder_index,
            final(self).cloudfolders == old(self).cloudfolders,
    {
        if self.cloudfolders.len() > 0 {
            self.selected_cloudfolder_index = (self.selected_cloudfolder_index + 1) % self.cloudfolders.len();
        }
    }

    /// The port the server runs on, if it runs.
    pub fn get_server_port(&self) -> (res: Option<u16>)
        ensures
            res == self.server_port,
    {
        self.server_port
    }

    /// Moves the log selection up.
    pub fn scroll_logs_up(&mut self)
        ensures
            (old(self).server_logs_list_state.selected matches Some(s) && s > 0) ==> final(self).server_logs_list_state.selected
                == Some((old(self).server_logs_list_state.selected->Some_0 - 1) as usize),
            !(old(self).server_logs_list_state.selected matches Some(s) && s > 0) ==> final(self).server_logs_list_state
                == old(self).server_logs_list_state,
            final(self).server_logs == old(self).server_logs,
            final(self).focused_panel == old(self).focused_panel,
            final(self).cloudfolders == old(self).cloudfolders,
            final(self).selected_cloudfolder_index == old(self).selected_cloudfolder_index,
    {
        match self.server_logs_list_state.selected() {
            Some(s) => {
                if s > 0 {
                    self.server_logs_list_state.select(Some(s - 1));
                }
            },
            None => {},
        }
    }

    /// Moves the log selection down, or selects the first line.
    pub fn scroll_logs_down(&mut self)
        ensures
            old(self).server_logs_list_state.selected matches Some(s) ==> final(self).server_logs_list_state.selected == (
            if s + 1 < old(self).server_logs@.len() {
                Some((s + 1) as usize)
            } else {
                Some(s)
            }),
            old(self).server_logs_list_state.selected is None ==> final(self).server_logs_list_state.selected == (
            if old(self).server_logs@.len() > 0 {
                Some(0usize)
            } else {
                None
            }),
            final(self).server_logs == old(self).server_logs,
            final(self).focused_panel == old(self).focused_panel,
            final(self).cloudfolders == old(self).cloudfolders,
            final(self).selected_cloudfolder_index == old(self).selected_cloudfolder_index,
    {
        match self.server_logs_list_state.selected() {
            Some(s) => {
                if self.server_logs.len() > 0 && s < self.server_logs.len() - 1 {
                    self.server_logs_list_state.select(Some(s + 1));
                }
            },
            None => {
                if self.server_logs.len() > 0 {
                    self.server_logs_list_state.select(Some(0));
                }
            },
        }
    }

    /// Selects the newest log line.
    pub fn scroll_logs_to_bottom(&mut self)
        ensures
            old(self).server_logs@.len() > 0 ==> final(self).server_logs_list_state.selected == Some(
                (old(self).server_logs@.len() - 1) as usize,
            ),
            old(self).server_logs@.len() == 0 ==> final(self).server_logs_list_state == old(self).server_logs_list_state,
            final(self).server_logs == old(self).server_logs,
            final(self).focused_panel == old(self).focused_panel,
            final(self).cloudfolders == old(self).cloudfolders,
            final(self).selected_cloudfolder_index == old(self).selected_cloudfolder_index,
    {
        if self.server_logs.len() > 0 {
            self.server_logs_list_state.select(Some(self.server_logs.len() - 1));
        }
    }

    /// Selects the oldest log line.
    pub fn scroll_logs_to_top(&mut self)
        ensures
            old(self).server_logs@.len() > 0 ==> final(self).server_logs_list_state.selected == Some(0usize),
            old(self).server_logs@.len() == 0 ==> final(self).server_logs_list_state == old(self).server_logs_list_state,
            final(self).server_logs == old(self).server_logs,
            final(self).focused_panel == old(self).focused_panel,
            final(self).cloudfolders == old(self).cloudfolders,
            final(self).selected_cloudfolder_index == old(self).selected_cloudfolder_index,
    {
        if self.server_logs.len() > 0 {
            self.server_logs_list_state.select(Some(0));
        }
    }

    /// Whether the newest log line is shown (or nothing is selected).
    pub fn is_at_bottom(&self) -> (res: bool)
        ensures
            res == (match self.server_logs_list_state.selected {
                Some(s) => s == (if self.server_logs@.len() > 0 { self.server_logs@.len() - 1 } else { 0 }),
                None => true,
            }),
    {
        match self.server_logs_list_state.selected() {
            Some(s) => s == (if self.server_logs.len() > 0 {
                self.server_logs.len() - 1
            } else {
                0
            }),
            None => true,
        }
    }

    /// Names the focused panel.
    pub fn get_focused_element(&self) -> (res: String)
        ensures
            res@ == (match self.focused_panel {
                FocusedPanel::CloudFolders => "Cloudfolders"@,
                FocusedPanel::ServerInfo => "ServerInfo"@,
                FocusedPanel::ServerLogs => "ServerLogs"@,
            }),
    {
        match self.focused_panel {
            FocusedPanel::CloudFolders => String::from_str("Cloudfolders"),
            FocusedPanel::ServerInfo => String::from_str("ServerInfo"),
            FocusedPanel::ServerLogs => String::from_str("ServerLogs"),
        }
    }

    /// Focuses the next panel.
    pub fn cycle_focus_forward(&mut self)
        ensures
            final(self).focused_panel == (match old(self).focused_panel {
                FocusedPanel::CloudFolders => FocusedPanel::ServerInfo,
                FocusedPanel::ServerInfo => FocusedPanel::ServerLogs,
                FocusedPanel::ServerLogs => FocusedPanel::CloudFolders,
            }),
            final(self).cloudfolders == old(self).cloudfolders,
    {
        self.focused_panel = match self.focused_panel {
            FocusedPanel::CloudFolders => FocusedPanel::ServerInfo,
            FocusedPanel::ServerInfo => FocusedPanel::ServerLogs,
            FocusedPanel::ServerLogs => FocusedPanel::CloudFolders,
        };
    }

    /// Focuses the previous panel.
    pub fn cycle_focus_backward(&mut self)
        ensures
            final(self).focused_panel == (match old(self).focused_panel {
                FocusedPanel::CloudFolders => FocusedPanel::ServerLogs,
                FocusedPanel::ServerInfo => FocusedPanel::CloudFolders,
                FocusedPanel::ServerLogs => FocusedPanel::ServerInfo,
            }),
            final(self).cloudfolders == old(self).cloudfolders,
    {
        self.focused_panel = match self.focused_panel {
            FocusedPanel::CloudFolders => FocusedPanel::ServerLogs,
            FocusedPanel::ServerInfo => FocusedPanel::CloudFolders,
            FocusedPanel::ServerLogs => FocusedPanel::ServerInfo,
        };
    }

    /// `j`, `k`, `g` and `G` move within the focused panel: the folder list
    /// or the log; the info panel takes no keys.
    pub fn handle_navigation(&mut self, key: Key) -> (handled: bool)
        ensures
            handled == ((key == Key::Char('j') || key == Key::Char('k') || key == Key::Char('g') || key
                == Key::Char('G')) && old(self).focused_panel != FocusedPanel::ServerInfo),
            old(self).focused_panel == FocusedPanel::CloudFolders && key == Key::Char('g') ==> final(self).selected_cloudfolder_index
                == 0,
            old(self).focused_panel == FocusedPanel::CloudFolders && key == Key::Char('G') ==> final(self).selected_cloudfolder_index
                == (if old(self).cloudfolders@.len() > 0 { old(self).cloudfolders@.len() - 1 } else { 0 }),
            final(self).cloudfolders == old(self).cloudfolders,
            final(self).focused_panel == old(self).focused_panel,
    {
        match key {
            Key::Char('j') => match self.focused_panel {
                FocusedPanel::CloudFolders => {
                    self.navigate_cloudfolder_down();
                    true
                },
                FocusedPanel::ServerInfo => false,
                FocusedPanel::ServerLogs => {
                    self.scroll_logs_down();
                    true
                },
            },
            Key::Char('k') => match self.focused_panel {
                FocusedPanel::CloudFolders => {
                    self.navigate_cloudfolder_up();
                    true
                },
                FocusedPanel::ServerInfo => false,
                FocusedPanel::ServerLogs => {
                    self.scroll_logs_up();
                    true
                },
            },
            Key::Char('g') => match self.focused_panel {
                FocusedPanel::CloudFolders => {
                    self.selected_cloudfolder_index = 0;
                    true
                },
                FocusedPanel::ServerInfo => false,
                FocusedPanel::ServerLogs => {
                    self.scroll_logs_to_top();
                    true
                },
            },
            Key::Char('G') => match self.focused_panel {
                FocusedPanel::CloudFolders => {
                    self.selected_cloudfolder_index = if self.cloudfolders.len() > 0 {
                        self.cloudfolders.len() - 1
                    } else {
                        0
                    };
                    true
                },
                FocusedPanel::ServerInfo => false,
                FocusedPanel::ServerLogs => {
                    self.scroll_logs_to_bottom();
                    true
                },
            },
            _ => false,
        }
    }
}

} // verus!
