//! The folders tab: shared folders and clouds side by side, marking folders,
//! and the dialogs that create and edit them.
use vstd::prelude::*;
use std::collections::HashSet;
use crate::cloud::{Cloud, CloudFolder, find_folder, folder_names};
use crate::key::{Key, ListState, is_down, is_up};
use crate::password::{PasswordCreationState, fresh_password};
use crate::text::copy_str;

verus! {

/// The panels of the folders tab.
#[derive(Debug, Clone, Copy, PartialEq, Eq, Structural)]
pub enum FocusedPanel {
    Folders,
    Clouds,
    Info,
}

/// The field of the folder dialog being typed into.
#[derive(Debug, Clone, Copy, PartialEq, Eq, Structural)]
pub enum FolderInputField {
    Name,
    Path,
}

/// The part of the cloud edit dialog that takes keys.
#[derive(Debug, Clone, Copy, PartialEq, Eq, Structural)]
pub enum CloudEditFocus {
    Name,
    Folders,
}

/// State of the folders tab.
pub struct FoldersState {
    pub cloud_folders: Vec<CloudFolder>,
    pub selected_folder_index: usize,
    pub selected_folders: HashSet<usize>,
    pub clouds: Vec<Cloud>,
    pub selected_cloud_index: usize,
    pub creating_folder: bool,
    pub new_folder_name: String,
    pub new_folder_path: String,
    pub folder_input_field: FolderInputField,
    pub folder_creation_error: Option<String>,
    pub creating_cloud: bool,
    pub new_cloud_name: String,
    pub cloud_creation_error: Option<String>,
    pub password_creation: PasswordCreationState,
    pub editing_folder: bool,
    pub edit_folder_original_name: String,
    pub edit_folder_name: String,
    pub edit_folder_path: String,
    pub edit_folder_input_field: FolderInputField,
    pub folder_edit_error: Option<String>,
    pub editing_cloud: bool,
    pub edit_cloud_original_name: String,
    pub edit_cloud_name: String,
    pub edit_cloud_selected_folders: HashSet<usize>,
    pub cloud_edit_error: Option<String>,
    pub cloud_edit_focus: CloudEditFocus,
    pub password_visible: bool,
    pub focused_panel: FocusedPanel,
    pub folders_list_state: ListState,
    pub clouds_list_state: ListState,
}

/// The names of the folders at the marked positions, by position.
pub open spec fn marked_names(folders: Seq<CloudFolder>, marked: Set<usize>, upto: nat) -> Seq<Seq<char>>
    decreases upto,
{
    if upto == 0 {
        Seq::empty()
    } else {
        let rest = marked_names(folders, marked, (upto - 1) as nat);
        let i = (upto - 1) as usize;
        if marked.contains(i) && i < folders.len() {
            rest.push(folders[i as int].name@)
        } else {
            rest
        }
    }
}

/// The selection after a key in a list: the target when the key moves it,
/// else where it was.
pub open spec fn moved_index(current: usize, len: nat, key: Key) -> usize {
    match list_target(current, len, key) {
        Some(t) => t,
        None => current,
    }
}

/// Where Up/Down/`g`/`G` move a selection in a list of `len` items; `None`
/// for other keys.
pub open spec fn list_target(current: usize, len: nat, key: Key) -> Option<usize> {
    if is_up(key) {
        Some(
            if len == 0 {
                current
            } else {
                let up = if current == 0 { 0 } else { (current - 1) as usize };
                if up >= len { (len - 1) as usize } else { up }
            },
        )
    } else if is_down(key) {
        Some(
            if len == 0 {
                current
            } else if current + 1 < len - 1 {
                (current + 1) as usize
            } else {
                (len - 1) as usize
            },
        )
    } else if key == Key::Char('g') {
        Some(if len == 0 { current } else { 0 })
    } else if key == Key::Char('G') {
        Some(if len == 0 { current } else { (len - 1) as usize })
    } else {
        None
    }
}

fn names_of_marked(folders: &Vec<CloudFolder>, marked: &HashSet<usize>) -> (res: Vec<String>)
    ensures
        res@.map_values(|s: String| s@) == marked_names(folders@, marked@, folders@.len()),
{
    let mut res: Vec<String> = Vec::new();
    let mut i: usize = 0;
    while i < folders.len()
        invariant
            i <= folders.len(),
            res@.map_values(|s: String| s@) == marked_names(folders@, marked@, i as nat),
        decreases folders.len() - i,
    {
        if marked.contains(&i) {
            let ghost before = res@;
            res.push(copy_str(folders[i].name.as_str()));
            assert(res@.map_values(|s: String| s@) =~= before.map_values(|s: String| s@).push(
                folders@[i as int].name@,
            ));
        }
        i = i + 1;
    }
    res
}

fn move_in_list(current: usize, len: usize, key: Key, list: &mut ListState) -> (res: Option<usize>)
    ensures
        res == list_target(current, len as nat, key),
        len > 0 ==> (res matches Some(t) ==> final(list).selected == Some(t)),
        res is None || len == 0 ==> *final(list) == *old(list),
        final(list).offset == old(list).offset,
{
    match key {
        Key::Up | Key::Char('k') => {
            if len == 0 {
                return Some(current);
            }
            let up = if current == 0 {
                0
            } else {
                current - 1
            };
            let t = if up >= len {
                len - 1
            } else {
                up
            };
            list.select(Some(t));
            Some(t)
        },
        Key::Down | Key::Char('j') => {
            if len == 0 {
                return Some(current);
            }
            let t = if current < len - 1 {
                current + 1
            } else {
                len - 1
            };
            list.select(Some(t));
            Some(t)
        },
        Key::Char('g') => {
            if len == 0 {
                return Some(current);
            }
            list.select(Some(0));
            Some(0)
        },
        Key::Char('G') => {
            if len == 0 {
                return Some(current);
            }
            list.select(Some(len - 1));
            Some(len - 1)
        },
        _ => None,
    }
}

impl Default for FoldersState {
    fn default() -> (res: FoldersState)
        ensures
            res.cloud_folders@.len() == 0,
            res.clouds@.len() == 0,
            res.selected_folders@ == Set::<usize>::empty(),
            res.edit_cloud_selected_folders@ == Set::<usize>::empty(),
            res.focused_panel == FocusedPanel::Folders,
            !res.creating_folder && !res.creating_cloud && !res.editing_folder && !res.editing_cloud,
            res.password_creation@ == fresh_password(false),
    {
        FoldersState {
            cloud_folders: Vec::new(),
            selected_folder_index: 0,
            selected_folders: HashSet::new(),
            clouds: Vec::new(),
            selected_cloud_index: 0,
            creating_folder: false,
            new_folder_name: String::new(),
            new_folder_path: String::new(),
            folder_input_field: FolderInputField::Name,
            folder_creation_error: None,
            creating_cloud: false,
            new_cloud_name: String::new(),
            cloud_creation_error: None,
            password_creation: PasswordCreationState::new(),
            editing_folder: false,
            edit_folder_original_name: String::new(),
            edit_folder_name: String::new(),
            edit_folder_path: String::new(),
            edit_folder_input_field: FolderInputField::Name,
            folder_edit_error: None,
            editing_cloud: false,
            edit_cloud_original_name: String::new(),
            edit_cloud_name: String::new(),
            edit_cloud_selected_folders: HashSet::new(),
            cloud_edit_error: None,
            cloud_edit_focus: CloudEditFocus::Name,
            password_visible: false,
            focused_panel: FocusedPanel::Folders,
            folders_list_state: ListState::new(),
            clouds_list_state: ListState::new(),
        }
    }
}

impl FoldersState {
    /// Names the focused panel.
    pub fn get_focused_element(&self) -> (res: String)
        ensures
            res@ == (match self.focused_panel {
                FocusedPanel::Folders => "FoldersList"@,
                FocusedPanel::Clouds => "CloudsList"@,
                FocusedPanel::Info => "InfoPanel"@,
            }),
    {
        match self.focused_panel {
            FocusedPanel::Folders => String::from_str("FoldersList"),
            FocusedPanel::Clouds => String::from_str("CloudsList"),
            FocusedPanel::Info => String::from_str("InfoPanel"),
        }
    }

    /// Switches between the folder and cloud lists (the info panel is not
    /// focusable and gives way to the folders).
    pub fn cycle_focus_forward(&mut self)
        ensures
            final(self).focused_panel == (if old(self).focused_panel == FocusedPanel::Folders {
                FocusedPanel::Clouds
            } else {
                FocusedPanel::Folders
            }),
            *final(self) == (FoldersState { focused_panel: final(self).focused_panel, ..*old(self) }),
    {
        self.focused_panel = match self.focused_panel {
            FocusedPanel::Folders => FocusedPanel::Clouds,
            FocusedPanel::Clouds => FocusedPanel::Folders,
            FocusedPanel::Info => FocusedPanel::Folders,
        };
    }

    /// Same as `cycle_focus_forward`: there are two focusable lists.
    pub fn cycle_focus_backward(&mut self)
        ensures
            final(self).focused_panel == (if old(self).focused_panel == FocusedPanel::Folders {
                FocusedPanel::Clouds
            } else {
                FocusedPanel::Folders
            }),
            *final(self) == (FoldersState { focused_panel: final(self).focused_panel, ..*old(self) }),
    {
        self.focused_panel = match self.focused_panel {
            FocusedPanel::Folders => FocusedPanel::Clouds,
            FocusedPanel::Clouds => FocusedPanel::Folders,
            FocusedPanel::Info => FocusedPanel::Folders,
        };
    }

    /// Moves the selection of the focused list.
    pub fn handle_navigation(&mut self, key: Key) -> (handled: bool)
        ensures
            old(self).focused_panel == FocusedPanel::Folders ==> handled == list_target(
                old(self).selected_folder_index,
                old(self).cloud_folders@.len(),
                key,
            ) is Some,
            old(self).focused_panel == FocusedPanel::Clouds ==> handled == list_target(
                old(self).selected_cloud_index,
                old(self).clouds@.len(),
                key,
            ) is Some,
            old(self).focused_panel == FocusedPanel::Info ==> !handled && *final(self) == *old(self),
            final(self).folders_list_state.offset == old(self).folders_list_state.offset,
            final(self).clouds_list_state.offset == old(self).clouds_list_state.offset,
            old(self).focused_panel == FocusedPanel::Folders ==> *final(self) == (FoldersState {
                selected_folder_index: moved_index(old(self).selected_folder_index, old(self).cloud_folders@.len(), key),
                folders_list_state: final(self).folders_list_state,
                ..*old(self)
            }),
            old(self).focused_panel == FocusedPanel::Clouds ==> *final(self) == (FoldersState {
                selected_cloud_index: moved_index(old(self).selected_cloud_index, old(self).clouds@.len(), key),
                clouds_list_state: final(self).clouds_list_state,
                ..*old(self)
            }),
    {
        match self.focused_panel {
            FocusedPanel::Folders => self.handle_folders_navigation(key),
            FocusedPanel::Clouds => self.handle_clouds_navigation(key),
            FocusedPanel::Info => false,
        }
    }

    /// Moves the folder selection.
    pub fn handle_folders_navigation(&mut self, key: Key) -> (handled: bool)
        ensures
            handled == list_target(old(self).selected_folder_index, old(self).cloud_folders@.len(), key) is Some,
            handled ==> final(self).selected_folder_index == list_target(
                old(self).selected_folder_index,
                old(self).cloud_folders@.len(),
                key,
            )->Some_0,
            !handled ==> final(self).selected_folder_index == old(self).selected_folder_index,
            final(self).cloud_folders == old(self).cloud_folders,
            final(self).folders_list_state.offset == old(self).folders_list_state.offset,
            *final(self) == (FoldersState {
                selected_folder_index: final(self).selected_folder_index,
                folders_list_state: final(self).folders_list_state,
                ..*old(self)
            }),
    {
        match move_in_list(self.selected_folder_index, self.cloud_folders.len(), key, &mut self.folders_list_state) {
            Some(t) => {
                self.selected_folder_index = t;
                true
            },
            None => false,
        }
    }

    /// Moves the cloud selection.
    pub fn handle_clouds_navigation(&mut self, key: Key) -> (handled: bool)
        ensures
            handled == list_target(old(self).selected_cloud_index, old(self).clouds@.len(), key) is Some,
            handled ==> final(self).selected_cloud_index == list_target(
                old(self).selected_cloud_index,
                old(self).clouds@.len(),
                key,
            )->Some_0,
            !handled ==> final(self).selected_cloud_index == old(self).selected_cloud_index,
            final(self).clouds == old(self).clouds,
            final(self).clouds_list_state.offset == old(self).clouds_list_state.offset,
            *final(self) == (FoldersState {
                selected_cloud_index: final(self).selected_cloud_index,
                clouds_list_state: final(self).clouds_list_state,
                ..*old(self)
            }),
    {
        match move_in_list(self.selected_cloud_index, self.clouds.len(), key, &mut self.clouds_list_state) {
            Some(t) => {
                self.selected_cloud_index = t;
                true
            },
            None => false,
        }
    }

    /// How many folders are marked.
    pub fn get_selected_folders_count(&self) -> (res: usize)
        ensures
            res == self.selected_folders@.len(),
    {
        self.selected_folders.len()
    }

    /// Whether the folder at `index` is marked.
    pub fn is_folder_selected(&self, index: usize) -> (res: bool)
        ensures
            res == self.selected_folders@.contains(index),
    {
        self.selected_folders.contains(&index)
    }

    /// Marks or unmarks the folder at `index`.
    pub fn toggle_folder_selection(&mut self, index: usize)
        ensures
            old(self).selected_folders@.contains(index) ==> final(self).selected_folders@ == old(self).selected_folders@.remove(index),
            !old(self).selected_folders@.contains(index) ==> final(self).selected_folders@ == old(self).selected_folders@.insert(index),
            final(self).cloud_folders == old(self).cloud_folders,
            *final(self) == (FoldersState { selected_folders: final(self).selected_folders, ..*old(self) }),
    {
        if self.selected_folders.contains(&index) {
            self.selected_folders.remove(&index);
        } else {
            self.selected_folders.insert(index);
        }
    }

    /// Unmarks every folder.
    pub fn clear_folder_selections(&mut self)
        ensures
            final(self).selected_folders@ == Set::<usize>::empty(),
            final(self).cloud_folders == old(self).cloud_folders,
    {
        self.selected_folders.clear();
    }

    /// Marks every folder.
    pub fn select_all_folders(&mut self)
        ensures
            final(self).selected_folders@ == Set::new(|i: usize| i < old(self).cloud_folders@.len()),
            final(self).cloud_folders == old(self).cloud_folders,
            *final(self) == (FoldersState { selected_folders: final(self).selected_folders, ..*old(self) }),
    {
        let mut marked: HashSet<usize> = HashSet::new();
        let n = self.cloud_folders.len();
        let mut i: usize = 0;
        while i < n
            invariant
                i <= n,
                marked@ == Set::new(|j: usize| j < i),
            decreases n - i,
        {
            marked.insert(i);
            assert(marked@ =~= Set::new(|j: usize| j < i + 1));
            i = i + 1;
        }
        assert(marked@ =~= Set::new(|j: usize| j < n));
        self.selected_folders = marked;
    }

    /// The names of the marked folders, by position.
    pub fn get_selected_folder_names(&self) -> (res: Vec<String>)
        ensures
            res@.map_values(|s: String| s@) == marked_names(self.cloud_folders@, self.selected_folders@, self.cloud_folders@.len()),
    {
        names_of_marked(&self.cloud_folders, &self.selected_folders)
    }

    /// Opens the cloud dialog with an empty name.
    pub fn start_creating_cloud(&mut self)
        ensures
            final(self).creating_cloud,
            final(self).new_cloud_name@.len() == 0,
            final(self).cloud_creation_error is None,
            final(self).cloud_folders == old(self).cloud_folders,
            *final(self) == (FoldersState {
                creating_cloud: true,
                new_cloud_name: final(self).new_cloud_name,
                cloud_creation_error: None,
                ..*old(self)
            }),
    {
        self.creating_cloud = true;
        self.new_cloud_name = String::new();
        self.cloud_creation_error = None;
    }

    /// Closes the cloud dialog and its password entry.
    pub fn clear_cloud_creation(&mut self)
        ensures
            !final(self).creating_cloud,
            final(self).new_cloud_name@.len() == 0,
            final(self).cloud_creation_error is None,
            final(self).password_creation@ == fresh_password(false),
            final(self).cloud_folders == old(self).cloud_folders,
    {
        self.creating_cloud = false;
        self.new_cloud_name = String::new();
        self.cloud_creation_error = None;
        self.password_creation.clear_password_creation();
    }

    /// Opens the edit dialog on the selected folder, if there is one.
    pub fn start_editing_folder(&mut self)
        ensures
            old(self).selected_folder_index < old(self).cloud_folders@.len() ==> {
                let f = old(self).cloud_folders@[old(self).selected_folder_index as int];
                &&& final(self).editing_folder
                &&& final(self).edit_folder_original_name@ == f.name@
                &&& final(self).edit_folder_name@ == f.name@
                &&& final(self).edit_folder_path@ == f.folder_path@
                &&& final(self).edit_folder_input_field == FolderInputField::Name
                &&& final(self).folder_edit_error is None
            },
            old(self).selected_folder_index >= old(self).cloud_folders@.len() ==> final(self).editing_folder
                == old(self).editing_folder,
            final(self).cloud_folders == old(self).cloud_folders,
            old(self).selected_folder_index >= old(self).cloud_folders@.len() ==> *final(self) == *old(self),
            *final(self) == (FoldersState {
                editing_folder: final(self).editing_folder,
                edit_folder_original_name: final(self).edit_folder_original_name,
                edit_folder_name: final(self).edit_folder_name,
                edit_folder_path: final(self).edit_folder_path,
                edit_folder_input_field: final(self).edit_folder_input_field,
                folder_edit_error: final(self).folder_edit_error,
                ..*old(self)
            }),
    {
        if self.selected_folder_index < self.cloud_folders.len() {
            let name = copy_str(self.cloud_folders[self.selected_folder_index].name.as_str());
            let path = copy_str(self.cloud_folders[self.selected_folder_index].folder_path.as_str());
            self.editing_folder = true;
            self.edit_folder_original_name = copy_str(name.as_str());
            self.edit_folder_name = name;
            self.edit_folder_path = path;
            self.edit_folder_input_field = FolderInputField::Name;
            self.folder_edit_error = None;
        }
    }

    /// Closes the folder edit dialog.
    pub fn clear_folder_edit(&mut self)
        ensures
            !final(self).editing_folder,
            final(self).edit_folder_original_name@.len() == 0,
            final(self).edit_folder_name@.len() == 0,
            final(self).edit_folder_path@.len() == 0,
            final(self).folder_edit_error is None,
            final(self).cloud_folders == old(self).cloud_folders,
    {
        self.editing_folder = false;
        self.edit_folder_original_name = String::new();
        self.edit_folder_name = String::new();
        self.edit_folder_path = String::new();
        self.folder_edit_error = None;
    }

    /// Opens the edit dialog on the selected cloud, if there is one, with
    /// the folders that belong to it marked.
    pub fn start_editing_cloud(&mut self)
        ensures
            old(self).selected_cloud_index < old(self).clouds@.len() ==> {
                let c = old(self).clouds@[old(self).selected_cloud_index as int];
                &&& final(self).editing_cloud
                &&& final(self).edit_cloud_original_name@ == c.name@
                &&& final(self).edit_cloud_name@ == c.name@
                &&& final(self).cloud_edit_error is None
                &&& final(self).edit_cloud_selected_folders@ == Set::new(
                    |i: usize|
                        i < old(self).cloud_folders@.len() && folder_names(c.cloud_folders@).contains(
                            old(self).cloud_folders@[i as int].name@,
                        ),
                )
            },
            old(self).selected_cloud_index >= old(self).clouds@.len() ==> final(self).editing_cloud
                == old(self).editing_cloud,
            final(self).cloud_folders == old(self).cloud_folders,
            final(self).clouds == old(self).clouds,
            old(self).selected_cloud_index >= old(self).clouds@.len() ==> *final(self) == *old(self),
            *final(self) == (FoldersState {
                editing_cloud: final(self).editing_cloud,
                edit_cloud_original_name: final(self).edit_cloud_original_name,
                edit_cloud_name: final(self).edit_cloud_name,
                cloud_edit_error: final(self).cloud_edit_error,
                edit_cloud_selected_folders: final(self).edit_cloud_selected_folders,
                ..*old(self)
            }),
    {
        if self.selected_cloud_index < self.clouds.len() {
            let ci = self.selected_cloud_index;
            let name = copy_str(self.clouds[ci].name.as_str());
            self.editing_cloud = true;
            self.edit_cloud_original_name = copy_str(name.as_str());
            self.edit_cloud_name = name;
            self.cloud_edit_error = None;
            let folders = &self.cloud_folders;
            let cloud = &self.clouds[ci];
            let mut marked: HashSet<usize> = HashSet::new();
            let mut i: usize = 0;
            while i < folders.len()
                invariant
                    i <= folders.len(),
                    marked@ == Set::new(
                        |j: usize|
                            j < i && folder_names(cloud.cloud_folders@).contains(folders@[j as int].name@),
                    ),
                decreases folders.len() - i,
            {
                if find_folder(&cloud.cloud_folders, folders[i].name.as_str()).is_some() {
                    marked.insert(i);
                }
                assert(marked@ =~= Set::new(
                    |j: usize|
                        j < i + 1 && folder_names(cloud.cloud_folders@).contains(folders@[j as int].name@),
                ));
                i = i + 1;
            }
            self.edit_cloud_selected_folders = marked;
        }
    }

    /// Closes the cloud edit dialog.
    pub fn clear_cloud_edit(&mut self)
        ensures
            !final(self).editing_cloud,
            final(self).edit_cloud_original_name@.len() == 0,
            final(self).edit_cloud_name@.len() == 0,
            final(self).edit_cloud_selected_folders@ == Set::<usize>::empty(),
            final(self).cloud_edit_error is None,
            final(self).cloud_folders == old(self).cloud_folders,
    {
        self.editing_cloud = false;
        self.edit_cloud_original_name = String::new();
        self.edit_cloud_name = String::new();
        self.edit_cloud_selected_folders.clear();
        self.cloud_edit_error = None;
    }

    /// Marks or unmarks the folder at `index` for the cloud being edited.
    pub fn toggle_cloud_folder_selection(&mut self, index: usize)
        ensures
            old(self).edit_cloud_selected_folders@.contains(index) ==> final(self).edit_cloud_selected_folders@ == old(self).edit_cloud_selected_folders@.remove(index),
            !old(self).edit_cloud_selected_folders@.contains(index) ==> final(self).edit_cloud_selected_folders@ == old(self).edit_cloud_selected_folders@.insert(index),
            final(self).cloud_folders == old(self).cloud_folders,
            *final(self) == (FoldersState {
                edit_cloud_selected_folders: final(self).edit_cloud_selected_folders,
                ..*old(self)
            }),
    {
        if self.edit_cloud_selected_folders.contains(&index) {
            self.edit_cloud_selected_folders.remove(&index);
        } else {
            self.edit_cloud_selected_folders.insert(index);
        }
    }

    /// Whether the folder at `index` is marked for the cloud being edited.
    pub fn is_cloud_folder_selected(&self, index: usize) -> (res: bool)
        ensures
            res == self.edit_cloud_selected_folders@.contains(index),
    {
        self.edit_cloud_selected_folders.contains(&index)
    }

    /// The names of the folders marked for the cloud being edited.
    pub fn get_edit_cloud_selected_folder_names(&self) -> (res: Vec<String>)
        ensures
            res@.map_values(|s: String| s@) == marked_names(self.cloud_folders@, self.edit_cloud_selected_folders@, self.cloud_folders@.len()),
    {
        names_of_marked(&self.cloud_folders, &self.edit_cloud_selected_folders)
    }
}

/// Toggling a mark twice leaves the marks as they were.
pub proof fn law_toggle_twice(marked: Set<usize>, i: usize)
    ensures
        (if (if marked.contains(i) { marked.remove(i) } else { marked.insert(i) }).contains(i) {
            (if marked.contains(i) { marked.remove(i) } else { marked.insert(i) }).remove(i)
        } else {
            (if marked.contains(i) { marked.remove(i) } else { marked.insert(i) }).insert(i)
        }) == marked,
{
    if marked.contains(i) {
        assert(marked.remove(i).insert(i) =~= marked);
    } else {
        assert(marked.insert(i).remove(i) =~= marked);
    }
}

} // verus!
