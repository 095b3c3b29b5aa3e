//! File system paths: where configuration lives, and how request paths
//! map onto shared folders.
use vstd::prelude::*;
use crate::cloud::{Cloud, CloudFolder, find_folder, folder_names, is_first_index};
use crate::text::{copy_str, join_strs, join_with, split_by, split_on, str_contains, contains_seq};

verus! {

// ---------------------------------------------------------------------------
// outside calls
// ---------------------------------------------------------------------------

/// What `Path::join` gives for a base path and a component: the component
/// alone when it is absolute, else the two separated by `/` as needed.
pub uninterp spec fn joined_path(base: Seq<char>, component: Seq<char>) -> Seq<char>;

/// What `Path::parent` gives: the path without its last component, or
/// `None` for a root or an empty path.
pub uninterp spec fn parent_path(p: Seq<char>) -> Option<Seq<char>>;

/// Calls `Path::join`; the result is a function of the two strings.
#[verifier::external_body]
pub(crate) fn path_join(base: &str, component: &str) -> (res: String)
    ensures
        res@ == joined_path(base@, component@),
{
    std::path::Path::new(base).join(component).to_string_lossy().into_owned()
}

/// Calls `Path::parent`; the result is a function of the path. A parent is
/// a strict prefix of the path, so it is shorter.
#[verifier::external_body]
pub(crate) fn path_parent(p: &str) -> (res: Option<String>)
    ensures
        res is Some <==> parent_path(p@) is Some,
        res matches Some(q) ==> q@ == parent_path(p@)->Some_0 && q@.len() < p@.len(),
{
    std::path::Path::new(p).parent().map(|q| q.to_string_lossy().into_owned())
}

/// What `Path::starts_with` gives: whether the leading whole components of
/// `path` are those of `base`.
pub uninterp spec fn path_has_prefix(path: Seq<char>, base: Seq<char>) -> bool;

/// Calls `Path::starts_with`; the result is a function of the two paths,
/// and a path starts with itself.
#[verifier::external_body]
pub(crate) fn path_starts_with(path: &str, base: &str) -> (res: bool)
    ensures
        res == path_has_prefix(path@, base@),
        path@ == base@ ==> res,
{
    std::path::Path::new(path).starts_with(base)
}

/// What `Path::extension` gives: the part of the file name after its last
/// `.`, or `None` when there is no file name, no `.`, or only a leading `.`.
pub uninterp spec fn file_extension(p: Seq<char>) -> Option<Seq<char>>;

/// Calls `Path::extension`; the result is a function of the path.
#[verifier::external_body]
pub(crate) fn path_extension(p: &str) -> (res: Option<String>)
    ensures
        res is Some <==> file_extension(p@) is Some,
        res matches Some(e) ==> e@ == file_extension(p@)->Some_0,
{
    std::path::Path::new(p).extension().map(|e| e.to_string_lossy().into_owned())
}

/// Calls `Path::exists`; the answer depends on the disk, so nothing is
/// claimed.
#[verifier::external_body]
pub(crate) fn path_exists(p: &str) -> (res: bool) {
    std::path::Path::new(p).exists()
}

/// Calls `dirs::data_dir` (the user's data directory, read from the
/// environment); nothing is claimed of it.
#[verifier::external_body]
pub(crate) fn data_dir() -> (res: Option<String>) {
    dirs::data_dir().map(|d| d.to_string_lossy().into_owned())
}

// ---------------------------------------------------------------------------
// configuration location
// ---------------------------------------------------------------------------

/// The directory `k` levels above `p` (`p` itself for 0), if there is one.
pub open spec fn ancestor(p: Seq<char>, k: nat) -> Option<Seq<char>>
    decreases k,
{
    if k == 0 {
        Some(p)
    } else {
        match ancestor(p, (k - 1) as nat) {
            Some(q) => parent_path(q),
            None => None,
        }
    }
}

/// The path of the `Cargo.toml` that would mark `dir` as a project root.
pub open spec fn cargo_probe(dir: Seq<char>) -> Seq<char> {
    joined_path(dir, "Cargo.toml"@)
}

/// `found` answers, in order, whether `cargo_probe` exists for the
/// directories `cwd`, its parent, and so on: one answer for each ancestor
/// there is, up to `limit` of them.
pub open spec fn ancestor_answers(cwd: Seq<char>, found: Seq<bool>, limit: nat) -> bool {
    &&& found.len() <= limit
    &&& forall|k: nat| k < found.len() ==> ancestor(cwd, k) is Some
    &&& found.len() < limit ==> ancestor(cwd, found.len()) is None
}

/// Development mode from the answers for `cwd` and its three nearest
/// ancestors: some of them holds a `Cargo.toml`.
pub fn dev_mode_from(found: &Vec<bool>) -> (res: bool)
    ensures
        res == found@.contains(true),
{
    let mut i: usize = 0;
    while i < found.len()
        invariant
            i <= found@.len(),
            forall|k: int| 0 <= k < i ==> !found@[k],
        decreases found@.len() - i,
    {
        if found[i] {
            return true;
        }
        i = i + 1;
    }
    false
}

/// Asks the disk, for `cwd` and its ancestors up to `limit` of them, whether
/// each holds a `Cargo.toml`. Only which directories are asked about is
/// claimed; the answers come from the disk.
fn cargo_answers(cwd: &str, limit: usize) -> (res: (Vec<String>, Vec<bool>))
    ensures
        ancestor_answers(cwd@, res.1@, limit as nat),
        res.0@.len() == res.1@.len(),
        forall|k: int| 0 <= k < res.0@.len() ==> ancestor(cwd@, k as nat) == Some(#[trigger] res.0@[k]@),
{
    let mut dirs: Vec<String> = Vec::new();
    let mut found: Vec<bool> = Vec::new();
    let mut current = copy_str(cwd);
    let mut more = true;
    assert(ancestor(cwd@, 0) == Some(cwd@));
    while found.len() < limit && more
        invariant
            found@.len() <= limit,
            dirs@.len() == found@.len(),
            forall|k: int| 0 <= k < dirs@.len() ==> ancestor(cwd@, k as nat) == Some(#[trigger] dirs@[k]@),
            more ==> ancestor(cwd@, found@.len() as nat) == Some(current@),
            !more ==> ancestor(cwd@, found@.len() as nat) is None,
        decreases limit - found@.len(),
    {
        let probe = path_join(current.as_str(), "Cargo.toml");
        let here = path_exists(probe.as_str());
        let next = path_parent(current.as_str());
        let ghost n = found@.len();
        dirs.push(copy_str(current.as_str()));
        found.push(here);
        proof {
            assert(ancestor(cwd@, (n + 1) as nat) == parent_path(current@));
        }
        match next {
            Some(p) => {
                current = p;
            },
            None => {
                more = false;
            },
        }
    }
    proof {
        assert forall|k: nat| k < found@.len() implies ancestor(cwd@, k) is Some by {
            assert(ancestor(cwd@, k) == Some(dirs@[k as int]@));
        }
    }
    (dirs, found)
}

/// Whether the program runs inside its source tree: a `Cargo.toml` in the
/// working directory `cwd` or in one of its three nearest ancestors. Which
/// of them hold one is read from the disk; the answer is the one
/// `dev_mode_from` gives for what the disk said about those directories.
pub fn is_dev_mode(cwd: &str) -> (res: bool)
    ensures
        exists|found: Seq<bool>| ancestor_answers(cwd@, found, 4) && res == found.contains(true),
{
    let (_dirs, found) = cargo_answers(cwd, 4);
    dev_mode_from(&found)
}

/// The project root from the answers for `cwd` and its ancestors (in
/// `dirs`, nearest first): the nearest that holds a `Cargo.toml`, else
/// `cwd`.
pub open spec fn project_root_of(cwd: Seq<char>, dirs: Seq<Seq<char>>, found: Seq<bool>) -> Seq<char> {
    match crate::orchestrator::first_missing(found.map_values(|b: bool| !b)) {
        Some(k) => dirs[k as int],
        None => cwd,
    }
}

/// `project_root_of` on values.
pub fn project_root_from(cwd: &str, dirs: &Vec<String>, found: &Vec<bool>) -> (res: String)
    requires
        dirs@.len() == found@.len(),
    ensures
        res@ == project_root_of(cwd@, dirs@.map_values(|d: String| d@), found@),
{
    let ghost inv = found@.map_values(|b: bool| !b);
    let mut i: usize = 0;
    while i < found.len()
        invariant
            i <= found@.len(),
            dirs@.len() == found@.len(),
            inv == found@.map_values(|b: bool| !b),
            crate::orchestrator::first_missing(inv.take(i as int)) is None,
        decreases found@.len() - i,
    {
        assert(inv.take(i + 1).drop_last() =~= inv.take(i as int));
        if found[i] {
            proof {
                assert(crate::orchestrator::first_missing(inv.take(i + 1)) == Some(i as nat));
                crate::orchestrator::lemma_first_missing_prefix(inv, (i + 1) as nat);
            }
            return copy_str(dirs[i].as_str());
        }
        i = i + 1;
    }
    assert(inv.take(i as int) =~= inv);
    copy_str(cwd)
}

/// The nearest directory from `cwd` upwards that holds a `Cargo.toml`, or
/// `cwd` itself when there is none.
fn get_project_root(cwd: &str) -> (res: String)
    ensures
        exists|dirs: Seq<Seq<char>>, found: Seq<bool>|
            dirs.len() == found.len() && (forall|k: int| 0 <= k < dirs.len() ==> ancestor(cwd@, k as nat) == Some(
                #[trigger] dirs[k],
            )) && res@ == project_root_of(cwd@, dirs, found),
{
    let (dirs, found) = cargo_answers(cwd, usize::MAX);
    project_root_from(cwd, &dirs, &found)
}

/// The configuration directory from what was found: the project root in
/// development mode, else `CloudHost` under the user's data directory (or
/// under `cwd` without one).
pub open spec fn config_dir_of(cwd: Seq<char>, dev: bool, root: Seq<char>, data: Option<Seq<char>>) -> Seq<char> {
    if dev {
        root
    } else {
        joined_path(
            match data {
                Some(d) => d,
                None => cwd,
            },
            "CloudHost"@,
        )
    }
}

/// `config_dir_of` on values.
pub fn config_dir_from(cwd: &str, dev: bool, root: &str, data: Option<&str>) -> (res: String)
    ensures
        res@ == config_dir_of(cwd@, dev, root@, match data {
            Some(d) => Some(d@),
            None => None,
        }),
{
    if dev {
        copy_str(root)
    } else {
        match data {
            Some(d) => path_join(d, "CloudHost"),
            None => path_join(cwd, "CloudHost"),
        }
    }
}

/// Where configuration files live: the project root inside the source tree,
/// else the application's data directory. Development mode, the project
/// root and the data directory are read from the disk and the environment;
/// the directory is the one `config_dir_of` gives for them.
pub fn get_config_dir(cwd: &str) -> (res: String)
    ensures
        exists|dev: bool, root: Seq<char>, data: Option<Seq<char>>|
            (exists|k: nat| ancestor(cwd@, k) == Some(root)) && res@ == config_dir_of(cwd@, dev, root, data),
{
    let dev = is_dev_mode(cwd);
    if dev {
        let root = get_project_root(cwd);
        let res = config_dir_from(cwd, true, root.as_str(), None);
        proof {
            let (dirs, found) = choose|dirs: Seq<Seq<char>>, found: Seq<bool>|
                dirs.len() == found.len() && (forall|k: int| 0 <= k < dirs.len() ==> ancestor(cwd@, k as nat) == Some(
                    #[trigger] dirs[k],
                )) && root@ == project_root_of(cwd@, dirs, found);
            crate::orchestrator::lemma_first_missing_bound(found.map_values(|b: bool| !b));
            match crate::orchestrator::first_missing(found.map_values(|b: bool| !b)) {
                Some(k) => {
                    assert(ancestor(cwd@, k) == Some(root@));
                },
                None => {
                    assert(ancestor(cwd@, 0) == Some(root@));
                },
            }
        }
        res
    } else {
        let data = data_dir();
        let res = match &data {
            Some(d) => config_dir_from(cwd, false, cwd, Some(d.as_str())),
            None => config_dir_from(cwd, false, cwd, None),
        };
        assert(ancestor(cwd@, 0) == Some(cwd@));
        res
    }
}

/// The path of the configuration file `name` in directory `dir`.
pub fn config_file_path(dir: &str, name: &str) -> (res: String)
    ensures
        res@ == joined_path(dir@, name@),
{
    path_join(dir, name)
}

/// The three configuration files, all in one directory.
pub struct ConfigFiles {
    pub server: String,
    pub tui: String,
    pub clouds: String,
}

/// The configuration files in directory `dir`.
pub fn config_files_in(dir: &str) -> (res: ConfigFiles)
    ensures
        res.server@ == joined_path(dir@, "server-config.toml"@),
        res.tui@ == joined_path(dir@, "tui-config.toml"@),
        res.clouds@ == joined_path(dir@, "clouds-config.toml"@),
{
    ConfigFiles {
        server: config_file_path(dir, "server-config.toml"),
        tui: config_file_path(dir, "tui-config.toml"),
        clouds: config_file_path(dir, "clouds-config.toml"),
    }
}

/// The configuration files in the configuration directory found for `cwd`
/// (see `get_config_dir`), all three in that one directory.
pub fn get_config_files(cwd: &str) -> (res: ConfigFiles)
    ensures
        exists|dev: bool, root: Seq<char>, data: Option<Seq<char>>|
            (exists|k: nat| ancestor(cwd@, k) == Some(root)) && #[trigger] config_dir_of(cwd@, dev, root, data)
                == config_dir_of(cwd@, dev, root, data) && res.server@ == joined_path(
                config_dir_of(cwd@, dev, root, data),
                "server-config.toml"@,
            ) && res.tui@ == joined_path(config_dir_of(cwd@, dev, root, data), "tui-config.toml"@)
                && res.clouds@ == joined_path(config_dir_of(cwd@, dev, root, data), "clouds-config.toml"@),
{
    let dir = get_config_dir(cwd);
    config_files_in(dir.as_str())
}

/// The server configuration file in the configuration directory.
pub fn get_server_config_path(cwd: &str) -> (res: String)
    ensures
        exists|dev: bool, root: Seq<char>, data: Option<Seq<char>>|
            (exists|k: nat| ancestor(cwd@, k) == Some(root)) && res@ == joined_path(
                config_dir_of(cwd@, dev, root, data),
                "server-config.toml"@,
            ),
{
    let dir = get_config_dir(cwd);
    config_file_path(dir.as_str(), "server-config.toml")
}

/// The terminal front end's configuration file in the configuration
/// directory.
pub fn get_tui_config_path(cwd: &str) -> (res: String)
    ensures
        exists|dev: bool, root: Seq<char>, data: Option<Seq<char>>|
            (exists|k: nat| ancestor(cwd@, k) == Some(root)) && res@ == joined_path(
                config_dir_of(cwd@, dev, root, data),
                "tui-config.toml"@,
            ),
{
    let dir = get_config_dir(cwd);
    config_file_path(dir.as_str(), "tui-config.toml")
}

/// The clouds configuration file in the configuration directory.
pub fn get_clouds_config_path(cwd: &str) -> (res: String)
    ensures
        exists|dev: bool, root: Seq<char>, data: Option<Seq<char>>|
            (exists|k: nat| ancestor(cwd@, k) == Some(root)) && res@ == joined_path(
                config_dir_of(cwd@, dev, root, data),
                "clouds-config.toml"@,
            ),
{
    let dir = get_config_dir(cwd);
    config_file_path(dir.as_str(), "clouds-config.toml")
}

// ---------------------------------------------------------------------------
// request paths
// ---------------------------------------------------------------------------

/// A request path taken apart: folder name, directory inside it, file name.
pub struct ParsedPath {
    pub cloud_folder_name: String,
    pub subdirectory_path: String,
    pub filename: Option<String>,
}

/// The abstract value of a parsed path.
pub struct ParsedPathView {
    pub cloud_folder_name: Seq<char>,
    pub subdirectory_path: Seq<char>,
    pub filename: Option<Seq<char>>,
}

impl View for ParsedPath {
    type V = ParsedPathView;

    open spec fn view(&self) -> ParsedPathView {
        ParsedPathView {
            cloud_folder_name: self.cloud_folder_name@,
            subdirectory_path: self.subdirectory_path@,
            filename: match self.filename {
                Some(f) => Some(f@),
                None => None,
            },
        }
    }
}

/// How a target path `folder/dir/.../last` is read: the first segment names
/// the folder; the last names a file when it has a `.` or is the only one
/// after the folder; the rest is the directory.
pub open spec fn parse_target(target: Seq<char>) -> ParsedPathView {
    let parts = split_on(target, '/');
    let rest = parts.drop_first();
    if rest.len() == 0 {
        ParsedPathView { cloud_folder_name: parts[0], subdirectory_path: Seq::empty(), filename: None }
    } else if contains_seq(rest.last(), seq!['.']) || rest.len() == 1 {
        ParsedPathView {
            cloud_folder_name: parts[0],
            subdirectory_path: join_with(rest.drop_last(), seq!['/']),
            filename: Some(rest.last()),
        }
    } else {
        ParsedPathView {
            cloud_folder_name: parts[0],
            subdirectory_path: join_with(rest, seq!['/']),
            filename: None,
        }
    }
}

/// Takes a target path apart (see `parse_target`); every string parses.
pub fn parse_target_path(target_path: &str) -> (res: ParsedPath)
    ensures
        res@ == parse_target(target_path@),
{
    let parts = split_by(target_path, '/');
    let ghost segs = split_on(target_path@, '/');
    proof {
        crate::text::lemma_split_nonempty(target_path@, '/');
    }
    assert(parts@[0]@ == segs[0]);
    let cloud_folder_name = copy_str(parts[0].as_str());
    let mut rest: Vec<String> = Vec::new();
    let mut i: usize = 1;
    while i < parts.len()
        invariant
            1 <= i <= parts.len(),
            parts@.map_values(|p: String| p@) == segs,
            rest.len() == i - 1,
            forall|j: int| 0 <= j < rest.len() ==> #[trigger] rest@[j]@ == segs[j + 1],
        decreases parts.len() - i,
    {
        rest.push(copy_str(parts[i].as_str()));
        i = i + 1;
    }
    let ghost rest_view = segs.drop_first();
    assert(rest@.map_values(|p: String| p@) =~= rest_view);
    if rest.len() == 0 {
        let r = ParsedPath { cloud_folder_name, subdirectory_path: String::new(), filename: None };
        assert(r@.cloud_folder_name == parse_target(target_path@).cloud_folder_name);
        assert(r@.subdirectory_path == parse_target(target_path@).subdirectory_path);
        assert(r@.filename == parse_target(target_path@).filename);
        return r;
    }
    let n = rest.len();
    let last = copy_str(rest[n - 1].as_str());
    assert(last@ == rest_view.last());
    proof {
        reveal_strlit(".");
        reveal_strlit("/");
    }
    if str_contains(last.as_str(), ".") || n == 1 {
        proof {
            reveal_strlit(".");
        }
        assert(rest_view.len() == n);
        assert("."@ == seq!['.']);
        assert(contains_seq(rest_view.last(), seq!['.']) || rest_view.len() == 1);
        assert("/"@ == seq!['/']);
        let filename = copy_str(last.as_str());
        let _ = rest.pop();
        assert(rest@.map_values(|p: String| p@) =~= rest_view.drop_last());
        let subdirectory_path = join_strs(&rest, "/");
        proof {
            reveal_strlit("/");
        }
        let r = ParsedPath { cloud_folder_name, subdirectory_path, filename: Some(filename) };
        assert(r@.cloud_folder_name == parse_target(target_path@).cloud_folder_name);
        assert(r@.subdirectory_path == parse_target(target_path@).subdirectory_path);
        assert(r@.filename == parse_target(target_path@).filename);
        r
    } else {
        proof {
            reveal_strlit(".");
            reveal_strlit("/");
        }
        assert(rest_view.len() == n);
        assert(!contains_seq(last@, "."@));
        assert("."@ == seq!['.']);
        assert(!contains_seq(rest_view.last(), seq!['.']));
        assert("/"@ == seq!['/']);
        let subdirectory_path = join_strs(&rest, "/");
        let r = ParsedPath { cloud_folder_name, subdirectory_path, filename: None };
        assert(r@.cloud_folder_name == parse_target(target_path@).cloud_folder_name);
        assert(r@.subdirectory_path == parse_target(target_path@).subdirectory_path);
        assert(r@.filename == parse_target(target_path@).filename);
        r
    }
}

/// The first folder of `cloud` named `cloud_folder_name`; `None` answers
/// "Cloud folder not found" (404).
pub fn find_cloud_folder<'a>(cloud: &'a Cloud, cloud_folder_name: &str) -> (res: Option<
    &'a CloudFolder,
>)
    ensures
        res is None <==> !folder_names(cloud.cloud_folders@).contains(cloud_folder_name@),
        res matches Some(f) ==> exists|i: int|
            is_first_index(folder_names(cloud.cloud_folders@), cloud_folder_name@, i) && *f
                == cloud.cloud_folders@[i],
{
    match find_folder(&cloud.cloud_folders, cloud_folder_name) {
        Some(i) => Some(&cloud.cloud_folders[i]),
        None => None,
    }
}

/// The file `filename` in directory `subdirectory_path` of a folder.
pub fn construct_file_path(cloud_folder: &CloudFolder, subdirectory_path: &str, filename: &str) -> (res:
    String)
    ensures
        subdirectory_path@.len() == 0 ==> res@ == joined_path(cloud_folder.folder_path@, filename@),
        subdirectory_path@.len() > 0 ==> res@ == joined_path(
            joined_path(cloud_folder.folder_path@, subdirectory_path@),
            filename@,
        ),
{
    if subdirectory_path.is_empty() {
        path_join(cloud_folder.folder_path.as_str(), filename)
    } else {
        let dir = path_join(cloud_folder.folder_path.as_str(), subdirectory_path);
        path_join(dir.as_str(), filename)
    }
}

/// The directory `subdirectory_path` of a folder.
pub fn construct_directory_path(cloud_folder: &CloudFolder, subdirectory_path: &str) -> (res: String)
    ensures
        subdirectory_path@.len() == 0 ==> res@ == cloud_folder.folder_path@,
        subdirectory_path@.len() > 0 ==> res@ == joined_path(
            cloud_folder.folder_path@,
            subdirectory_path@,
        ),
{
    if subdirectory_path.is_empty() {
        copy_str(cloud_folder.folder_path.as_str())
    } else {
        path_join(cloud_folder.folder_path.as_str(), subdirectory_path)
    }
}

} // verus!
