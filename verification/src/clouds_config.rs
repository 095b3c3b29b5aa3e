//! The saved set of shared folders and clouds, and the rules for changing it.
use vstd::prelude::*;
use crate::cloud::{Cloud, CloudFolder, folder_names, find_folder, is_first_index};
use crate::error::ServerError;
use crate::text::{concat_str, str_eq};

verus! {

/// Shared folders and clouds as saved in the configuration file.
pub struct CloudsConfig {
    pub cloud_folders: Vec<CloudFolder>,
    pub clouds: Vec<Cloud>,
}

/// The names of a list of clouds, in order.
pub open spec fn cloud_names(v: Seq<Cloud>) -> Seq<Seq<char>> {
    v.map_values(|c: Cloud| c.name@)
}

/// No name occurs twice.
pub open spec fn names_unique(names: Seq<Seq<char>>) -> bool {
    forall|i: int, j: int| 0 <= i < j < names.len() ==> names[i] != names[j]
}

/// `prefix`, then a name in single quotes, then `suffix`.
pub open spec fn quoted(prefix: Seq<char>, name: Seq<char>, suffix: Seq<char>) -> Seq<char> {
    prefix + name + suffix
}

/// `res` is a validation error whose message is `msg`.
pub open spec fn is_validation(res: Result<(), ServerError>, msg: Seq<char>) -> bool {
    res matches Err(ServerError::Validation(m)) && m@ == msg
}

/// The message for a folder name already in use.
pub open spec fn folder_exists_msg(name: Seq<char>) -> Seq<char> {
    quoted("Cloud folder '"@, name, "' already exists"@)
}

/// The message for a folder name that is not there.
pub open spec fn folder_missing_msg(name: Seq<char>) -> Seq<char> {
    quoted("Cloud folder '"@, name, "' not found"@)
}

/// The message for a cloud name already in use.
pub open spec fn cloud_exists_msg(name: Seq<char>) -> Seq<char> {
    quoted("Cloud '"@, name, "' already exists"@)
}

/// The message for a cloud name that is not there.
pub open spec fn cloud_missing_msg(name: Seq<char>) -> Seq<char> {
    quoted("Cloud '"@, name, "' not found"@)
}

/// The message for adding a cloud without folders.
pub open spec fn add_empty_cloud_msg() -> Seq<char> {
    "Cloud must contain at least one cloud folder"@
}

/// The message for updating a cloud to one without folders.
pub open spec fn update_empty_cloud_msg() -> Seq<char> {
    "Cloud must contain at least one folder"@
}

fn validation(prefix: &str, name: &str, suffix: &str) -> (res: ServerError)
    ensures
        res matches ServerError::Validation(m) && m@ == quoted(prefix@, name@, suffix@),
{
    let a = concat_str(prefix, name);
    ServerError::Validation(concat_str(a.as_str(), suffix))
}

/// Position of the first cloud named `n`.
pub fn find_cloud(v: &Vec<Cloud>, n: &str) -> (res: Option<usize>)
    ensures
        res matches Some(i) ==> is_first_index(cloud_names(v@), n@, i as int),
        res is None ==> !cloud_names(v@).contains(n@),
{
    let mut i: usize = 0;
    while i < v.len()
        invariant
            i <= v.len(),
            forall|j: int| 0 <= j < i ==> #[trigger] v@[j].name@ != n@,
        decreases v.len() - i,
    {
        if str_eq(v[i].name.as_str(), n) {
            return Some(i);
        }
        i = i + 1;
    }
    assert forall|j: int| 0 <= j < cloud_names(v@).len() implies cloud_names(v@)[j] != n@ by {
        assert(v@[j].name@ != n@);
    }
    None
}

impl Default for CloudsConfig {
    fn default() -> (res: CloudsConfig)
        ensures
            res.cloud_folders@.len() == 0,
            res.clouds@.len() == 0,
    {
        CloudsConfig { cloud_folders: Vec::new(), clouds: Vec::new() }
    }
}

impl CloudsConfig {
    /// Adds a folder; a folder of the same name is an error.
    pub fn add_cloud_folder(&mut self, cloud_folder: CloudFolder) -> (res: Result<(), ServerError>)
        ensures
            folder_names(old(self).cloud_folders@).contains(cloud_folder.name@) ==> is_validation(
                res,
                folder_exists_msg(cloud_folder.name@),
            ) && final(self).cloud_folders@ == old(self).cloud_folders@,
            !folder_names(old(self).cloud_folders@).contains(cloud_folder.name@) ==> res is Ok
                && final(self).cloud_folders@ == old(self).cloud_folders@.push(cloud_folder),
            final(self).clouds@ == old(self).clouds@,
    {
        if find_folder(&self.cloud_folders, cloud_folder.name.as_str()).is_some() {
            return Err(validation("Cloud folder '", cloud_folder.name.as_str(), "' already exists"));
        }
        self.cloud_folders.push(cloud_folder);
        Ok(())
    }

    /// Removes the first folder of the given name; a missing name is an error.
    pub fn remove_cloud_folder(&mut self, cloud_folder_name: &str) -> (res: Result<(), ServerError>)
        ensures
            folder_names(old(self).cloud_folders@).contains(cloud_folder_name@) ==> res is Ok
                && exists|i: int|
                is_first_index(folder_names(old(self).cloud_folders@), cloud_folder_name@, i)
                    && final(self).cloud_folders@ == old(self).cloud_folders@.remove(i),
            !folder_names(old(self).cloud_folders@).contains(cloud_folder_name@) ==> is_validation(
                res,
                folder_missing_msg(cloud_folder_name@),
            ) && final(self).cloud_folders@ == old(self).cloud_folders@,
            final(self).clouds@ == old(self).clouds@,
    {
        match find_folder(&self.cloud_folders, cloud_folder_name) {
            Some(i) => {
                self.cloud_folders.remove(i);
                Ok(())
            },
            None => Err(validation("Cloud folder '", cloud_folder_name, "' not found")),
        }
    }

    /// Replaces the first folder named `old_name`. Renaming onto the name of
    /// another folder is an error, and so is a missing `old_name`.
    pub fn update_cloud_folder(&mut self, old_name: &str, new_cloud_folder: CloudFolder) -> (res:
        Result<(), ServerError>)
        ensures
            old_name@ != new_cloud_folder.name@ && folder_names(old(self).cloud_folders@).contains(
                new_cloud_folder.name@,
            ) ==> is_validation(res, folder_exists_msg(new_cloud_folder.name@)) && final(self).cloud_folders@ == old(self).cloud_folders@,
            !(old_name@ != new_cloud_folder.name@ && folder_names(
                old(self).cloud_folders@,
            ).contains(new_cloud_folder.name@)) && folder_names(
                old(self).cloud_folders@,
            ).contains(old_name@) ==> res is Ok && exists|i: int|
                is_first_index(folder_names(old(self).cloud_folders@), old_name@, i) && final(self).cloud_folders@ == old(self).cloud_folders@.update(i, new_cloud_folder),
            !(old_name@ != new_cloud_folder.name@ && folder_names(
                old(self).cloud_folders@,
            ).contains(new_cloud_folder.name@)) && !folder_names(
                old(self).cloud_folders@,
            ).contains(old_name@) ==> is_validation(res, folder_missing_msg(old_name@)) && final(self).cloud_folders@ == old(self).cloud_folders@,
            final(self).clouds@ == old(self).clouds@,
    {
        if !str_eq(old_name, new_cloud_folder.name.as_str()) && find_folder(
            &self.cloud_folders,
            new_cloud_folder.name.as_str(),
        ).is_some() {
            return Err(
                validation("Cloud folder '", new_cloud_folder.name.as_str(), "' already exists"),
            );
        }
        match find_folder(&self.cloud_folders, old_name) {
            Some(i) => {
                self.cloud_folders.set(i, new_cloud_folder);
                Ok(())
            },
            None => Err(validation("Cloud folder '", old_name, "' not found")),
        }
    }

    /// All folders.
    pub fn get_cloud_folders(&self) -> (res: &Vec<CloudFolder>)
        ensures
            res@ == self.cloud_folders@,
    {
        &self.cloud_folders
    }

    /// Adds a cloud; a cloud of the same name, or one without folders, is an
    /// error.
    pub fn add_cloud(&mut self, cloud: Cloud) -> (res: Result<(), ServerError>)
        ensures
            cloud_names(old(self).clouds@).contains(cloud.name@) ==> is_validation(
                res,
                cloud_exists_msg(cloud.name@),
            ) && final(self).clouds@ == old(self).clouds@,
            !cloud_names(old(self).clouds@).contains(cloud.name@) && cloud.cloud_folders@.len()
                == 0 ==> is_validation(res, add_empty_cloud_msg()) && final(self).clouds@ == old(self).clouds@,
            !cloud_names(old(self).clouds@).contains(cloud.name@) && cloud.cloud_folders@.len()
                > 0 ==> res is Ok && final(self).clouds@ == old(self).clouds@.push(cloud),
            final(self).cloud_folders@ == old(self).cloud_folders@,
    {
        if find_cloud(&self.clouds, cloud.name.as_str()).is_some() {
            return Err(validation("Cloud '", cloud.name.as_str(), "' already exists"));
        }
        if cloud.cloud_folders.len() == 0 {
            return Err(
                ServerError::Validation(
                    String::from_str("Cloud must contain at least one cloud folder"),
                ),
            );
        }
        self.clouds.push(cloud);
        Ok(())
    }

    /// Removes the first cloud of the given name; a missing name is an error.
    pub fn remove_cloud(&mut self, cloud_name: &str) -> (res: Result<(), ServerError>)
        ensures
            cloud_names(old(self).clouds@).contains(cloud_name@) ==> res is Ok && exists|i: int|
                is_first_index(cloud_names(old(self).clouds@), cloud_name@, i) && final(self).clouds@ == old(self).clouds@.remove(i),
            !cloud_names(old(self).clouds@).contains(cloud_name@) ==> is_validation(
                res,
                cloud_missing_msg(cloud_name@),
            ) && final(self).clouds@ == old(self).clouds@,
            final(self).cloud_folders@ == old(self).cloud_folders@,
    {
        match find_cloud(&self.clouds, cloud_name) {
            Some(i) => {
                self.clouds.remove(i);
                Ok(())
            },
            None => Err(validation("Cloud '", cloud_name, "' not found")),
        }
    }

    /// Replaces the first cloud named `old_name`. Renaming onto the name of
    /// another cloud, a cloud without folders, and a missing `old_name` are
    /// errors, checked in that order.
    pub fn update_cloud(&mut self, old_name: &str, new_cloud: Cloud) -> (res: Result<(), ServerError>)
        ensures
            old_name@ != new_cloud.name@ && cloud_names(old(self).clouds@).contains(
                new_cloud.name@,
            ) ==> is_validation(res, cloud_exists_msg(new_cloud.name@)) && final(self).clouds@
                == old(self).clouds@,
            !(old_name@ != new_cloud.name@ && cloud_names(old(self).clouds@).contains(
                new_cloud.name@,
            )) && new_cloud.cloud_folders@.len() == 0 ==> is_validation(
                res,
                update_empty_cloud_msg(),
            ) && final(self).clouds@ == old(self).clouds@,
            !(old_name@ != new_cloud.name@ && cloud_names(old(self).clouds@).contains(
                new_cloud.name@,
            )) && new_cloud.cloud_folders@.len() > 0 && cloud_names(old(self).clouds@).contains(
                old_name@,
            ) ==> res is Ok && exists|i: int|
                is_first_index(cloud_names(old(self).clouds@), old_name@, i) && final(self).clouds@ == old(self).clouds@.update(i, new_cloud),
            !(old_name@ != new_cloud.name@ && cloud_names(old(self).clouds@).contains(
                new_cloud.name@,
            )) && new_cloud.cloud_folders@.len() > 0 && !cloud_names(old(self).clouds@).contains(
                old_name@,
            ) ==> is_validation(res, cloud_missing_msg(old_name@)) && final(self).clouds@ == old(self).clouds@,
            final(self).cloud_folders@ == old(self).cloud_folders@,
    {
        if !str_eq(old_name, new_cloud.name.as_str()) && find_cloud(
            &self.clouds,
            new_cloud.name.as_str(),
        ).is_some() {
            return Err(validation("Cloud '", new_cloud.name.as_str(), "' already exists"));
        }
        if new_cloud.cloud_folders.len() == 0 {
            return Err(
                ServerError::Validation(String::from_str("Cloud must contain at least one folder")),
            );
        }
        match find_cloud(&self.clouds, old_name) {
            Some(i) => {
                self.clouds.set(i, new_cloud);
                Ok(())
            },
            None => Err(validation("Cloud '", old_name, "' not found")),
        }
    }

    /// All clouds.
    pub fn get_clouds(&self) -> (res: &Vec<Cloud>)
        ensures
            res@ == self.clouds@,
    {
        &self.clouds
    }

    /// The first cloud of the given name.
    pub fn get_cloud(&self, cloud_name: &str) -> (res: Option<&Cloud>)
        ensures
            res is None <==> !cloud_names(self.clouds@).contains(cloud_name@),
            res matches Some(c) ==> exists|i: int|
                is_first_index(cloud_names(self.clouds@), cloud_name@, i) && *c == self.clouds@[i],
    {
        match find_cloud(&self.clouds, cloud_name) {
            Some(i) => Some(&self.clouds[i]),
            None => None,
        }
    }
}

/// A cloud added under a new name is the one found under that name, and
/// removing it again gives back the clouds as they were.
pub proof fn law_cloud_add_then_lookup(v: Seq<Cloud>, c: Cloud)
    requires
        !cloud_names(v).contains(c.name@),
    ensures
        forall|i: int| #[trigger]
            is_first_index(cloud_names(v.push(c)), c.name@, i) ==> i == v.len() && v.push(c)[i]
                == c && v.push(c).remove(i) == v,
        is_first_index(cloud_names(v.push(c)), c.name@, v.len() as int),
{
    assert(cloud_names(v.push(c)) =~= cloud_names(v).push(c.name@));
    assert forall|i: int| #[trigger]
        is_first_index(cloud_names(v.push(c)), c.name@, i) implies i == v.len() && v.push(c)[i]
            == c && v.push(c).remove(i) == v by {
        if i < v.len() {
            assert(cloud_names(v)[i] == c.name@);
        }
        assert(v.push(c).remove(i) =~= v);
    }
}

/// A folder added under a new name is the one found under that name, and
/// removing it again gives back the folders as they were.
pub proof fn law_folder_add_then_lookup(v: Seq<CloudFolder>, f: CloudFolder)
    requires
        !folder_names(v).contains(f.name@),
    ensures
        forall|i: int| #[trigger]
            is_first_index(folder_names(v.push(f)), f.name@, i) ==> i == v.len() && v.push(f)[i]
                == f && v.push(f).remove(i) == v,
        is_first_index(folder_names(v.push(f)), f.name@, v.len() as int),
{
    assert(folder_names(v.push(f)) =~= folder_names(v).push(f.name@));
    assert forall|i: int| #[trigger]
        is_first_index(folder_names(v.push(f)), f.name@, i) implies i == v.len() && v.push(f)[i]
            == f && v.push(f).remove(i) == v by {
        if i < v.len() {
            assert(folder_names(v)[i] == f.name@);
        }
        assert(v.push(f).remove(i) =~= v);
    }
}

/// Cloud names stay distinct under every change that succeeds: adding a
/// new name, removing, and replacing the first cloud of a name with one
/// whose name is the same or unused.
pub proof fn law_cloud_names_stay_unique(v: Seq<Cloud>, c: Cloud, old_name: Seq<char>, i: int)
    requires
        names_unique(cloud_names(v)),
    ensures
        !cloud_names(v).contains(c.name@) ==> names_unique(cloud_names(v.push(c))),
        0 <= i < v.len() ==> names_unique(cloud_names(v.remove(i))),
        is_first_index(cloud_names(v), old_name, i) && !(old_name != c.name@ && cloud_names(
            v,
        ).contains(c.name@)) ==> names_unique(cloud_names(v.update(i, c))),
{
    if !cloud_names(v).contains(c.name@) {
        assert(cloud_names(v.push(c)) =~= cloud_names(v).push(c.name@));
        assert forall|a: int, b: int|
            0 <= a < b < cloud_names(v.push(c)).len() implies cloud_names(v.push(c))[a]
                != cloud_names(v.push(c))[b] by {
            if b == v.len() {
                assert(cloud_names(v)[a] == v[a].name@);
            }
        }
    }
    if 0 <= i < v.len() {
        assert(cloud_names(v.remove(i)) =~= cloud_names(v).remove(i));
        assert forall|a: int, b: int|
            0 <= a < b < cloud_names(v.remove(i)).len() implies cloud_names(v.remove(i))[a]
                != cloud_names(v.remove(i))[b] by {
            let a2 = if a < i { a } else { a + 1 };
            let b2 = if b < i { b } else { b + 1 };
            assert(cloud_names(v)[a2] != cloud_names(v)[b2]);
        }
    }
    if is_first_index(cloud_names(v), old_name, i) && !(old_name != c.name@ && cloud_names(
        v,
    ).contains(c.name@)) {
        assert(cloud_names(v.update(i, c)) =~= cloud_names(v).update(i, c.name@));
        assert forall|a: int, b: int|
            0 <= a < b < cloud_names(v.update(i, c)).len() implies cloud_names(v.update(i, c))[a]
                != cloud_names(v.update(i, c))[b] by {
            if a == i {
                assert(cloud_names(v)[b] == v[b].name@);
                if old_name != c.name@ {
                    assert(!cloud_names(v).contains(c.name@));
                }
            } else if b == i {
                assert(cloud_names(v)[a] == v[a].name@);
                if old_name != c.name@ {
                    assert(!cloud_names(v).contains(c.name@));
                }
            }
        }
    }
}

} // verus!
