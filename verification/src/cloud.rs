//! Clouds: named groups of shared folders, each protected by its own
//! password and token secret.
use vstd::prelude::*;
use crate::text::{concat_str, copy_str, str_eq, u64_to_hex, hex};
use std::hash::Hash;

verus! {

/// A point in time as seconds and nanoseconds since the Unix epoch (UTC).
#[derive(Debug, Clone, Copy, PartialEq, Eq, Structural)]
pub struct UtcTime {
    pub secs: i64,
    pub nanos: u32,
}

/// A shared folder: a name and the directory it exposes.
#[derive(Debug, Clone, PartialEq, Eq)]
pub struct CloudFolder {
    pub name: String,
    pub folder_path: String,
}

impl CloudFolder {
    /// A folder named `name` that exposes `folder_path`.
    pub fn new(name: String, folder_path: String) -> (res: CloudFolder)
        ensures
            res.name == name,
            res.folder_path == folder_path,
    {
        CloudFolder { name, folder_path }
    }

    /// A copy with the same name and path.
    pub fn copy(&self) -> (res: CloudFolder)
        ensures
            res@ == self@,
    {
        CloudFolder {
            name: copy_str(self.name.as_str()),
            folder_path: copy_str(self.folder_path.as_str()),
        }
    }
}

/// A group of shared folders served together.
#[derive(Debug, Clone)]
pub struct Cloud {
    pub name: String,
    pub cloud_folders: Vec<CloudFolder>,
    pub password_hash: Option<String>,
    pub password_changed_at: Option<UtcTime>,
    pub jwt_secret: String,
}

/// The abstract value of a folder.
pub struct CloudFolderView {
    pub name: Seq<char>,
    pub folder_path: Seq<char>,
}

impl View for CloudFolder {
    type V = CloudFolderView;

    open spec fn view(&self) -> CloudFolderView {
        CloudFolderView { name: self.name@, folder_path: self.folder_path@ }
    }
}

/// The abstract value of a cloud.
pub struct CloudView {
    pub name: Seq<char>,
    pub cloud_folders: Seq<CloudFolderView>,
    pub password_hash: Option<Seq<char>>,
    pub password_changed_at: Option<UtcTime>,
    pub jwt_secret: Seq<char>,
}

impl View for Cloud {
    type V = CloudView;

    open spec fn view(&self) -> CloudView {
        CloudView {
            name: self.name@,
            cloud_folders: self.cloud_folders@.map_values(|f: CloudFolder| f@),
            password_hash: match self.password_hash {
                Some(h) => Some(h@),
                None => None,
            },
            password_changed_at: self.password_changed_at,
            jwt_secret: self.jwt_secret@,
        }
    }
}

/// A copy of a list of folders.
pub fn copy_folders(v: &Vec<CloudFolder>) -> (res: Vec<CloudFolder>)
    ensures
        res@.map_values(|f: CloudFolder| f@) == v@.map_values(|f: CloudFolder| f@),
{
    let mut res: Vec<CloudFolder> = Vec::new();
    let mut i: usize = 0;
    while i < v.len()
        invariant
            i <= v.len(),
            res.len() == i,
            forall|j: int| 0 <= j < i ==> #[trigger] res@[j]@ == v@[j]@,
        decreases v.len() - i,
    {
        res.push(v[i].copy());
        i = i + 1;
    }
    assert(res@.map_values(|f: CloudFolder| f@) =~= v@.map_values(|f: CloudFolder| f@));
    res
}

/// The names of a list of folders, in order.
pub open spec fn folder_names(v: Seq<CloudFolder>) -> Seq<Seq<char>> {
    v.map_values(|f: CloudFolder| f.name@)
}

/// `i` is the first position of name `n` in `names`.
pub open spec fn is_first_index(names: Seq<Seq<char>>, n: Seq<char>, i: int) -> bool {
    &&& 0 <= i < names.len()
    &&& names[i] == n
    &&& forall|j: int| 0 <= j < i ==> names[j] != n
}

/// The token secret of a cloud, from its name and a hash value.
pub open spec fn cloud_secret_text(name: Seq<char>, h: u64) -> Seq<char> {
    "cloud-"@ + name + "-secret-"@ + hex(h as nat)
}

/// Position of the first folder named `n`.
pub fn find_folder(v: &Vec<CloudFolder>, n: &str) -> (res: Option<usize>)
    ensures
        res matches Some(i) ==> is_first_index(folder_names(v@), n@, i as int),
        res is None ==> !folder_names(v@).contains(n@),
{
    let mut i: usize = 0;
    while i < v.len()
        invariant
            i <= v.len(),
            forall|j: int| 0 <= j < i ==> #[trigger] v@[j].name@ != n@,
        decreases v.len() - i,
    {
        if str_eq(v[i].name.as_str(), n) {
            return Some(i);
        }
        i = i + 1;
    }
    assert forall|j: int| 0 <= j < folder_names(v@).len() implies folder_names(v@)[j] != n@ by {
        assert(v@[j].name@ != n@);
    }
    None
}

// ---------------------------------------------------------------------------
// outside calls
// ---------------------------------------------------------------------------

/// The error type of the `bcrypt` crate.
#[verifier::external_type_specification]
#[verifier::external_body]
pub struct ExBcryptError(bcrypt::BcryptError);

/// What `bcrypt::verify(password, hash)` returns: `Some(b)` for `Ok(b)`,
/// `None` for an error (a hash that does not parse).
pub uninterp spec fn bcrypt_verify_outcome(password: Seq<char>, hash: Seq<char>) -> Option<bool>;

/// Calls `bcrypt::verify`, which recomputes the hash of `password` with the
/// cost and salt read from `hash` and compares; the result is a function of
/// the two strings.
#[verifier::external_body]
pub(crate) fn bcrypt_verify(password: &str, hash: &str) -> (res: Result<bool, bcrypt::BcryptError>)
    ensures
        res matches Ok(b) ==> bcrypt_verify_outcome(password@, hash@) == Some(b),
        res is Err ==> bcrypt_verify_outcome(password@, hash@) is None,
{
    bcrypt::verify(password, hash)
}

/// Calls `bcrypt::hash` at the default cost (12). The salt is random, so
/// only this is claimed: a hash it returns verifies the same password.
#[verifier::external_body]
pub(crate) fn bcrypt_hash(password: &str) -> (res: Result<String, bcrypt::BcryptError>)
    ensures
        res matches Ok(h) ==> bcrypt_verify_outcome(password@, h@) == Some(true),
{
    bcrypt::hash(password, bcrypt::DEFAULT_COST)
}

/// The text of a `bcrypt` error (its `Display`); nothing is claimed of it.
#[verifier::external_body]
pub(crate) fn bcrypt_error_text(e: &bcrypt::BcryptError) -> (res: String) {
    format!("{}", e)
}

/// The system clock's time type.
#[verifier::external_type_specification]
#[verifier::external_body]
pub struct ExSystemTime(std::time::SystemTime);

/// Reads the system clock (`SystemTime::now`); nothing is claimed of it.
#[verifier::external_body]
pub(crate) fn system_now() -> (res: std::time::SystemTime) {
    std::time::SystemTime::now()
}

/// The seconds and nanoseconds from the Unix epoch to `t`
/// (`SystemTime::duration_since`), or `None` when `t` is earlier than the
/// epoch; the nanoseconds of a `Duration` are below one billion.
#[verifier::external_body]
pub(crate) fn since_epoch(t: &std::time::SystemTime) -> (res: Option<(u64, u32)>)
    ensures
        res matches Some(p) ==> p.1 < 1_000_000_000,
{
    t.duration_since(std::time::UNIX_EPOCH).ok().map(|d| (d.as_secs(), d.subsec_nanos()))
}

/// The current time from the system clock, or `None` when the clock reads
/// before 1970 or past what seconds in an `i64` hold.
pub fn clock_reading() -> (res: Option<UtcTime>)
    ensures
        res matches Some(t) ==> t.secs >= 0 && t.nanos < 1_000_000_000,
{
    let now = system_now();
    match since_epoch(&now) {
        Some((secs, nanos)) => if secs <= i64::MAX as u64 {
            Some(UtcTime { secs: secs as i64, nanos })
        } else {
            None
        },
        None => None,
    }
}

/// The moment of a password change: the clock's reading, or the epoch when
/// the clock cannot be read.
pub fn change_time() -> (res: UtcTime)
    ensures
        res.secs >= 0,
        res.nanos < 1_000_000_000,
{
    match clock_reading() {
        Some(t) => t,
        None => UtcTime { secs: 0, nanos: 0 },
    }
}

/// Feeds a string to a hasher (`Hash::hash` for `str`); the state is opaque.
#[verifier::external_body]
pub(crate) fn hash_str(h: &mut std::collections::hash_map::DefaultHasher, s: &str) {
    s.hash(h)
}

/// Feeds a number to a hasher (`Hash::hash` for `u64`); the state is opaque.
#[verifier::external_body]
pub(crate) fn hash_u64(h: &mut std::collections::hash_map::DefaultHasher, v: u64) {
    v.hash(h)
}

// ---------------------------------------------------------------------------
// clouds
// ---------------------------------------------------------------------------

/// The token secret of cloud `name` for hash value `h`.
pub fn cloud_secret(name: &str, h: u64) -> (res: String)
    ensures
        res@ == cloud_secret_text(name@, h),
{
    let a = concat_str("cloud-", name);
    let b = concat_str(a.as_str(), "-secret-");
    let x = u64_to_hex(h);
    concat_str(b.as_str(), x.as_str())
}

impl Cloud {
    /// A cloud named `name` serving `cloud_folders`, with no password and a
    /// fresh token secret.
    pub fn new(name: String, cloud_folders: Vec<CloudFolder>) -> (res: Cloud)
        ensures
            res.name == name,
            res.cloud_folders == cloud_folders,
            res.password_hash is None,
            res.password_changed_at is None,
            exists|h: u64| res.jwt_secret@ == cloud_secret_text(name@, h),
    {
        let jwt_secret = Cloud::generate_jwt_secret(name.as_str());
        Cloud { name, cloud_folders, password_hash: None, password_changed_at: None, jwt_secret }
    }

    /// A secret from the hash of the cloud's name and the current time.
    fn generate_jwt_secret(cloud_name: &str) -> (res: String)
        ensures
            exists|h: u64| res@ == cloud_secret_text(cloud_name@, h),
    {
        let timestamp: u64 = match clock_reading() {
            Some(t) => t.secs as u64,
            None => 0,
        };
        let mut hasher = std::collections::hash_map::DefaultHasher::new();
        hash_str(&mut hasher, cloud_name);
        hash_u64(&mut hasher, timestamp);
        let h = std::hash::Hasher::finish(&hasher);
        cloud_secret(cloud_name, h)
    }

    /// Sets a new password: its bcrypt hash is stored with the time of change.
    /// On failure nothing changes. Hashing draws a random salt and fails only
    /// when the system's random source does, so success is not claimed.
    pub fn set_password(&mut self, password: &str) -> (res: Result<(), bcrypt::BcryptError>)
        ensures
            res is Ok ==> (final(self).password_changed_at matches Some(t) && t.secs >= 0 && t.nanos < 1_000_000_000),
            res is Ok ==> (final(self).password_hash matches Some(h) && bcrypt_verify_outcome(
                password@,
                h@,
            ) == Some(true)),
            res is Ok ==> final(self).password_changed_at is Some,
            res is Ok ==> final(self).name == old(self).name && final(self).cloud_folders == old(self).cloud_folders && final(self).jwt_secret == old(self).jwt_secret,
            res is Err ==> *final(self) == *old(self),
    {
        match bcrypt_hash(password) {
            Ok(hash) => {
                self.password_hash = Some(hash);
                self.password_changed_at = Some(change_time());
                Ok(())
            },
            Err(e) => Err(e),
        }
    }

    /// A copy of this cloud.
    pub fn copy(&self) -> (res: Cloud)
        ensures
            res@ == self@,
    {
        Cloud {
            name: copy_str(self.name.as_str()),
            cloud_folders: copy_folders(&self.cloud_folders),
            password_hash: match &self.password_hash {
                Some(h) => Some(copy_str(h.as_str())),
                None => None,
            },
            password_changed_at: self.password_changed_at,
            jwt_secret: copy_str(self.jwt_secret.as_str()),
        }
    }

    /// Whether a password is set.
    pub fn has_password(&self) -> (res: bool)
        ensures
            res == self.password_hash is Some,
    {
        self.password_hash.is_some()
    }

    /// Whether `password` matches the stored hash; false without a password
    /// or with a hash that does not parse.
    pub fn verify_password(&self, password: &str) -> (res: bool)
        ensures
            res == (self.password_hash matches Some(h) && bcrypt_verify_outcome(password@, h@)
                == Some(true)),
    {
        match &self.password_hash {
            Some(hash) => match bcrypt_verify(password, hash.as_str()) {
                Ok(b) => b,
                Err(_) => false,
            },
            None => false,
        }
    }

    /// Whether a folder of this cloud is named `cloud_folder_name`.
    pub fn has_cloud_folder(&self, cloud_folder_name: &str) -> (res: bool)
        ensures
            res == folder_names(self.cloud_folders@).contains(cloud_folder_name@),
    {
        find_folder(&self.cloud_folders, cloud_folder_name).is_some()
    }

    /// The first folder named `cloud_folder_name`.
    pub fn get_cloud_folder(&self, cloud_folder_name: &str) -> (res: Option<&CloudFolder>)
        ensures
            res is None <==> !folder_names(self.cloud_folders@).contains(cloud_folder_name@),
            res matches Some(f) ==> exists|i: int|
                is_first_index(folder_names(self.cloud_folders@), cloud_folder_name@, i) && *f
                    == self.cloud_folders@[i],
    {
        match find_folder(&self.cloud_folders, cloud_folder_name) {
            Some(i) => Some(&self.cloud_folders[i]),
            None => None,
        }
    }

    /// Adds a folder unless one of the same name is there.
    pub fn add_cloud_folder(&mut self, cloud_folder: CloudFolder)
        ensures
            folder_names(old(self).cloud_folders@).contains(cloud_folder.name@) ==> *final(self)
                == *old(self),
            !folder_names(old(self).cloud_folders@).contains(cloud_folder.name@) ==> final(self).cloud_folders@ == old(self).cloud_folders@.push(cloud_folder),
            final(self).name == old(self).name,
            final(self).password_hash == old(self).password_hash,
            final(self).password_changed_at == old(self).password_changed_at,
            final(self).jwt_secret == old(self).jwt_secret,
    {
        if !self.has_cloud_folder(cloud_folder.name.as_str()) {
            self.cloud_folders.push(cloud_folder);
        }
    }

    /// Removes the first folder named `cloud_folder_name`; tells whether one
    /// was there.
    pub fn remove_cloud_folder(&mut self, cloud_folder_name: &str) -> (removed: bool)
        ensures
            removed == folder_names(old(self).cloud_folders@).contains(cloud_folder_name@),
            removed ==> exists|i: int|
                is_first_index(folder_names(old(self).cloud_folders@), cloud_folder_name@, i)
                    && final(self).cloud_folders@ == old(self).cloud_folders@.remove(i),
            !removed ==> final(self).cloud_folders@ == old(self).cloud_folders@,
            final(self).name == old(self).name,
            final(self).password_hash == old(self).password_hash,
            final(self).password_changed_at == old(self).password_changed_at,
            final(self).jwt_secret == old(self).jwt_secret,
    {
        match find_folder(&self.cloud_folders, cloud_folder_name) {
            Some(i) => {
                self.cloud_folders.remove(i);
                true
            },
            None => false,
        }
    }
}

} // verus!
