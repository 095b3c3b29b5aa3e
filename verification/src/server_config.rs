//! The single-server configuration of the first server version: one port,
//! one password, and a flat list of shared folders.
use vstd::prelude::*;
use crate::cloud::{
    CloudFolder, UtcTime, bcrypt_hash, bcrypt_verify, bcrypt_verify_outcome, find_folder, folder_names,
    hash_u64, is_first_index, clock_reading, change_time,
};
use crate::text::{concat_str, hex, str_eq, u64_to_hex};

verus! {

/// The secret of the single server for a hash value.
pub open spec fn server_secret_text(h: u64) -> Seq<char> {
    "cloudtui-secret-"@ + hex(h as nat)
}

/// A token secret from the hash of the current time.
pub fn generate_jwt_secret() -> (res: String)
    ensures
        exists|h: u64| res@ == server_secret_text(h),
{
    let timestamp: u64 = match clock_reading() {
        Some(t) => t.secs as u64,
        None => 0,
    };
    let mut hasher = std::collections::hash_map::DefaultHasher::new();
    hash_u64(&mut hasher, timestamp);
    let h = std::hash::Hasher::finish(&hasher);
    let x = u64_to_hex(h);
    let res = concat_str("cloudtui-secret-", x.as_str());
    assert(res@ == server_secret_text(h));
    res
}

/// Port, password and folders of the single server.
pub struct ServerConfig {
    pub server_port: u16,
    pub password_hash: Option<String>,
    pub password_changed_at: Option<UtcTime>,
    pub jwt_secret: String,
    pub cloudfolders: Vec<CloudFolder>,
}

/// The folders of `v` whose name is not `n`, in order.
pub open spec fn without_name(v: Seq<CloudFolder>, n: Seq<char>) -> Seq<CloudFolder> {
    v.filter(|f: CloudFolder| f.name@ != n)
}

impl Default for ServerConfig {
    fn default() -> (res: ServerConfig)
        ensures
            res.server_port == 3000,
            res.password_hash is None,
            res.password_changed_at is None,
            res.cloudfolders@.len() == 0,
            exists|h: u64| res.jwt_secret@ == server_secret_text(h),
    {
        ServerConfig {
            server_port: 3000,
            password_hash: None,
            password_changed_at: None,
            jwt_secret: generate_jwt_secret(),
            cloudfolders: Vec::new(),
        }
    }
}

impl ServerConfig {
    /// Whether a password is set.
    pub fn has_password(&self) -> (res: bool)
        ensures
            res == self.password_hash is Some,
    {
        self.password_hash.is_some()
    }

    /// Adds a folder unless one of the same name is there.
    pub fn add_cloudfolder(&mut self, name: String, folder_path: String)
        ensures
            folder_names(old(self).cloudfolders@).contains(name@) ==> final(self).cloudfolders@ == old(self).cloudfolders@,
            !folder_names(old(self).cloudfolders@).contains(name@) ==> final(self).cloudfolders@ == old(self).cloudfolders@.push(CloudFolder { name, folder_path }),
            final(self).server_port == old(self).server_port,
            final(self).password_hash == old(self).password_hash,
    {
        if find_folder(&self.cloudfolders, name.as_str()).is_none() {
            self.cloudfolders.push(CloudFolder::new(name, folder_path));
        }
    }

    /// Removes every folder named `name`.
    pub fn remove_cloudfolder(&mut self, name: &str)
        ensures
            final(self).cloudfolders@ == without_name(old(self).cloudfolders@, name@),
            final(self).server_port == old(self).server_port,
            final(self).password_hash == old(self).password_hash,
    {
        let ghost pred = |f: CloudFolder| f.name@ != name@;
        let mut old_folders: Vec<CloudFolder> = Vec::new();
        std::mem::swap(&mut old_folders, &mut self.cloudfolders);
        let ghost all = old_folders@;
        let mut kept: Vec<CloudFolder> = Vec::new();
        let n = old_folders.len();
        while old_folders.len() > 0
            invariant
                old_folders@.len() <= n,
                n == all.len(),
                old_folders@ == all.skip(n - old_folders@.len()),
                pred == (|f: CloudFolder| f.name@ != name@),
                kept@ == all.take(n - old_folders@.len()).filter(pred),
            decreases old_folders.len(),
        {
            let ghost k = n - old_folders@.len();
            let f = old_folders.remove(0);
            proof {
                assert(f == all[k]);
                assert(all.take(k + 1) =~= all.take(k).push(all[k]));
                all.take(k).lemma_filter_push(all[k], pred);
                assert(old_folders@ =~= all.skip(k + 1));
            }
            if !str_eq(f.name.as_str(), name) {
                kept.push(f);
            }
        }
        assert(all.take(n as int) =~= all);
        self.cloudfolders = kept;
    }

    /// The first folder named `name`.
    pub fn get_cloudfolder(&self, name: &str) -> (res: Option<&CloudFolder>)
        ensures
            res is None <==> !folder_names(self.cloudfolders@).contains(name@),
            res matches Some(f) ==> exists|i: int|
                is_first_index(folder_names(self.cloudfolders@), name@, i) && *f == self.cloudfolders@[i],
    {
        match find_folder(&self.cloudfolders, name) {
            Some(i) => Some(&self.cloudfolders[i]),
            None => None,
        }
    }

    /// All folders.
    pub fn get_cloudfolders(&self) -> (res: &Vec<CloudFolder>)
        ensures
            res@ == self.cloudfolders@,
    {
        &self.cloudfolders
    }

    /// Sets a new password: its bcrypt hash is stored with the time of change.
    /// On failure nothing changes. Hashing draws a random salt and fails
    /// only when the system's random source does, so success is not claimed.
    pub fn set_password(&mut self, password: &str) -> (res: Result<(), bcrypt::BcryptError>)
        ensures
            res is Ok ==> (final(self).password_changed_at matches Some(t) && t.secs >= 0 && t.nanos < 1_000_000_000),
            res is Ok ==> (final(self).password_hash matches Some(h) && bcrypt_verify_outcome(password@, h@) == Some(true)),
            res is Ok ==> final(self).password_changed_at is Some,
            res is Ok ==> *final(self) == (ServerConfig {
                password_hash: final(self).password_hash,
                password_changed_at: final(self).password_changed_at,
                ..*old(self)
            }),
            res is Err ==> *final(self) == *old(self),
            res is Err ==> final(self).password_hash == old(self).password_hash,
            final(self).cloudfolders == old(self).cloudfolders,
            final(self).server_port == old(self).server_port,
    {
        match bcrypt_hash(password) {
            Ok(hash) => {
                self.password_hash = Some(hash);
                self.password_changed_at = Some(change_time());
                Ok(())
            },
            Err(e) => Err(e),
        }
    }

    /// Whether `password` matches the stored hash.
    pub fn verify_password(&self, password: &str) -> (res: bool)
        ensures
            res == (self.password_hash matches Some(h) && bcrypt_verify_outcome(password@, h@) == Some(true)),
    {
        match &self.password_hash {
            Some(hash) => match bcrypt_verify(password, hash.as_str()) {
                Ok(b) => b,
                Err(_) => false,
            },
            None => false,
        }
    }
}

} // verus!
