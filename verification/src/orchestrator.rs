//! Which clouds are being served and on which ports.
//!
//! The orchestrator decides; the caller runs the servers. Starting a cloud
//! is `begin_start` (checks and a port), then the caller's server start,
//! then `finish_start`. Stopping and reloading hand back the names whose
//! servers the caller stops or restarts.
use vstd::prelude::*;
use crate::cloud::{Cloud, bcrypt_error_text, bcrypt_verify_outcome, is_first_index};
use crate::paths::path_exists;
use crate::clouds_config::{CloudsConfig, cloud_names, find_cloud, names_unique, quoted};
use crate::error::ServerError;
use crate::text::{concat_str, copy_str, decimal, str_eq, u64_to_decimal};

verus! {

/// Port of the first cloud started.
pub const BASE_PORT: u16 = 3000;

/// Runs the clouds of a configuration, one port each.
pub struct Orchestrator {
    pub running_clouds: Vec<(String, u16)>,
    pub clouds_config: CloudsConfig,
    pub next_port: u16,
}

/// What `begin_start` hands the caller: the cloud to serve and its port.
pub struct StartPlan {
    pub cloud: Cloud,
    pub port: u16,
}

/// What a reload asks of the caller: first stop the servers of `stop`; then,
/// for each name of `restart` in order, stop its server and start it again.
pub struct ReloadPlan {
    pub stop: Vec<String>,
    pub restart: Vec<String>,
}

/// Names of the running clouds, in order.
pub open spec fn running_names(r: Seq<(String, u16)>) -> Seq<Seq<char>> {
    r.map_values(|e: (String, u16)| e.0@)
}

/// Ports of the running clouds, in order.
pub open spec fn running_ports(r: Seq<(String, u16)>) -> Seq<u16> {
    r.map_values(|e: (String, u16)| e.1)
}

/// The characters of a list of strings.
pub open spec fn string_views(v: Seq<String>) -> Seq<Seq<char>> {
    v.map_values(|s: String| s@)
}

/// The address of a server on this machine.
pub open spec fn local_url(port: u16) -> Seq<char> {
    "http://localhost:"@ + decimal(port as nat)
}

impl Orchestrator {
    /// Running names are distinct, ports are distinct, and every port lies
    /// between the base port and the next port to hand out.
    pub open spec fn wf(&self) -> bool {
        &&& names_unique(running_names(self.running_clouds@))
        &&& forall|i: int, j: int|
            0 <= i < j < self.running_clouds@.len() ==> #[trigger] self.running_clouds@[i].1
                != #[trigger] self.running_clouds@[j].1
        &&& forall|i: int|
            0 <= i < self.running_clouds@.len() ==> BASE_PORT <= #[trigger] self.running_clouds@[i].1
                < self.next_port
        &&& BASE_PORT <= self.next_port
    }

    /// The first cloud of the configuration named `name`.
    pub open spec fn config_cloud(&self, name: Seq<char>) -> Cloud {
        let names = cloud_names(self.clouds_config.clouds@);
        self.clouds_config.clouds@[choose|i: int| is_first_index(names, name, i)]
    }

    /// Whether `begin_start` would hand out a port for `name`: not running,
    /// configured, with a password and at least one folder.
    pub open spec fn can_start(&self, name: Seq<char>) -> bool {
        &&& !running_names(self.running_clouds@).contains(name)
        &&& cloud_names(self.clouds_config.clouds@).contains(name)
        &&& self.config_cloud(name).password_hash is Some
        &&& self.config_cloud(name).cloud_folders@.len() > 0
    }

    /// No cloud running; ports handed out from the base port.
    pub fn new(clouds_config: CloudsConfig) -> (res: Orchestrator)
        ensures
            res.running_clouds@.len() == 0,
            res.clouds_config == clouds_config,
            res.next_port == BASE_PORT,
            res.wf(),
    {
        Orchestrator { running_clouds: Vec::new(), clouds_config, next_port: BASE_PORT }
    }

    fn find_running(&self, name: &str) -> (res: Option<usize>)
        ensures
            res matches Some(i) ==> is_first_index(running_names(self.running_clouds@), name@, i as int),
            res is None ==> !running_names(self.running_clouds@).contains(name@),
    {
        let mut i: usize = 0;
        while i < self.running_clouds.len()
            invariant
                i <= self.running_clouds.len(),
                forall|j: int| 0 <= j < i ==> #[trigger] self.running_clouds@[j].0@ != name@,
            decreases self.running_clouds.len() - i,
        {
            if str_eq(self.running_clouds[i].0.as_str(), name) {
                return Some(i);
            }
            i = i + 1;
        }
        assert forall|j: int| 0 <= j < running_names(self.running_clouds@).len() implies running_names(
            self.running_clouds@,
        )[j] != name@ by {
            assert(self.running_clouds@[j].0@ != name@);
        }
        None
    }

    /// Checks that `cloud_name` can start and hands out the next port.
    /// Errors, in this order: already running; not configured; no password;
    /// no folders. Only success changes the state, by taking the port.
    pub fn begin_start(&mut self, cloud_name: &str) -> (res: Result<StartPlan, ServerError>)
        requires
            old(self).can_start(cloud_name@) ==> old(self).next_port < u16::MAX,
        ensures
            running_names(old(self).running_clouds@).contains(cloud_name@) ==> res matches Err(
                ServerError::ServerAlreadyRunning,
            ),
            !running_names(old(self).running_clouds@).contains(cloud_name@) && !cloud_names(
                old(self).clouds_config.clouds@,
            ).contains(cloud_name@) ==> (res matches Err(ServerError::Validation(m)) && m@
                == quoted("Cloud '"@, cloud_name@, "' not found"@)),
            !running_names(old(self).running_clouds@).contains(cloud_name@) && cloud_names(
                old(self).clouds_config.clouds@,
            ).contains(cloud_name@) && old(self).config_cloud(cloud_name@).password_hash is None
                ==> (res matches Err(ServerError::Validation(m)) && m@ == quoted(
                "Cloud '"@,
                cloud_name@,
                "' has no password set. Set a password first."@,
            )),
            !running_names(old(self).running_clouds@).contains(cloud_name@) && cloud_names(
                old(self).clouds_config.clouds@,
            ).contains(cloud_name@) && old(self).config_cloud(cloud_name@).password_hash is Some
                && old(self).config_cloud(cloud_name@).cloud_folders@.len() == 0 ==> (
            res matches Err(ServerError::Validation(m)) && m@ == quoted(
                "Cloud '"@,
                cloud_name@,
                "' has no cloud folders"@,
            )),
            res is Ok <==> old(self).can_start(cloud_name@),
            res matches Ok(plan) ==> plan.cloud@ == old(self).config_cloud(cloud_name@)@
                && plan.port == old(self).next_port && final(self).next_port == old(self).next_port
                + 1,
            res is Err ==> final(self).next_port == old(self).next_port,
            final(self).running_clouds@ == old(self).running_clouds@,
            final(self).clouds_config == old(self).clouds_config,
            old(self).wf() ==> final(self).wf(),
            old(self).wf() && res is Ok ==> !running_ports(old(self).running_clouds@).contains(
                res->Ok_0.port,
            ),
    {
        if self.find_running(cloud_name).is_some() {
            return Err(ServerError::ServerAlreadyRunning);
        }
        let idx = match find_cloud(&self.clouds_config.clouds, cloud_name) {
            Some(i) => i,
            None => {
                let a = concat_str("Cloud '", cloud_name);
                return Err(ServerError::Validation(concat_str(a.as_str(), "' not found")));
            },
        };
        proof {
            let names = cloud_names(self.clouds_config.clouds@);
            assert(is_first_index(names, cloud_name@, idx as int));
            let k = choose|i: int| is_first_index(names, cloud_name@, i);
            assert(k == idx as int) by {
                if k < idx {
                    assert(names[k] != cloud_name@);
                } else if k > idx {
                    assert(names[idx as int] != cloud_name@);
                }
            }
        }
        let cloud = &self.clouds_config.clouds[idx];
        if cloud.password_hash.is_none() {
            let a = concat_str("Cloud '", cloud_name);
            return Err(
                ServerError::Validation(
                    concat_str(a.as_str(), "' has no password set. Set a password first."),
                ),
            );
        }
        if cloud.cloud_folders.len() == 0 {
            let a = concat_str("Cloud '", cloud_name);
            return Err(ServerError::Validation(concat_str(a.as_str(), "' has no cloud folders")));
        }
        let copy = cloud.copy();
        let port = self.next_port;
        self.next_port = self.next_port + 1;
        proof {
            if old(self).wf() {
                assert forall|i: int| 0 <= i < running_ports(self.running_clouds@).len() implies running_ports(
                    self.running_clouds@,
                )[i] != port by {
                    assert(self.running_clouds@[i].1 < port);
                }
            }
        }
        Ok(StartPlan { cloud: copy, port })
    }

    /// Starts `cloud_name` given whether each of its folders exists (in
    /// order): the checks of `begin_start` come first and hand out the
    /// port; then the first missing folder is reported; when every folder
    /// exists the cloud is recorded as running on that port.
    pub fn start_cloud(&mut self, cloud_name: &str, exists: &Vec<bool>) -> (res: Result<StartPlan, ServerError>)
        requires
            old(self).can_start(cloud_name@) ==> old(self).next_port < u16::MAX,
            old(self).can_start(cloud_name@) ==> exists@.len() == old(self).config_cloud(
                cloud_name@,
            ).cloud_folders@.len(),
        ensures
            !old(self).can_start(cloud_name@) ==> res is Err && final(self).running_clouds@ == old(
                self,
            ).running_clouds@ && final(self).clouds_config == old(self).clouds_config && final(self).next_port
                == old(self).next_port,
            running_names(old(self).running_clouds@).contains(cloud_name@) ==> res matches Err(
                ServerError::ServerAlreadyRunning,
            ),
            old(self).can_start(cloud_name@) ==> final(self).next_port == old(self).next_port + 1
                && final(self).clouds_config == old(self).clouds_config,
            old(self).can_start(cloud_name@) ==> match first_missing(exists@) {
                Some(i) => (res matches Err(ServerError::InvalidPath(m)) && m@ == missing_path_message(
                    old(self).config_cloud(cloud_name@).cloud_folders@[i as int].folder_path@,
                )) && final(self).running_clouds@ == old(self).running_clouds@,
                None => res matches Ok(plan) && plan.cloud@ == old(self).config_cloud(cloud_name@)@
                    && plan.port == old(self).next_port && final(self).running_clouds@.len()
                    == old(self).running_clouds@.len() + 1 && final(self).running_clouds@.drop_last()
                    == old(self).running_clouds@ && final(self).running_clouds@.last().0@ == cloud_name@
                    && final(self).running_clouds@.last().1 == plan.port,
            },
            old(self).wf() ==> final(self).wf(),
    {
        let ghost cc = self.config_cloud(cloud_name@);
        let plan = match self.begin_start(cloud_name) {
            Ok(plan) => plan,
            Err(e) => {
                return Err(e);
            },
        };
        proof {
            assert(plan.cloud@.cloud_folders.len() == plan.cloud.cloud_folders@.len());
            assert(cc@.cloud_folders.len() == cc.cloud_folders@.len());
        }
        match folder_paths_outcome(&plan.cloud, exists) {
            Err(e) => {
                proof {
                    lemma_first_missing_bound(exists@);
                    let i = first_missing(exists@)->Some_0;
                    assert(plan.cloud@.cloud_folders[i as int] == plan.cloud.cloud_folders@[i as int]@);
                    assert(cc@.cloud_folders[i as int] == cc.cloud_folders@[i as int]@);
                }
                Err(e)
            },
            Ok(()) => {
                let port = plan.port;
                self.finish_start(copy_str(cloud_name), port);
                proof {
                    assert(self.running_clouds@.drop_last() =~= old(self).running_clouds@);
                }
                Ok(plan)
            },
        }
    }

    /// Records that the server of `cloud_name` runs on `port`.
    pub fn finish_start(&mut self, cloud_name: String, port: u16)
        ensures
            final(self).running_clouds@ == old(self).running_clouds@.push((cloud_name, port)),
            final(self).clouds_config == old(self).clouds_config,
            final(self).next_port == old(self).next_port,
            old(self).wf() && !running_names(old(self).running_clouds@).contains(cloud_name@)
                && !running_ports(old(self).running_clouds@).contains(port) && BASE_PORT <= port
                < old(self).next_port ==> final(self).wf(),
    {
        self.running_clouds.push((cloud_name, port));
        proof {
            let r = self.running_clouds@;
            let o = old(self).running_clouds@;
            if old(self).wf() && !running_names(o).contains(cloud_name@) && !running_ports(
                o,
            ).contains(port) && BASE_PORT <= port < old(self).next_port {
                assert(running_names(r) =~= running_names(o).push(cloud_name@));
                assert forall|i: int, j: int|
                    0 <= i < j < running_names(r).len() implies running_names(r)[i]
                        != running_names(r)[j] by {
                    if j == o.len() {
                        assert(running_names(o)[i] == o[i].0@);
                    }
                }
                assert forall|i: int, j: int| 0 <= i < j < r.len() implies #[trigger] r[i].1
                    != #[trigger] r[j].1 by {
                    if j == o.len() {
                        assert(running_ports(o)[i] == o[i].1);
                    }
                }
            }
        }
    }

    /// Forgets the server of `cloud_name`; an error when it is not running.
    pub fn stop_cloud(&mut self, cloud_name: &str) -> (res: Result<(), ServerError>)
        ensures
            running_names(old(self).running_clouds@).contains(cloud_name@) ==> res is Ok
                && exists|i: int|
                is_first_index(running_names(old(self).running_clouds@), cloud_name@, i)
                    && final(self).running_clouds@ == old(self).running_clouds@.remove(i),
            !running_names(old(self).running_clouds@).contains(cloud_name@) ==> (res matches Err(
                ServerError::ServerNotRunning,
            )) && final(self).running_clouds@ == old(self).running_clouds@,
            final(self).clouds_config == old(self).clouds_config,
            final(self).next_port == old(self).next_port,
            old(self).wf() ==> final(self).wf(),
    {
        match self.find_running(cloud_name) {
            Some(i) => {
                let ghost o = self.running_clouds@;
                self.running_clouds.remove(i);
                proof {
                    let r = self.running_clouds@;
                    if old(self).wf() {
                        assert(running_names(r) =~= running_names(o).remove(i as int));
                        assert forall|a: int, b: int|
                            0 <= a < b < running_names(r).len() implies running_names(r)[a]
                                != running_names(r)[b] by {
                            let a2 = if a < i { a } else { a + 1 };
                            let b2 = if b < i { b } else { b + 1 };
                            assert(running_names(o)[a2] != running_names(o)[b2]);
                        }
                        assert forall|a: int, b: int| 0 <= a < b < r.len() implies #[trigger] r[a].1
                            != #[trigger] r[b].1 by {
                            let a2 = if a < i { a } else { a + 1 };
                            let b2 = if b < i { b } else { b + 1 };
                            assert(o[a2].1 != o[b2].1);
                        }
                        assert forall|a: int| 0 <= a < r.len() implies BASE_PORT <= #[trigger] r[a].1
                            < self.next_port by {
                            let a2 = if a < i { a } else { a + 1 };
                            assert(BASE_PORT <= o[a2].1 < self.next_port);
                        }
                    }
                }
                Ok(())
            },
            None => Err(ServerError::ServerNotRunning),
        }
    }

    /// Forgets every server and hands ports out from the base port again;
    /// returns the names whose servers the caller stops, in order.
    pub fn stop_all(&mut self) -> (stopped: Vec<String>)
        ensures
            string_views(stopped@) == running_names(old(self).running_clouds@),
            final(self).running_clouds@.len() == 0,
            final(self).next_port == BASE_PORT,
            final(self).clouds_config == old(self).clouds_config,
            final(self).wf(),
    {
        let mut stopped: Vec<String> = Vec::new();
        let mut i: usize = 0;
        while i < self.running_clouds.len()
            invariant
                i <= self.running_clouds.len(),
                stopped.len() == i,
                forall|j: int| 0 <= j < i ==> #[trigger] stopped@[j]@ == self.running_clouds@[j].0@,
            decreases self.running_clouds.len() - i,
        {
            stopped.push(copy_str(self.running_clouds[i].0.as_str()));
            i = i + 1;
        }
        assert(string_views(stopped@) =~= running_names(self.running_clouds@));
        self.running_clouds = Vec::new();
        self.next_port = BASE_PORT;
        stopped
    }

    /// Whether the server of `cloud_name` runs.
    pub fn is_cloud_running(&self, cloud_name: &str) -> (res: bool)
        ensures
            res == running_names(self.running_clouds@).contains(cloud_name@),
    {
        self.find_running(cloud_name).is_some()
    }

    /// Whether any server runs.
    pub fn is_any_running(&self) -> (res: bool)
        ensures
            res == (self.running_clouds@.len() > 0),
    {
        self.running_clouds.len() > 0
    }

    /// The port of the server of `cloud_name`, if it runs.
    pub fn get_cloud_port(&self, cloud_name: &str) -> (res: Option<u16>)
        ensures
            res is None <==> !running_names(self.running_clouds@).contains(cloud_name@),
            res matches Some(p) ==> exists|i: int|
                is_first_index(running_names(self.running_clouds@), cloud_name@, i)
                    && self.running_clouds@[i].1 == p,
    {
        match self.find_running(cloud_name) {
            Some(i) => Some(self.running_clouds[i].1),
            None => None,
        }
    }

    /// The address of the server of `cloud_name`, if it runs.
    pub fn get_cloud_server_url(&self, cloud_name: &str) -> (res: Option<String>)
        ensures
            res is None <==> !running_names(self.running_clouds@).contains(cloud_name@),
            res matches Some(u) ==> exists|i: int|
                is_first_index(running_names(self.running_clouds@), cloud_name@, i) && u@
                    == local_url(self.running_clouds@[i].1),
    {
        match self.find_running(cloud_name) {
            Some(i) => {
                let p = u64_to_decimal(self.running_clouds[i].1 as u64);
                Some(concat_str("http://localhost:", p.as_str()))
            },
            None => None,
        }
    }

    /// Each running cloud with its port, in order.
    pub fn get_running_clouds(&self) -> (res: Vec<(String, u16)>)
        ensures
            running_names(res@) == running_names(self.running_clouds@),
            running_ports(res@) == running_ports(self.running_clouds@),
    {
        let mut res: Vec<(String, u16)> = Vec::new();
        let mut i: usize = 0;
        while i < self.running_clouds.len()
            invariant
                i <= self.running_clouds.len(),
                res.len() == i,
                forall|j: int| 0 <= j < i ==> #[trigger] res@[j].0@ == self.running_clouds@[j].0@,
                forall|j: int| 0 <= j < i ==> #[trigger] res@[j].1 == self.running_clouds@[j].1,
            decreases self.running_clouds.len() - i,
        {
            res.push((copy_str(self.running_clouds[i].0.as_str()), self.running_clouds[i].1));
            i = i + 1;
        }
        assert(running_names(res@) =~= running_names(self.running_clouds@));
        assert(running_ports(res@) =~= running_ports(self.running_clouds@));
        res
    }

    /// Copies of all configured clouds.
    pub fn get_clouds(&self) -> (res: Vec<Cloud>)
        ensures
            res@.map_values(|c: Cloud| c@) == self.clouds_config.clouds@.map_values(|c: Cloud| c@),
    {
        let mut res: Vec<Cloud> = Vec::new();
        let mut i: usize = 0;
        while i < self.clouds_config.clouds.len()
            invariant
                i <= self.clouds_config.clouds.len(),
                res.len() == i,
                forall|j: int| 0 <= j < i ==> #[trigger] res@[j]@ == self.clouds_config.clouds@[j]@,
            decreases self.clouds_config.clouds.len() - i,
        {
            res.push(self.clouds_config.clouds[i].copy());
            i = i + 1;
        }
        assert(res@.map_values(|c: Cloud| c@) =~= self.clouds_config.clouds@.map_values(
            |c: Cloud| c@,
        ));
        res
    }

    /// A copy of the first configured cloud named `cloud_name`.
    pub fn get_cloud(&self, cloud_name: &str) -> (res: Option<Cloud>)
        ensures
            res is None <==> !cloud_names(self.clouds_config.clouds@).contains(cloud_name@),
            res matches Some(c) ==> c@ == self.config_cloud(cloud_name@)@,
    {
        match find_cloud(&self.clouds_config.clouds, cloud_name) {
            Some(i) => {
                proof {
                    self.lemma_config_cloud_at(cloud_name@, i as int);
                }
                Some(self.clouds_config.clouds[i].copy())
            },
            None => None,
        }
    }

    /// `config_cloud` is the cloud at the first position of the name.
    pub proof fn lemma_config_cloud_at(&self, name: Seq<char>, i: int)
        requires
            is_first_index(cloud_names(self.clouds_config.clouds@), name, i),
        ensures
            self.config_cloud(name) == self.clouds_config.clouds@[i],
    {
        let names = cloud_names(self.clouds_config.clouds@);
        let k = choose|j: int| is_first_index(names, name, j);
        assert(k == i) by {
            if k < i {
                assert(names[k] != name);
            } else if k > i {
                assert(names[i] != name);
            }
        }
    }

    /// Whether the first configured cloud named `name` accepts `password`.
    pub open spec fn password_accepted(&self, name: Seq<char>, password: Seq<char>) -> bool {
        &&& cloud_names(self.clouds_config.clouds@).contains(name)
        &&& self.config_cloud(name).password_hash matches Some(h)
        &&& bcrypt_verify_outcome(password, h@) == Some(true)
    }

    /// Whether the first configured cloud named `cloud_name` has a password.
    pub fn cloud_has_password(&self, cloud_name: &str) -> (res: bool)
        ensures
            res == (cloud_names(self.clouds_config.clouds@).contains(cloud_name@) && self.config_cloud(
                cloud_name@,
            ).password_hash is Some),
    {
        match find_cloud(&self.clouds_config.clouds, cloud_name) {
            Some(i) => {
                proof {
                    self.lemma_config_cloud_at(cloud_name@, i as int);
                }
                self.clouds_config.clouds[i].has_password()
            },
            None => false,
        }
    }

    /// Whether the first configured cloud named `cloud_name` accepts
    /// `password`.
    pub fn verify_cloud_password(&self, cloud_name: &str, password: &str) -> (res: bool)
        ensures
            res == self.password_accepted(cloud_name@, password@),
    {
        match find_cloud(&self.clouds_config.clouds, cloud_name) {
            Some(i) => {
                proof {
                    self.lemma_config_cloud_at(cloud_name@, i as int);
                }
                self.clouds_config.clouds[i].verify_password(password)
            },
            None => false,
        }
    }

    /// Sets the password of the first configured cloud named `cloud_name`.
    /// Errors: the cloud is not configured; hashing fails; the cloud has no
    /// folders (the configuration refuses it back). Afterwards the cloud
    /// accepts the password.
    pub fn set_cloud_password(&mut self, cloud_name: &str, password: &str) -> (res: Result<
        (),
        ServerError,
    >)
        ensures
            !cloud_names(old(self).clouds_config.clouds@).contains(cloud_name@) ==> (
            res matches Err(ServerError::Validation(m)) && m@ == quoted(
                "Cloud '"@,
                cloud_name@,
                "' not found"@,
            )),
            cloud_names(old(self).clouds_config.clouds@).contains(cloud_name@) && old(self).config_cloud(cloud_name@).cloud_folders@.len() == 0 ==> res is Err,
            res is Ok ==> final(self).password_accepted(cloud_name@, password@),
            res is Ok ==> exists|i: int|
                is_first_index(cloud_names(old(self).clouds_config.clouds@), cloud_name@, i)
                    && final(self).clouds_config.clouds@ == old(self).clouds_config.clouds@.update(i, final(self).clouds_config.clouds@[i])
                    && final(self).clouds_config.clouds@[i]@.name == old(self).clouds_config.clouds@[i]@.name && final(self).clouds_config.clouds@[i]@.cloud_folders
                    == old(self).clouds_config.clouds@[i]@.cloud_folders && final(self).clouds_config.clouds@[i]@.jwt_secret == old(self).clouds_config.clouds@[i]@.jwt_secret && final(self).clouds_config.clouds@[i].password_changed_at is Some,
            res is Err ==> final(self).clouds_config.clouds@ == old(self).clouds_config.clouds@,
            final(self).clouds_config.cloud_folders@ == old(self).clouds_config.cloud_folders@,
            final(self).running_clouds@ == old(self).running_clouds@,
            final(self).next_port == old(self).next_port,
            old(self).wf() ==> final(self).wf(),
    {
        let idx = match find_cloud(&self.clouds_config.clouds, cloud_name) {
            Some(i) => i,
            None => {
                let a = concat_str("Cloud '", cloud_name);
                return Err(ServerError::Validation(concat_str(a.as_str(), "' not found")));
            },
        };
        proof {
            self.lemma_config_cloud_at(cloud_name@, idx as int);
        }
        let mut cloud = self.clouds_config.clouds[idx].copy();
        match cloud.set_password(password) {
            Ok(()) => {},
            Err(e) => {
                let t = bcrypt_error_text(&e);
                return Err(ServerError::Internal(concat_str("Failed to set password: ", t.as_str())));
            },
        }
        let ghost new_cloud = cloud;
        let ghost old_clouds = self.clouds_config.clouds@;
        assert(cloud.name@ == cloud_name@);
        assert(cloud@.cloud_folders.len() == cloud.cloud_folders@.len());
        assert(self.clouds_config.clouds@[idx as int]@.cloud_folders.len()
            == self.clouds_config.clouds@[idx as int].cloud_folders@.len());
        let r = self.clouds_config.update_cloud(cloud_name, cloud);
        proof {
            if r is Ok {
                let names = cloud_names(old_clouds);
                let i = choose|i: int|
                    is_first_index(names, cloud_name@, i) && self.clouds_config.clouds@ == old_clouds.update(
                        i,
                        new_cloud,
                    );
                assert(i == idx as int) by {
                    if i < idx {
                        assert(names[i] != cloud_name@);
                    } else if i > idx {
                        assert(names[idx as int] != cloud_name@);
                    }
                }
                let new_names = cloud_names(self.clouds_config.clouds@);
                assert(new_names =~= names.update(i, cloud_name@));
                assert(is_first_index(new_names, cloud_name@, i));
                self.lemma_config_cloud_at(cloud_name@, i);
            }
        }
        r
    }

    /// Replaces the configuration and plans the restart: running clouds no
    /// longer configured are stopped, the others restarted, each in running
    /// order. No server is recorded as running afterwards.
    pub fn begin_reload(&mut self, new_config: CloudsConfig) -> (plan: ReloadPlan)
        ensures
            string_views(plan.stop@) == running_names(old(self).running_clouds@).filter(
                |n: Seq<char>| !cloud_names(new_config.clouds@).contains(n),
            ),
            string_views(plan.restart@) == running_names(old(self).running_clouds@).filter(
                |n: Seq<char>| cloud_names(new_config.clouds@).contains(n),
            ),
            final(self).clouds_config == new_config,
            final(self).running_clouds@.len() == 0,
            final(self).next_port == old(self).next_port,
            old(self).wf() ==> final(self).wf(),
    {
        let ghost names = running_names(self.running_clouds@);
        let ghost valid = cloud_names(new_config.clouds@);
        let ghost keep = |n: Seq<char>| valid.contains(n);
        let ghost drop = |n: Seq<char>| !valid.contains(n);
        let mut stop: Vec<String> = Vec::new();
        let mut restart: Vec<String> = Vec::new();
        let mut i: usize = 0;
        while i < self.running_clouds.len()
            invariant
                i <= self.running_clouds.len(),
                names == running_names(self.running_clouds@),
                valid == cloud_names(new_config.clouds@),
                keep == (|n: Seq<char>| valid.contains(n)),
                drop == (|n: Seq<char>| !valid.contains(n)),
                string_views(stop@) == names.take(i as int).filter(drop),
                string_views(restart@) == names.take(i as int).filter(keep),
            decreases self.running_clouds.len() - i,
        {
            let name = &self.running_clouds[i].0;
            proof {
                assert(names.take(i + 1) =~= names.take(i as int).push(names[i as int]));
                names.take(i as int).lemma_filter_push(names[i as int], keep);
                names.take(i as int).lemma_filter_push(names[i as int], drop);
                assert(names[i as int] == name@);
            }
            if find_cloud(&new_config.clouds, name.as_str()).is_some() {
                let ghost before = restart@;
                restart.push(copy_str(name.as_str()));
                assert(string_views(restart@) =~= string_views(before).push(name@));
            } else {
                let ghost before = stop@;
                stop.push(copy_str(name.as_str()));
                assert(string_views(stop@) =~= string_views(before).push(name@));
            }
            i = i + 1;
        }
        assert(names.take(i as int) =~= names);
        self.clouds_config = new_config;
        self.running_clouds = Vec::new();
        ReloadPlan { stop, restart }
    }
}

/// The first folder that does not exist, by the existence answers
/// `exists` given in folder order.
pub open spec fn first_missing(exists: Seq<bool>) -> Option<nat>
    decreases exists.len(),
{
    if exists.len() == 0 {
        None
    } else {
        match first_missing(exists.drop_last()) {
            Some(i) => Some(i),
            None => if exists.last() {
                None
            } else {
                Some((exists.len() - 1) as nat)
            },
        }
    }
}

/// The message for a folder path that does not exist.
pub open spec fn missing_path_message(path: Seq<char>) -> Seq<char> {
    "Cloud folder path does not exist: "@ + path
}

/// What the folder check of `cloud` answers, given whether each of its
/// folders exists: the first missing folder is reported, else it passes.
pub open spec fn folder_check(cloud: Cloud, exists: Seq<bool>, res: Result<(), ServerError>) -> bool {
    match first_missing(exists) {
        None => res is Ok,
        Some(i) => res matches Err(ServerError::InvalidPath(m)) && m@ == missing_path_message(
            cloud.cloud_folders@[i as int].folder_path@,
        ),
    }
}

/// The first missing folder is one of the folders, and missing.
pub proof fn lemma_first_missing_bound(exists: Seq<bool>)
    ensures
        first_missing(exists) matches Some(i) ==> i < exists.len() && !exists[i as int],
    decreases exists.len(),
{
    if exists.len() > 0 {
        lemma_first_missing_bound(exists.drop_last());
    }
}

/// A missing position found in a prefix is the first of the whole.
pub proof fn lemma_first_missing_prefix(exists: Seq<bool>, k: nat)
    requires
        k <= exists.len(),
        first_missing(exists.take(k as int)) is Some,
    ensures
        first_missing(exists) == first_missing(exists.take(k as int)),
    decreases exists.len() - k,
{
    if k < exists.len() {
        assert(exists.take((k + 1) as int).drop_last() =~= exists.take(k as int));
        lemma_first_missing_prefix(exists, k + 1);
    } else {
        assert(exists.take(k as int) =~= exists);
    }
}

/// The folder check of `cloud` from the existence of each of its folders
/// (see `folder_check`).
pub fn folder_paths_outcome(cloud: &Cloud, exists: &Vec<bool>) -> (res: Result<(), ServerError>)
    requires
        exists@.len() == cloud.cloud_folders@.len(),
    ensures
        folder_check(*cloud, exists@, res),
{
    let mut i: usize = 0;
    while i < exists.len()
        invariant
            i <= exists@.len(),
            exists@.len() == cloud.cloud_folders@.len(),
            first_missing(exists@.take(i as int)) is None,
        decreases exists@.len() - i,
    {
        assert(exists@.take(i + 1).drop_last() =~= exists@.take(i as int));
        if !exists[i] {
            proof {
                assert(first_missing(exists@.take(i + 1)) == Some(i as nat));
                lemma_first_missing_prefix(exists@, (i + 1) as nat);
            }
            let p = cloud.cloud_folders[i].folder_path.as_str();
            return Err(ServerError::InvalidPath(concat_str("Cloud folder path does not exist: ", p)));
        }
        i = i + 1;
    }
    assert(exists@.take(i as int) =~= exists@);
    Ok(())
}

/// Asks the disk whether each folder of `cloud` exists, in order; the
/// answers are read from the disk, so only their number is claimed.
pub fn folder_existence(cloud: &Cloud) -> (res: Vec<bool>)
    ensures
        res@.len() == cloud.cloud_folders@.len(),
{
    let mut res: Vec<bool> = Vec::new();
    let mut i: usize = 0;
    while i < cloud.cloud_folders.len()
        invariant
            i <= cloud.cloud_folders@.len(),
            res@.len() == i,
        decreases cloud.cloud_folders@.len() - i,
    {
        res.push(path_exists(cloud.cloud_folders[i].folder_path.as_str()));
        i = i + 1;
    }
    res
}

/// Checks that every folder of a cloud exists on disk; the first missing
/// one is reported. Whether a folder exists is read from the disk: the
/// answer is the one `folder_check` gives for what the disk said, so a
/// cloud without folders passes.
pub fn check_folder_paths(cloud: &Cloud) -> (res: Result<(), ServerError>)
    ensures
        exists|exists: Seq<bool>| exists.len() == cloud.cloud_folders@.len() && folder_check(*cloud, exists, res),
        cloud.cloud_folders@.len() == 0 ==> res is Ok,
{
    let exists = folder_existence(cloud);
    let res = folder_paths_outcome(cloud, &exists);
    proof {
        if cloud.cloud_folders@.len() == 0 {
            assert(exists@ =~= Seq::<bool>::empty());
        }
    }
    res
}

impl Default for Orchestrator {
    fn default() -> (res: Orchestrator)
        ensures
            res.running_clouds@.len() == 0,
            res.clouds_config.clouds@.len() == 0,
            res.clouds_config.cloud_folders@.len() == 0,
            res.next_port == BASE_PORT,
    {
        Orchestrator::new(CloudsConfig::default())
    }
}

} // verus!
