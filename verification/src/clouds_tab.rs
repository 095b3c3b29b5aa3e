//! The clouds tab: starting and stopping clouds, their passwords, and the
//! tab's own activity log.
use vstd::prelude::*;
use crate::app_state::{bounded_push, lines_view, push_bounded};
use crate::cloud::Cloud;
use crate::clouds_config::names_unique;
use crate::error::{ServerError, server_error_message};
use crate::key::{Key, ListState, is_down, is_up};
use crate::orchestrator::{Orchestrator, running_names};
use crate::password::{PasswordCreationState, fresh_password, password_step};
use crate::running::{forget_running, port_in, record_running, running_index, running_map, running_port};
use crate::text::{concat_str, copy_str, decimal, u64_to_decimal};

verus! {

/// Lines kept in the tab's log.
pub const MAX_CLOUD_LOGS: usize = 100;

/// The panels of the clouds tab, in focus order.
#[derive(Debug, Clone, Copy, PartialEq, Eq, Structural)]
pub enum CloudFocusedPanel {
    Clouds,
    CloudInfo,
    CloudLogs,
}

impl Default for CloudFocusedPanel {
    fn default() -> (res: CloudFocusedPanel)
        ensures
            res == CloudFocusedPanel::Clouds,
    {
        CloudFocusedPanel::Clouds
    }
}

/// State of the clouds tab.
pub struct CloudsState {
    pub clouds: Vec<Cloud>,
    pub selected_cloud_index: usize,
    pub cloud_start_error: Option<String>,
    pub cloud_logs: Vec<String>,
    pub log_scroll_offset: usize,
    pub focused_panel: CloudFocusedPanel,
    pub running_clouds: Vec<(String, u16)>,
    pub cloud_logs_list_state: ListState,
    pub clouds_list_state: ListState,
    pub password_creation: PasswordCreationState,
}

/// The log line of a started cloud.
pub open spec fn started_line(name: Seq<char>, port: u16) -> Seq<char> {
    "✅ Started cloud '"@ + name + "' on port "@ + decimal(port as nat)
}

/// The log line of a stopped cloud.
pub open spec fn stopped_line(name: Seq<char>) -> Seq<char> {
    "🛑 Stopped cloud '"@ + name + "'"@
}

impl CloudsState {
    /// No clouds, the cloud list focused.
    pub fn new() -> (res: CloudsState)
        ensures
            res.clouds@.len() == 0,
            res.selected_cloud_index == 0,
            res.cloud_start_error is None,
            res.cloud_logs@.len() == 0,
            res.log_scroll_offset == 0,
            res.focused_panel == CloudFocusedPanel::Clouds,
            res.running_clouds@.len() == 0,
            res.wf(),
            res.cloud_logs_list_state.selected is None,
            res.cloud_logs_list_state.offset == 0,
            res.clouds_list_state.selected is None,
            res.clouds_list_state.offset == 0,
            res.password_creation@ == fresh_password(false),
    {
        CloudsState {
            clouds: Vec::new(),
            selected_cloud_index: 0,
            cloud_start_error: None,
            cloud_logs: Vec::new(),
            log_scroll_offset: 0,
            focused_panel: CloudFocusedPanel::Clouds,
            running_clouds: Vec::new(),
            cloud_logs_list_state: ListState::new(),
            clouds_list_state: ListState::new(),
            password_creation: PasswordCreationState::new(),
        }
    }

    /// Whether a cloud is selected.
    pub open spec fn has_selection(&self) -> bool {
        self.clouds@.len() > 0 && self.selected_cloud_index < self.clouds@.len()
    }

    /// The running list names each cloud once, as a map from names would.
    pub open spec fn wf(&self) -> bool {
        names_unique(running_names(self.running_clouds@))
    }

    /// The name of the selected cloud, the one to start or stop; without a
    /// selection the start error becomes "❌ No cloud selected".
    pub fn selected_for_start(&mut self) -> (res: Option<String>)
        ensures
            old(self).has_selection() ==> (res matches Some(n) && n@ == old(self).clouds@[old(self).selected_cloud_index as int].name@),
            !old(self).has_selection() ==> res is None && (final(self).cloud_start_error matches Some(e) && e@
                == "❌ No cloud selected"@),
            final(self).clouds == old(self).clouds,
            final(self).running_clouds == old(self).running_clouds,
            final(self).cloud_logs == old(self).cloud_logs,
    {
        if self.clouds.len() == 0 || self.selected_cloud_index >= self.clouds.len() {
            self.cloud_start_error = Some(String::from_str("❌ No cloud selected"));
            return None;
        }
        Some(copy_str(self.clouds[self.selected_cloud_index].name.as_str()))
    }

    /// Records how starting `cloud_name` went: its port and a log line, or
    /// the error shown as "❌ " and the message.
    pub fn record_start(&mut self, cloud_name: &str, result: Result<u16, ServerError>)
        ensures
            result matches Ok(p) ==> final(self).cloud_start_error is None && port_in(final(self).running_clouds@, cloud_name@)
                == Some(p) && lines_view(final(self).cloud_logs@) == lines_view(old(self).cloud_logs@).push(
                started_line(cloud_name@, p),
            ) && (names_unique(running_names(old(self).running_clouds@)) ==> running_map(final(self).running_clouds@)
                == running_map(old(self).running_clouds@).insert(cloud_name@, p)),
            result matches Err(e) ==> (final(self).cloud_start_error matches Some(m) && m@ == "❌ "@ + server_error_message(e))
                && final(self).running_clouds@ == old(self).running_clouds@ && final(self).cloud_logs@ == old(self).cloud_logs@,
            final(self).clouds == old(self).clouds,
            old(self).wf() ==> final(self).wf(),
    {
        match result {
            Ok(port) => {
                record_running(&mut self.running_clouds, cloud_name, port);
                let a = concat_str("✅ Started cloud '", cloud_name);
                let b = concat_str(a.as_str(), "' on port ");
                let d = u64_to_decimal(port as u64);
                let line = concat_str(b.as_str(), d.as_str());
                let ghost before = self.cloud_logs@;
                self.cloud_logs.push(line);
                assert(lines_view(self.cloud_logs@) =~= lines_view(before).push(started_line(cloud_name@, port)));
                self.cloud_start_error = None;
            },
            Err(e) => {
                let m = e.message();
                self.cloud_start_error = Some(concat_str("❌ ", m.as_str()));
            },
        }
    }

    /// Records how stopping `cloud_name` went: it no longer runs and a log
    /// line is added, or the error is shown as "❌ " and the message.
    pub fn record_stop(&mut self, cloud_name: &str, result: Result<(), ServerError>)
        ensures
            result is Ok ==> final(self).cloud_start_error is None && lines_view(final(self).cloud_logs@) == lines_view(
                old(self).cloud_logs@,
            ).push(stopped_line(cloud_name@)) && (names_unique(running_names(old(self).running_clouds@))
                ==> running_map(final(self).running_clouds@) == running_map(old(self).running_clouds@).remove(cloud_name@)),
            result matches Err(e) ==> (final(self).cloud_start_error matches Some(m) && m@ == "❌ "@ + server_error_message(e))
                && final(self).running_clouds@ == old(self).running_clouds@ && final(self).cloud_logs@ == old(self).cloud_logs@,
            final(self).clouds == old(self).clouds,
            old(self).wf() ==> final(self).wf(),
    {
        match result {
            Ok(()) => {
                forget_running(&mut self.running_clouds, cloud_name);
                let a = concat_str("🛑 Stopped cloud '", cloud_name);
                let line = concat_str(a.as_str(), "'");
                let ghost before = self.cloud_logs@;
                self.cloud_logs.push(line);
                assert(lines_view(self.cloud_logs@) =~= lines_view(before).push(stopped_line(cloud_name@)));
                self.cloud_start_error = None;
            },
            Err(e) => {
                let m = e.message();
                self.cloud_start_error = Some(concat_str("❌ ", m.as_str()));
            },
        }
    }

    /// Records how stopping every cloud went.
    pub fn record_stop_all(&mut self, result: Result<(), ServerError>)
        ensures
            result is Ok ==> final(self).cloud_start_error is None && final(self).running_clouds@.len() == 0
                && lines_view(final(self).cloud_logs@) == lines_view(old(self).cloud_logs@).push("🛑 Stopped all clouds"@),
            result matches Err(e) ==> (final(self).cloud_start_error matches Some(m) && m@ == "❌ "@ + server_error_message(e))
                && final(self).running_clouds@ == old(self).running_clouds@ && final(self).cloud_logs@ == old(self).cloud_logs@,
            final(self).clouds == old(self).clouds,
            old(self).wf() ==> final(self).wf(),
    {
        match result {
            Ok(()) => {
                self.running_clouds = Vec::new();
                let ghost before = self.cloud_logs@;
                self.cloud_logs.push(String::from_str("🛑 Stopped all clouds"));
                assert(lines_view(self.cloud_logs@) =~= lines_view(before).push("🛑 Stopped all clouds"@));
                self.cloud_start_error = None;
            },
            Err(e) => {
                let m = e.message();
                self.cloud_start_error = Some(concat_str("❌ ", m.as_str()));
            },
        }
    }

    /// Sets the password of the selected cloud (see the dashboard's).
    pub fn set_password(&mut self, orchestrator: &mut Orchestrator, password: &str) -> (res: Result<(), String>)
        ensures
            !old(self).has_selection() ==> (res matches Err(m) && m@ == "No cloud selected"@),
            old(self).has_selection() && res is Ok ==> final(orchestrator).password_accepted(
                old(self).clouds@[old(self).selected_cloud_index as int].name@,
                password@,
            ) && final(self).password_creation@ == fresh_password(false),
            old(self).has_selection() && res is Err ==> (res matches Err(m) && final(self).password_creation.password_error matches Some(e) && e@ == m@),
            final(self).clouds == old(self).clouds,
    {
        if self.clouds.len() == 0 || self.selected_cloud_index >= self.clouds.len() {
            return Err(String::from_str("No cloud selected"));
        }
        let name = copy_str(self.clouds[self.selected_cloud_index].name.as_str());
        match orchestrator.set_cloud_password(name.as_str(), password) {
            Err(e) => {
                let m = e.message();
                let msg = concat_str("Failed to set password: ", m.as_str());
                self.password_creation.password_error = Some(copy_str(msg.as_str()));
                Err(msg)
            },
            Ok(()) => {
                self.password_creation.password_success = true;
                self.password_creation.clear_password_creation();
                Ok(())
            },
        }
    }

    /// Whether the selected cloud has a password.
    pub fn has_password(&self, orchestrator: &Orchestrator) -> (res: bool)
        ensures
            !self.has_selection() ==> !res,
            self.has_selection() ==> res == (crate::clouds_config::cloud_names(orchestrator.clouds_config.clouds@).contains(
                self.clouds@[self.selected_cloud_index as int].name@,
            ) && orchestrator.config_cloud(self.clouds@[self.selected_cloud_index as int].name@).password_hash is Some),
    {
        if self.clouds.len() == 0 || self.selected_cloud_index >= self.clouds.len() {
            return false;
        }
        orchestrator.cloud_has_password(self.clouds[self.selected_cloud_index].name.as_str())
    }

    /// Whether the selected cloud accepts `password`.
    pub fn verify_password(&self, orchestrator: &Orchestrator, password: &str) -> (res: bool)
        ensures
            !self.has_selection() ==> !res,
            self.has_selection() ==> res == orchestrator.password_accepted(
                self.clouds@[self.selected_cloud_index as int].name@,
                password@,
            ),
    {
        if self.clouds.len() == 0 || self.selected_cloud_index >= self.clouds.len() {
            return false;
        }
        orchestrator.verify_cloud_password(self.clouds[self.selected_cloud_index].name.as_str(), password)
    }

    /// Opens password entry when a cloud is selected.
    pub fn start_creating_password(&mut self)
        ensures
            old(self).has_selection() ==> final(self).password_creation@ == fresh_password(true),
            !old(self).has_selection() ==> final(self).password_creation@ == old(self).password_creation@,
            final(self).clouds == old(self).clouds,
    {
        if self.clouds.len() == 0 || self.selected_cloud_index >= self.clouds.len() {
            return ;
        }
        self.password_creation.start_creating_password();
    }

    /// Closes password entry.
    pub fn clear_password_creation(&mut self)
        ensures
            final(self).password_creation@ == fresh_password(false),
    {
        self.password_creation.clear_password_creation();
    }

    /// Passes a key to password entry.
    pub fn handle_password_input(&mut self, key: char)
        ensures
            final(self).password_creation@ == password_step(old(self).password_creation@, key),
    {
        self.password_creation.handle_password_input(key);
    }

    /// Whether `cloud_name` runs.
    pub fn is_cloud_running(&self, cloud_name: &str) -> (res: bool)
        ensures
            res == running_names(self.running_clouds@).contains(cloud_name@),
    {
        running_index(&self.running_clouds, cloud_name).is_some()
    }

    /// The port of `cloud_name`, if it runs.
    pub fn get_cloud_port(&self, cloud_name: &str) -> (res: Option<u16>)
        ensures
            res == port_in(self.running_clouds@, cloud_name@),
    {
        running_port(&self.running_clouds, cloud_name)
    }

    /// Adds a line to the tab's log, which keeps the last hundred.
    pub fn add_cloud_log(&mut self, message: String)
        ensures
            lines_view(final(self).cloud_logs@) == bounded_push(lines_view(old(self).cloud_logs@), message@, MAX_CLOUD_LOGS as nat),
            final(self).clouds == old(self).clouds,
    {
        push_bounded(&mut self.cloud_logs, message, MAX_CLOUD_LOGS);
    }

    /// Names the focused panel.
    pub fn get_focused_element(&self) -> (res: String)
        ensures
            res@ == (match self.focused_panel {
                CloudFocusedPanel::Clouds => "clouds"@,
                CloudFocusedPanel::CloudInfo => "cloud_info"@,
                CloudFocusedPanel::CloudLogs => "cloud_logs"@,
            }),
    {
        match self.focused_panel {
            CloudFocusedPanel::Clouds => String::from_str("clouds"),
            CloudFocusedPanel::CloudInfo => String::from_str("cloud_info"),
            CloudFocusedPanel::CloudLogs => String::from_str("cloud_logs"),
        }
    }

    /// Focuses the next panel.
    pub fn cycle_focus_forward(&mut self)
        ensures
            final(self).focused_panel == (match old(self).focused_panel {
                CloudFocusedPanel::Clouds => CloudFocusedPanel::CloudInfo,
                CloudFocusedPanel::CloudInfo => CloudFocusedPanel::CloudLogs,
                CloudFocusedPanel::CloudLogs => CloudFocusedPanel::Clouds,
            }),
            final(self).clouds == old(self).clouds,
            final(self).selected_cloud_index == old(self).selected_cloud_index,
    {
        self.focused_panel = match self.focused_panel {
            CloudFocusedPanel::Clouds => CloudFocusedPanel::CloudInfo,
            CloudFocusedPanel::CloudInfo => CloudFocusedPanel::CloudLogs,
            CloudFocusedPanel::CloudLogs => CloudFocusedPanel::Clouds,
        };
    }

    /// Focuses the previous panel.
    pub fn cycle_focus_backward(&mut self)
        ensures
            final(self).focused_panel == (match old(self).focused_panel {
                CloudFocusedPanel::Clouds => CloudFocusedPanel::CloudLogs,
                CloudFocusedPanel::CloudInfo => CloudFocusedPanel::Clouds,
                CloudFocusedPanel::CloudLogs => CloudFocusedPanel::CloudInfo,
            }),
            final(self).clouds == old(self).clouds,
            final(self).selected_cloud_index == old(self).selected_cloud_index,
    {
        self.focused_panel = match self.focused_panel {
            CloudFocusedPanel::Clouds => CloudFocusedPanel::CloudLogs,
            CloudFocusedPanel::CloudInfo => CloudFocusedPanel::Clouds,
            CloudFocusedPanel::CloudLogs => CloudFocusedPanel::CloudInfo,
        };
    }

    /// Up/`k` and Down/`j` move the cloud selection while the cloud list
    /// has focus (other panels swallow them); Tab focuses the next panel.
    pub fn handle_navigation(&mut self, key: Key) -> (handled: bool)
        ensures
            handled == (is_up(key) || is_down(key) || key == Key::Tab),
            old(self).focused_panel == CloudFocusedPanel::Clouds && is_up(key) ==> final(self).selected_cloud_index == (
            if old(self).selected_cloud_index > 0 {
                (old(self).selected_cloud_index - 1) as usize
            } else {
                old(self).selected_cloud_index
            }),
            old(self).focused_panel == CloudFocusedPanel::Clouds && is_down(key) ==> final(self).selected_cloud_index == (
            if old(self).selected_cloud_index + 1 < old(self).clouds@.len() {
                (old(self).selected_cloud_index + 1) as usize
            } else {
                old(self).selected_cloud_index
            }),
            old(self).focused_panel != CloudFocusedPanel::Clouds || !(is_up(key) || is_down(key)) ==> final(self).selected_cloud_index
                == old(self).selected_cloud_index,
            key != Key::Tab ==> final(self).focused_panel == old(self).focused_panel,
            final(self).clouds == old(self).clouds,
    {
        match key {
            Key::Up | Key::Char('k') => {
                if self.focused_panel == CloudFocusedPanel::Clouds && self.selected_cloud_index > 0 {
                    self.selected_cloud_index = self.selected_cloud_index - 1;
                    self.clouds_list_state.select(Some(self.selected_cloud_index));
                }
                true
            },
            Key::Down | Key::Char('j') => {
                if self.focused_panel == CloudFocusedPanel::Clouds && self.clouds.len() > 0
                    && self.selected_cloud_index < self.clouds.len() - 1 {
                    self.selected_cloud_index = self.selected_cloud_index + 1;
                    self.clouds_list_state.select(Some(self.selected_cloud_index));
                }
                true
            },
            Key::Tab => {
                self.cycle_focus_forward();
                true
            },
            _ => false,
        }
    }
}

/// The client tab, which has a single element and no navigation yet.
pub struct ClientState {}

impl ClientState {
    /// The client tab.
    pub fn new() -> (res: ClientState)
        ensures
            res == (ClientState {  }),
    {
        ClientState {  }
    }

    /// Names the focused element.
    pub fn get_focused_element(&self) -> (res: String)
        ensures
            res@ == "ClientMain"@,
    {
        String::from_str("ClientMain")
    }

    /// No key is handled.
    pub fn handle_navigation(&self, key: Key) -> (handled: bool)
        ensures
            !handled,
    {
        false
    }
}

} // verus!
