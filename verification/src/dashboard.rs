//! The dashboard tab: the list of clouds, which ones run, the activity
//! list, and setting a cloud's password.
use vstd::prelude::*;
use crate::cloud::Cloud;
use crate::error::{ServerError, server_error_message};
use crate::key::{Key, ListState, is_down, is_up};
use crate::orchestrator::{Orchestrator, running_names};
use crate::clouds_config::names_unique;
use crate::running::{forget_running, port_in, record_running, running_index, running_map, running_port};
use crate::password::{PasswordCreationState, fresh_password, password_step};
use crate::text::{concat_str, copy_str};

verus! {

/// The panels of the dashboard, in focus order.
#[derive(Debug, Clone, Copy, PartialEq, Eq, Structural)]
pub enum DashboardPanel {
    Services,
    Overview,
    Activity,
}

impl Default for DashboardPanel {
    fn default() -> (res: DashboardPanel)
        ensures
            res == DashboardPanel::Services,
    {
        DashboardPanel::Services
    }
}

/// The panel after `p` in focus order.
pub open spec fn panel_after(p: DashboardPanel) -> DashboardPanel {
    match p {
        DashboardPanel::Services => DashboardPanel::Overview,
        DashboardPanel::Overview => DashboardPanel::Activity,
        DashboardPanel::Activity => DashboardPanel::Services,
    }
}

/// The panel before `p` in focus order.
pub open spec fn panel_before(p: DashboardPanel) -> DashboardPanel {
    match p {
        DashboardPanel::Services => DashboardPanel::Activity,
        DashboardPanel::Overview => DashboardPanel::Services,
        DashboardPanel::Activity => DashboardPanel::Overview,
    }
}

/// State of the dashboard tab.
pub struct DashboardState {
    pub clouds: Vec<Cloud>,
    pub selected_cloud_index: usize,
    pub cloud_start_error: Option<String>,
    pub focused_panel: DashboardPanel,
    pub running_clouds: Vec<(String, u16)>,
    pub activity_list_state: ListState,
    pub clouds_list_state: ListState,
    pub password_creation: PasswordCreationState,
}

/// The service selection after a key on the dashboard: only the services
/// panel moves it, and never past either end.
pub open spec fn services_target(d: DashboardState, key: Key) -> usize {
    let sel = d.selected_cloud_index;
    let len = d.clouds@.len();
    if d.focused_panel != DashboardPanel::Services {
        sel
    } else if is_up(key) {
        if sel > 0 { (sel - 1) as usize } else { sel }
    } else if is_down(key) {
        if sel + 1 < len { (sel + 1) as usize } else { sel }
    } else if key == Key::Char('g') {
        if len > 0 { 0 } else { sel }
    } else if key == Key::Char('G') {
        if len > 0 { (len - 1) as usize } else { sel }
    } else {
        sel
    }
}

/// Where the activity selection goes for a key, in a list of `count`
/// entries whose selection is `selected`; `None` for keys that do not move
/// it.
pub open spec fn activity_target(selected: Option<usize>, count: nat, key: Key) -> Option<nat> {
    let current: nat = match selected {
        Some(i) => i as nat,
        None => (count - 1) as nat,
    };
    if is_up(key) {
        Some(if current == 0 { 0 } else { (current - 1) as nat })
    } else if is_down(key) {
        Some(if current + 1 < count - 1 { current + 1 } else { (count - 1) as nat })
    } else if key == Key::Char('g') {
        Some(0)
    } else if key == Key::Char('G') {
        Some((count - 1) as nat)
    } else {
        None
    }
}

impl DashboardState {
    /// No clouds, the services panel focused.
    pub fn new() -> (res: DashboardState)
        ensures
            res.clouds@.len() == 0,
            res.selected_cloud_index == 0,
            res.cloud_start_error is None,
            res.focused_panel == DashboardPanel::Services,
            res.running_clouds@.len() == 0,
            res.activity_list_state.selected is None,
            res.activity_list_state.offset == 0,
            res.clouds_list_state.selected is None,
            res.clouds_list_state.offset == 0,
            res.password_creation@ == fresh_password(false),
    {
        DashboardState {
            clouds: Vec::new(),
            selected_cloud_index: 0,
            cloud_start_error: None,
            focused_panel: DashboardPanel::Services,
            running_clouds: Vec::new(),
            activity_list_state: ListState::new(),
            clouds_list_state: ListState::new(),
            password_creation: PasswordCreationState::new(),
        }
    }

    /// Whether a cloud is selected.
    pub open spec fn has_selection(&self) -> bool {
        self.clouds@.len() > 0 && self.selected_cloud_index < self.clouds@.len()
    }

    /// The name of the selected cloud, the one to start or stop; without a
    /// selection the start error becomes "❌ No cloud selected".
    pub fn selected_for_start(&mut self) -> (res: Option<String>)
        ensures
            old(self).has_selection() ==> (res matches Some(n) && n@ == old(self).clouds@[old(self).selected_cloud_index as int].name@),
            old(self).has_selection() ==> final(self).cloud_start_error == old(self).cloud_start_error,
            !old(self).has_selection() ==> res is None && (final(self).cloud_start_error matches Some(
                e,
            ) && e@ == "❌ No cloud selected"@),
            final(self).clouds == old(self).clouds,
            final(self).selected_cloud_index == old(self).selected_cloud_index,
            final(self).running_clouds == old(self).running_clouds,
    {
        if self.clouds.len() == 0 || self.selected_cloud_index >= self.clouds.len() {
            self.cloud_start_error = Some(String::from_str("❌ No cloud selected"));
            return None;
        }
        Some(copy_str(self.clouds[self.selected_cloud_index].name.as_str()))
    }

    /// Records how starting `cloud_name` went: its port, or the error shown
    /// as "❌ " and the message.
    pub fn record_start(&mut self, cloud_name: &str, result: Result<u16, ServerError>)
        ensures
            result matches Ok(p) ==> final(self).cloud_start_error is None && port_in(
                final(self).running_clouds@,
                cloud_name@,
            ) == Some(p) && (names_unique(running_names(old(self).running_clouds@)) ==> names_unique(
                running_names(final(self).running_clouds@),
            ) && running_map(final(self).running_clouds@) == running_map(old(self).running_clouds@).insert(
                cloud_name@,
                p,
            )),
            result matches Err(e) ==> (final(self).cloud_start_error matches Some(m) && m@ == "❌ "@
                + server_error_message(e)) && final(self).running_clouds@ == old(self).running_clouds@,
            final(self).clouds == old(self).clouds,
            final(self).selected_cloud_index == old(self).selected_cloud_index,
    {
        match result {
            Ok(port) => {
                record_running(&mut self.running_clouds, cloud_name, port);
                self.cloud_start_error = None;
            },
            Err(e) => {
                let m = e.message();
                self.cloud_start_error = Some(concat_str("❌ ", m.as_str()));
            },
        }
    }

    /// Records how stopping `cloud_name` went: it no longer runs, or the
    /// error shown as "❌ " and the message.
    pub fn record_stop(&mut self, cloud_name: &str, result: Result<(), ServerError>)
        ensures
            result is Ok ==> final(self).cloud_start_error is None && (names_unique(
                running_names(old(self).running_clouds@),
            ) ==> names_unique(running_names(final(self).running_clouds@)) && running_map(
                final(self).running_clouds@,
            ) == running_map(old(self).running_clouds@).remove(cloud_name@)) && (!running_names(
                old(self).running_clouds@,
            ).contains(cloud_name@) ==> final(self).running_clouds@ == old(self).running_clouds@),
            result matches Err(e) ==> (final(self).cloud_start_error matches Some(m) && m@ == "❌ "@
                + server_error_message(e)) && final(self).running_clouds@ == old(self).running_clouds@,
            final(self).clouds == old(self).clouds,
            final(self).selected_cloud_index == old(self).selected_cloud_index,
    {
        match result {
            Ok(()) => {
                forget_running(&mut self.running_clouds, cloud_name);
                self.cloud_start_error = None;
            },
            Err(e) => {
                let m = e.message();
                self.cloud_start_error = Some(concat_str("❌ ", m.as_str()));
            },
        }
    }

    /// Whether `cloud_name` runs.
    pub fn is_cloud_running(&self, cloud_name: &str) -> (res: bool)
        ensures
            res == running_names(self.running_clouds@).contains(cloud_name@),
    {
        running_index(&self.running_clouds, cloud_name).is_some()
    }

    /// The port of `cloud_name`, if it runs.
    pub fn get_cloud_port(&self, cloud_name: &str) -> (res: Option<u16>)
        ensures
            res == port_in(self.running_clouds@, cloud_name@),
    {
        running_port(&self.running_clouds, cloud_name)
    }

    /// Sets the password of the selected cloud through the orchestrator.
    /// Without a selection the answer is "No cloud selected"; a refusal is
    /// shown as "Failed to set password: " and the message; success closes
    /// password entry.
    pub fn set_password(&mut self, orchestrator: &mut Orchestrator, password: &str) -> (res: Result<
        (),
        String,
    >)
        ensures
            !old(self).has_selection() ==> (res matches Err(m) && m@ == "No cloud selected"@),
            old(self).has_selection() && res is Ok ==> final(orchestrator).password_accepted(
                old(self).clouds@[old(self).selected_cloud_index as int].name@,
                password@,
            ) && final(self).password_creation@ == fresh_password(false),
            old(self).has_selection() && res is Err ==> (res matches Err(m) && final(self).password_creation.password_error matches Some(e) && e@ == m@),
            res is Err ==> final(orchestrator).clouds_config.clouds@ == old(orchestrator).clouds_config.clouds@,
            final(orchestrator).clouds_config.cloud_folders@ == old(orchestrator).clouds_config.cloud_folders@,
            final(orchestrator).running_clouds@ == old(orchestrator).running_clouds@,
            final(orchestrator).next_port == old(orchestrator).next_port,
            final(self).clouds == old(self).clouds,
            final(self).selected_cloud_index == old(self).selected_cloud_index,
            final(self).running_clouds == old(self).running_clouds,
    {
        if self.clouds.len() == 0 || self.selected_cloud_index >= self.clouds.len() {
            return Err(String::from_str("No cloud selected"));
        }
        let name = copy_str(self.clouds[self.selected_cloud_index].name.as_str());
        match orchestrator.set_cloud_password(name.as_str(), password) {
            Err(e) => {
                let m = e.message();
                let msg = concat_str("Failed to set password: ", m.as_str());
                self.password_creation.password_error = Some(copy_str(msg.as_str()));
                Err(msg)
            },
            Ok(()) => {
                self.password_creation.password_success = true;
                self.password_creation.clear_password_creation();
                Ok(())
            },
        }
    }

    /// Opens password entry when a cloud is selected.
    pub fn start_creating_password(&mut self)
        ensures
            old(self).has_selection() ==> final(self).password_creation@ == fresh_password(true),
            !old(self).has_selection() ==> final(self).password_creation@ == old(self).password_creation@,
            final(self).clouds == old(self).clouds,
            final(self).selected_cloud_index == old(self).selected_cloud_index,
            *final(self) == (DashboardState { password_creation: final(self).password_creation, ..*old(self) }),
            !old(self).has_selection() ==> *final(self) == *old(self),
    {
        if self.clouds.len() == 0 || self.selected_cloud_index >= self.clouds.len() {
            return ;
        }
        self.password_creation.start_creating_password();
    }

    /// Closes password entry.
    pub fn clear_password_creation(&mut self)
        ensures
            final(self).password_creation@ == fresh_password(false),
            final(self).clouds == old(self).clouds,
    {
        self.password_creation.clear_password_creation();
    }

    /// Passes a key to password entry.
    pub fn handle_password_input(&mut self, key: char)
        ensures
            final(self).password_creation@ == password_step(old(self).password_creation@, key),
            final(self).clouds == old(self).clouds,
            *final(self) == (DashboardState { password_creation: final(self).password_creation, ..*old(self) }),
    {
        self.password_creation.handle_password_input(key);
    }

    /// Moves the activity selection within `log_count` entries when the
    /// activity panel has focus. With no entries the vertical keys are
    /// swallowed.
    pub fn handle_activity_navigation(&mut self, key: Key, log_count: usize) -> (handled: bool)
        ensures
            old(self).focused_panel != DashboardPanel::Activity ==> !handled && final(self).activity_list_state == old(self).activity_list_state,
            old(self).focused_panel == DashboardPanel::Activity && log_count == 0 ==> handled == (
            is_up(key) || is_down(key)) && final(self).activity_list_state == old(self).activity_list_state,
            old(self).focused_panel == DashboardPanel::Activity && log_count > 0 ==> match activity_target(
                old(self).activity_list_state.selected,
                log_count as nat,
                key,
            ) {
                Some(t) => handled && final(self).activity_list_state.selected == Some(t as usize),
                None => !handled && final(self).activity_list_state == old(self).activity_list_state,
            },
            final(self).focused_panel == old(self).focused_panel,
            final(self).clouds == old(self).clouds,
            final(self).selected_cloud_index == old(self).selected_cloud_index,
            *final(self) == (DashboardState { activity_list_state: final(self).activity_list_state, ..*old(self) }),
            final(self).activity_list_state.offset == old(self).activity_list_state.offset,
    {
        if self.focused_panel != DashboardPanel::Activity {
            return false;
        }
        if log_count == 0 {
            return match key {
                Key::Up | Key::Down | Key::Char('j') | Key::Char('k') => true,
                _ => false,
            };
        }
        let current = match self.activity_list_state.selected() {
            Some(i) => i,
            None => log_count - 1,
        };
        let next = match key {
            Key::Up | Key::Char('k') => if current == 0 {
                0
            } else {
                current - 1
            },
            Key::Down | Key::Char('j') => if current < log_count - 1 {
                current + 1
            } else {
                log_count - 1
            },
            Key::Char('g') => 0,
            Key::Char('G') => log_count - 1,
            _ => {
                return false;
            },
        };
        self.activity_list_state.select(Some(next));
        true
    }

    /// Names the focused panel.
    pub fn get_focused_element(&self) -> (res: String)
        ensures
            res@ == (match self.focused_panel {
                DashboardPanel::Services => "services"@,
                DashboardPanel::Overview => "overview"@,
                DashboardPanel::Activity => "activity"@,
            }),
    {
        match self.focused_panel {
            DashboardPanel::Services => String::from_str("services"),
            DashboardPanel::Overview => String::from_str("overview"),
            DashboardPanel::Activity => String::from_str("activity"),
        }
    }

    /// Focuses the next panel.
    pub fn cycle_focus_forward(&mut self)
        ensures
            final(self).focused_panel == panel_after(old(self).focused_panel),
            final(self).clouds == old(self).clouds,
            final(self).selected_cloud_index == old(self).selected_cloud_index,
            *final(self) == (DashboardState { focused_panel: panel_after(old(self).focused_panel), ..*old(self) }),
    {
        self.focused_panel = match self.focused_panel {
            DashboardPanel::Services => DashboardPanel::Overview,
            DashboardPanel::Overview => DashboardPanel::Activity,
            DashboardPanel::Activity => DashboardPanel::Services,
        };
    }

    /// Focuses the previous panel.
    pub fn cycle_focus_backward(&mut self)
        ensures
            final(self).focused_panel == panel_before(old(self).focused_panel),
            final(self).clouds == old(self).clouds,
            final(self).selected_cloud_index == old(self).selected_cloud_index,
            *final(self) == (DashboardState { focused_panel: panel_before(old(self).focused_panel), ..*old(self) }),
    {
        self.focused_panel = match self.focused_panel {
            DashboardPanel::Services => DashboardPanel::Activity,
            DashboardPanel::Overview => DashboardPanel::Services,
            DashboardPanel::Activity => DashboardPanel::Overview,
        };
    }

    /// Up/Down/`k`/`j`/`g`/`G` move the cloud selection while the services
    /// panel has focus (other panels swallow them); Tab focuses the next
    /// panel.
    pub fn handle_navigation(&mut self, key: Key) -> (handled: bool)
        ensures
            handled == (is_up(key) || is_down(key) || key == Key::Char('g') || key == Key::Char('G')
                || key == Key::Tab),
            key == Key::Tab ==> final(self).focused_panel == panel_after(old(self).focused_panel),
            key != Key::Tab ==> final(self).focused_panel == old(self).focused_panel,
            old(self).focused_panel == DashboardPanel::Services && is_up(key) ==> final(self).selected_cloud_index == (if old(self).selected_cloud_index > 0 {
                (old(self).selected_cloud_index - 1) as usize
            } else {
                old(self).selected_cloud_index
            }),
            old(self).focused_panel == DashboardPanel::Services && is_down(key) ==> final(self).selected_cloud_index == (if old(self).selected_cloud_index + 1 < old(self).clouds@.len() {
                (old(self).selected_cloud_index + 1) as usize
            } else {
                old(self).selected_cloud_index
            }),
            old(self).focused_panel == DashboardPanel::Services && key == Key::Char('g') ==> final(self).selected_cloud_index == (if old(self).clouds@.len() > 0 {
                0
            } else {
                old(self).selected_cloud_index
            }),
            old(self).focused_panel == DashboardPanel::Services && key == Key::Char('G') ==> final(self).selected_cloud_index == (if old(self).clouds@.len() > 0 {
                (old(self).clouds@.len() - 1) as usize
            } else {
                old(self).selected_cloud_index
            }),
            old(self).focused_panel != DashboardPanel::Services || !handled || key == Key::Tab ==> final(self).selected_cloud_index == old(self).selected_cloud_index,
            final(self).selected_cloud_index != old(self).selected_cloud_index ==> final(self).clouds_list_state.selected == Some(final(self).selected_cloud_index),
            final(self).clouds == old(self).clouds,
            *final(self) == (DashboardState {
                selected_cloud_index: services_target(*old(self), key),
                focused_panel: if key == Key::Tab {
                    panel_after(old(self).focused_panel)
                } else {
                    old(self).focused_panel
                },
                clouds_list_state: final(self).clouds_list_state,
                ..*old(self)
            }),
            final(self).clouds_list_state.offset == old(self).clouds_list_state.offset,
    {
        match key {
            Key::Up | Key::Char('k') => {
                if self.focused_panel == DashboardPanel::Services && self.selected_cloud_index > 0 {
                    self.selected_cloud_index = self.selected_cloud_index - 1;
                    self.clouds_list_state.select(Some(self.selected_cloud_index));
                }
                true
            },
            Key::Down | Key::Char('j') => {
                if self.focused_panel == DashboardPanel::Services && self.clouds.len() > 0
                    && self.selected_cloud_index < self.clouds.len() - 1 {
                    self.selected_cloud_index = self.selected_cloud_index + 1;
                    self.clouds_list_state.select(Some(self.selected_cloud_index));
                }
                true
            },
            Key::Char('g') => {
                if self.focused_panel == DashboardPanel::Services && self.clouds.len() > 0 {
                    self.selected_cloud_index = 0;
                    self.clouds_list_state.select(Some(0));
                }
                true
            },
            Key::Char('G') => {
                if self.focused_panel == DashboardPanel::Services && self.clouds.len() > 0 {
                    self.selected_cloud_index = self.clouds.len() - 1;
                    self.clouds_list_state.select(Some(self.selected_cloud_index));
                }
                true
            },
            Key::Tab => {
                self.cycle_focus_forward();
                true
            },
            _ => false,
        }
    }
}

/// From a selection on an entry, the activity keys keep it on an entry.
pub proof fn law_activity_stays_in_range(selected: Option<usize>, count: nat, key: Key)
    requires
        count > 0,
        selected matches Some(i) ==> i < count,
    ensures
        activity_target(selected, count, key) matches Some(t) ==> t < count,
{
}

} // verus!
