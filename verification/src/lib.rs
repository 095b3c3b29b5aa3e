//! CloudHost: folder and cloud management, key bindings, and request
//! handling rules for a personal file server and its terminal front end.
use vstd::prelude::*;

pub mod text;
pub mod action_map;
pub mod error;
pub mod keymap;
pub mod keymap_laws;
pub mod password;
pub mod key;
pub mod tabs;
pub mod settings;
pub mod cloud;
pub mod clouds_config;
pub mod orchestrator;
pub mod paths;
pub mod auth;
pub mod debug_log;
pub mod web;
pub mod modal;
pub mod editor;
pub mod dispatch;
pub mod tab_app;
pub mod dashboard;
pub mod server_config;
pub mod search;
pub mod app_state;
pub mod folders_tab;
pub mod running;
pub mod clouds_tab;
pub mod server_tab;
pub mod front_end;

verus! {

} // verus!
