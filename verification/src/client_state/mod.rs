//! Client state: per-remote mirrors plus global chrome.
pub mod app_state;
pub mod catalog;
pub mod catalog_laws;
pub mod chrome;
pub mod compose;
pub mod compose_ids;
pub mod compose_laws;
pub mod connection;
pub mod dialog_laws;
pub mod event_laws;
pub mod fleet_view;
pub mod intent;
pub mod intent_laws;
pub mod layout;
pub mod layout_laws;
pub mod mirror;
pub mod remote_edit;
pub mod remote_list;
pub mod remote_start;
pub mod replay_laws;
pub mod run;
pub mod session;
pub mod state_laws;
pub mod view_laws;
