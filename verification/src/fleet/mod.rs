//! The configured fleet.
pub mod config;
pub mod config_laws;
pub mod status;
