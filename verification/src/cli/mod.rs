//! Command line commands.
pub mod remote;
pub mod remote_laws;
