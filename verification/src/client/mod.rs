//! The terminal side of a client.
pub mod attach_laws;
pub mod framed_attach;
pub mod host_terminal;
pub mod terminal_session;
