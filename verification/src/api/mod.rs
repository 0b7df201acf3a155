//! The session API: what the server's catalog is made of, the methods that
//! change it, and how framed sessions are served.
pub mod event_hub;
pub mod method;
pub mod remote_laws;
pub mod remotes;
pub mod schema;
pub mod server;
