//! The server side of framed sessions.
pub mod completion;
pub mod dispatch;
pub mod framed_session;
pub mod handshake;
pub mod laws;
pub mod page_laws;
pub mod pump;
pub mod read_laws;
pub mod requests;
pub mod session_laws;
pub mod step_laws;
pub mod wire_laws;
