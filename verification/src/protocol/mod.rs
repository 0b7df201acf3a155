//! The framed protocol between a client and a server.
pub mod byte_laws;
pub mod frame;
pub mod framed;
pub mod hello;
pub mod history;
pub mod wire_shapes;
