//! The client's loop as state and transitions: what a frame, a key, a click,
//! a connect outcome or a tick does, and what has to be done outside for it.
pub mod connect;
pub mod effect_laws;
pub mod effects;
pub mod fleet;
pub mod fleet_laws;
pub mod frame_laws;
pub mod frames;
pub mod key_laws;
pub mod keys;
pub mod link_laws;
pub mod links;
pub mod mouse;
pub mod mouse_laws;
pub mod state;
pub mod stream_laws;
pub mod streams;
pub mod ticks;
