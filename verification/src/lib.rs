//! A fleet client and its server side: mirrored sessions, composed views,
//! pane streams over a framed protocol, and the decisions around them.
pub mod api;
pub mod cli;
pub mod client;
pub mod client_state;
pub mod fleet;
pub mod input;
pub mod json;
pub mod json_room;
pub mod protocol;
pub mod seqs;
pub mod sorted_map;
pub mod text;
pub mod text_laws;
