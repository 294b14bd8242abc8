//! The logic of a small internet radio: its play queue and voting, the
//! messages that its server and clients exchange, and the rules by which
//! track descriptions are read and shown.

pub mod args;
pub mod track;
pub mod playlist;
pub mod dto;
pub mod protocol;
pub mod library;
pub mod middleware;
pub mod client;
pub mod ui;
pub mod decode;
pub mod laws;
