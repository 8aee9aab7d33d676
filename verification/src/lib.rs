//! A clipboard relay: the decision logic of a tray client that mirrors clipboard
//! text through a small WebSocket relay server, and of that server.

pub mod text;
pub mod wire;
pub mod config;
pub mod clock;
pub mod sync;
pub mod keepalive;
pub mod client;
pub mod ui;
pub mod server_config;
pub mod room;
pub mod server;
