//! A watch-set session coordinator for a remote game-streaming service.
//!
//! The library owns the ordered list of watched game sessions, encodes and
//! decodes the wire protocol of the streaming connection, and turns inbound
//! stream messages, internal replacement commands and keepalive ticks into
//! state changes and queued effects.  The host application performs the
//! actual network I/O and drains the queued effects.

pub mod codec;
pub mod game_list;
pub mod types;
pub mod watcher;
