//! Core of an outbound WebSocket connection service.
//!
//! The crate owns the logic of the connection manager: the registry that maps
//! connection identifiers to at most one live entry each, the per-connection
//! state machine that an actor drives through handshakes, frames, transport
//! errors and reconnects, and the one-shot connectivity probe. All network
//! I/O, persistence and HTTP routing live outside; they hand this crate plain
//! values (identifiers, frames, timestamps, handshake outcomes) and act on the
//! decisions it returns.

pub mod actor;
pub mod config;
pub mod errors;
pub mod feed;
pub mod info;
pub mod messages;
pub mod paging;
pub mod probe;
pub mod registry;
pub mod response;
pub mod text;
pub mod time;
