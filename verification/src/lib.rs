//! Connection launcher for remote servers reached through a VPN tunnel.
//!
//! The library holds the verified core of the launcher: the server catalog
//! data model, the connection orchestrator state machine, and the interactive
//! controller state machine. Process spawning, terminal rendering and file
//! access live outside the library and drive it through plain values.

use vstd::prelude::*;

pub mod cli;
pub mod config;
pub mod connection;
pub mod textutil;
pub mod tui;

pub use config::Config;
pub use config::Server;
pub use config::Settings;

verus! {

} // verus!
