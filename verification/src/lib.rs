//! Verified core of a download-manager backend: the JSON-RPC transport to an
//! external download engine, the connection-loop state machine with its
//! correlation table and reconnection budget, the notification dispatcher,
//! and the engine supervisor's argument construction and retry policies.

pub mod bencode;
pub mod cli;
pub mod config;
pub mod conn;
pub mod error;
pub mod events;
pub mod files;
pub mod frames;
pub mod json;
pub mod power;
pub mod rpc;
pub mod supervisor;
pub mod upnp;
pub mod text;
pub mod torrent;
pub mod trackers;
pub mod tray;

pub use error::Error;
