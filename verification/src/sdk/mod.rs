//! The client SDK: its error model, request and response types, transport
//! configuration, network checks and the client's decision logic.

pub mod errors;
pub mod types;
pub mod config;
pub mod network;
pub mod client;
pub mod keys;
