//! The network of a node: endpoints, keys, messages on the wire, the client and the server.

pub mod client;
pub mod config;
pub mod endpoint;
pub mod server;
pub mod wire;
