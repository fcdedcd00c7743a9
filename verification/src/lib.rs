//! Cluster membership for ZeroClaw nodes: identities, wire messages, leader
//! election, peer discovery, the WebSocket handshake between nodes, and the
//! gateway's side of it.

pub mod cluster;
pub mod config;
pub mod gateway;
pub mod laws;
pub mod outside;
pub mod text;
