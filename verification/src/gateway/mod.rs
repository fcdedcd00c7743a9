//! The gateway's part in a cluster.

pub mod cluster_ws;
