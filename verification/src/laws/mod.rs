//! What the library promises its callers, said of what goes into a call and what comes
//! out of it.
//!
//! `call_ensures(f, args, result)` reads: `f`, called on `args`, has returned `result`.

pub mod cluster;
pub mod config;
pub mod discovery;
pub mod election;
pub mod gateway;
pub mod message;
pub mod node;
pub mod peers;
pub mod text;
pub mod transport;
