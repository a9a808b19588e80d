//! Requests and responses with a limit on the requests that each peer may send.

pub mod dynamic;
pub mod header;
pub mod laws;
pub mod peer_info;
pub mod peer_map;
