//! Verified core of a peer-to-peer networking stack.

pub mod address;
pub mod async_value;
pub mod builder;
pub mod common_transport;
pub mod datastore;
pub mod either;
pub mod io_error;
pub mod multistream_select;
pub mod muxing;
pub mod nodes;
pub mod noise;
pub mod protocol_name;
pub mod relay;
pub mod request_response;
pub mod secio;
pub mod swarm;
pub mod timeout;
pub mod transport;
pub mod upgrade;
pub mod varint;
pub mod yamux_muxer;
