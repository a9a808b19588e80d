//! Encrypted connections.

pub mod buffered;
