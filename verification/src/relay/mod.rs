//! Connections through another node.

pub mod error;
