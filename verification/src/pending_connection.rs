//! Connections that are still being set up.

pub mod laws;
pub mod listen;
pub mod listener;
