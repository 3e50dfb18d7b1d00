//! Tunnels: lifecycle, per-tunnel state, registry and manager.

pub mod handle;
pub mod lifecycle;
pub mod manager;
pub mod registry;
pub mod stats;
