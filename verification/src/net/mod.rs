//! MTU detection and path MTU discovery.

pub mod mtu;
pub mod pmtud;
pub mod tap_windows;
