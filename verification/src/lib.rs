//! Userspace EoIP/EoIPv6 tunneling compatible with MikroTik RouterOS: the verified core.

pub mod addr;
pub mod api;
pub mod config;
pub mod ipsec;
pub mod keepalive;
pub mod laws;
pub mod net;
pub mod packet;
pub mod startup;
pub mod text;
pub mod tunnel;
