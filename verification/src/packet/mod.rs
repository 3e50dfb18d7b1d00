//! The packet path: buffers, receive and transmit.

pub mod buffer;
pub mod packet_mmap;
pub mod rx;
pub mod tx;
