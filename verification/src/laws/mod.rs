//! Laws of the library's operations: what a call of each does, told in terms of what
//! it is given and what it leaves behind.
//!
//! Each speaks of every call that keeps an operation's contract, a borrowed value
//! being what it points to before the call, and inside `final` what it points to
//! after it.

pub mod ipsec;
pub mod packets;
pub mod paths;
pub mod tunnels;
