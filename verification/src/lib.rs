//! LAN peer discovery over IPv4 multicast UDP.
//!
//! A node announces itself by sending a fixed 14-byte probe to a well-known
//! multicast group, and listens on that group for probes from other nodes.
//! This crate holds the verified core: the wire protocol (marker, group
//! address, discovery port), the address model, and the listener's state
//! machine with its validation rules. The socket plumbing that drives the
//! core lives outside the library.

pub mod addr;
pub mod listener;
pub mod protocol;
