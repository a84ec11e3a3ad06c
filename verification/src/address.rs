//! Addresses, as plain values.
use vstd::prelude::*;

verus! {

/// An IP address.
#[derive(Debug, Clone, Copy, PartialEq, Eq)]
pub enum IpAddress {
    V4([u8; 4]),
    V6([u8; 16]),
}

/// An address that a socket can be bound or connected to.
#[derive(Debug, Clone, Copy, PartialEq, Eq)]
pub struct SocketAddress {
    pub ip: IpAddress,
    pub port: u16,
    /// Of an IPv6 address; else zero.
    pub flowinfo: u32,
    /// Of an IPv6 address; else zero.
    pub scope_id: u32,
}

} // verus!
