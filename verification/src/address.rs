//! Network addresses as plain values.

use vstd::prelude::*;

verus! {

/// An IP address: the 32 bits of an IPv4 address or the 128 bits of an IPv6
/// address, most significant octet first.
#[derive(Clone, Copy, Debug, PartialEq, Eq, Structural, Hash)]
pub enum IpAddress {
    V4(u32),
    V6(u128),
}

/// A socket address. Two addresses are the same destination exactly when all
/// their fields agree.
#[derive(Clone, Copy, Debug, PartialEq, Eq, Structural, Hash)]
#[allow(inconsistent_fields)]
pub enum SocketAddress {
    V4 { ip: u32, port: u16 },
    V6 { ip: u128, port: u16, flowinfo: u32, scope_id: u32 },
}

/// A local transport endpoint that has been bound, known by the address its
/// socket is bound to.
#[derive(Clone, Copy, Debug, PartialEq, Eq, Structural, Hash)]
pub struct Endpoint {
    pub local_addr: SocketAddress,
}

} // verus!
