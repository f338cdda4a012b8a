//! Addresses of the peers that connect to the server.

use vstd::prelude::*;

verus! {

/// An IP address: an IPv4 address by its four octets in network order, an
/// IPv6 address by its 128 bits.
#[derive(Debug, Clone, Copy, PartialEq, Eq, Structural)]
pub enum IpAddress {
    V4(u8, u8, u8, u8),
    V6(u128),
}

/// The addresses of a connection as the PROXY protocol header of the
/// connection reports them: where the client connected from, and to which
/// address and port of the proxy.
#[derive(Debug, Clone, Copy, PartialEq, Eq, Structural)]
pub struct ConnectionTuple {
    pub from_ip: IpAddress,
    pub from_port: u16,
    pub to_ip: IpAddress,
    pub to_port: u16,
}

} // verus!
