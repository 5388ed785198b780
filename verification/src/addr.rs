//! Plain-value models of network addresses and socket endpoints.

use vstd::prelude::*;

verus! {

/// A resolved network address: the four octets of an IPv4 address packed
/// into a `u32`, or the sixteen octets of an IPv6 address packed into a
/// `u128`, both in network order.
#[derive(Clone, Copy, Debug, PartialEq, Eq, Structural)]
pub enum IpAddress {
    V4(u32),
    V6(u128),
}

/// A socket endpoint: a resolved address paired with a port number.
#[derive(Clone, Copy, Debug, PartialEq, Eq, Structural)]
pub struct Endpoint {
    pub ip: IpAddress,
    pub port: u16,
}

/// The endpoint an address is translated to: the address itself, paired with
/// the placeholder port zero.
pub open spec fn endpoint_of(a: IpAddress) -> Endpoint {
    Endpoint { ip: a, port: 0 }
}

impl Endpoint {
    /// Pair an address with the placeholder port zero.
    pub fn with_placeholder_port(ip: IpAddress) -> (r: Endpoint)
        ensures
            r == endpoint_of(ip),
    {
        Endpoint { ip, port: 0 }
    }
}

} // verus!
