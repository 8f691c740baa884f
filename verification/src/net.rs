//! Addresses of the local network, as plain values, and how they are
//! written.

use crate::text::{decimal, decimal_text};
use vstd::prelude::*;

verus! {

/// An IPv4 address: its four octets, first to last.
#[derive(Clone, Copy, Debug, PartialEq, Eq, Structural)]
pub struct Ipv4(pub u8, pub u8, pub u8, pub u8);

/// An IPv4 address with a port.
#[derive(Clone, Copy, Debug, PartialEq, Eq, Structural)]
pub struct SocketAddress {
    pub ip: Ipv4,
    pub port: u16,
}

/// An IPv4 address in dotted decimal notation.
pub open spec fn ipv4_text(ip: Ipv4) -> Seq<char> {
    decimal_text(ip.0 as nat) + "."@ + decimal_text(ip.1 as nat) + "."@ + decimal_text(ip.2 as nat)
        + "."@ + decimal_text(ip.3 as nat)
}

/// A socket address: the address, a colon, the port.
pub open spec fn socket_text(address: SocketAddress) -> Seq<char> {
    ipv4_text(address.ip) + ":"@ + decimal_text(address.port as nat)
}

impl Ipv4 {
    /// The address in dotted decimal notation.
    pub fn to_text(&self) -> (r: String)
        ensures
            r@ == ipv4_text(*self),
    {
        let mut out = decimal(self.0 as u32);
        out.append(".");
        out.append(decimal(self.1 as u32).as_str());
        out.append(".");
        out.append(decimal(self.2 as u32).as_str());
        out.append(".");
        out.append(decimal(self.3 as u32).as_str());
        out
    }
}

impl SocketAddress {
    /// The address, a colon, the port.
    pub fn to_text(&self) -> (r: String)
        ensures
            r@ == socket_text(*self),
    {
        let mut out = self.ip.to_text();
        out.append(":");
        out.append(decimal(self.port as u32).as_str());
        out
    }
}

} // verus!
