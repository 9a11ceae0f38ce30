use vstd::prelude::*;

verus! {

/// The address a datagram came from, as plain values: the IP address as a
/// 128-bit number (an IPv4 address in its low 32 bits), the port, and whether
/// the address is an IPv6 one.
#[derive(Clone, Copy, Debug, PartialEq, Eq, Structural)]
pub struct SourceAddr {
    pub ip: u128,
    pub port: u16,
    pub v6: bool,
}

impl SourceAddr {
    /// An IPv4 source address.
    pub fn v4(octets: [u8; 4], port: u16) -> (r: SourceAddr)
        ensures
            r.ip == octets[0] as u128 * 0x1000000 + octets[1] as u128 * 0x10000
                + octets[2] as u128 * 0x100 + octets[3] as u128,
            r.port == port,
            !r.v6,
    {
        let ip: u128 = (octets[0] as u128) * 0x1000000 + (octets[1] as u128) * 0x10000
            + (octets[2] as u128) * 0x100 + (octets[3] as u128);
        SourceAddr { ip, port, v6: false }
    }

    /// An IPv6 source address.
    pub fn v6(ip: u128, port: u16) -> (r: SourceAddr)
        ensures
            r == (SourceAddr { ip, port, v6: true }),
    {
        SourceAddr { ip, port, v6: true }
    }

    /// Whether two addresses are the same.
    pub fn same(&self, other: &SourceAddr) -> (r: bool)
        ensures
            r == (*self == *other),
    {
        self.ip == other.ip && self.port == other.port && self.v6 == other.v6
    }
}

} // verus!
