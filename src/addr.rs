use vstd::prelude::*;

verus! {

/// The host part of a socket address.
#[derive(Debug, Clone, Copy, PartialEq, Eq, Structural)]
pub enum HostAddr {
    /// An IPv4 address, its four octets read big-endian.
    V4(u32),
    /// An IPv6 address, its sixteen octets read big-endian.
    V6(u128),
}

/// A `host:port` socket address.
#[derive(Debug, Clone, Copy, PartialEq, Eq, Structural)]
pub struct NodeAddr {
    pub host: HostAddr,
    pub port: u16,
}

impl NodeAddr {
    /// The IPv4 address `a.b.c.d:port`.
    pub fn v4(a: u8, b: u8, c: u8, d: u8, port: u16) -> (r: NodeAddr)
        ensures
            r.host == HostAddr::V4(
                (a * 0x100_0000 + b * 0x1_0000 + c * 0x100 + d) as u32,
            ),
            r.port == port,
    {
        let ip: u32 = (a as u32) * 0x100_0000 + (b as u32) * 0x1_0000 + (c as u32) * 0x100 + d as u32;
        NodeAddr { host: HostAddr::V4(ip), port }
    }

    /// The same host with another port.
    pub fn with_port(&self, port: u16) -> (r: NodeAddr)
        ensures
            r.host == self.host,
            r.port == port,
    {
        NodeAddr { host: self.host, port }
    }
}

} // verus!
