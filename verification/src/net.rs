//! Socket addresses as plain values.
use vstd::prelude::*;

verus! {

/// An IPv4 or IPv6 address, as the number whose big-endian bytes are its octets.
#[derive(Clone, Copy, Debug, PartialEq, Eq, Structural)]
pub enum IpAddress {
    V4(u32),
    V6(u128),
}

/// An IP address and a port.
#[derive(Clone, Copy, Debug, PartialEq, Eq, Structural)]
pub struct SocketAddress {
    pub ip: IpAddress,
    pub port: u16,
}

/// The loopback addresses are exactly those of 127.0.0.0/8, whatever the
/// other three octets, and the single IPv6 address `::1`.
pub proof fn law_loopback_addresses(a: u8, b: u8, c: u8, d: u8, v6: u128)
    ensures
        IpAddress::V4((a * 0x100_0000 + b * 0x1_0000 + c * 0x100 + d) as u32).loopback() <==> a
            == 127,
        IpAddress::V6(v6).loopback() <==> v6 == 1,
{
    let rest: int = b * 0x1_0000 + c * 0x100 + d;
    assert(0 <= rest < 0x100_0000);
    let x: int = a * 0x100_0000 + rest;
    assert(0 <= x < 0x1_0000_0000);
    assert((x as u32) as int == x);
    assert(x / 0x100_0000 == a) by (nonlinear_arith)
        requires
            x == a * 0x100_0000 + rest,
            0 <= rest < 0x100_0000,
    ;
}

impl IpAddress {
    /// A loopback address: 127.0.0.0/8 for IPv4, `::1` for IPv6.
    pub open spec fn loopback(self) -> bool {
        match self {
            IpAddress::V4(a) => a / 0x100_0000 == 127,
            IpAddress::V6(a) => a == 1,
        }
    }

    pub fn is_loopback(&self) -> (r: bool)
        ensures
            r == self.loopback(),
    {
        match self {
            IpAddress::V4(a) => *a / 0x100_0000 == 127,
            IpAddress::V6(a) => *a == 1,
        }
    }
}

} // verus!
