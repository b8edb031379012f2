//! Network addresses as plain values.

use vstd::prelude::*;

verus! {

/// An IP address, held as the big-endian integer that its octets spell.
///
/// `V4(0x0A00_0005)` is `10.0.0.5`; `V6(1)` is `::1`.
#[derive(Debug, Clone, Copy, PartialEq, Eq, Hash, Structural)]
pub enum IpAddress {
    V4(u32),
    V6(u128),
}

/// The 32-bit value whose octets, most significant first, are `a`, `b`, `c`, `d`.
pub open spec fn v4_bits(a: u8, b: u8, c: u8, d: u8) -> int {
    a * 0x100_0000 + b * 0x1_0000 + c * 0x100 + d
}

impl IpAddress {
    /// The IPv4 address written `a.b.c.d`.
    pub fn v4(a: u8, b: u8, c: u8, d: u8) -> (addr: IpAddress)
        ensures
            addr == IpAddress::V4(v4_bits(a, b, c, d) as u32),
            v4_bits(a, b, c, d) <= u32::MAX,
    {
        let high: u32 = a as u32 * 0x100_0000 + b as u32 * 0x1_0000;
        let low: u32 = c as u32 * 0x100 + d as u32;
        IpAddress::V4(high + low)
    }

    /// Whether the address lies in a multicast range: `224.0.0.0/4` for IPv4,
    /// `ff00::/8` for IPv6.
    pub open spec fn spec_is_multicast(&self) -> bool {
        match *self {
            IpAddress::V4(bits) => 0xE000_0000 <= bits <= 0xEFFF_FFFF,
            IpAddress::V6(bits) => bits >= 0xFF00_0000_0000_0000_0000_0000_0000_0000,
        }
    }

    /// Whether the address lies in a multicast range.
    #[verifier::when_used_as_spec(spec_is_multicast)]
    pub fn is_multicast(&self) -> (multicast: bool)
        ensures
            multicast == self.spec_is_multicast(),
    {
        match self {
            IpAddress::V4(bits) => 0xE000_0000 <= *bits && *bits <= 0xEFFF_FFFF,
            IpAddress::V6(bits) => *bits >= 0xFF00_0000_0000_0000_0000_0000_0000_0000,
        }
    }
}

/// An IPv4 address is multicast exactly when its first octet is between 224 and 239.
pub proof fn lemma_v4_multicast_by_first_octet(a: u8, b: u8, c: u8, d: u8)
    ensures
        IpAddress::V4(v4_bits(a, b, c, d) as u32).spec_is_multicast() <==> 224 <= a <= 239,
{
}

} // verus!
