//! Where endpoints meet: the well-known discovery group.

use crate::addr::{v4_bits, IpAddress};
use vstd::prelude::*;

verus! {

/// The UDP port that announcements are sent to and received on.
pub const MULTICAST_PORT: u16 = 8787;

/// The multicast group that announcements are sent to, `224.0.0.87`, as an integer.
pub const MULTICAST_ADDR_BITS: u32 = 0xE000_0057;

/// The multicast group that announcements are sent to, `224.0.0.87`. It is an IPv4
/// group because most networks carry IPv4 multicast.
pub fn multicast_addr() -> (group: IpAddress)
    ensures
        group == IpAddress::V4(v4_bits(224, 0, 0, 87) as u32),
        group.is_multicast(),
{
    IpAddress::V4(MULTICAST_ADDR_BITS)
}

} // verus!
