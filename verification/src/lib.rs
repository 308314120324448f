pub mod addr;
pub mod classifier;
pub mod hooks;
pub mod text;
pub mod tracker;

use vstd::prelude::*;

verus! {

/// Routing netlink multicast group number for IPv6 interface-address events.
pub const RTNLGRP_IPV6_IFADDR: u32 = 9;

/// Turns a routing netlink multicast group number into the bit mask used when
/// binding a socket to that group. Group numbers above 31 have no bit in the
/// mask and are not accepted.
pub fn nl_mgrp(group: u32) -> (r: u32)
    requires
        group <= 31,
    ensures
        group == 0 ==> r == 0,
        group > 0 ==> r == 1u32 << ((group - 1) as u32),
{
    if group == 0 {
        0
    } else {
        1u32 << (group - 1)
    }
}

/// The socket bind mask for the IPv6 interface-address multicast group.
pub fn ipv6_group() -> (r: u32)
    ensures
        r == 0x100u32,
{
    let r = nl_mgrp(RTNLGRP_IPV6_IFADDR);
    assert(1u32 << 8 == 0x100u32) by (bit_vector);
    r
}

} // verus!
