use vstd::prelude::*;
use crate::addr::Ipv6Address;

verus! {

/// The address is in the unicast link-local block `fe80::/10`.
pub open spec fn spec_is_unicast_link_local(a: Ipv6Address) -> bool {
    (a.s0 & 0xffc0) == 0xfe80
}

/// The address is in the unique-local block `fc00::/7`.
pub open spec fn spec_is_unique_local(a: Ipv6Address) -> bool {
    (a.s0 & 0xfe00) == 0xfc00
}

/// The unspecified address `::`.
pub open spec fn spec_is_unspecified(a: Ipv6Address) -> bool {
    a.s0 == 0 && a.s1 == 0 && a.s2 == 0 && a.s3 == 0 && a.s4 == 0 && a.s5 == 0 && a.s6 == 0
        && a.s7 == 0
}

/// The loopback address `::1`.
pub open spec fn spec_is_loopback(a: Ipv6Address) -> bool {
    a.s0 == 0 && a.s1 == 0 && a.s2 == 0 && a.s3 == 0 && a.s4 == 0 && a.s5 == 0 && a.s6 == 0
        && a.s7 == 1
}

/// The IPv4-mapped block `::ffff:0:0/96`.
pub open spec fn spec_is_ipv4_mapped(a: Ipv6Address) -> bool {
    a.s0 == 0 && a.s1 == 0 && a.s2 == 0 && a.s3 == 0 && a.s4 == 0 && a.s5 == 0xffff
}

/// The IPv4-IPv6 translation block `64:ff9b:1::/48`.
pub open spec fn spec_is_ipv4_ipv6_translation(a: Ipv6Address) -> bool {
    a.s0 == 0x64 && a.s1 == 0xff9b && a.s2 == 1
}

/// The discard-only block `100::/64`.
pub open spec fn spec_is_discard_only(a: Ipv6Address) -> bool {
    a.s0 == 0x100 && a.s1 == 0 && a.s2 == 0 && a.s3 == 0
}

/// The IETF Protocol Assignments block `2001::/23`.
pub open spec fn spec_is_ietf_protocol_block(a: Ipv6Address) -> bool {
    a.s0 == 0x2001 && a.s1 < 0x200
}

/// The Port Control Protocol anycast address `2001:1::1`.
pub open spec fn spec_is_pcp_anycast(a: Ipv6Address) -> bool {
    a.s0 == 0x2001 && a.s1 == 1 && a.s2 == 0 && a.s3 == 0 && a.s4 == 0 && a.s5 == 0 && a.s6 == 0
        && a.s7 == 1
}

/// The TURN anycast address `2001:1::2`.
pub open spec fn spec_is_turn_anycast(a: Ipv6Address) -> bool {
    a.s0 == 0x2001 && a.s1 == 1 && a.s2 == 0 && a.s3 == 0 && a.s4 == 0 && a.s5 == 0 && a.s6 == 0
        && a.s7 == 2
}

/// The AMT block `2001:3::/32`.
pub open spec fn spec_is_amt(a: Ipv6Address) -> bool {
    a.s0 == 0x2001 && a.s1 == 3
}

/// The AS112-v6 block `2001:4:112::/48`.
pub open spec fn spec_is_as112v6(a: Ipv6Address) -> bool {
    a.s0 == 0x2001 && a.s1 == 4 && a.s2 == 0x112
}

/// The ORCHIDv2 block `2001:20::/28`: second group in `[0x20, 0x2f]`.
pub open spec fn spec_is_orchid2(a: Ipv6Address) -> bool {
    a.s0 == 0x2001 && 0x20 <= a.s1 && a.s1 <= 0x2f
}

/// The address is globally routable: none of the reserved or special-purpose
/// blocks, except for the carve-outs inside the IETF Protocol Assignments
/// block that are globally routable after all.
pub open spec fn spec_is_global(a: Ipv6Address) -> bool {
    !(spec_is_unspecified(a) || spec_is_loopback(a) || spec_is_ipv4_mapped(a)
        || spec_is_ipv4_ipv6_translation(a) || spec_is_discard_only(a) || (
    spec_is_ietf_protocol_block(a) && !(spec_is_pcp_anycast(a) || spec_is_turn_anycast(a)
        || spec_is_amt(a) || spec_is_as112v6(a) || spec_is_orchid2(a))))
}

/// Global and neither unique-local nor unicast link-local: the address is
/// routable on the public internet.
pub open spec fn spec_is_global_external(a: Ipv6Address) -> bool {
    spec_is_global(a) && !spec_is_unique_local(a) && !spec_is_unicast_link_local(a)
}

/// Decides membership in the unicast link-local block `fe80::/10`.
pub fn is_unicast_link_local(addr: Ipv6Address) -> (r: bool)
    ensures
        r == spec_is_unicast_link_local(addr),
{
    (addr.s0 & 0xffc0) == 0xfe80
}

/// Decides membership in the unique-local block `fc00::/7`.
pub fn is_unique_local(addr: Ipv6Address) -> (r: bool)
    ensures
        r == spec_is_unique_local(addr),
{
    (addr.s0 & 0xfe00) == 0xfc00
}

/// Decides whether the address is globally routable, reproducing the
/// special-purpose registry exclusions and their carve-out exceptions.
pub fn is_global(addr: Ipv6Address) -> (r: bool)
    ensures
        r == spec_is_global(addr),
{
    let unspecified = addr.s0 == 0 && addr.s1 == 0 && addr.s2 == 0 && addr.s3 == 0 && addr.s4 == 0
        && addr.s5 == 0 && addr.s6 == 0 && addr.s7 == 0;
    let loopback = addr.s0 == 0 && addr.s1 == 0 && addr.s2 == 0 && addr.s3 == 0 && addr.s4 == 0
        && addr.s5 == 0 && addr.s6 == 0 && addr.s7 == 1;
    let ipv4_mapped = addr.s0 == 0 && addr.s1 == 0 && addr.s2 == 0 && addr.s3 == 0 && addr.s4 == 0
        && addr.s5 == 0xffff;
    let ipv4_ipv6_translation = addr.s0 == 0x64 && addr.s1 == 0xff9b && addr.s2 == 1;
    let discard_only = addr.s0 == 0x100 && addr.s1 == 0 && addr.s2 == 0 && addr.s3 == 0;
    let ietf_block = addr.s0 == 0x2001 && addr.s1 < 0x200;
    let pcp_anycast = addr.s0 == 0x2001 && addr.s1 == 1 && addr.s2 == 0 && addr.s3 == 0
        && addr.s4 == 0 && addr.s5 == 0 && addr.s6 == 0 && addr.s7 == 1;
    let turn_anycast = addr.s0 == 0x2001 && addr.s1 == 1 && addr.s2 == 0 && addr.s3 == 0
        && addr.s4 == 0 && addr.s5 == 0 && addr.s6 == 0 && addr.s7 == 2;
    let amt = addr.s0 == 0x2001 && addr.s1 == 3;
    let as112v6 = addr.s0 == 0x2001 && addr.s1 == 4 && addr.s2 == 0x112;
    let orchid2 = addr.s0 == 0x2001 && 0x20 <= addr.s1 && addr.s1 <= 0x2f;
    !(unspecified || loopback || ipv4_mapped || ipv4_ipv6_translation || discard_only || (
    ietf_block && !(pcp_anycast || turn_anycast || amt || as112v6 || orchid2)))
}

/// Decides whether the address is global-external: globally routable and
/// neither unique-local nor unicast link-local.
pub fn is_global_external(addr: Ipv6Address) -> (r: bool)
    ensures
        r == spec_is_global_external(addr),
{
    is_global(addr) && !is_unique_local(addr) && !is_unicast_link_local(addr)
}

/// Every address in `fe80::/10` is not global-external.
pub proof fn lemma_link_local_never_global_external(a: Ipv6Address)
    requires
        (a.s0 & 0xffc0) == 0xfe80,
    ensures
        !spec_is_global_external(a),
{
}

/// Every address in `fc00::/7` is not global-external.
pub proof fn lemma_unique_local_never_global_external(a: Ipv6Address)
    requires
        (a.s0 & 0xfe00) == 0xfc00,
    ensures
        !spec_is_global_external(a),
{
}

/// Inside the IETF Protocol Assignments block `2001::/23`, every address
/// outside the carved-out exceptions is not global-external.
pub proof fn lemma_ietf_block_not_global_external(a: Ipv6Address)
    requires
        a.s0 == 0x2001,
        a.s1 < 0x200,
        !spec_is_pcp_anycast(a),
        !spec_is_turn_anycast(a),
        !spec_is_amt(a),
        !spec_is_as112v6(a),
        !spec_is_orchid2(a),
    ensures
        !spec_is_global_external(a),
{
}

/// Every address in the ORCHIDv2 block (first group `2001`, second group in
/// `[0x20, 0x2f]`) is global-external.
pub proof fn lemma_orchid2_global_external(a: Ipv6Address)
    requires
        a.s0 == 0x2001,
        0x20 <= a.s1,
        a.s1 <= 0x2f,
    ensures
        spec_is_global_external(a),
{
    assert((0x2001u16 & 0xfe00) != 0xfc00) by (bit_vector);
    assert((0x2001u16 & 0xffc0) != 0xfe80) by (bit_vector);
}

} // verus!
