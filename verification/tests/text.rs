use ipv6watch::addr::Ipv6Address;
use ipv6watch::ipv6_group;
use ipv6watch::nl_mgrp;

fn addr(s: [u16; 8]) -> Ipv6Address {
    Ipv6Address::new(s[0], s[1], s[2], s[3], s[4], s[5], s[6], s[7])
}

fn text(s: [u16; 8]) -> String {
    String::from_utf8(addr(s).canonical_text()).unwrap()
}

#[test]
fn all_zero_groups_compress_to_a_double_colon() {
    assert_eq!(text([0, 0, 0, 0, 0, 0, 0, 0]), "::");
}

#[test]
fn loopback_compresses_to_leading_double_colon() {
    assert_eq!(text([0, 0, 0, 0, 0, 0, 0, 1]), "::1");
}

#[test]
fn inner_zero_run_is_compressed() {
    assert_eq!(text([0x2001, 0xdb8, 0, 0, 0, 0, 0, 1]), "2001:db8::1");
    assert_eq!(text([0x2606, 0x4700, 0x4700, 0, 0, 0, 0, 0x1111]), "2606:4700:4700::1111");
}

#[test]
fn trailing_zero_run_is_compressed() {
    assert_eq!(text([0x2001, 0xdb8, 0, 0, 0, 0, 0, 0]), "2001:db8::");
}

#[test]
fn leading_zero_run_is_compressed() {
    assert_eq!(text([0, 0, 2, 3, 4, 5, 6, 7]), "::2:3:4:5:6:7");
}

#[test]
fn a_single_zero_group_is_not_compressed() {
    assert_eq!(text([0x2001, 0xdb8, 0, 1, 1, 1, 1, 1]), "2001:db8:0:1:1:1:1:1");
}

#[test]
fn no_zero_groups_means_no_compression() {
    assert_eq!(text([1, 2, 3, 4, 5, 6, 7, 8]), "1:2:3:4:5:6:7:8");
}

#[test]
fn the_leftmost_of_two_equal_runs_is_compressed() {
    assert_eq!(text([0x2001, 0, 0, 1, 0, 0, 1, 1]), "2001::1:0:0:1:1");
}

#[test]
fn the_longest_run_wins_over_an_earlier_shorter_one() {
    assert_eq!(text([1, 0, 0, 2, 0, 0, 0, 3]), "1:0:0:2::3");
}

#[test]
fn groups_are_lower_case_hexadecimal_without_leading_zeros() {
    assert_eq!(text([0xabcd, 0xef01, 0xb8, 0xf, 1, 0x10, 0x100, 0x1000]), "abcd:ef01:b8:f:1:10:100:1000");
    assert_eq!(text([0xffff, 0xffff, 0xffff, 0xffff, 0xffff, 0xffff, 0xffff, 0xffff]),
        "ffff:ffff:ffff:ffff:ffff:ffff:ffff:ffff");
}

#[test]
fn the_ipv6_address_group_mask_is_bit_eight() {
    assert_eq!(ipv6_group(), 0x100);
}

#[test]
fn group_masks_follow_the_group_number() {
    assert_eq!(nl_mgrp(0), 0);
    assert_eq!(nl_mgrp(1), 1);
    assert_eq!(nl_mgrp(9), 0x100);
    assert_eq!(nl_mgrp(31), 1 << 30);
}
