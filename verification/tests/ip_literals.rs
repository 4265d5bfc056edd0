use tls_bootstrap::ip::{
    field_bounds, group_at, octet_at, parse_group_list, parse_ip_address, parse_ipv4, parse_ipv6,
    IpAddress,
};

#[test]
fn ipv4_loopback_is_read_in_network_order() {
    assert_eq!(parse_ipv4(b"127.0.0.1"), Some(0x7f00_0001));
    assert_eq!(parse_ip_address("127.0.0.1"), Some(IpAddress::V4(0x7f00_0001)));
}

#[test]
fn ipv4_bounds_of_the_octets() {
    assert_eq!(parse_ipv4(b"0.0.0.0"), Some(0));
    assert_eq!(parse_ipv4(b"255.255.255.255"), Some(0xffff_ffff));
    assert_eq!(parse_ipv4(b"192.0.2.128"), Some(0xc000_0280));
    assert_eq!(parse_ipv4(b"256.0.0.1"), None);
    assert_eq!(parse_ipv4(b"1.2.3.999"), None);
}

#[test]
fn ipv4_wants_exactly_four_octets() {
    assert_eq!(parse_ipv4(b""), None);
    assert_eq!(parse_ipv4(b"1"), None);
    assert_eq!(parse_ipv4(b"1.2.3"), None);
    assert_eq!(parse_ipv4(b"1.2.3.4.5"), None);
    assert_eq!(parse_ipv4(b"1..2.3"), None);
    assert_eq!(parse_ipv4(b".1.2.3"), None);
    assert_eq!(parse_ipv4(b"1.2.3."), None);
}

#[test]
fn ipv4_refuses_leading_zeros_and_other_bytes() {
    assert_eq!(parse_ipv4(b"01.2.3.4"), None);
    assert_eq!(parse_ipv4(b"1.2.3.04"), None);
    assert_eq!(parse_ipv4(b"00.0.0.0"), None);
    assert_eq!(parse_ipv4(b"1.2.3.0004"), None);
    assert_eq!(parse_ipv4(b"1.2.3.4 "), None);
    assert_eq!(parse_ipv4(b" 1.2.3.4"), None);
    assert_eq!(parse_ipv4(b"1.2.3.a"), None);
    assert_eq!(parse_ipv4(b"1.2.3.-4"), None);
    assert_eq!(parse_ipv4("1.2.3.\u{664}".as_bytes()), None);
}

#[test]
fn octets_and_groups_are_read_from_a_range() {
    assert_eq!(octet_at(b"x255y", 1, 4), Some(255));
    assert_eq!(octet_at(b"x255y", 1, 1), None);
    assert_eq!(octet_at(b"x255y", 0, 4), None);
    assert_eq!(octet_at(b"0", 0, 1), Some(0));
    assert_eq!(group_at(b"ffff", 0, 4), Some(0xffff));
    assert_eq!(group_at(b"FfFf", 0, 4), Some(0xffff));
    assert_eq!(group_at(b"0001", 0, 4), Some(1));
    assert_eq!(group_at(b"00001", 0, 5), None);
    assert_eq!(group_at(b"12g4", 0, 4), None);
    assert_eq!(group_at(b"", 0, 0), None);
}

#[test]
fn fields_are_cut_at_every_separator() {
    assert_eq!(field_bounds(b"", b'.'), vec![(0, 0)]);
    assert_eq!(field_bounds(b"ab", b'.'), vec![(0, 2)]);
    assert_eq!(field_bounds(b"a.bc", b'.'), vec![(0, 1), (2, 4)]);
    assert_eq!(field_bounds(b".a..", b'.'), vec![(0, 0), (1, 2), (3, 3), (4, 4)]);
}

#[test]
fn group_lists_allow_a_dotted_quad_only_where_asked() {
    assert_eq!(parse_group_list(b"", false), Some(vec![]));
    assert_eq!(parse_group_list(b"1:2", false), Some(vec![1, 2]));
    assert_eq!(parse_group_list(b"1:1.2.3.4", false), None);
    assert_eq!(parse_group_list(b"1:1.2.3.4", true), Some(vec![1, 0x0102, 0x0304]));
    assert_eq!(parse_group_list(b"1.2.3.4:1", true), None);
    assert_eq!(parse_group_list(b"1:", true), None);
    assert_eq!(parse_group_list(b":1", true), None);
}

#[test]
fn ipv6_full_form() {
    assert_eq!(
        parse_ipv6(b"1:2:3:4:5:6:7:8"),
        Some(0x0001_0002_0003_0004_0005_0006_0007_0008)
    );
    assert_eq!(
        parse_ipv6(b"2001:0db8:85a3:0000:0000:8a2e:0370:7334"),
        Some(0x2001_0db8_85a3_0000_0000_8a2e_0370_7334)
    );
    assert_eq!(
        parse_ipv6(b"ABCD:EF01:2345:6789:abcd:ef01:2345:6789"),
        Some(0xabcd_ef01_2345_6789_abcd_ef01_2345_6789)
    );
    assert_eq!(parse_ipv6(b"1:2:3:4:5:6:7"), None);
    assert_eq!(parse_ipv6(b"1:2:3:4:5:6:7:8:9"), None);
    assert_eq!(parse_ipv6(b"1:2:3:4:5:6:7:12345"), None);
    assert_eq!(parse_ipv6(b"1:2:3:4:5:6:7:g"), None);
}

#[test]
fn ipv6_compressed_form() {
    assert_eq!(parse_ipv6(b"::"), Some(0));
    assert_eq!(parse_ipv6(b"::1"), Some(1));
    assert_eq!(parse_ipv6(b"1::"), Some(1u128 << 112));
    assert_eq!(parse_ipv6(b"2001:db8::1"), Some(0x2001_0db8_0000_0000_0000_0000_0000_0001));
    assert_eq!(parse_ipv6(b"fe80::1:2"), Some(0xfe80_0000_0000_0000_0000_0000_0001_0002));
    assert_eq!(parse_ipv6(b"1:2:3:4:5:6:7::"), Some(0x0001_0002_0003_0004_0005_0006_0007_0000));
    assert_eq!(parse_ipv6(b"::1:2:3:4:5:6:7"), Some(0x0000_0001_0002_0003_0004_0005_0006_0007));
    assert_eq!(parse_ipv6(b"1:2:3::5:6:7:8"), Some(0x0001_0002_0003_0000_0005_0006_0007_0008));
}

#[test]
fn ipv6_double_colon_stands_for_at_least_one_group_and_comes_once() {
    assert_eq!(parse_ipv6(b"1:2:3:4::5:6:7:8"), None);
    assert_eq!(parse_ipv6(b"1:2:3:4:5:6:7:8::"), None);
    assert_eq!(parse_ipv6(b"::1:2:3:4:5:6:7:8"), None);
    assert_eq!(parse_ipv6(b"1::2::3"), None);
    assert_eq!(parse_ipv6(b":::"), None);
    assert_eq!(parse_ipv6(b"1:::2"), None);
    assert_eq!(parse_ipv6(b"::1::"), None);
}

#[test]
fn ipv6_refuses_stray_colons_and_other_bytes() {
    assert_eq!(parse_ipv6(b""), None);
    assert_eq!(parse_ipv6(b":"), None);
    assert_eq!(parse_ipv6(b":1"), None);
    assert_eq!(parse_ipv6(b"1:"), None);
    assert_eq!(parse_ipv6(b"::1:"), None);
    assert_eq!(parse_ipv6(b":1::"), None);
    assert_eq!(parse_ipv6(b"fe80::1%eth0"), None);
    assert_eq!(parse_ipv6(b"[::1]"), None);
    assert_eq!(parse_ipv6(b"::1 "), None);
    assert_eq!(parse_ipv6(b"12345::"), None);
}

#[test]
fn ipv6_with_an_ipv4_tail() {
    assert_eq!(parse_ipv6(b"::ffff:192.0.2.128"), Some(0xffff_c000_0280));
    assert_eq!(parse_ipv6(b"::1.2.3.4"), Some(0x0102_0304));
    assert_eq!(
        parse_ipv6(b"1:2:3:4:5:6:1.2.3.4"),
        Some(0x0001_0002_0003_0004_0005_0006_0102_0304)
    );
    assert_eq!(parse_ipv6(b"64:ff9b::255.255.255.255"), Some(0x0064_ff9b_0000_0000_0000_0000_ffff_ffff));
    assert_eq!(parse_ipv6(b"1:2:3:4:5:6:7:1.2.3.4"), None);
    assert_eq!(parse_ipv6(b"1:2:3:4:5:1.2.3.4"), None);
    assert_eq!(parse_ipv6(b"1.2.3.4::"), None);
    assert_eq!(parse_ipv6(b"1.2.3.4::1"), None);
    assert_eq!(parse_ipv6(b"::1.2.3.4:1"), None);
    assert_eq!(parse_ipv6(b"1:2:3:4:5:6::1.2.3.4"), None);
    assert_eq!(parse_ipv6(b"::01.2.3.4"), None);
    assert_eq!(parse_ipv6(b"1.2.3.4"), None);
}

#[test]
fn an_ip_literal_is_either_form() {
    assert_eq!(parse_ip_address("10.0.0.1"), Some(IpAddress::V4(0x0a00_0001)));
    assert_eq!(parse_ip_address("::1"), Some(IpAddress::V6(1)));
    assert_eq!(parse_ip_address("localhost"), None);
    assert_eq!(parse_ip_address("not-an-ip"), None);
    assert_eq!(parse_ip_address("127.0.0.1:8443"), None);
    assert_eq!(parse_ip_address(""), None);
}
