use bedrock_client::utils::address::{format_groups, parse_groups, InternetAddress};
use bedrock_client::wire::ByteReader;

#[test]
fn ipv4_wire_form_complements_octets() {
    let a = InternetAddress::new(4, "127.0.0.1".to_string(), 19132);
    assert!(a.is_valid());
    let mut out = Vec::new();
    a.put_address(&mut out);
    assert_eq!(out, vec![4, 0x80, 0xff, 0xff, 0xfe, 0x4a, 0xbc]);
    let mut r = ByteReader::new(&out);
    let b = InternetAddress::get_address(&mut r).unwrap();
    assert_eq!((b.version, b.address.as_str(), b.port), (4, "127.0.0.1", 19132));
}

#[test]
fn ipv6_wire_form() {
    let a = InternetAddress::new(6, "fe80:0:0:0:1:2:abcd:ffff".to_string(), 1);
    assert!(a.is_valid());
    let mut out = Vec::new();
    a.put_address(&mut out);
    assert_eq!(out.len(), 29);
    assert_eq!(&out[..5], &[6, 23, 0, 0, 1]);
    assert_eq!(&out[9..13], &[0xfe, 0x80, 0, 0]);
    assert_eq!(&out[21..25], &[0xab, 0xcd, 0xff, 0xff]);
    let mut r = ByteReader::new(&out);
    let b = InternetAddress::get_address(&mut r).unwrap();
    assert_eq!(b.address, "fe80:0:0:0:1:2:abcd:ffff");
    assert_eq!(b.port, 1);
}

#[test]
fn non_canonical_texts_are_not_addresses() {
    for text in ["127.0.0", "127.0.0.1.5", "256.0.0.1", "01.2.3.4", "1..2.3", "a.b.c.d", " 1.2.3.4", "1.2.3.4 "] {
        assert!(!InternetAddress::new(4, text.to_string(), 0).is_valid(), "{}", text);
    }
    for text in ["::1", "FE80:0:0:0:0:0:0:1", "0:0:0:0:0:0:0:10000", "00:0:0:0:0:0:0:1"] {
        assert!(!InternetAddress::new(6, text.to_string(), 0).is_valid(), "{}", text);
    }
    assert!(!InternetAddress::new(5, "1.2.3.4".to_string(), 0).is_valid());
}

#[test]
fn unknown_version_is_refused_on_read() {
    let bytes = [5u8, 0, 0, 0, 0, 0, 0];
    let mut r = ByteReader::new(&bytes);
    assert!(InternetAddress::get_address(&mut r).is_none());
    assert_eq!(r.offset(), 0);
}

#[test]
fn groups_format_and_parse() {
    assert_eq!(format_groups(&vec![10, 0, 255, 7], 10, '.'), "10.0.255.7");
    assert_eq!(format_groups(&vec![0x2001, 0xdb8, 0, 1], 16, ':'), "2001:db8:0:1");
    assert_eq!(parse_groups("10.0.255.7", 10, '.', 4, 255), Some(vec![10, 0, 255, 7]));
    assert_eq!(parse_groups("2001:db8:0:1", 16, ':', 4, 0xffff), Some(vec![0x2001, 0xdb8, 0, 1]));
    assert_eq!(parse_groups("10.0.255", 10, '.', 4, 255), None);
}
