use playground::access_point::{
    enum_struct, hex_digit, hex_to_bin, is_convertible, render_all, sample_aps, Ap, IpAddrKind,
    V6Format,
};

fn ap(id: i32, name: &str, kind: IpAddrKind, address: &str) -> Ap {
    Ap { id, name: name.to_string(), kind, address: address.to_string() }
}

#[test]
fn every_hex_digit_becomes_four_binary_digits() {
    for c in "0123456789abcdef".chars() {
        let value = c.to_digit(16).unwrap();
        let bin = hex_to_bin(&c.to_string());
        assert_eq!(bin.chars().count(), 4);
        assert_eq!(bin, format!("{:04b}", value));
        assert_eq!(u32::from_str_radix(&bin, 2).unwrap(), value);
    }
    assert_eq!(hex_to_bin("0"), "0000");
    assert_eq!(hex_to_bin("1"), "0001");
    assert_eq!(hex_to_bin("a"), "1010");
    assert_eq!(hex_to_bin("f"), "1111");
}

#[test]
fn upper_case_hex_digits_are_taken_too() {
    for c in "ABCDEF".chars() {
        assert_eq!(hex_to_bin(&c.to_string()), format!("{:04b}", c.to_digit(16).unwrap()));
    }
}

#[test]
fn colons_pass_through() {
    assert_eq!(hex_to_bin(":"), ":");
    assert_eq!(hex_to_bin("::"), "::");
    assert_eq!(hex_to_bin("1:2"), "0001:0010");
    assert_eq!(hex_to_bin(""), "");
}

#[test]
fn hex_digit_agrees_with_the_standard_library() {
    for code in 0u32..0x300 {
        let c = char::from_u32(code).unwrap();
        assert_eq!(hex_digit(c).map(|v| v as u32), c.to_digit(16));
    }
}

#[test]
fn convertible_addresses_hold_hex_digits_and_colons_only() {
    assert!(is_convertible(""));
    assert!(is_convertible("2377:3b49:3ef1:63ab:b003:8a2e:5b4c:3d02"));
    assert!(is_convertible("ABCdef:09"));
    assert!(!is_convertible("127.0.0.1"));
    assert!(!is_convertible("g"));
    assert!(!is_convertible("12 34"));
    assert!(!is_convertible("\u{661}"));
}

#[test]
fn hex_record_keeps_its_address() {
    let record = ap(2, "ACX-01", IpAddrKind::V6(V6Format::Hex), "2377:3b49");
    assert!(record.is_renderable());
    assert_eq!(record.render(), "id: 2, name: ACX-01, kind: IPv6 (Hex), address: 2377:3b49");
}

#[test]
fn bin_record_shows_its_address_in_binary() {
    let record = ap(2, "ACX-01", IpAddrKind::V6(V6Format::Bin), "2377:3b49");
    assert!(record.is_renderable());
    assert_eq!(
        record.render(),
        "id: 2, name: ACX-01, kind: IPv6 (Bin), address: 0010001101110111:0011101101001001"
    );
    assert_eq!(hex_to_bin("2377:3b49"), "0010001101110111:0011101101001001");
}

#[test]
fn other_kinds_render_as_written() {
    assert_eq!(
        ap(-7, "n", IpAddrKind::V4, "not hex at all").render(),
        "id: -7, name: n, kind: IPv4, address: not hex at all"
    );
    assert_eq!(
        ap(9, "x", IpAddrKind::Unspecified, "0.0.0.0").render(),
        "error fetch IP address kind"
    );
    assert_eq!(IpAddrKind::V4.label(), Some("IPv4"));
    assert_eq!(IpAddrKind::V6(V6Format::Hex).label(), Some("IPv6 (Hex)"));
    assert_eq!(IpAddrKind::V6(V6Format::Bin).label(), Some("IPv6 (Bin)"));
    assert_eq!(IpAddrKind::Unspecified.label(), None);
}

#[test]
fn a_bin_record_with_another_character_is_not_renderable() {
    assert!(!ap(1, "a", IpAddrKind::V6(V6Format::Bin), "12g4").is_renderable());
    assert!(ap(1, "a", IpAddrKind::V6(V6Format::Hex), "12g4").is_renderable());
    assert!(ap(1, "a", IpAddrKind::V4, "12g4").is_renderable());
}

#[test]
fn the_batch_is_rendered_line_by_line() {
    let expected = vec![
        "id: 1, name: AC-01, kind: IPv4, address: 127.0.0.1",
        "id: 2, name: ACX-01, kind: IPv6 (Hex), address: 2377:3b49:3ef1:63ab:b003:8a2e:5b4c:3d02",
        "id: 3, name: ACX-01, kind: IPv6 (Bin), address: 0010001101110111:0011101101001001:0011111011110001:0110001110101011:1011000000000011:1000101000101110:0101101101001100:0011110100000010",
        "error fetch IP address kind",
    ];
    assert_eq!(enum_struct(), expected);
    let aps = sample_aps();
    assert_eq!(aps.len(), 4);
    assert_eq!(aps[3].name, "AC-02 --beta");
    assert_eq!(render_all(&aps), expected);
    assert!(render_all(&Vec::new()).is_empty());
}
