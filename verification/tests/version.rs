use embedded_runner::version::{is_simple_u8, optional_str, parse_simple_u8, Version};

#[test]
fn test_parse_simple_u8() {
    for value in 0..=255u8 {
        assert_eq!(parse_simple_u8(&value.to_string()), value);
    }
}

#[test]
fn parse_simple_u8_with_leading_zeros() {
    assert_eq!(parse_simple_u8("007"), 7);
    assert_eq!(parse_simple_u8("0"), 0);
    assert_eq!(parse_simple_u8("255"), 255);
}

#[test]
fn simple_u8_accepts_only_small_decimals() {
    assert!(is_simple_u8("0"));
    assert!(is_simple_u8("42"));
    assert!(is_simple_u8("255"));
    assert!(is_simple_u8("0255"));
    assert!(!is_simple_u8(""));
    assert!(!is_simple_u8("256"));
    assert!(!is_simple_u8("1000"));
    assert!(!is_simple_u8("12a"));
    assert!(!is_simple_u8("-1"));
    assert!(!is_simple_u8(" 1"));
    assert!(!is_simple_u8("99999999999999999999"));
    for value in 0..=255u8 {
        assert!(is_simple_u8(&value.to_string()));
    }
}

#[test]
fn optional_str_maps_empty_to_none() {
    assert_eq!(optional_str(""), None);
    assert_eq!(optional_str("rc.1"), Some("rc.1"));
}

#[test]
fn from_env_parses_each_field() {
    let v = Version::from_env("1", "20", "3", "");
    assert_eq!(v, Version { major: 1, minor: 20, patch: 3, pre: None });
    let v = Version::from_env("0", "9", "12", "alpha");
    assert_eq!(v, Version { major: 0, minor: 9, patch: 12, pre: Some("alpha") });
}

#[test]
fn encode_packs_fields() {
    let v = Version { major: 1, minor: 2, patch: 3, pre: None };
    assert_eq!(v.encode(), (1 << 22) | (2 << 6) | 3);
    assert_eq!(v.encode(), 4_194_435);
    let max = Version { major: 255, minor: 255, patch: 63, pre: None };
    assert_eq!(max.encode(), 0x3FC0_3FFF);
    let zero = Version { major: 0, minor: 0, patch: 0, pre: Some("x") };
    assert_eq!(zero.encode(), 0);
}

#[test]
fn encode_follows_release_order() {
    let a = Version { major: 1, minor: 255, patch: 63, pre: None };
    let b = Version { major: 2, minor: 0, patch: 0, pre: None };
    assert!(a.encode() < b.encode());
    let c = Version { major: 2, minor: 0, patch: 1, pre: None };
    assert!(b.encode() < c.encode());
}

#[test]
fn usb_release_is_major_minor() {
    let v = Version { major: 1, minor: 2, patch: 3, pre: None };
    assert_eq!(v.usb_release(), 0x0102);
    let v = Version { major: 0xAB, minor: 0xCD, patch: 0, pre: None };
    assert_eq!(v.usb_release(), 0xABCD);
}

#[test]
fn to_string_writes_version() {
    let v = Version { major: 1, minor: 2, patch: 3, pre: None };
    assert_eq!(v.to_string(), "v1.2.3");
    let v = Version { major: 10, minor: 255, patch: 0, pre: Some("rc.1") };
    assert_eq!(v.to_string(), "v10.255.0-rc.1");
    let v = Version { major: 100, minor: 9, patch: 99, pre: None };
    assert_eq!(v.to_string(), "v100.9.99");
}

#[test]
fn to_string_fields_parse_back() {
    for value in 0..=255u8 {
        let v = Version { major: value, minor: value, patch: value, pre: None };
        let text = v.to_string();
        let field = &text[1..1 + value.to_string().len()];
        assert_eq!(parse_simple_u8(field), value);
    }
}
