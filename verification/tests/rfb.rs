use rfb_core::rfb::{
    parse_offered_version, security_type_code, security_type_from_code, select_security_type,
    RfbVersion, SecurityType,
};

#[test]
fn version_exact_literals() {
    assert_eq!(parse_offered_version(b"RFB 003.008\n"), RfbVersion::Rfb38);
    assert_eq!(parse_offered_version(b"RFB 003.003\n"), RfbVersion::Rfb33);
    assert_eq!(parse_offered_version(b"RFB 003.007\n"), RfbVersion::Rfb37);
}

#[test]
fn version_wrong_length() {
    assert_eq!(parse_offered_version(b"RFB 003.008"), RfbVersion::Unsupported);
    assert_eq!(parse_offered_version(b""), RfbVersion::Unsupported);
    assert_eq!(parse_offered_version(b"RFB 003.008\n\n"), RfbVersion::Unsupported);
}

#[test]
fn version_wrong_prefix() {
    assert_eq!(parse_offered_version(b"RFC 003.008\n"), RfbVersion::Unsupported);
    assert_eq!(parse_offered_version(b"rfb 003.008\n"), RfbVersion::Unsupported);
}

#[test]
fn version_non_digit_fields() {
    assert_eq!(parse_offered_version(b"RFB 0a3.008\n"), RfbVersion::Unsupported);
    assert_eq!(parse_offered_version(b"RFB 003.0x8\n"), RfbVersion::Unsupported);
}

#[test]
fn version_wrong_separator() {
    assert_eq!(parse_offered_version(b"RFB 003:008\n"), RfbVersion::Unsupported);
}

#[test]
fn version_unknown_numbers() {
    assert_eq!(parse_offered_version(b"RFB 003.009\n"), RfbVersion::Unsupported);
    assert_eq!(parse_offered_version(b"RFB 004.008\n"), RfbVersion::Unsupported);
    // A large major must not be mistaken for a small one.
    assert_eq!(parse_offered_version(b"RFB 259.008\n"), RfbVersion::Unsupported);
}

#[test]
fn selection_single_offers() {
    assert_eq!(select_security_type(&[1]), SecurityType::NoAuth);
    assert_eq!(select_security_type(&[2]), SecurityType::VncAuth);
}

#[test]
fn selection_prefers_no_auth_in_either_order() {
    assert_eq!(select_security_type(&[1, 2]), SecurityType::NoAuth);
    assert_eq!(select_security_type(&[2, 1]), SecurityType::NoAuth);
}

#[test]
fn selection_nothing_suitable() {
    assert_eq!(select_security_type(&[]), SecurityType::Invalid);
    assert_eq!(select_security_type(&[5, 16, 0]), SecurityType::Invalid);
}

#[test]
fn selection_ignores_unknown_codes() {
    assert_eq!(select_security_type(&[5, 2, 7]), SecurityType::VncAuth);
    assert_eq!(select_security_type(&[5, 2, 1]), SecurityType::NoAuth);
}

#[test]
fn wire_codes_round_trip() {
    for t in [SecurityType::Invalid, SecurityType::NoAuth, SecurityType::VncAuth] {
        assert_eq!(security_type_from_code(security_type_code(t)), t);
    }
    assert_eq!(security_type_code(SecurityType::NoAuth), 1);
    assert_eq!(security_type_code(SecurityType::VncAuth), 2);
    assert_eq!(security_type_from_code(99), SecurityType::Invalid);
}
