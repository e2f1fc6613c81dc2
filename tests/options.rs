use dhcpv6::{parse_dhcpv6_option, parse_dhcpv6_options, DHCPv6Option, DecodeError, LengthRule};

#[test]
fn test_valid_option_client_id() {
    let input = b"\x00\x01\x00\x04toto";
    assert_eq!(
        parse_dhcpv6_option(&input[..]),
        Ok((&b""[..], DHCPv6Option::CliendID { duid: b"toto".to_vec() }))
    );
}

#[test]
fn test_valid_option_server_id() {
    let input = b"\x00\x02\x00\x04toto";
    assert_eq!(
        parse_dhcpv6_option(&input[..]),
        Ok((&b""[..], DHCPv6Option::ServerID { duid: b"toto".to_vec() }))
    );
}

#[test]
fn test_valid_option_ia_na() {
    let input = b"\x00\x03\x00\x10\x00\x00\x00\x01\x01\x23\x45\x67\x89\xab\xcd\xeftoto";
    assert_eq!(
        parse_dhcpv6_option(&input[..]),
        Ok((
            &b""[..],
            DHCPv6Option::IdentityAssociationForNonTemporaryAddresses {
                id: 1,
                time_1: 0x01234567,
                time_2: 0x89abcdef,
                options: b"toto".to_vec()
            }
        ))
    );
}

#[test]
fn test_valid_option_ia_ta() {
    let input = b"\x00\x04\x00\x08\x00\x00\x00\x01toto";
    assert_eq!(
        parse_dhcpv6_option(&input[..]),
        Ok((
            &b""[..],
            DHCPv6Option::IdentityAssociationForTemporaryAddresses { id: 1, options: b"toto".to_vec() }
        ))
    );
}

#[test]
fn test_valid_option_ia() {
    let input = b"\x00\x05\x00\x1c\
                \x00\x00\x00\x00\x00\x00\x00\x00\x00\x00\x00\x00\x00\x00\x00\x01\
                \xff\xff\xff\xff\xff\xff\xff\xff\
                toto";
    assert_eq!(
        parse_dhcpv6_option(&input[..]),
        Ok((
            &b""[..],
            DHCPv6Option::IdentityAssociationAddress {
                // the loopback address ::1
                address: 1,
                prefered_lifetime: 0xffffffff,
                valid_lifetime: 0xffffffff,
                options: b"toto".to_vec(),
            }
        ))
    );
}

#[test]
fn test_valid_option_option_request() {
    let input = b"\x00\x06\x00\x02\x13\x37";
    assert_eq!(
        parse_dhcpv6_option(&input[..]),
        Ok((&b""[..], DHCPv6Option::OptionRequest { options: vec![0x1337u16] }))
    );
}

#[test]
fn test_valid_option_preference() {
    let input = b"\x00\x07\x00\x01\x01";
    assert_eq!(parse_dhcpv6_option(&input[..]), Ok((&b""[..], DHCPv6Option::Preference { pref_value: 1 })));
}

#[test]
fn test_valid_option_elapsted_time() {
    let input = b"\x00\x08\x00\x02\x00\x01";
    assert_eq!(
        parse_dhcpv6_option(&input[..]),
        Ok((&b""[..], DHCPv6Option::ElapstedTime { elapsed_time: 1 }))
    );
}

#[test]
fn test_valid_option_relay_message() {
    let input = b"\x00\x09\x00\x04toto";
    assert_eq!(
        parse_dhcpv6_option(&input[..]),
        Ok((&b""[..], DHCPv6Option::RelayMessage { data: b"toto".to_vec() }))
    );
}

#[test]
fn test_valid_option_authentication() {
    let input = b"\x00\x0b\x00\x0f\x01\x01\x01\x00\x00\x00\x00\x00\x00\x00\x01toto";
    assert_eq!(
        parse_dhcpv6_option(&input[..]),
        Ok((
            &b""[..],
            DHCPv6Option::Authentication {
                protocol: 1,
                algorithm: 1,
                rdm: 1,
                replay_detection: 1,
                authentication_information: b"toto".to_vec()
            }
        ))
    );
}

#[test]
fn test_valid_option_server_unicast() {
    let input = b"\x00\x0c\x00\x10\x00\x00\x00\x00\x00\x00\x00\x00\x00\x00\x00\x00\x00\x00\x00\x01";
    assert_eq!(
        parse_dhcpv6_option(&input[..]),
        // the loopback address ::1
        Ok((&b""[..], DHCPv6Option::ServerUnicast { address: 1 }))
    );
}

#[test]
fn test_valid_option_status_code() {
    let input = b"\x00\x0d\x00\x06\x00\x01toto";
    assert_eq!(
        parse_dhcpv6_option(&input[..]),
        Ok((&b""[..], DHCPv6Option::StatusCode { code: 1, message: "toto".to_string() }))
    );
}

#[test]
fn test_valid_option_rapid_commit() {
    let input = b"\x00\x0e\x00\x00";
    assert_eq!(parse_dhcpv6_option(&input[..]), Ok((&b""[..], DHCPv6Option::RapidCommit {})));
}

#[test]
fn test_valid_option_user_class() {
    let input = b"\x00\x0f\x00\x04toto";
    assert_eq!(
        parse_dhcpv6_option(&input[..]),
        Ok((&b""[..], DHCPv6Option::UserClass { data: b"toto".to_vec() }))
    );
}

#[test]
fn test_valid_option_vendor_class() {
    let input = b"\x00\x10\x00\x08\xde\xad\xbe\xeftoto";
    assert_eq!(
        parse_dhcpv6_option(&input[..]),
        Ok((&b""[..], DHCPv6Option::VendorClass { enterprise_number: 0xdeadbeef, data: b"toto".to_vec() }))
    );
}

#[test]
fn test_valid_option_vendor_specific_information() {
    let input = b"\x00\x11\x00\x08\xde\xad\xbe\xeftoto";
    assert_eq!(
        parse_dhcpv6_option(&input[..]),
        Ok((
            &b""[..],
            DHCPv6Option::VendorSpecificInformation { enterprise_number: 0xdeadbeef, data: b"toto".to_vec() }
        ))
    );
}

#[test]
fn test_valid_option_interface_id() {
    let input = b"\x00\x12\x00\x04eth0";
    assert_eq!(
        parse_dhcpv6_option(&input[..]),
        Ok((&b""[..], DHCPv6Option::InterfaceID { data: b"eth0".to_vec() }))
    );
}

#[test]
fn test_valid_option_reconfigure_message() {
    let input = b"\x00\x13\x00\x01\x01";
    assert_eq!(
        parse_dhcpv6_option(&input[..]),
        Ok((&b""[..], DHCPv6Option::ReconfigureMessage { message_type: 1 }))
    );
}

#[test]
fn test_valid_option_reconfigure_accept() {
    let input = b"\x00\x14\x00\x00";
    assert_eq!(parse_dhcpv6_option(&input[..]), Ok((&b""[..], DHCPv6Option::ReconfigureAccept {})));
}

#[test]
fn test_invalid_option_value() {
    let input = b"\x13\x37\x00\x12";
    assert!(parse_dhcpv6_option(&input[..]).is_err());
}

#[test]
fn unknown_option_code_is_named() {
    assert_eq!(parse_dhcpv6_option(&b"\x13\x37\x00\x12"[..]), Err(DecodeError::UnknownOptionCode));
    assert_eq!(parse_dhcpv6_option(&b"\x00\x0a\x00\x00"[..]), Err(DecodeError::UnknownOptionCode));
    assert_eq!(parse_dhcpv6_option(&b"\x00\x00\x00\x00"[..]), Err(DecodeError::UnknownOptionCode));
    assert_eq!(parse_dhcpv6_option(&b"\x00\x15"[..]), Err(DecodeError::UnknownOptionCode));
    assert_eq!(parse_dhcpv6_option(&b"\x01\x01\x00\x00"[..]), Err(DecodeError::UnknownOptionCode));
}

#[test]
fn option_leaves_following_bytes() {
    let input = b"\x00\x07\x00\x01\x05\x00\x0e\x00\x00";
    assert_eq!(
        parse_dhcpv6_option(&input[..]),
        Ok((&b"\x00\x0e\x00\x00"[..], DHCPv6Option::Preference { pref_value: 5 }))
    );
}

#[test]
fn short_options_are_truncated() {
    assert_eq!(parse_dhcpv6_option(&b""[..]), Err(DecodeError::Truncated));
    assert_eq!(parse_dhcpv6_option(&b"\x00"[..]), Err(DecodeError::Truncated));
    assert_eq!(parse_dhcpv6_option(&b"\x00\x01\x00"[..]), Err(DecodeError::Truncated));
    assert_eq!(parse_dhcpv6_option(&b"\x00\x01\x00\x05toto"[..]), Err(DecodeError::Truncated));
    assert_eq!(parse_dhcpv6_option(&b"\x00\x07\x00\x01"[..]), Err(DecodeError::Truncated));
    assert_eq!(parse_dhcpv6_option(&b"\x00\x0b\x00\x0b\x01\x02"[..]), Err(DecodeError::Truncated));
    assert_eq!(parse_dhcpv6_option(&b"\x00\x0c\x00\x10\x00\x00\x00"[..]), Err(DecodeError::Truncated));
}

#[test]
fn length_rules_are_enforced() {
    let cases: [(&[u8], u16, u16, LengthRule); 14] = [
        (b"\x00\x03\x00\x0b", 3, 11, LengthRule::AtLeast(12)),
        (b"\x00\x04\x00\x03", 4, 3, LengthRule::AtLeast(4)),
        (b"\x00\x05\x00\x17", 5, 23, LengthRule::AtLeast(24)),
        (b"\x00\x06\x00\x03", 6, 3, LengthRule::Even),
        (b"\x00\x07\x00\x02", 7, 2, LengthRule::Exactly(1)),
        (b"\x00\x08\x00\x01", 8, 1, LengthRule::Exactly(2)),
        (b"\x00\x0b\x00\x0a", 11, 10, LengthRule::AtLeast(11)),
        (b"\x00\x0c\x00\x0f", 12, 15, LengthRule::Exactly(16)),
        (b"\x00\x0d\x00\x01", 13, 1, LengthRule::AtLeast(2)),
        (b"\x00\x0e\x00\x01", 14, 1, LengthRule::Exactly(0)),
        (b"\x00\x10\x00\x02", 16, 2, LengthRule::AtLeast(4)),
        (b"\x00\x11\x00\x00", 17, 0, LengthRule::AtLeast(4)),
        (b"\x00\x13\x00\x00", 19, 0, LengthRule::Exactly(1)),
        (b"\x00\x14\x00\x02", 20, 2, LengthRule::Exactly(0)),
    ];
    for (input, code, length, rule) in cases {
        assert_eq!(
            parse_dhcpv6_option(input),
            Err(DecodeError::LengthConstraintViolation { code, length, rule })
        );
    }
}

#[test]
fn status_code_text_must_be_utf8() {
    assert_eq!(parse_dhcpv6_option(&b"\x00\x0d\x00\x04\x00\x02\xc3\x28"[..]), Err(DecodeError::InvalidText));
    assert_eq!(parse_dhcpv6_option(&b"\x00\x0d\x00\x03\x00\x02\xff"[..]), Err(DecodeError::InvalidText));
    assert_eq!(
        parse_dhcpv6_option(&b"\x00\x0d\x00\x07\x00\x05caf\xc3\xa9"[..]),
        Ok((&b""[..], DHCPv6Option::StatusCode { code: 5, message: "caf\u{e9}".to_string() }))
    );
    assert_eq!(
        parse_dhcpv6_option(&b"\x00\x0d\x00\x02\x00\x00"[..]),
        Ok((&b""[..], DHCPv6Option::StatusCode { code: 0, message: String::new() }))
    );
}

#[test]
fn option_request_lists_every_code() {
    let input = b"\x00\x06\x00\x06\x00\x17\x00\x18\x12\x34";
    assert_eq!(
        parse_dhcpv6_option(&input[..]),
        Ok((&b""[..], DHCPv6Option::OptionRequest { options: vec![0x17, 0x18, 0x1234] }))
    );
    assert_eq!(
        parse_dhcpv6_option(&b"\x00\x06\x00\x00"[..]),
        Ok((&b""[..], DHCPv6Option::OptionRequest { options: vec![] }))
    );
}

#[test]
fn fields_are_read_big_endian() {
    let input = b"\x00\x05\x00\x18\x20\x01\x0d\xb8\x00\x00\x00\x00\x00\x00\x00\x00\x00\x00\x00\x42\x00\x00\x0e\x10\x00\x00\x1c\x20";
    assert_eq!(
        parse_dhcpv6_option(&input[..]),
        Ok((
            &b""[..],
            DHCPv6Option::IdentityAssociationAddress {
                address: 0x2001_0db8_0000_0000_0000_0000_0000_0042,
                prefered_lifetime: 3600,
                valid_lifetime: 7200,
                options: vec![],
            }
        ))
    );
    assert_eq!(
        parse_dhcpv6_option(&b"\x00\x08\x00\x02\x12\x34"[..]),
        Ok((&b""[..], DHCPv6Option::ElapstedTime { elapsed_time: 0x1234 }))
    );
    assert_eq!(
        parse_dhcpv6_option(&b"\x00\x0b\x00\x0b\x03\x01\x00\x01\x02\x03\x04\x05\x06\x07\x08"[..]),
        Ok((
            &b""[..],
            DHCPv6Option::Authentication {
                protocol: 3,
                algorithm: 1,
                rdm: 0,
                replay_detection: 0x0102030405060708,
                authentication_information: vec![]
            }
        ))
    );
}

#[test]
fn options_region_is_decoded_in_order() {
    let input = b"\x00\x01\x00\x02ab\x00\x0e\x00\x00\x00\x01\x00\x01c";
    assert_eq!(
        parse_dhcpv6_options(&input[..]),
        Ok((
            &b""[..],
            vec![
                DHCPv6Option::CliendID { duid: b"ab".to_vec() },
                DHCPv6Option::RapidCommit {},
                DHCPv6Option::CliendID { duid: b"c".to_vec() },
            ]
        ))
    );
    assert_eq!(parse_dhcpv6_options(&b""[..]), Ok((&b""[..], vec![])));
}

#[test]
fn options_region_must_be_used_up() {
    assert_eq!(parse_dhcpv6_options(&b"\x00\x0e\x00\x00\x00"[..]), Err(DecodeError::TrailingBytes));
    assert_eq!(parse_dhcpv6_options(&b"\x00\x0e\x00\x00\x00\x0e\x00"[..]), Err(DecodeError::TrailingBytes));
    assert_eq!(
        parse_dhcpv6_options(&b"\x00\x0e\x00\x00\x00\x01\x00\x03ab"[..]),
        Err(DecodeError::Truncated)
    );
    assert_eq!(
        parse_dhcpv6_options(&b"\x00\x0e\x00\x00\x00\x0a\x00\x00"[..]),
        Err(DecodeError::UnknownOptionCode)
    );
}

#[test]
fn largest_declared_length_is_accepted() {
    let mut input = vec![0x00u8, 0x0f, 0xff, 0xff];
    input.extend(std::iter::repeat(0x5au8).take(0xffff));
    input.push(0x77);
    let (rest, option) = parse_dhcpv6_option(&input[..]).unwrap();
    assert_eq!(rest, &[0x77u8][..]);
    assert_eq!(option, DHCPv6Option::UserClass { data: vec![0x5a; 0xffff] });
}
