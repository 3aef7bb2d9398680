use freeradius::{
    decode, encode, Attribute, AttributeType, ConversionError, Ipv4Address, Ipv6Address, RawAvp,
    ServiceType,
};

#[test]
fn user_name_decodes_from_text() {
    let avp = RawAvp::new(1, AttributeType::String, b"bob".to_vec());
    assert_eq!(decode(avp), Ok(Attribute::UserName("bob".to_string())));
}

#[test]
fn service_type_decodes_to_its_symbol() {
    let avp = RawAvp::new(6, AttributeType::Integer, vec![0, 0, 0, 1]);
    assert_eq!(decode(avp), Ok(Attribute::ServiceType(ServiceType::Login)));
}

#[test]
fn service_type_outside_the_set_is_refused() {
    let avp = RawAvp::new(6, AttributeType::Integer, vec![0, 0, 0, 99]);
    assert_eq!(decode(avp), Err(ConversionError::EnumValueOutOfRange));
}

#[test]
fn nas_ip_address_decodes_and_encodes_to_the_same_bytes() {
    let avp = RawAvp::new(4, AttributeType::IpAddress, vec![192, 0, 2, 1]);
    let attribute = decode(avp.clone()).unwrap();
    assert_eq!(attribute, Attribute::NasIpAddress(Ipv4Address::new(192, 0, 2, 1)));
    let back = encode(attribute).unwrap();
    assert_eq!(back.payload, vec![192, 0, 2, 1]);
    assert_eq!(back, avp);
}

#[test]
fn code_outside_the_dictionary_is_unknown() {
    let avp = RawAvp::new(250, AttributeType::String, b"anything".to_vec());
    assert_eq!(decode(avp), Err(ConversionError::UnknownAttribute));
    let empty = RawAvp::new(250, AttributeType::String, Vec::new());
    assert_eq!(decode(empty), Err(ConversionError::UnknownAttribute));
    let zero = RawAvp::new(0, AttributeType::Integer, vec![0, 0, 0, 0]);
    assert_eq!(decode(zero), Err(ConversionError::UnknownAttribute));
    let callback_id = RawAvp::new(20, AttributeType::String, b"x".to_vec());
    assert_eq!(decode(callback_id), Err(ConversionError::UnknownAttribute));
}

#[test]
fn declared_type_must_be_the_dictionary_type() {
    let as_integer = RawAvp::new(1, AttributeType::Integer, vec![0, 0, 0, 1]);
    assert_eq!(decode(as_integer), Err(ConversionError::TypeMismatch));
    let as_text = RawAvp::new(6, AttributeType::String, vec![0, 0, 0, 1]);
    assert_eq!(decode(as_text), Err(ConversionError::TypeMismatch));
    let as_date = RawAvp::new(5, AttributeType::Date, vec![0, 0, 0, 1]);
    assert_eq!(decode(as_date), Err(ConversionError::TypeMismatch));
    let as_number = RawAvp::new(4, AttributeType::Integer, vec![192, 0, 2, 1]);
    assert_eq!(decode(as_number), Err(ConversionError::TypeMismatch));
    let as_prefix = RawAvp::new(1, AttributeType::Ipv6Prefix, b"bob".to_vec());
    assert_eq!(decode(as_prefix), Err(ConversionError::TypeMismatch));
}

#[test]
fn type_mismatch_comes_before_the_length_is_judged() {
    let avp = RawAvp::new(6, AttributeType::String, vec![0; 300]);
    assert_eq!(decode(avp), Err(ConversionError::TypeMismatch));
}

#[test]
fn integer_of_three_or_five_bytes_is_refused() {
    let three = RawAvp::new(5, AttributeType::Integer, vec![0, 0, 1]);
    assert_eq!(decode(three), Err(ConversionError::ValueLengthInvalid));
    let five = RawAvp::new(5, AttributeType::Integer, vec![0, 0, 0, 0, 1]);
    assert_eq!(decode(five), Err(ConversionError::ValueLengthInvalid));
    let none = RawAvp::new(5, AttributeType::Integer, Vec::new());
    assert_eq!(decode(none), Err(ConversionError::ValueLengthInvalid));
    let symbol = RawAvp::new(6, AttributeType::Integer, vec![0, 0, 1]);
    assert_eq!(decode(symbol), Err(ConversionError::ValueLengthInvalid));
}

#[test]
fn text_of_256_bytes_is_refused() {
    let avp = RawAvp::new(1, AttributeType::String, vec![b'a'; 256]);
    assert_eq!(decode(avp), Err(ConversionError::ValueLengthInvalid));
}

#[test]
fn text_may_be_253_bytes_and_no_more() {
    let longest = RawAvp::new(18, AttributeType::String, vec![b'a'; 253]);
    assert_eq!(decode(longest), Ok(Attribute::ReplyMessage("a".repeat(253))));
    let too_long = RawAvp::new(18, AttributeType::String, vec![b'a'; 254]);
    assert_eq!(decode(too_long), Err(ConversionError::ValueLengthInvalid));
}

#[test]
fn length_is_judged_before_the_text() {
    let avp = RawAvp::new(1, AttributeType::String, vec![0xff; 254]);
    assert_eq!(decode(avp), Err(ConversionError::ValueLengthInvalid));
}

#[test]
fn text_must_be_utf8() {
    let avp = RawAvp::new(1, AttributeType::String, vec![0xff, 0xfe]);
    assert_eq!(decode(avp), Err(ConversionError::InvalidUtf8));
    let truncated = RawAvp::new(1, AttributeType::String, vec![b'a', 0xc3]);
    assert_eq!(decode(truncated), Err(ConversionError::InvalidUtf8));
    let overlong = RawAvp::new(1, AttributeType::String, vec![0xc0, 0x80]);
    assert_eq!(decode(overlong), Err(ConversionError::InvalidUtf8));
    let surrogate = RawAvp::new(1, AttributeType::String, vec![0xed, 0xa0, 0x80]);
    assert_eq!(decode(surrogate), Err(ConversionError::InvalidUtf8));
}

#[test]
fn text_keeps_characters_beyond_ascii() {
    let avp = RawAvp::new(18, AttributeType::String, "grüß dich €".as_bytes().to_vec());
    assert_eq!(decode(avp), Ok(Attribute::ReplyMessage("grüß dich €".to_string())));
}

#[test]
fn empty_text_decodes() {
    let avp = RawAvp::new(24, AttributeType::String, Vec::new());
    assert_eq!(decode(avp), Ok(Attribute::State(String::new())));
}

#[test]
fn integer_is_read_most_significant_byte_first() {
    let avp = RawAvp::new(5, AttributeType::Integer, vec![0x01, 0x02, 0x03, 0x04]);
    assert_eq!(decode(avp), Ok(Attribute::NasPort(0x0102_0304)));
    let largest = RawAvp::new(27, AttributeType::Integer, vec![0xff, 0xff, 0xff, 0xff]);
    assert_eq!(decode(largest), Ok(Attribute::SessionTimeout(u32::MAX)));
}

#[test]
fn dates_are_integers_declared_as_dates() {
    let avp = RawAvp::new(55, AttributeType::Date, vec![0x5f, 0x5e, 0x10, 0x00]);
    assert_eq!(decode(avp), Ok(Attribute::EventTimestamp(0x5f5e_1000)));
    let as_integer = RawAvp::new(55, AttributeType::Integer, vec![0x5f, 0x5e, 0x10, 0x00]);
    assert_eq!(decode(as_integer), Err(ConversionError::TypeMismatch));
    let short = RawAvp::new(21, AttributeType::Date, vec![0, 0]);
    assert_eq!(decode(short), Err(ConversionError::ValueLengthInvalid));
}

#[test]
fn ipv4_address_needs_four_bytes() {
    let short = RawAvp::new(4, AttributeType::IpAddress, vec![192, 0, 2]);
    assert_eq!(decode(short), Err(ConversionError::ValueLengthInvalid));
    let long = RawAvp::new(8, AttributeType::IpAddress, vec![192, 0, 2, 1, 0]);
    assert_eq!(decode(long), Err(ConversionError::ValueLengthInvalid));
}

#[test]
fn ipv6_address_needs_sixteen_bytes() {
    let octets: [u8; 16] = [0x20, 0x01, 0x0d, 0xb8, 0, 0, 0, 0, 0, 0, 0, 0, 0, 0, 0, 1];
    let avp = RawAvp::new(95, AttributeType::Ipv6Addr, octets.to_vec());
    assert_eq!(decode(avp), Ok(Attribute::NasIpv6Address(Ipv6Address::new(octets))));
    let short = RawAvp::new(95, AttributeType::Ipv6Addr, vec![0; 15]);
    assert_eq!(decode(short), Err(ConversionError::ValueLengthInvalid));
    let long = RawAvp::new(168, AttributeType::Ipv6Addr, vec![0; 17]);
    assert_eq!(decode(long), Err(ConversionError::ValueLengthInvalid));
    let four = RawAvp::new(169, AttributeType::Ipv6Addr, vec![0; 4]);
    assert_eq!(decode(four), Err(ConversionError::ValueLengthInvalid));
}

#[test]
fn ipv6_prefix_is_carried_through_as_text() {
    let avp = RawAvp::new(97, AttributeType::Ipv6Prefix, b"2001:db8::/32".to_vec());
    let attribute = decode(avp.clone()).unwrap();
    assert_eq!(attribute, Attribute::FramedIpv6Prefix("2001:db8::/32".to_string()));
    assert_eq!(encode(attribute), Ok(avp));
    let as_text = RawAvp::new(97, AttributeType::String, b"2001:db8::/32".to_vec());
    assert_eq!(decode(as_text), Err(ConversionError::TypeMismatch));
    let too_long = RawAvp::new(170, AttributeType::Ipv6Prefix, vec![b'a'; 254]);
    assert_eq!(decode(too_long), Err(ConversionError::ValueLengthInvalid));
}

#[test]
fn digest_and_merit_codes_are_in_the_dictionary() {
    let realm = RawAvp::new(1063, AttributeType::String, b"example.org".to_vec());
    assert_eq!(decode(realm), Ok(Attribute::DigestRealm("example.org".to_string())));
    let response = RawAvp::new(206, AttributeType::String, b"abc".to_vec());
    assert_eq!(decode(response), Ok(Attribute::DigestResponse("abc".to_string())));
    let user = RawAvp::new(1072, AttributeType::String, b"alice".to_vec());
    assert_eq!(decode(user), Ok(Attribute::DigestUserName("alice".to_string())));
    let id = RawAvp::new(222, AttributeType::String, b"u1".to_vec());
    assert_eq!(decode(id), Ok(Attribute::UserId("u1".to_string())));
    let merit_realm = RawAvp::new(223, AttributeType::String, b"r1".to_vec());
    assert_eq!(decode(merit_realm), Ok(Attribute::UserRealm("r1".to_string())));
}
