use freeradius::{
    decode, decode_payload, encode, encode_payload, AccountTerminationCause, Attribute,
    AttributeKind, AttributeType, Authentic, CompressionType, ConversionError, Ipv4Address,
    Ipv6Address, LoginService, NasPortType, Payload, Protocol, RawAvp, RoutingValue, ServiceType,
    StatusType, TerminationAction,
};

#[test]
fn user_name_encodes_to_its_bytes() {
    let avp = encode(Attribute::UserName("bob".to_string())).unwrap();
    assert_eq!(avp.code, 1);
    assert_eq!(avp.declared_type, AttributeType::String);
    assert_eq!(avp.payload, b"bob".to_vec());
}

#[test]
fn number_encodes_most_significant_byte_first() {
    let avp = encode(Attribute::NasPort(0x0102_0304)).unwrap();
    assert_eq!(avp, RawAvp::new(5, AttributeType::Integer, vec![1, 2, 3, 4]));
    let zero = encode(Attribute::IdleTimeout(0)).unwrap();
    assert_eq!(zero, RawAvp::new(28, AttributeType::Integer, vec![0, 0, 0, 0]));
    let largest = encode(Attribute::AcctInputOctets(u32::MAX)).unwrap();
    assert_eq!(largest, RawAvp::new(42, AttributeType::Integer, vec![255, 255, 255, 255]));
}

#[test]
fn symbol_encodes_as_its_code() {
    let avp = encode(Attribute::ServiceType(ServiceType::Login)).unwrap();
    assert_eq!(avp, RawAvp::new(6, AttributeType::Integer, vec![0, 0, 0, 1]));
    let cause = encode(Attribute::AcctTerminateCause(AccountTerminationCause::HostRequest));
    assert_eq!(cause, Ok(RawAvp::new(49, AttributeType::Integer, vec![0, 0, 0, 18])));
    let authentic = encode(Attribute::AcctAuthentic(Authentic::Remote));
    assert_eq!(authentic, Ok(RawAvp::new(45, AttributeType::Integer, vec![0, 0, 0, 3])));
    let login = encode(Attribute::LoginService(LoginService::Telnet));
    assert_eq!(login, Ok(RawAvp::new(15, AttributeType::Integer, vec![0, 0, 0, 0])));
}

#[test]
fn date_encodes_as_a_date() {
    let avp = encode(Attribute::EventTimestamp(1_600_000_000)).unwrap();
    assert_eq!(avp, RawAvp::new(55, AttributeType::Date, vec![0x5f, 0x5e, 0x10, 0x00]));
    let expiration = encode(Attribute::Expiration(1)).unwrap();
    assert_eq!(expiration, RawAvp::new(21, AttributeType::Date, vec![0, 0, 0, 1]));
}

#[test]
fn addresses_encode_as_their_octets() {
    let v4 = encode(Attribute::FramedIpNetmask(Ipv4Address::new(255, 255, 255, 0))).unwrap();
    assert_eq!(v4, RawAvp::new(9, AttributeType::IpAddress, vec![255, 255, 255, 0]));
    let octets: [u8; 16] = [0xfe, 0x80, 0, 0, 0, 0, 0, 0, 1, 2, 3, 4, 5, 6, 7, 8];
    let v6 = encode(Attribute::FramedIpv6Address(Ipv6Address::new(octets))).unwrap();
    assert_eq!(v6, RawAvp::new(168, AttributeType::Ipv6Addr, octets.to_vec()));
}

#[test]
fn text_longer_than_253_bytes_does_not_encode() {
    let longest = encode(Attribute::ReplyMessage("a".repeat(253))).unwrap();
    assert_eq!(longest.payload.len(), 253);
    let too_long = encode(Attribute::ReplyMessage("a".repeat(254)));
    assert_eq!(too_long, Err(ConversionError::ValueLengthInvalid));
    // 127 characters of two bytes each are 254 bytes
    let wide = encode(Attribute::UserName("é".repeat(127)));
    assert_eq!(wide, Err(ConversionError::ValueLengthInvalid));
    let fits = encode(Attribute::UserName("é".repeat(126))).unwrap();
    assert_eq!(fits.payload.len(), 252);
}

fn samples() -> Vec<Attribute> {
    vec![
        Attribute::UserName("alice".to_string()),
        Attribute::UserPassword("s3cret".to_string()),
        Attribute::ChapPassword(String::new()),
        Attribute::NasIpAddress(Ipv4Address::new(10, 0, 0, 1)),
        Attribute::NasPort(7),
        Attribute::ServiceType(ServiceType::CallbackNasPrompt),
        Attribute::FramedProtocol(Protocol::Xylogics),
        Attribute::FramedIpAddress(Ipv4Address::new(255, 255, 255, 254)),
        Attribute::FramedIpNetmask(Ipv4Address::new(255, 255, 0, 0)),
        Attribute::FramedRouting(RoutingValue::NoRouting),
        Attribute::FramedRouting(RoutingValue::BroadcastListen),
        Attribute::FilterId(11),
        Attribute::FramedMtu(1500),
        Attribute::FramedCompression(CompressionType::IpxHeaderCompression),
        Attribute::LoginIpHost(Ipv4Address::new(0, 0, 0, 0)),
        Attribute::LoginService(LoginService::X25T3pos),
        Attribute::LoginPort(23),
        Attribute::Expiration(0),
        Attribute::State("\u{0}\u{1}opaque".to_string()),
        Attribute::ProxyState("token-1".to_string()),
        Attribute::TerminationAction(TerminationAction::Default),
        Attribute::TerminationAction(TerminationAction::RadiusRequest),
        Attribute::EventTimestamp(u32::MAX),
        Attribute::NasPortType(NasPortType::Virtual),
        Attribute::NasIpv6Address(Ipv6Address::new([0; 16])),
        Attribute::FramedIpv6Prefix("2001:db8::/32".to_string()),
        Attribute::DnsServerIpv6Address(Ipv6Address::new([255; 16])),
        Attribute::RouteIpv6Information("::/0".to_string()),
        Attribute::AcctStatusType(StatusType::AccountingOff),
        Attribute::AcctAuthentic(Authentic::Radius),
        Attribute::AcctTerminateCause(AccountTerminationCause::UserRequest),
        Attribute::AcctOutputGigawords(3),
        Attribute::DigestNonceCount("00000001".to_string()),
        Attribute::UserRealm("példa".to_string()),
    ]
}

#[test]
fn round_trip_gives_the_attribute_back() {
    for attribute in samples() {
        let avp = encode(attribute.clone()).unwrap();
        assert_eq!(decode(avp), Ok(attribute));
    }
}

#[test]
fn encoded_pair_carries_the_line_of_the_dictionary() {
    for attribute in samples() {
        let kind = attribute.kind();
        let avp = encode(attribute).unwrap();
        assert_eq!(avp.code, kind.code());
        assert_eq!(avp.declared_type, kind.wire_type());
    }
}

#[test]
fn payloads_are_read_by_wire_type() {
    assert_eq!(
        decode_payload(AttributeType::String, b"hi".to_vec()),
        Ok(Payload::Text("hi".to_string()))
    );
    assert_eq!(
        decode_payload(AttributeType::Ipv6Prefix, b"hi".to_vec()),
        Ok(Payload::Text("hi".to_string()))
    );
    assert_eq!(decode_payload(AttributeType::Integer, vec![0, 0, 1, 0]), Ok(Payload::Integer(256)));
    assert_eq!(decode_payload(AttributeType::Date, vec![0, 1, 0, 0]), Ok(Payload::Integer(65536)));
    assert_eq!(
        decode_payload(AttributeType::IpAddress, vec![1, 2, 3, 4]),
        Ok(Payload::Ipv4(Ipv4Address::new(1, 2, 3, 4)))
    );
    assert_eq!(
        decode_payload(AttributeType::Ipv6Addr, vec![9; 16]),
        Ok(Payload::Ipv6(Ipv6Address::new([9; 16])))
    );
    assert_eq!(
        decode_payload(AttributeType::IpAddress, vec![9; 16]),
        Err(ConversionError::ValueLengthInvalid)
    );
    assert_eq!(
        decode_payload(AttributeType::String, vec![0x80]),
        Err(ConversionError::InvalidUtf8)
    );
}

#[test]
fn payloads_are_written_by_shape() {
    assert_eq!(encode_payload(Payload::Text("hi".to_string())), Ok(b"hi".to_vec()));
    assert_eq!(encode_payload(Payload::Integer(258)), Ok(vec![0, 0, 1, 2]));
    assert_eq!(encode_payload(Payload::Ipv4(Ipv4Address::new(1, 2, 3, 4))), Ok(vec![1, 2, 3, 4]));
    assert_eq!(encode_payload(Payload::Ipv6(Ipv6Address::new([7; 16]))), Ok(vec![7; 16]));
    assert_eq!(
        encode_payload(Payload::Text("x".repeat(300))),
        Err(ConversionError::ValueLengthInvalid)
    );
}

#[test]
fn attribute_is_built_from_kind_and_payload() {
    assert_eq!(
        Attribute::new(AttributeKind::UserName, Payload::Text("bob".to_string())),
        Ok(Attribute::UserName("bob".to_string()))
    );
    assert_eq!(
        Attribute::new(AttributeKind::ServiceType, Payload::Integer(2)),
        Ok(Attribute::ServiceType(ServiceType::Framed))
    );
    assert_eq!(
        Attribute::new(AttributeKind::ServiceType, Payload::Integer(0)),
        Err(ConversionError::EnumValueOutOfRange)
    );
    assert_eq!(
        Attribute::new(AttributeKind::ServiceType, Payload::Text("2".to_string())),
        Err(ConversionError::TypeMismatch)
    );
    assert_eq!(
        Attribute::new(AttributeKind::UserName, Payload::Integer(1)),
        Err(ConversionError::TypeMismatch)
    );
    assert_eq!(
        Attribute::new(AttributeKind::NasPort, Payload::Ipv4(Ipv4Address::new(1, 2, 3, 4))),
        Err(ConversionError::TypeMismatch)
    );
    assert_eq!(
        Attribute::new(AttributeKind::NasIpAddress, Payload::Ipv6(Ipv6Address::new([0; 16]))),
        Err(ConversionError::TypeMismatch)
    );
    assert_eq!(
        Attribute::new(AttributeKind::NasIpv6Address, Payload::Ipv6(Ipv6Address::new([1; 16]))),
        Ok(Attribute::NasIpv6Address(Ipv6Address::new([1; 16])))
    );
}

#[test]
fn values_come_out_of_attributes() {
    assert_eq!(Attribute::UserName("bob".to_string()).to_string_value(), Some("bob".to_string()));
    assert_eq!(Attribute::NasPort(5).to_string_value(), None);
    assert_eq!(Attribute::NasPort(5).to_int_value(), Some(5));
    assert_eq!(Attribute::ServiceType(ServiceType::Outbound).to_int_value(), Some(5));
    assert_eq!(Attribute::LoginService(LoginService::Lat).to_int_value(), Some(4));
    assert_eq!(
        Attribute::NasIpAddress(Ipv4Address::new(192, 0, 2, 1)).to_int_value(),
        Some(0xc000_0201)
    );
    assert_eq!(Attribute::UserName("bob".to_string()).to_int_value(), None);
    assert_eq!(Attribute::NasIpv6Address(Ipv6Address::new([0; 16])).to_int_value(), None);
    assert_eq!(
        Attribute::NasIpv6Address(Ipv6Address::new([3; 16])).into_payload(),
        Payload::Ipv6(Ipv6Address::new([3; 16]))
    );
    assert_eq!(
        Attribute::AcctStatusType(StatusType::Stop).into_payload(),
        Payload::Integer(2)
    );
}

#[test]
fn attribute_knows_its_code_and_type() {
    let name = Attribute::UserName("bob".to_string());
    assert_eq!(name.to_u64(), Some(1));
    assert_eq!(name.to_i64(), Some(1));
    assert_eq!(name.to_u32(), Some(1));
    assert_eq!(name.attribute_type(), AttributeType::String);
    assert_eq!(name.kind(), AttributeKind::UserName);
    let digest = Attribute::DigestUserName("bob".to_string());
    assert_eq!(digest.to_u64(), Some(1072));
    assert_eq!(digest.to_i64(), Some(1072));
    assert_eq!(digest.to_u32(), Some(1072));
    let port = Attribute::NasPort(77);
    assert_eq!(port.to_u32(), Some(5));
    assert_eq!(port.attribute_type(), AttributeType::Integer);
    let stamp = Attribute::EventTimestamp(77);
    assert_eq!(stamp.attribute_type(), AttributeType::Date);
    let prefix = Attribute::FramedIpv6Prefix(String::new());
    assert_eq!(prefix.attribute_type(), AttributeType::Ipv6Prefix);
}
