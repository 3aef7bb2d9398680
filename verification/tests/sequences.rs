use freeradius::{
    decode_collect, decode_fail_fast, decode_sequence, encode_sequence, Attribute, AttributeType,
    ConversionError, DecodeMode, DecodedSequence, Ipv4Address, RawAvp, ServiceType,
};

fn mixed() -> Vec<RawAvp> {
    vec![
        RawAvp::new(1, AttributeType::String, b"bob".to_vec()),
        RawAvp::new(250, AttributeType::String, b"?".to_vec()),
        RawAvp::new(6, AttributeType::Integer, vec![0, 0, 0, 2]),
    ]
}

#[test]
fn collecting_keeps_the_order_and_counts_the_errors() {
    let outcome = decode_sequence(mixed(), DecodeMode::CollectErrors);
    assert_eq!(
        outcome,
        DecodedSequence::Collected(
            vec![
                Attribute::UserName("bob".to_string()),
                Attribute::ServiceType(ServiceType::Framed),
            ],
            vec![ConversionError::UnknownAttribute],
        )
    );
}

#[test]
fn fail_fast_stops_at_the_first_error() {
    let outcome = decode_sequence(mixed(), DecodeMode::FailFast);
    assert_eq!(outcome, DecodedSequence::FailFast(Err(ConversionError::UnknownAttribute)));
    let avps = vec![
        RawAvp::new(1, AttributeType::String, b"bob".to_vec()),
        RawAvp::new(6, AttributeType::Integer, vec![0, 0, 0, 99]),
        RawAvp::new(250, AttributeType::String, b"?".to_vec()),
        RawAvp::new(5, AttributeType::Integer, vec![0]),
    ];
    assert_eq!(decode_fail_fast(avps), Err(ConversionError::EnumValueOutOfRange));
}

#[test]
fn fail_fast_gives_every_attribute_when_all_decode() {
    let avps = vec![
        RawAvp::new(24, AttributeType::String, b"first".to_vec()),
        RawAvp::new(33, AttributeType::String, b"second".to_vec()),
        RawAvp::new(24, AttributeType::String, b"third".to_vec()),
        RawAvp::new(4, AttributeType::IpAddress, vec![192, 0, 2, 1]),
    ];
    let expected = vec![
        Attribute::State("first".to_string()),
        Attribute::ProxyState("second".to_string()),
        Attribute::State("third".to_string()),
        Attribute::NasIpAddress(Ipv4Address::new(192, 0, 2, 1)),
    ];
    assert_eq!(decode_fail_fast(avps.clone()), Ok(expected.clone()));
    assert_eq!(
        decode_sequence(avps.clone(), DecodeMode::FailFast),
        DecodedSequence::FailFast(Ok(expected.clone()))
    );
    assert_eq!(decode_collect(avps), (expected, Vec::new()));
}

#[test]
fn collecting_reports_every_error_in_order() {
    let avps = vec![
        RawAvp::new(6, AttributeType::Integer, vec![0, 0, 0, 99]),
        RawAvp::new(1, AttributeType::String, b"bob".to_vec()),
        RawAvp::new(1, AttributeType::Integer, vec![0, 0, 0, 1]),
        RawAvp::new(5, AttributeType::Integer, vec![0, 0, 1]),
        RawAvp::new(5, AttributeType::Integer, vec![0, 0, 0, 9]),
        RawAvp::new(2, AttributeType::String, vec![0xff]),
        RawAvp::new(250, AttributeType::String, Vec::new()),
    ];
    let (attributes, errors) = decode_collect(avps);
    assert_eq!(attributes, vec![Attribute::UserName("bob".to_string()), Attribute::NasPort(9)]);
    assert_eq!(
        errors,
        vec![
            ConversionError::EnumValueOutOfRange,
            ConversionError::TypeMismatch,
            ConversionError::ValueLengthInvalid,
            ConversionError::InvalidUtf8,
            ConversionError::UnknownAttribute,
        ]
    );
    assert_eq!(attributes.len() + errors.len(), 7);
}

#[test]
fn empty_sequence_decodes_to_nothing() {
    assert_eq!(decode_fail_fast(Vec::new()), Ok(Vec::new()));
    assert_eq!(decode_collect(Vec::new()), (Vec::new(), Vec::new()));
    assert_eq!(encode_sequence(Vec::new()), Ok(Vec::new()));
}

#[test]
fn sequences_encode_in_order() {
    let attributes = vec![
        Attribute::State("first".to_string()),
        Attribute::NasPort(3),
        Attribute::State("third".to_string()),
    ];
    let avps = encode_sequence(attributes.clone()).unwrap();
    assert_eq!(
        avps,
        vec![
            RawAvp::new(24, AttributeType::String, b"first".to_vec()),
            RawAvp::new(5, AttributeType::Integer, vec![0, 0, 0, 3]),
            RawAvp::new(24, AttributeType::String, b"third".to_vec()),
        ]
    );
    assert_eq!(decode_fail_fast(avps), Ok(attributes));
}

#[test]
fn sequence_with_too_long_text_does_not_encode() {
    let attributes = vec![
        Attribute::NasPort(3),
        Attribute::ReplyMessage("x".repeat(254)),
        Attribute::NasPort(4),
    ];
    assert_eq!(encode_sequence(attributes), Err(ConversionError::ValueLengthInvalid));
}
