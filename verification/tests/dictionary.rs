use freeradius::{
    entries, lookup_by_code, lookup_by_variant, AttributeKind, AttributeType, DictionaryEntry,
};

#[test]
fn user_name_is_code_one() {
    let entry = lookup_by_code(1).unwrap();
    assert_eq!(
        entry,
        DictionaryEntry { code: 1, wire_type: AttributeType::String, kind: AttributeKind::UserName }
    );
    assert_eq!(lookup_by_variant(AttributeKind::UserName), entry);
}

#[test]
fn standard_codes_have_their_attributes() {
    let lines = [
        (2, AttributeType::String, AttributeKind::UserPassword),
        (4, AttributeType::IpAddress, AttributeKind::NasIpAddress),
        (5, AttributeType::Integer, AttributeKind::NasPort),
        (6, AttributeType::Integer, AttributeKind::ServiceType),
        (10, AttributeType::Integer, AttributeKind::FramedRouting),
        (21, AttributeType::Date, AttributeKind::Expiration),
        (24, AttributeType::String, AttributeKind::State),
        (33, AttributeType::String, AttributeKind::ProxyState),
        (40, AttributeType::Integer, AttributeKind::AcctStatusType),
        (49, AttributeType::Integer, AttributeKind::AcctTerminateCause),
        (53, AttributeType::Integer, AttributeKind::AcctOutputGigawords),
        (55, AttributeType::Date, AttributeKind::EventTimestamp),
        (61, AttributeType::Integer, AttributeKind::NasPortType),
        (80, AttributeType::String, AttributeKind::MessageAuthenticator),
        (95, AttributeType::Ipv6Addr, AttributeKind::NasIpv6Address),
        (97, AttributeType::Ipv6Prefix, AttributeKind::FramedIpv6Prefix),
        (168, AttributeType::Ipv6Addr, AttributeKind::FramedIpv6Address),
        (170, AttributeType::Ipv6Prefix, AttributeKind::RouteIpv6Information),
        (206, AttributeType::String, AttributeKind::DigestResponse),
        (222, AttributeType::String, AttributeKind::UserId),
        (1063, AttributeType::String, AttributeKind::DigestRealm),
        (1072, AttributeType::String, AttributeKind::DigestUserName),
    ];
    for (code, wire_type, kind) in lines {
        let entry = DictionaryEntry { code, wire_type, kind };
        assert_eq!(lookup_by_code(code), Some(entry));
        assert_eq!(lookup_by_variant(kind), entry);
        assert_eq!(kind.code(), code);
        assert_eq!(kind.wire_type(), wire_type);
        assert_eq!(AttributeKind::from_code(code), Some(kind));
    }
}

#[test]
fn codes_outside_the_dictionary_give_nothing() {
    for code in [0, 20, 54, 56, 64, 81, 101, 167, 171, 205, 208, 221, 224, 250, 255, 256, 1062, 1073] {
        assert_eq!(lookup_by_code(code), None);
        assert_eq!(AttributeKind::from_code(code), None);
    }
    assert_eq!(lookup_by_code(u32::MAX), None);
}

#[test]
fn every_line_is_found_by_its_code() {
    let mut found = 0;
    for code in 0..2000 {
        if let Some(entry) = lookup_by_code(code) {
            found += 1;
            assert_eq!(entry.code, code);
            assert_eq!(lookup_by_variant(entry.kind), entry);
            assert_eq!(entry.kind.code(), code);
            assert_eq!(entry.kind.wire_type(), entry.wire_type);
        }
    }
    assert_eq!(found, 82);
}

#[test]
fn whole_dictionary_is_listed_by_rising_code() {
    let table = entries();
    assert_eq!(table.len(), 82);
    assert_eq!(table[0], lookup_by_variant(AttributeKind::UserName));
    assert_eq!(table[81], lookup_by_variant(AttributeKind::DigestUserName));
    for pair in table.windows(2) {
        assert!(pair[0].code < pair[1].code);
    }
    for entry in &table {
        assert_eq!(lookup_by_code(entry.code), Some(*entry));
    }
    assert!(table.contains(&lookup_by_variant(AttributeKind::FramedIpv6Prefix)));
}
