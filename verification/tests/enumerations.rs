use freeradius::{
    AccountTerminationCause, AttributeType, Authentic, CompressionType, LoginService, NasPortType,
    ProhibitProtocol, Protocol, RoutingValue, ServiceType, StatusType, TerminationAction,
};

#[test]
fn service_type_codes() {
    let all = [
        (ServiceType::Login, 1),
        (ServiceType::Framed, 2),
        (ServiceType::CallbackLogin, 3),
        (ServiceType::CallbackFramed, 4),
        (ServiceType::Outbound, 5),
        (ServiceType::Administrative, 6),
        (ServiceType::NasPrompt, 7),
        (ServiceType::AuthenticateOnly, 8),
        (ServiceType::CallbackNasPrompt, 9),
    ];
    for (symbol, code) in all {
        assert_eq!(symbol.to_u32(), code);
        assert_eq!(ServiceType::from_u32(code), Some(symbol));
    }
    assert_eq!(ServiceType::from_u32(0), None);
    assert_eq!(ServiceType::from_u32(10), None);
    assert_eq!(ServiceType::from_u32(99), None);
    assert_eq!(ServiceType::from_u32(u32::MAX), None);
}

#[test]
fn protocol_codes() {
    let all = [
        (Protocol::Ppp, 1),
        (Protocol::Slip, 2),
        (Protocol::Ara, 3),
        (Protocol::Gandalf, 4),
        (Protocol::Xylogics, 5),
    ];
    for (symbol, code) in all {
        assert_eq!(symbol.to_u32(), code);
        assert_eq!(Protocol::from_u32(code), Some(symbol));
    }
    assert_eq!(Protocol::from_u32(0), None);
    assert_eq!(Protocol::from_u32(6), None);
}

#[test]
fn routing_value_codes() {
    let all = [
        (RoutingValue::NoRouting, 0),
        (RoutingValue::Broadcast, 1),
        (RoutingValue::Listen, 2),
        (RoutingValue::BroadcastListen, 3),
    ];
    for (symbol, code) in all {
        assert_eq!(symbol.to_u32(), code);
        assert_eq!(RoutingValue::from_u32(code), Some(symbol));
    }
    assert_eq!(RoutingValue::from_u32(4), None);
}

#[test]
fn compression_type_codes() {
    let all = [(CompressionType::VanJacobsenTcpIp, 1), (CompressionType::IpxHeaderCompression, 2)];
    for (symbol, code) in all {
        assert_eq!(symbol.to_u32(), code);
        assert_eq!(CompressionType::from_u32(code), Some(symbol));
    }
    assert_eq!(CompressionType::from_u32(0), None);
    assert_eq!(CompressionType::from_u32(3), None);
}

#[test]
fn login_service_codes() {
    let all = [
        (LoginService::Telnet, 0),
        (LoginService::Rlogin, 1),
        (LoginService::TcpClear, 2),
        (LoginService::Portmaster, 3),
        (LoginService::Lat, 4),
        (LoginService::X25Pad, 5),
        (LoginService::X25T3pos, 6),
    ];
    for (symbol, code) in all {
        assert_eq!(symbol.to_u32(), code);
        assert_eq!(LoginService::from_u32(code), Some(symbol));
    }
    assert_eq!(LoginService::from_u32(7), None);
}

#[test]
fn termination_action_codes() {
    let all = [(TerminationAction::Default, 0), (TerminationAction::RadiusRequest, 1)];
    for (symbol, code) in all {
        assert_eq!(symbol.to_u32(), code);
        assert_eq!(TerminationAction::from_u32(code), Some(symbol));
    }
    assert_eq!(TerminationAction::from_u32(2), None);
}

#[test]
fn prohibit_protocol_codes_are_sparse() {
    let all = [
        (ProhibitProtocol::Dumb, 0),
        (ProhibitProtocol::Ppp, 1),
        (ProhibitProtocol::Slip, 2),
        (ProhibitProtocol::AuthOnly, 3),
        (ProhibitProtocol::All, 255),
    ];
    for (symbol, code) in all {
        assert_eq!(symbol.to_u32(), code);
        assert_eq!(ProhibitProtocol::from_u32(code), Some(symbol));
    }
    for code in 4..255 {
        assert_eq!(ProhibitProtocol::from_u32(code), None);
    }
    assert_eq!(ProhibitProtocol::from_u32(256), None);
}

#[test]
fn status_type_codes() {
    let all = [
        (StatusType::Start, 1),
        (StatusType::Stop, 2),
        (StatusType::Alive, 3),
        (StatusType::ModemStart, 4),
        (StatusType::ModemStop, 5),
        (StatusType::StatusCancel, 6),
        (StatusType::AccountingOn, 7),
        (StatusType::AccountingOff, 8),
    ];
    for (symbol, code) in all {
        assert_eq!(symbol.to_u32(), code);
        assert_eq!(StatusType::from_u32(code), Some(symbol));
    }
    assert_eq!(StatusType::from_u32(0), None);
    assert_eq!(StatusType::from_u32(9), None);
}

#[test]
fn account_termination_cause_codes() {
    let all = [
        (AccountTerminationCause::UserRequest, 1),
        (AccountTerminationCause::LostCarrier, 2),
        (AccountTerminationCause::LostService, 3),
        (AccountTerminationCause::AcctIdleTimeout, 4),
        (AccountTerminationCause::AcctSessionTimeout, 5),
        (AccountTerminationCause::AdminReset, 6),
        (AccountTerminationCause::AdminReboot, 7),
        (AccountTerminationCause::PortError, 8),
        (AccountTerminationCause::NasError, 9),
        (AccountTerminationCause::NasRequest, 10),
        (AccountTerminationCause::NasReboot, 11),
        (AccountTerminationCause::PortUnneeded, 12),
        (AccountTerminationCause::PortPreempted, 13),
        (AccountTerminationCause::PortSuspended, 14),
        (AccountTerminationCause::ServiceUnavailible, 15),
        (AccountTerminationCause::Callback, 16),
        (AccountTerminationCause::UserError, 17),
        (AccountTerminationCause::HostRequest, 18),
    ];
    for (symbol, code) in all {
        assert_eq!(symbol.to_u32(), code);
        assert_eq!(AccountTerminationCause::from_u32(code), Some(symbol));
    }
    assert_eq!(AccountTerminationCause::from_u32(0), None);
    assert_eq!(AccountTerminationCause::from_u32(19), None);
}

#[test]
fn nas_port_type_codes() {
    let all = [
        (NasPortType::Async, 0),
        (NasPortType::Sync, 1),
        (NasPortType::IsdnSync, 2),
        (NasPortType::IsdnSyncV120, 3),
        (NasPortType::IsdnSyncV110, 4),
        (NasPortType::Virtual, 5),
    ];
    for (symbol, code) in all {
        assert_eq!(symbol.to_u32(), code);
        assert_eq!(NasPortType::from_u32(code), Some(symbol));
    }
    assert_eq!(NasPortType::from_u32(6), None);
}

#[test]
fn authentic_codes() {
    let all = [(Authentic::Radius, 1), (Authentic::Local, 2), (Authentic::Remote, 3)];
    for (symbol, code) in all {
        assert_eq!(symbol.to_u32(), code);
        assert_eq!(Authentic::from_u32(code), Some(symbol));
    }
    assert_eq!(Authentic::from_u32(0), None);
    assert_eq!(Authentic::from_u32(4), None);
}

#[test]
fn attribute_type_numbers() {
    let all = [
        (AttributeType::String, 0),
        (AttributeType::Integer, 1),
        (AttributeType::IpAddress, 2),
        (AttributeType::Date, 3),
        (AttributeType::Ipv6Addr, 4),
        (AttributeType::Ipv6Prefix, 5),
    ];
    for (tag, number) in all {
        assert_eq!(tag.to_u32(), number);
        assert_eq!(AttributeType::from_u32(number), Some(tag));
        assert_eq!(AttributeType::from_i32(number as i32), Some(tag));
    }
    assert_eq!(AttributeType::from_u32(6), None);
    assert_eq!(AttributeType::from_i32(6), None);
    assert_eq!(AttributeType::from_i32(-1), None);
    assert_eq!(AttributeType::from_i32(i32::MIN), None);
}
