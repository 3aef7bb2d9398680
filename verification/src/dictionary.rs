//! The attribute dictionary: which numeric code stands for which attribute,
//! and which wire type the attribute's value has.
//!
//! The dictionary is fixed. It holds the standard attributes, the SIP digest
//! attributes and the Merit extensions.

use crate::values::{
    AccountTerminationCause, Authentic, CompressionType, LoginService, NasPortType, Protocol,
    RoutingValue, ServiceType, StatusType, TerminationAction,
};
use crate::wire::AttributeType;
use vstd::prelude::*;

verus! {

/// Names one attribute of the dictionary, apart from any value.
#[derive(Debug, Clone, Copy, PartialEq, Eq, Hash, Structural)]
pub enum AttributeKind {
    /// `User-Name`, code 1.
    UserName,
    /// `User-Password`, code 2.
    UserPassword,
    /// `CHAP-Password`, code 3.
    ChapPassword,
    /// `NAS-IP-Address`, code 4.
    NasIpAddress,
    /// `NAS-Port`, code 5.
    NasPort,
    /// `Service-Type`, code 6.
    ServiceType,
    /// `Framed-Protocol`, code 7.
    FramedProtocol,
    /// `Framed-IP-Address`, code 8.
    FramedIpAddress,
    /// `Framed-IP-Netmask`, code 9.
    FramedIpNetmask,
    /// `Framed-Routing`, code 10.
    FramedRouting,
    /// `Filter-Id`, code 11.
    FilterId,
    /// `Framed-MTU`, code 12.
    FramedMtu,
    /// `Framed-Compression`, code 13.
    FramedCompression,
    /// `Login-IP-Host`, code 14.
    LoginIpHost,
    /// `Login-Service`, code 15.
    LoginService,
    /// `Login-Port`, code 16.
    LoginPort,
    /// `Old-Password`, code 17.
    OldPassword,
    /// `Reply-Message`, code 18.
    ReplyMessage,
    /// `Login-Callback-Number`, code 19.
    LoginCallbackNumber,
    /// `Expiration`, code 21.
    Expiration,
    /// `Framed-Route`, code 22.
    FramedRoute,
    /// `Framed-IPX-Network`, code 23.
    FramedIpxNetwork,
    /// `State`, code 24.
    State,
    /// `Class`, code 25.
    Class,
    /// `Vendor-Specific`, code 26.
    VendorSpecific,
    /// `Session-Timeout`, code 27.
    SessionTimeout,
    /// `Idle-Timeout`, code 28.
    IdleTimeout,
    /// `Termination-Action`, code 29.
    TerminationAction,
    /// `Called-Station-Id`, code 30.
    CalledStationId,
    /// `Calling-Station-Id`, code 31.
    CallingStationId,
    /// `NAS-Identifier`, code 32.
    NasIdentifier,
    /// `Proxy-State`, code 33.
    ProxyState,
    /// `Login-LAT-Service`, code 34.
    LoginLatService,
    /// `Login-LAT-Node`, code 35.
    LoginLatNode,
    /// `Login-LAT-Group`, code 36.
    LoginLatGroup,
    /// `Framed-Appletalk-Link`, code 37.
    FramedAppletalkLink,
    /// `Framed-Appletalk-Network`, code 38.
    FramedAppletalkNetwork,
    /// `Framed-Appletalk-Zone`, code 39.
    FramedAppletalkZone,
    /// `Event-Timestamp`, code 55.
    EventTimestamp,
    /// `CHAP-Challenge`, code 60.
    ChapChallenge,
    /// `NAS-Port-Type`, code 61.
    NasPortType,
    /// `Port-Limit`, code 62.
    PortLimit,
    /// `Login-LAT-Port`, code 63.
    LoginLatPort,
    /// `Connect-Info`, code 77.
    ConnectInfo,
    /// `Message-Authenticator`, code 80.
    MessageAuthenticator,
    /// `NAS-IPv6-Address`, code 95.
    NasIpv6Address,
    /// `Framed-Interface-Id`, code 96.
    FramedInterfaceId,
    /// `Framed-IPv6-Prefix`, code 97.
    FramedIpv6Prefix,
    /// `Login-IPv6-Host`, code 98.
    LoginIpv6Host,
    /// `Framed-IPv6-Route`, code 99.
    FramedIpv6Route,
    /// `Framed-IPv6-Pool`, code 100.
    FramedIpv6Pool,
    /// `Framed-IPv6-Address`, code 168.
    FramedIpv6Address,
    /// `DNS-Server-IPv6-Address`, code 169.
    DnsServerIpv6Address,
    /// `Route-IPv6-Information`, code 170.
    RouteIpv6Information,
    /// `Acct-Status-Type`, code 40.
    AcctStatusType,
    /// `Acct-Delay-Time`, code 41.
    AcctDelayTime,
    /// `Acct-Input-Octets`, code 42.
    AcctInputOctets,
    /// `Acct-Output-Octets`, code 43.
    AcctOutputOctets,
    /// `Acct-Session-Id`, code 44.
    AcctSessionId,
    /// `Acct-Authentic`, code 45.
    AcctAuthentic,
    /// `Acct-Session-Time`, code 46.
    AcctSessionTime,
    /// `Acct-Input-Packets`, code 47.
    AcctInputPackets,
    /// `Acct-Output-Packets`, code 48.
    AcctOutputPackets,
    /// `Acct-Terminate-Cause`, code 49.
    AcctTerminateCause,
    /// `Acct-Multi-Session-Id`, code 50.
    AcctMultiSessionId,
    /// `Acct-Link-Count`, code 51.
    AcctLinkCount,
    /// `Acct-Input-Gigawords`, code 52.
    AcctInputGigawords,
    /// `Acct-Output-Gigawords`, code 53.
    AcctOutputGigawords,
    // SIP digest attributes
    /// `Digest-Response`, code 206.
    DigestResponse,
    /// `Digest-Attributes`, code 207.
    DigestAttributes,
    /// `Digest-Realm`, code 1063.
    DigestRealm,
    /// `Digest-Nonce`, code 1064.
    DigestNonce,
    /// `Digest-Method`, code 1065.
    DigestMethod,
    /// `Digest-URI`, code 1066.
    DigestUri,
    /// `Digest-QOP`, code 1067.
    DigestQop,
    /// `Digest-Algorithm`, code 1068.
    DigestAlgorithm,
    /// `Digest-Body-Digest`, code 1069.
    DigestBodyDigest,
    /// `Digest-CNonce`, code 1070.
    DigestCnonce,
    /// `Digest-Nonce-Count`, code 1071.
    DigestNonceCount,
    /// `Digest-User-Name`, code 1072.
    DigestUserName,
    // Merit extensions
    /// `User-Id`, code 222.
    UserId,
    /// `User-Realm`, code 223.
    UserRealm,
}

impl AttributeKind {
    /// The numeric code that stands for an attribute on the wire.
    pub open spec fn spec_code(self) -> u32 {
        match self {
            AttributeKind::UserName => 1,
            AttributeKind::UserPassword => 2,
            AttributeKind::ChapPassword => 3,
            AttributeKind::NasIpAddress => 4,
            AttributeKind::NasPort => 5,
            AttributeKind::ServiceType => 6,
            AttributeKind::FramedProtocol => 7,
            AttributeKind::FramedIpAddress => 8,
            AttributeKind::FramedIpNetmask => 9,
            AttributeKind::FramedRouting => 10,
            AttributeKind::FilterId => 11,
            AttributeKind::FramedMtu => 12,
            AttributeKind::FramedCompression => 13,
            AttributeKind::LoginIpHost => 14,
            AttributeKind::LoginService => 15,
            AttributeKind::LoginPort => 16,
            AttributeKind::OldPassword => 17,
            AttributeKind::ReplyMessage => 18,
            AttributeKind::LoginCallbackNumber => 19,
            AttributeKind::Expiration => 21,
            AttributeKind::FramedRoute => 22,
            AttributeKind::FramedIpxNetwork => 23,
            AttributeKind::State => 24,
            AttributeKind::Class => 25,
            AttributeKind::VendorSpecific => 26,
            AttributeKind::SessionTimeout => 27,
            AttributeKind::IdleTimeout => 28,
            AttributeKind::TerminationAction => 29,
            AttributeKind::CalledStationId => 30,
            AttributeKind::CallingStationId => 31,
            AttributeKind::NasIdentifier => 32,
            AttributeKind::ProxyState => 33,
            AttributeKind::LoginLatService => 34,
            AttributeKind::LoginLatNode => 35,
            AttributeKind::LoginLatGroup => 36,
            AttributeKind::FramedAppletalkLink => 37,
            AttributeKind::FramedAppletalkNetwork => 38,
            AttributeKind::FramedAppletalkZone => 39,
            AttributeKind::EventTimestamp => 55,
            AttributeKind::ChapChallenge => 60,
            AttributeKind::NasPortType => 61,
            AttributeKind::PortLimit => 62,
            AttributeKind::LoginLatPort => 63,
            AttributeKind::ConnectInfo => 77,
            AttributeKind::MessageAuthenticator => 80,
            AttributeKind::NasIpv6Address => 95,
            AttributeKind::FramedInterfaceId => 96,
            AttributeKind::FramedIpv6Prefix => 97,
            AttributeKind::LoginIpv6Host => 98,
            AttributeKind::FramedIpv6Route => 99,
            AttributeKind::FramedIpv6Pool => 100,
            AttributeKind::FramedIpv6Address => 168,
            AttributeKind::DnsServerIpv6Address => 169,
            AttributeKind::RouteIpv6Information => 170,
            AttributeKind::AcctStatusType => 40,
            AttributeKind::AcctDelayTime => 41,
            AttributeKind::AcctInputOctets => 42,
            AttributeKind::AcctOutputOctets => 43,
            AttributeKind::AcctSessionId => 44,
            AttributeKind::AcctAuthentic => 45,
            AttributeKind::AcctSessionTime => 46,
            AttributeKind::AcctInputPackets => 47,
            AttributeKind::AcctOutputPackets => 48,
            AttributeKind::AcctTerminateCause => 49,
            AttributeKind::AcctMultiSessionId => 50,
            AttributeKind::AcctLinkCount => 51,
            AttributeKind::AcctInputGigawords => 52,
            AttributeKind::AcctOutputGigawords => 53,
            AttributeKind::DigestResponse => 206,
            AttributeKind::DigestAttributes => 207,
            AttributeKind::DigestRealm => 1063,
            AttributeKind::DigestNonce => 1064,
            AttributeKind::DigestMethod => 1065,
            AttributeKind::DigestUri => 1066,
            AttributeKind::DigestQop => 1067,
            AttributeKind::DigestAlgorithm => 1068,
            AttributeKind::DigestBodyDigest => 1069,
            AttributeKind::DigestCnonce => 1070,
            AttributeKind::DigestNonceCount => 1071,
            AttributeKind::DigestUserName => 1072,
            AttributeKind::UserId => 222,
            AttributeKind::UserRealm => 223,
        }
    }

    /// The wire type that the dictionary expects of an attribute's value.
    pub open spec fn spec_wire_type(self) -> AttributeType {
        match self {
            AttributeKind::UserName => AttributeType::String,
            AttributeKind::UserPassword => AttributeType::String,
            AttributeKind::ChapPassword => AttributeType::String,
            AttributeKind::NasIpAddress => AttributeType::IpAddress,
            AttributeKind::NasPort => AttributeType::Integer,
            AttributeKind::ServiceType => AttributeType::Integer,
            AttributeKind::FramedProtocol => AttributeType::Integer,
            AttributeKind::FramedIpAddress => AttributeType::IpAddress,
            AttributeKind::FramedIpNetmask => AttributeType::IpAddress,
            AttributeKind::FramedRouting => AttributeType::Integer,
            AttributeKind::FilterId => AttributeType::Integer,
            AttributeKind::FramedMtu => AttributeType::Integer,
            AttributeKind::FramedCompression => AttributeType::Integer,
            AttributeKind::LoginIpHost => AttributeType::IpAddress,
            AttributeKind::LoginService => AttributeType::Integer,
            AttributeKind::LoginPort => AttributeType::Integer,
            AttributeKind::OldPassword => AttributeType::String,
            AttributeKind::ReplyMessage => AttributeType::String,
            AttributeKind::LoginCallbackNumber => AttributeType::String,
            AttributeKind::Expiration => AttributeType::Date,
            AttributeKind::FramedRoute => AttributeType::String,
            AttributeKind::FramedIpxNetwork => AttributeType::Integer,
            AttributeKind::State => AttributeType::String,
            AttributeKind::Class => AttributeType::String,
            AttributeKind::VendorSpecific => AttributeType::String,
            AttributeKind::SessionTimeout => AttributeType::Integer,
            AttributeKind::IdleTimeout => AttributeType::Integer,
            AttributeKind::TerminationAction => AttributeType::Integer,
            AttributeKind::CalledStationId => AttributeType::String,
            AttributeKind::CallingStationId => AttributeType::String,
            AttributeKind::NasIdentifier => AttributeType::String,
            AttributeKind::ProxyState => AttributeType::String,
            AttributeKind::LoginLatService => AttributeType::String,
            AttributeKind::LoginLatNode => AttributeType::String,
            AttributeKind::LoginLatGroup => AttributeType::String,
            AttributeKind::FramedAppletalkLink => AttributeType::String,
            AttributeKind::FramedAppletalkNetwork => AttributeType::String,
            AttributeKind::FramedAppletalkZone => AttributeType::String,
            AttributeKind::EventTimestamp => AttributeType::Date,
            AttributeKind::ChapChallenge => AttributeType::String,
            AttributeKind::NasPortType => AttributeType::Integer,
            AttributeKind::PortLimit => AttributeType::Integer,
            AttributeKind::LoginLatPort => AttributeType::String,
            AttributeKind::ConnectInfo => AttributeType::String,
            AttributeKind::MessageAuthenticator => AttributeType::String,
            AttributeKind::NasIpv6Address => AttributeType::Ipv6Addr,
            AttributeKind::FramedInterfaceId => AttributeType::String,
            AttributeKind::FramedIpv6Prefix => AttributeType::Ipv6Prefix,
            AttributeKind::LoginIpv6Host => AttributeType::String,
            AttributeKind::FramedIpv6Route => AttributeType::String,
            AttributeKind::FramedIpv6Pool => AttributeType::String,
            AttributeKind::FramedIpv6Address => AttributeType::Ipv6Addr,
            AttributeKind::DnsServerIpv6Address => AttributeType::Ipv6Addr,
            AttributeKind::RouteIpv6Information => AttributeType::Ipv6Prefix,
            AttributeKind::AcctStatusType => AttributeType::Integer,
            AttributeKind::AcctDelayTime => AttributeType::Integer,
            AttributeKind::AcctInputOctets => AttributeType::Integer,
            AttributeKind::AcctOutputOctets => AttributeType::Integer,
            AttributeKind::AcctSessionId => AttributeType::String,
            AttributeKind::AcctAuthentic => AttributeType::Integer,
            AttributeKind::AcctSessionTime => AttributeType::Integer,
            AttributeKind::AcctInputPackets => AttributeType::Integer,
            AttributeKind::AcctOutputPackets => AttributeType::Integer,
            AttributeKind::AcctTerminateCause => AttributeType::Integer,
            AttributeKind::AcctMultiSessionId => AttributeType::Integer,
            AttributeKind::AcctLinkCount => AttributeType::Integer,
            AttributeKind::AcctInputGigawords => AttributeType::Integer,
            AttributeKind::AcctOutputGigawords => AttributeType::Integer,
            AttributeKind::DigestResponse => AttributeType::String,
            AttributeKind::DigestAttributes => AttributeType::String,
            AttributeKind::DigestRealm => AttributeType::String,
            AttributeKind::DigestNonce => AttributeType::String,
            AttributeKind::DigestMethod => AttributeType::String,
            AttributeKind::DigestUri => AttributeType::String,
            AttributeKind::DigestQop => AttributeType::String,
            AttributeKind::DigestAlgorithm => AttributeType::String,
            AttributeKind::DigestBodyDigest => AttributeType::String,
            AttributeKind::DigestCnonce => AttributeType::String,
            AttributeKind::DigestNonceCount => AttributeType::String,
            AttributeKind::DigestUserName => AttributeType::String,
            AttributeKind::UserId => AttributeType::String,
            AttributeKind::UserRealm => AttributeType::String,
        }
    }

    /// The attribute that a code stands for, if the dictionary has the code.
    pub open spec fn spec_from_code(code: u32) -> Option<AttributeKind> {
        if code == 1 {
            Some(AttributeKind::UserName)
        } else if code == 2 {
            Some(AttributeKind::UserPassword)
        } else if code == 3 {
            Some(AttributeKind::ChapPassword)
        } else if code == 4 {
            Some(AttributeKind::NasIpAddress)
        } else if code == 5 {
            Some(AttributeKind::NasPort)
        } else if code == 6 {
            Some(AttributeKind::ServiceType)
        } else if code == 7 {
            Some(AttributeKind::FramedProtocol)
        } else if code == 8 {
            Some(AttributeKind::FramedIpAddress)
        } else if code == 9 {
            Some(AttributeKind::FramedIpNetmask)
        } else if code == 10 {
            Some(AttributeKind::FramedRouting)
        } else if code == 11 {
            Some(AttributeKind::FilterId)
        } else if code == 12 {
            Some(AttributeKind::FramedMtu)
        } else if code == 13 {
            Some(AttributeKind::FramedCompression)
        } else if code == 14 {
            Some(AttributeKind::LoginIpHost)
        } else if code == 15 {
            Some(AttributeKind::LoginService)
        } else if code == 16 {
            Some(AttributeKind::LoginPort)
        } else if code == 17 {
            Some(AttributeKind::OldPassword)
        } else if code == 18 {
            Some(AttributeKind::ReplyMessage)
        } else if code == 19 {
            Some(AttributeKind::LoginCallbackNumber)
        } else if code == 21 {
            Some(AttributeKind::Expiration)
        } else if code == 22 {
            Some(AttributeKind::FramedRoute)
        } else if code == 23 {
            Some(AttributeKind::FramedIpxNetwork)
        } else if code == 24 {
            Some(AttributeKind::State)
        } else if code == 25 {
            Some(AttributeKind::Class)
        } else if code == 26 {
            Some(AttributeKind::VendorSpecific)
        } else if code == 27 {
            Some(AttributeKind::SessionTimeout)
        } else if code == 28 {
            Some(AttributeKind::IdleTimeout)
        } else if code == 29 {
            Some(AttributeKind::TerminationAction)
        } else if code == 30 {
            Some(AttributeKind::CalledStationId)
        } else if code == 31 {
            Some(AttributeKind::CallingStationId)
        } else if code == 32 {
            Some(AttributeKind::NasIdentifier)
        } else if code == 33 {
            Some(AttributeKind::ProxyState)
        } else if code == 34 {
            Some(AttributeKind::LoginLatService)
        } else if code == 35 {
            Some(AttributeKind::LoginLatNode)
        } else if code == 36 {
            Some(AttributeKind::LoginLatGroup)
        } else if code == 37 {
            Some(AttributeKind::FramedAppletalkLink)
        } else if code == 38 {
            Some(AttributeKind::FramedAppletalkNetwork)
        } else if code == 39 {
            Some(AttributeKind::FramedAppletalkZone)
        } else if code == 40 {
            Some(AttributeKind::AcctStatusType)
        } else if code == 41 {
            Some(AttributeKind::AcctDelayTime)
        } else if code == 42 {
            Some(AttributeKind::AcctInputOctets)
        } else if code == 43 {
            Some(AttributeKind::AcctOutputOctets)
        } else if code == 44 {
            Some(AttributeKind::AcctSessionId)
        } else if code == 45 {
            Some(AttributeKind::AcctAuthentic)
        } else if code == 46 {
            Some(AttributeKind::AcctSessionTime)
        } else if code == 47 {
            Some(AttributeKind::AcctInputPackets)
        } else if code == 48 {
            Some(AttributeKind::AcctOutputPackets)
        } else if code == 49 {
            Some(AttributeKind::AcctTerminateCause)
        } else if code == 50 {
            Some(AttributeKind::AcctMultiSessionId)
        } else if code == 51 {
            Some(AttributeKind::AcctLinkCount)
        } else if code == 52 {
            Some(AttributeKind::AcctInputGigawords)
        } else if code == 53 {
            Some(AttributeKind::AcctOutputGigawords)
        } else if code == 55 {
            Some(AttributeKind::EventTimestamp)
        } else if code == 60 {
            Some(AttributeKind::ChapChallenge)
        } else if code == 61 {
            Some(AttributeKind::NasPortType)
        } else if code == 62 {
            Some(AttributeKind::PortLimit)
        } else if code == 63 {
            Some(AttributeKind::LoginLatPort)
        } else if code == 77 {
            Some(AttributeKind::ConnectInfo)
        } else if code == 80 {
            Some(AttributeKind::MessageAuthenticator)
        } else if code == 95 {
            Some(AttributeKind::NasIpv6Address)
        } else if code == 96 {
            Some(AttributeKind::FramedInterfaceId)
        } else if code == 97 {
            Some(AttributeKind::FramedIpv6Prefix)
        } else if code == 98 {
            Some(AttributeKind::LoginIpv6Host)
        } else if code == 99 {
            Some(AttributeKind::FramedIpv6Route)
        } else if code == 100 {
            Some(AttributeKind::FramedIpv6Pool)
        } else if code == 168 {
            Some(AttributeKind::FramedIpv6Address)
        } else if code == 169 {
            Some(AttributeKind::DnsServerIpv6Address)
        } else if code == 170 {
            Some(AttributeKind::RouteIpv6Information)
        } else if code == 206 {
            Some(AttributeKind::DigestResponse)
        } else if code == 207 {
            Some(AttributeKind::DigestAttributes)
        } else if code == 222 {
            Some(AttributeKind::UserId)
        } else if code == 223 {
            Some(AttributeKind::UserRealm)
        } else if code == 1063 {
            Some(AttributeKind::DigestRealm)
        } else if code == 1064 {
            Some(AttributeKind::DigestNonce)
        } else if code == 1065 {
            Some(AttributeKind::DigestMethod)
        } else if code == 1066 {
            Some(AttributeKind::DigestUri)
        } else if code == 1067 {
            Some(AttributeKind::DigestQop)
        } else if code == 1068 {
            Some(AttributeKind::DigestAlgorithm)
        } else if code == 1069 {
            Some(AttributeKind::DigestBodyDigest)
        } else if code == 1070 {
            Some(AttributeKind::DigestCnonce)
        } else if code == 1071 {
            Some(AttributeKind::DigestNonceCount)
        } else if code == 1072 {
            Some(AttributeKind::DigestUserName)
        } else {
            None
        }
    }

    /// Whether `n` may be the value of this attribute: for an enumerated
    /// attribute, whether `n` is the code of a symbol of its closed set; for
    /// every other attribute, always.
    pub open spec fn admits(self, n: u32) -> bool {
        match self {
            AttributeKind::ServiceType => ServiceType::spec_from_u32(n) is Some,
            AttributeKind::FramedProtocol => Protocol::spec_from_u32(n) is Some,
            AttributeKind::FramedRouting => RoutingValue::spec_from_u32(n) is Some,
            AttributeKind::FramedCompression => CompressionType::spec_from_u32(n) is Some,
            AttributeKind::LoginService => LoginService::spec_from_u32(n) is Some,
            AttributeKind::TerminationAction => TerminationAction::spec_from_u32(n) is Some,
            AttributeKind::NasPortType => NasPortType::spec_from_u32(n) is Some,
            AttributeKind::AcctStatusType => StatusType::spec_from_u32(n) is Some,
            AttributeKind::AcctAuthentic => Authentic::spec_from_u32(n) is Some,
            AttributeKind::AcctTerminateCause => AccountTerminationCause::spec_from_u32(n) is Some,
            _ => true,
        }
    }

    /// The numeric code that stands for this attribute on the wire.
    #[verifier::when_used_as_spec(spec_code)]
    pub fn code(self) -> (r: u32)
        ensures
            r == self.spec_code(),
    {
        match self {
            AttributeKind::UserName => 1,
            AttributeKind::UserPassword => 2,
            AttributeKind::ChapPassword => 3,
            AttributeKind::NasIpAddress => 4,
            AttributeKind::NasPort => 5,
            AttributeKind::ServiceType => 6,
            AttributeKind::FramedProtocol => 7,
            AttributeKind::FramedIpAddress => 8,
            AttributeKind::FramedIpNetmask => 9,
            AttributeKind::FramedRouting => 10,
            AttributeKind::FilterId => 11,
            AttributeKind::FramedMtu => 12,
            AttributeKind::FramedCompression => 13,
            AttributeKind::LoginIpHost => 14,
            AttributeKind::LoginService => 15,
            AttributeKind::LoginPort => 16,
            AttributeKind::OldPassword => 17,
            AttributeKind::ReplyMessage => 18,
            AttributeKind::LoginCallbackNumber => 19,
            AttributeKind::Expiration => 21,
            AttributeKind::FramedRoute => 22,
            AttributeKind::FramedIpxNetwork => 23,
            AttributeKind::State => 24,
            AttributeKind::Class => 25,
            AttributeKind::VendorSpecific => 26,
            AttributeKind::SessionTimeout => 27,
            AttributeKind::IdleTimeout => 28,
            AttributeKind::TerminationAction => 29,
            AttributeKind::CalledStationId => 30,
            AttributeKind::CallingStationId => 31,
            AttributeKind::NasIdentifier => 32,
            AttributeKind::ProxyState => 33,
            AttributeKind::LoginLatService => 34,
            AttributeKind::LoginLatNode => 35,
            AttributeKind::LoginLatGroup => 36,
            AttributeKind::FramedAppletalkLink => 37,
            AttributeKind::FramedAppletalkNetwork => 38,
            AttributeKind::FramedAppletalkZone => 39,
            AttributeKind::EventTimestamp => 55,
            AttributeKind::ChapChallenge => 60,
            AttributeKind::NasPortType => 61,
            AttributeKind::PortLimit => 62,
            AttributeKind::LoginLatPort => 63,
            AttributeKind::ConnectInfo => 77,
            AttributeKind::MessageAuthenticator => 80,
            AttributeKind::NasIpv6Address => 95,
            AttributeKind::FramedInterfaceId => 96,
            AttributeKind::FramedIpv6Prefix => 97,
            AttributeKind::LoginIpv6Host => 98,
            AttributeKind::FramedIpv6Route => 99,
            AttributeKind::FramedIpv6Pool => 100,
            AttributeKind::FramedIpv6Address => 168,
            AttributeKind::DnsServerIpv6Address => 169,
            AttributeKind::RouteIpv6Information => 170,
            AttributeKind::AcctStatusType => 40,
            AttributeKind::AcctDelayTime => 41,
            AttributeKind::AcctInputOctets => 42,
            AttributeKind::AcctOutputOctets => 43,
            AttributeKind::AcctSessionId => 44,
            AttributeKind::AcctAuthentic => 45,
            AttributeKind::AcctSessionTime => 46,
            AttributeKind::AcctInputPackets => 47,
            AttributeKind::AcctOutputPackets => 48,
            AttributeKind::AcctTerminateCause => 49,
            AttributeKind::AcctMultiSessionId => 50,
            AttributeKind::AcctLinkCount => 51,
            AttributeKind::AcctInputGigawords => 52,
            AttributeKind::AcctOutputGigawords => 53,
            AttributeKind::DigestResponse => 206,
            AttributeKind::DigestAttributes => 207,
            AttributeKind::DigestRealm => 1063,
            AttributeKind::DigestNonce => 1064,
            AttributeKind::DigestMethod => 1065,
            AttributeKind::DigestUri => 1066,
            AttributeKind::DigestQop => 1067,
            AttributeKind::DigestAlgorithm => 1068,
            AttributeKind::DigestBodyDigest => 1069,
            AttributeKind::DigestCnonce => 1070,
            AttributeKind::DigestNonceCount => 1071,
            AttributeKind::DigestUserName => 1072,
            AttributeKind::UserId => 222,
            AttributeKind::UserRealm => 223,
        }
    }

    /// The wire type that the dictionary expects of this attribute's value.
    #[verifier::when_used_as_spec(spec_wire_type)]
    pub fn wire_type(self) -> (r: AttributeType)
        ensures
            r == self.spec_wire_type(),
    {
        match self {
            AttributeKind::UserName => AttributeType::String,
            AttributeKind::UserPassword => AttributeType::String,
            AttributeKind::ChapPassword => AttributeType::String,
            AttributeKind::NasIpAddress => AttributeType::IpAddress,
            AttributeKind::NasPort => AttributeType::Integer,
            AttributeKind::ServiceType => AttributeType::Integer,
            AttributeKind::FramedProtocol => AttributeType::Integer,
            AttributeKind::FramedIpAddress => AttributeType::IpAddress,
            AttributeKind::FramedIpNetmask => AttributeType::IpAddress,
            AttributeKind::FramedRouting => AttributeType::Integer,
            AttributeKind::FilterId => AttributeType::Integer,
            AttributeKind::FramedMtu => AttributeType::Integer,
            AttributeKind::FramedCompression => AttributeType::Integer,
            AttributeKind::LoginIpHost => AttributeType::IpAddress,
            AttributeKind::LoginService => AttributeType::Integer,
            AttributeKind::LoginPort => AttributeType::Integer,
            AttributeKind::OldPassword => AttributeType::String,
            AttributeKind::ReplyMessage => AttributeType::String,
            AttributeKind::LoginCallbackNumber => AttributeType::String,
            AttributeKind::Expiration => AttributeType::Date,
            AttributeKind::FramedRoute => AttributeType::String,
            AttributeKind::FramedIpxNetwork => AttributeType::Integer,
            AttributeKind::State => AttributeType::String,
            AttributeKind::Class => AttributeType::String,
            AttributeKind::VendorSpecific => AttributeType::String,
            AttributeKind::SessionTimeout => AttributeType::Integer,
            AttributeKind::IdleTimeout => AttributeType::Integer,
            AttributeKind::TerminationAction => AttributeType::Integer,
            AttributeKind::CalledStationId => AttributeType::String,
            AttributeKind::CallingStationId => AttributeType::String,
            AttributeKind::NasIdentifier => AttributeType::String,
            AttributeKind::ProxyState => AttributeType::String,
            AttributeKind::LoginLatService => AttributeType::String,
            AttributeKind::LoginLatNode => AttributeType::String,
            AttributeKind::LoginLatGroup => AttributeType::String,
            AttributeKind::FramedAppletalkLink => AttributeType::String,
            AttributeKind::FramedAppletalkNetwork => AttributeType::String,
            AttributeKind::FramedAppletalkZone => AttributeType::String,
            AttributeKind::EventTimestamp => AttributeType::Date,
            AttributeKind::ChapChallenge => AttributeType::String,
            AttributeKind::NasPortType => AttributeType::Integer,
            AttributeKind::PortLimit => AttributeType::Integer,
            AttributeKind::LoginLatPort => AttributeType::String,
            AttributeKind::ConnectInfo => AttributeType::String,
            AttributeKind::MessageAuthenticator => AttributeType::String,
            AttributeKind::NasIpv6Address => AttributeType::Ipv6Addr,
            AttributeKind::FramedInterfaceId => AttributeType::String,
            AttributeKind::FramedIpv6Prefix => AttributeType::Ipv6Prefix,
            AttributeKind::LoginIpv6Host => AttributeType::String,
            AttributeKind::FramedIpv6Route => AttributeType::String,
            AttributeKind::FramedIpv6Pool => AttributeType::String,
            AttributeKind::FramedIpv6Address => AttributeType::Ipv6Addr,
            AttributeKind::DnsServerIpv6Address => AttributeType::Ipv6Addr,
            AttributeKind::RouteIpv6Information => AttributeType::Ipv6Prefix,
            AttributeKind::AcctStatusType => AttributeType::Integer,
            AttributeKind::AcctDelayTime => AttributeType::Integer,
            AttributeKind::AcctInputOctets => AttributeType::Integer,
            AttributeKind::AcctOutputOctets => AttributeType::Integer,
            AttributeKind::AcctSessionId => AttributeType::String,
            AttributeKind::AcctAuthentic => AttributeType::Integer,
            AttributeKind::AcctSessionTime => AttributeType::Integer,
            AttributeKind::AcctInputPackets => AttributeType::Integer,
            AttributeKind::AcctOutputPackets => AttributeType::Integer,
            AttributeKind::AcctTerminateCause => AttributeType::Integer,
            AttributeKind::AcctMultiSessionId => AttributeType::Integer,
            AttributeKind::AcctLinkCount => AttributeType::Integer,
            AttributeKind::AcctInputGigawords => AttributeType::Integer,
            AttributeKind::AcctOutputGigawords => AttributeType::Integer,
            AttributeKind::DigestResponse => AttributeType::String,
            AttributeKind::DigestAttributes => AttributeType::String,
            AttributeKind::DigestRealm => AttributeType::String,
            AttributeKind::DigestNonce => AttributeType::String,
            AttributeKind::DigestMethod => AttributeType::String,
            AttributeKind::DigestUri => AttributeType::String,
            AttributeKind::DigestQop => AttributeType::String,
            AttributeKind::DigestAlgorithm => AttributeType::String,
            AttributeKind::DigestBodyDigest => AttributeType::String,
            AttributeKind::DigestCnonce => AttributeType::String,
            AttributeKind::DigestNonceCount => AttributeType::String,
            AttributeKind::DigestUserName => AttributeType::String,
            AttributeKind::UserId => AttributeType::String,
            AttributeKind::UserRealm => AttributeType::String,
        }
    }

    /// The attribute that `code` stands for; `None` for a code that the
    /// dictionary does not have.
    pub fn from_code(code: u32) -> (r: Option<AttributeKind>)
        ensures
            r == AttributeKind::spec_from_code(code),
            r matches Some(kind) ==> kind.spec_code() == code,
            r is None ==> forall|kind: AttributeKind| kind.spec_code() != code,
    {
        if code == 1 {
            Some(AttributeKind::UserName)
        } else if code == 2 {
            Some(AttributeKind::UserPassword)
        } else if code == 3 {
            Some(AttributeKind::ChapPassword)
        } else if code == 4 {
            Some(AttributeKind::NasIpAddress)
        } else if code == 5 {
            Some(AttributeKind::NasPort)
        } else if code == 6 {
            Some(AttributeKind::ServiceType)
        } else if code == 7 {
            Some(AttributeKind::FramedProtocol)
        } else if code == 8 {
            Some(AttributeKind::FramedIpAddress)
        } else if code == 9 {
            Some(AttributeKind::FramedIpNetmask)
        } else if code == 10 {
            Some(AttributeKind::FramedRouting)
        } else if code == 11 {
            Some(AttributeKind::FilterId)
        } else if code == 12 {
            Some(AttributeKind::FramedMtu)
        } else if code == 13 {
            Some(AttributeKind::FramedCompression)
        } else if code == 14 {
            Some(AttributeKind::LoginIpHost)
        } else if code == 15 {
            Some(AttributeKind::LoginService)
        } else if code == 16 {
            Some(AttributeKind::LoginPort)
        } else if code == 17 {
            Some(AttributeKind::OldPassword)
        } else if code == 18 {
            Some(AttributeKind::ReplyMessage)
        } else if code == 19 {
            Some(AttributeKind::LoginCallbackNumber)
        } else if code == 21 {
            Some(AttributeKind::Expiration)
        } else if code == 22 {
            Some(AttributeKind::FramedRoute)
        } else if code == 23 {
            Some(AttributeKind::FramedIpxNetwork)
        } else if code == 24 {
            Some(AttributeKind::State)
        } else if code == 25 {
            Some(AttributeKind::Class)
        } else if code == 26 {
            Some(AttributeKind::VendorSpecific)
        } else if code == 27 {
            Some(AttributeKind::SessionTimeout)
        } else if code == 28 {
            Some(AttributeKind::IdleTimeout)
        } else if code == 29 {
            Some(AttributeKind::TerminationAction)
        } else if code == 30 {
            Some(AttributeKind::CalledStationId)
        } else if code == 31 {
            Some(AttributeKind::CallingStationId)
        } else if code == 32 {
            Some(AttributeKind::NasIdentifier)
        } else if code == 33 {
            Some(AttributeKind::ProxyState)
        } else if code == 34 {
            Some(AttributeKind::LoginLatService)
        } else if code == 35 {
            Some(AttributeKind::LoginLatNode)
        } else if code == 36 {
            Some(AttributeKind::LoginLatGroup)
        } else if code == 37 {
            Some(AttributeKind::FramedAppletalkLink)
        } else if code == 38 {
            Some(AttributeKind::FramedAppletalkNetwork)
        } else if code == 39 {
            Some(AttributeKind::FramedAppletalkZone)
        } else if code == 40 {
            Some(AttributeKind::AcctStatusType)
        } else if code == 41 {
            Some(AttributeKind::AcctDelayTime)
        } else if code == 42 {
            Some(AttributeKind::AcctInputOctets)
        } else if code == 43 {
            Some(AttributeKind::AcctOutputOctets)
        } else if code == 44 {
            Some(AttributeKind::AcctSessionId)
        } else if code == 45 {
            Some(AttributeKind::AcctAuthentic)
        } else if code == 46 {
            Some(AttributeKind::AcctSessionTime)
        } else if code == 47 {
            Some(AttributeKind::AcctInputPackets)
        } else if code == 48 {
            Some(AttributeKind::AcctOutputPackets)
        } else if code == 49 {
            Some(AttributeKind::AcctTerminateCause)
        } else if code == 50 {
            Some(AttributeKind::AcctMultiSessionId)
        } else if code == 51 {
            Some(AttributeKind::AcctLinkCount)
        } else if code == 52 {
            Some(AttributeKind::AcctInputGigawords)
        } else if code == 53 {
            Some(AttributeKind::AcctOutputGigawords)
        } else if code == 55 {
            Some(AttributeKind::EventTimestamp)
        } else if code == 60 {
            Some(AttributeKind::ChapChallenge)
        } else if code == 61 {
            Some(AttributeKind::NasPortType)
        } else if code == 62 {
            Some(AttributeKind::PortLimit)
        } else if code == 63 {
            Some(AttributeKind::LoginLatPort)
        } else if code == 77 {
            Some(AttributeKind::ConnectInfo)
        } else if code == 80 {
            Some(AttributeKind::MessageAuthenticator)
        } else if code == 95 {
            Some(AttributeKind::NasIpv6Address)
        } else if code == 96 {
            Some(AttributeKind::FramedInterfaceId)
        } else if code == 97 {
            Some(AttributeKind::FramedIpv6Prefix)
        } else if code == 98 {
            Some(AttributeKind::LoginIpv6Host)
        } else if code == 99 {
            Some(AttributeKind::FramedIpv6Route)
        } else if code == 100 {
            Some(AttributeKind::FramedIpv6Pool)
        } else if code == 168 {
            Some(AttributeKind::FramedIpv6Address)
        } else if code == 169 {
            Some(AttributeKind::DnsServerIpv6Address)
        } else if code == 170 {
            Some(AttributeKind::RouteIpv6Information)
        } else if code == 206 {
            Some(AttributeKind::DigestResponse)
        } else if code == 207 {
            Some(AttributeKind::DigestAttributes)
        } else if code == 222 {
            Some(AttributeKind::UserId)
        } else if code == 223 {
            Some(AttributeKind::UserRealm)
        } else if code == 1063 {
            Some(AttributeKind::DigestRealm)
        } else if code == 1064 {
            Some(AttributeKind::DigestNonce)
        } else if code == 1065 {
            Some(AttributeKind::DigestMethod)
        } else if code == 1066 {
            Some(AttributeKind::DigestUri)
        } else if code == 1067 {
            Some(AttributeKind::DigestQop)
        } else if code == 1068 {
            Some(AttributeKind::DigestAlgorithm)
        } else if code == 1069 {
            Some(AttributeKind::DigestBodyDigest)
        } else if code == 1070 {
            Some(AttributeKind::DigestCnonce)
        } else if code == 1071 {
            Some(AttributeKind::DigestNonceCount)
        } else if code == 1072 {
            Some(AttributeKind::DigestUserName)
        } else {
            None
        }
    }

    /// Every attribute is found again from its code, so no two attributes
    /// share a code.
    pub proof fn lemma_from_code_of_code(kind: AttributeKind)
        ensures
            AttributeKind::spec_from_code(kind.spec_code()) == Some(kind),
    {
    }

    /// A code stands for an attribute only if it is that attribute's code: a
    /// code that no attribute has stands for nothing.
    pub proof fn lemma_code_of_from_code(code: u32)
        ensures
            match AttributeKind::spec_from_code(code) {
                Some(kind) => kind.spec_code() == code,
                None => forall|kind: AttributeKind| kind.spec_code() != code,
            },
    {
    }
}

/// One line of the dictionary.
#[derive(Debug, Clone, Copy, PartialEq, Eq, Hash, Structural)]
pub struct DictionaryEntry {
    /// The attribute's numeric code.
    pub code: u32,
    /// The wire type that a value of the attribute must be declared with.
    pub wire_type: AttributeType,
    /// The attribute that the code stands for.
    pub kind: AttributeKind,
}

/// The dictionary's line for an attribute.
pub open spec fn entry_of(kind: AttributeKind) -> DictionaryEntry {
    DictionaryEntry { code: kind.spec_code(), wire_type: kind.spec_wire_type(), kind }
}

/// The dictionary's line for a code, if it has one.
pub open spec fn lookup(code: u32) -> Option<DictionaryEntry> {
    match AttributeKind::spec_from_code(code) {
        Some(kind) => Some(entry_of(kind)),
        None => None,
    }
}

/// Looks a code up. A code that the dictionary does not have gives `None`;
/// whether that is fatal is for the caller to decide.
pub fn lookup_by_code(code: u32) -> (r: Option<DictionaryEntry>)
    ensures
        r == lookup(code),
        r matches Some(entry) ==> entry.code == code && entry == entry_of(entry.kind),
        r is None ==> forall|kind: AttributeKind| kind.spec_code() != code,
{
    match AttributeKind::from_code(code) {
        Some(kind) => Some(DictionaryEntry { code, wire_type: kind.wire_type(), kind }),
        None => None,
    }
}

/// The dictionary's line for an attribute. Every attribute has one.
pub fn lookup_by_variant(kind: AttributeKind) -> (r: DictionaryEntry)
    ensures
        r == entry_of(kind),
{
    DictionaryEntry { code: kind.code(), wire_type: kind.wire_type(), kind }
}

/// The largest code in the dictionary.
pub const MAX_CODE: u32 = 1072;

/// The whole dictionary, by rising code.
///
/// Every line of the dictionary is in the table exactly once, and the table
/// holds nothing else.
pub fn entries() -> (r: Vec<DictionaryEntry>)
    ensures
        forall|i: int| 0 <= i < r@.len() ==> lookup((#[trigger] r@[i]).code) == Some(r@[i]),
        forall|i: int, j: int| 0 <= i < j < r@.len() ==> r@[i].code < r@[j].code,
        forall|kind: AttributeKind| r@.contains(#[trigger] entry_of(kind)),
{
    let mut table: Vec<DictionaryEntry> = Vec::new();
    let mut code: u32 = 0;
    while code <= MAX_CODE
        invariant
            code <= MAX_CODE + 1,
            forall|i: int|
                0 <= i < table@.len() ==> lookup((#[trigger] table@[i]).code) == Some(table@[i]),
            forall|i: int| 0 <= i < table@.len() ==> (#[trigger] table@[i]).code < code,
            forall|i: int, j: int|
                0 <= i < j < table@.len() ==> table@[i].code < table@[j].code,
            forall|kind: AttributeKind|
                kind.spec_code() < code ==> table@.contains(#[trigger] entry_of(kind)),
        decreases MAX_CODE + 1 - code,
    {
        let ghost before = table@;
        match lookup_by_code(code) {
            Some(entry) => {
                table.push(entry);
                assert forall|kind: AttributeKind| kind.spec_code() < code + 1 implies table@.contains(
                    #[trigger] entry_of(kind),
                ) by {
                    if kind.spec_code() < code {
                        let i = choose|i: int| 0 <= i < before.len() && before[i] == entry_of(kind);
                        assert(table@[i] == entry_of(kind));
                    } else {
                        AttributeKind::lemma_from_code_of_code(kind);
                        assert(table@[before.len() as int] == entry_of(kind));
                    }
                }
            },
            None => {},
        }
        code = code + 1;
    }
    proof {
        assert forall|kind: AttributeKind| table@.contains(#[trigger] entry_of(kind)) by {
            assert(kind.spec_code() <= MAX_CODE);
        }
    }
    table
}

/// Looking an attribute's line up by the code in it finds that line.
pub proof fn lemma_lookup_inverse(kind: AttributeKind)
    ensures
        lookup(entry_of(kind).code) == Some(entry_of(kind)),
{
    AttributeKind::lemma_from_code_of_code(kind);
}

/// A line found by code holds that code, and is the line of the attribute
/// that it names.
pub proof fn lemma_lookup_sound(code: u32)
    ensures
        lookup(code) matches Some(entry) ==> entry.code == code && entry == entry_of(entry.kind),
{
    AttributeKind::lemma_code_of_from_code(code);
}

} // verus!
