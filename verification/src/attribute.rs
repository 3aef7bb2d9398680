//! The domain model: one variant per attribute, each with a value of the
//! type that belongs to it.
//!
//! In contracts an attribute is seen as a pair: which attribute it is
//! ([`AttributeKind`]) and what it holds ([`Value`]).

use crate::address::{Ipv4Address, Ipv6Address};
use crate::dictionary::AttributeKind;
use crate::error::ConversionError;
use crate::values::{
    AccountTerminationCause, Authentic, CompressionType, LoginService, NasPortType, Protocol,
    RoutingValue, ServiceType, StatusType, TerminationAction,
};
use crate::wire::{be_u32, AttributeType};
use vstd::prelude::*;

verus! {

/// A value as it stands inside an attribute, apart from which attribute.
#[derive(Debug, Clone, PartialEq, Eq)]
pub enum Payload {
    /// Text.
    Text(String),
    /// A plain number, or the code of a symbol of a closed set.
    Integer(u32),
    /// An IPv4 address.
    Ipv4(Ipv4Address),
    /// An IPv6 address.
    Ipv6(Ipv6Address),
}

/// What a [`Payload`] holds, as a mathematical value.
pub enum Value {
    /// Text, as its characters.
    Text(Seq<char>),
    /// A plain number, or the code of a symbol of a closed set.
    Integer(u32),
    /// An IPv4 address, as its four octets.
    Ipv4(Seq<u8>),
    /// An IPv6 address, as its sixteen octets.
    Ipv6(Seq<u8>),
}

impl View for Payload {
    type V = Value;

    open spec fn view(&self) -> Value {
        match *self {
            Payload::Text(s) => Value::Text(s@),
            Payload::Integer(n) => Value::Integer(n),
            Payload::Ipv4(a) => Value::Ipv4(a@),
            Payload::Ipv6(a) => Value::Ipv6(a@),
        }
    }
}

impl Value {
    /// Whether a value of this shape is what wire type `t` carries.
    pub open spec fn fits(self, t: AttributeType) -> bool {
        match self {
            Value::Text(_) => t.is_text(),
            Value::Integer(_) => t.is_number(),
            Value::Ipv4(_) => t is IpAddress,
            Value::Ipv6(_) => t is Ipv6Addr,
        }
    }

    /// The text of a value, if it is text.
    pub open spec fn as_text(self) -> Option<Seq<char>> {
        match self {
            Value::Text(t) => Some(t),
            _ => None,
        }
    }

    /// The number that stands for a value in four bytes: the number itself,
    /// the code of a symbol, or an IPv4 address read most significant octet
    /// first. Text and IPv6 addresses have none.
    pub open spec fn as_integer(self) -> Option<u32> {
        match self {
            Value::Integer(n) => Some(n),
            Value::Ipv4(octets) => Some(be_u32(octets)),
            _ => None,
        }
    }
}

/// What an [`Attribute`] is, as a mathematical value: which attribute, and
/// what it holds. An enumerated attribute holds the code of its symbol.
pub struct AttributeView {
    pub kind: AttributeKind,
    pub value: Value,
}

impl AttributeView {
    /// Whether the value is one that the attribute can hold: it has the shape
    /// of the attribute's wire type, a symbol's code belongs to the
    /// attribute's closed set, and an address has its number of octets.
    pub open spec fn wf(self) -> bool {
        &&& self.value.fits(self.kind.spec_wire_type())
        &&& self.value matches Value::Integer(n) ==> self.kind.admits(n)
        &&& self.value matches Value::Ipv4(octets) ==> octets.len() == 4
        &&& self.value matches Value::Ipv6(octets) ==> octets.len() == 16
    }
}

/// What putting a value into an attribute gives: the attribute holding the
/// value, `TypeMismatch` where the value has not the shape of the attribute's
/// wire type, `EnumValueOutOfRange` where a number is no symbol of the
/// attribute's closed set.
pub open spec fn construct(kind: AttributeKind, value: Value) -> Result<
    AttributeView,
    ConversionError,
> {
    if !value.fits(kind.spec_wire_type()) {
        Err(ConversionError::TypeMismatch)
    } else if value matches Value::Integer(n) && !kind.admits(n) {
        Err(ConversionError::EnumValueOutOfRange)
    } else {
        Ok(AttributeView { kind, value })
    }
}

/// A result with its success seen as a mathematical value.
pub open spec fn result_view<T: View>(r: Result<T, ConversionError>) -> Result<
    T::V,
    ConversionError,
> {
    match r {
        Ok(x) => Ok(x@),
        Err(e) => Err(e),
    }
}

/// One attribute with its value.
#[derive(Debug, Clone, PartialEq, Eq)]
pub enum Attribute {
    /// `User-Name`.
    UserName(String),
    /// `User-Password`.
    UserPassword(String),
    /// `CHAP-Password`.
    ChapPassword(String),
    /// `NAS-IP-Address`.
    NasIpAddress(Ipv4Address),
    /// `NAS-Port`.
    NasPort(u32),
    /// `Service-Type`.
    ServiceType(ServiceType),
    /// `Framed-Protocol`.
    FramedProtocol(Protocol),
    /// `Framed-IP-Address`.
    FramedIpAddress(Ipv4Address),
    /// `Framed-IP-Netmask`.
    FramedIpNetmask(Ipv4Address),
    /// `Framed-Routing`.
    FramedRouting(RoutingValue),
    /// `Filter-Id`.
    FilterId(u32),
    /// `Framed-MTU`.
    FramedMtu(u32),
    /// `Framed-Compression`.
    FramedCompression(CompressionType),
    /// `Login-IP-Host`.
    LoginIpHost(Ipv4Address),
    /// `Login-Service`.
    LoginService(LoginService),
    /// `Login-Port`.
    LoginPort(u32),
    /// `Old-Password`.
    OldPassword(String),
    /// `Reply-Message`.
    ReplyMessage(String),
    /// `Login-Callback-Number`.
    LoginCallbackNumber(String),
    /// `Expiration`.
    Expiration(u32),
    /// `Framed-Route`.
    FramedRoute(String),
    /// `Framed-IPX-Network`.
    FramedIpxNetwork(u32),
    /// `State`.
    State(String),
    /// `Class`.
    Class(String),
    /// `Vendor-Specific`.
    VendorSpecific(String),
    /// `Session-Timeout`.
    SessionTimeout(u32),
    /// `Idle-Timeout`.
    IdleTimeout(u32),
    /// `Termination-Action`.
    TerminationAction(TerminationAction),
    /// `Called-Station-Id`.
    CalledStationId(String),
    /// `Calling-Station-Id`.
    CallingStationId(String),
    /// `NAS-Identifier`.
    NasIdentifier(String),
    /// `Proxy-State`.
    ProxyState(String),
    /// `Login-LAT-Service`.
    LoginLatService(String),
    /// `Login-LAT-Node`.
    LoginLatNode(String),
    /// `Login-LAT-Group`.
    LoginLatGroup(String),
    /// `Framed-Appletalk-Link`.
    FramedAppletalkLink(String),
    /// `Framed-Appletalk-Network`.
    FramedAppletalkNetwork(String),
    /// `Framed-Appletalk-Zone`.
    FramedAppletalkZone(String),
    /// `Event-Timestamp`.
    EventTimestamp(u32),
    /// `CHAP-Challenge`.
    ChapChallenge(String),
    /// `NAS-Port-Type`.
    NasPortType(NasPortType),
    /// `Port-Limit`.
    PortLimit(u32),
    /// `Login-LAT-Port`.
    LoginLatPort(String),
    /// `Connect-Info`.
    ConnectInfo(String),
    /// `Message-Authenticator`.
    MessageAuthenticator(String),
    /// `NAS-IPv6-Address`.
    NasIpv6Address(Ipv6Address),
    /// `Framed-Interface-Id`.
    FramedInterfaceId(String),
    /// `Framed-IPv6-Prefix`.
    FramedIpv6Prefix(String),
    /// `Login-IPv6-Host`.
    LoginIpv6Host(String),
    /// `Framed-IPv6-Route`.
    FramedIpv6Route(String),
    /// `Framed-IPv6-Pool`.
    FramedIpv6Pool(String),
    /// `Framed-IPv6-Address`.
    FramedIpv6Address(Ipv6Address),
    /// `DNS-Server-IPv6-Address`.
    DnsServerIpv6Address(Ipv6Address),
    /// `Route-IPv6-Information`.
    RouteIpv6Information(String),
    /// `Acct-Status-Type`.
    AcctStatusType(StatusType),
    /// `Acct-Delay-Time`.
    AcctDelayTime(u32),
    /// `Acct-Input-Octets`.
    AcctInputOctets(u32),
    /// `Acct-Output-Octets`.
    AcctOutputOctets(u32),
    /// `Acct-Session-Id`.
    AcctSessionId(String),
    /// `Acct-Authentic`.
    AcctAuthentic(Authentic),
    /// `Acct-Session-Time`.
    AcctSessionTime(u32),
    /// `Acct-Input-Packets`.
    AcctInputPackets(u32),
    /// `Acct-Output-Packets`.
    AcctOutputPackets(u32),
    /// `Acct-Terminate-Cause`.
    AcctTerminateCause(AccountTerminationCause),
    /// `Acct-Multi-Session-Id`.
    AcctMultiSessionId(u32),
    /// `Acct-Link-Count`.
    AcctLinkCount(u32),
    /// `Acct-Input-Gigawords`.
    AcctInputGigawords(u32),
    /// `Acct-Output-Gigawords`.
    AcctOutputGigawords(u32),
    // SIP digest attributes
    /// `Digest-Response`.
    DigestResponse(String),
    /// `Digest-Attributes`.
    DigestAttributes(String),
    /// `Digest-Realm`.
    DigestRealm(String),
    /// `Digest-Nonce`.
    DigestNonce(String),
    /// `Digest-Method`.
    DigestMethod(String),
    /// `Digest-URI`.
    DigestUri(String),
    /// `Digest-QOP`.
    DigestQop(String),
    /// `Digest-Algorithm`.
    DigestAlgorithm(String),
    /// `Digest-Body-Digest`.
    DigestBodyDigest(String),
    /// `Digest-CNonce`.
    DigestCnonce(String),
    /// `Digest-Nonce-Count`.
    DigestNonceCount(String),
    /// `Digest-User-Name`.
    DigestUserName(String),
    // Merit extensions
    /// `User-Id`.
    UserId(String),
    /// `User-Realm`.
    UserRealm(String),
}

impl View for Attribute {
    type V = AttributeView;

    open spec fn view(&self) -> AttributeView {
        match *self {
            Attribute::UserName(v) => AttributeView {
                kind: AttributeKind::UserName,
                value: Value::Text(v@),
            },
            Attribute::UserPassword(v) => AttributeView {
                kind: AttributeKind::UserPassword,
                value: Value::Text(v@),
            },
            Attribute::ChapPassword(v) => AttributeView {
                kind: AttributeKind::ChapPassword,
                value: Value::Text(v@),
            },
            Attribute::NasIpAddress(v) => AttributeView {
                kind: AttributeKind::NasIpAddress,
                value: Value::Ipv4(v@),
            },
            Attribute::NasPort(v) => AttributeView {
                kind: AttributeKind::NasPort,
                value: Value::Integer(v),
            },
            Attribute::ServiceType(v) => AttributeView {
                kind: AttributeKind::ServiceType,
                value: Value::Integer(v.spec_to_u32()),
            },
            Attribute::FramedProtocol(v) => AttributeView {
                kind: AttributeKind::FramedProtocol,
                value: Value::Integer(v.spec_to_u32()),
            },
            Attribute::FramedIpAddress(v) => AttributeView {
                kind: AttributeKind::FramedIpAddress,
                value: Value::Ipv4(v@),
            },
            Attribute::FramedIpNetmask(v) => AttributeView {
                kind: AttributeKind::FramedIpNetmask,
                value: Value::Ipv4(v@),
            },
            Attribute::FramedRouting(v) => AttributeView {
                kind: AttributeKind::FramedRouting,
                value: Value::Integer(v.spec_to_u32()),
            },
            Attribute::FilterId(v) => AttributeView {
                kind: AttributeKind::FilterId,
                value: Value::Integer(v),
            },
            Attribute::FramedMtu(v) => AttributeView {
                kind: AttributeKind::FramedMtu,
                value: Value::Integer(v),
            },
            Attribute::FramedCompression(v) => AttributeView {
                kind: AttributeKind::FramedCompression,
                value: Value::Integer(v.spec_to_u32()),
            },
            Attribute::LoginIpHost(v) => AttributeView {
                kind: AttributeKind::LoginIpHost,
                value: Value::Ipv4(v@),
            },
            Attribute::LoginService(v) => AttributeView {
                kind: AttributeKind::LoginService,
                value: Value::Integer(v.spec_to_u32()),
            },
            Attribute::LoginPort(v) => AttributeView {
                kind: AttributeKind::LoginPort,
                value: Value::Integer(v),
            },
            Attribute::OldPassword(v) => AttributeView {
                kind: AttributeKind::OldPassword,
                value: Value::Text(v@),
            },
            Attribute::ReplyMessage(v) => AttributeView {
                kind: AttributeKind::ReplyMessage,
                value: Value::Text(v@),
            },
            Attribute::LoginCallbackNumber(v) => AttributeView {
                kind: AttributeKind::LoginCallbackNumber,
                value: Value::Text(v@),
            },
            Attribute::Expiration(v) => AttributeView {
                kind: AttributeKind::Expiration,
                value: Value::Integer(v),
            },
            Attribute::FramedRoute(v) => AttributeView {
                kind: AttributeKind::FramedRoute,
                value: Value::Text(v@),
            },
            Attribute::FramedIpxNetwork(v) => AttributeView {
                kind: AttributeKind::FramedIpxNetwork,
                value: Value::Integer(v),
            },
            Attribute::State(v) => AttributeView {
                kind: AttributeKind::State,
                value: Value::Text(v@),
            },
            Attribute::Class(v) => AttributeView {
                kind: AttributeKind::Class,
                value: Value::Text(v@),
            },
            Attribute::VendorSpecific(v) => AttributeView {
                kind: AttributeKind::VendorSpecific,
                value: Value::Text(v@),
            },
            Attribute::SessionTimeout(v) => AttributeView {
                kind: AttributeKind::SessionTimeout,
                value: Value::Integer(v),
            },
            Attribute::IdleTimeout(v) => AttributeView {
                kind: AttributeKind::IdleTimeout,
                value: Value::Integer(v),
            },
            Attribute::TerminationAction(v) => AttributeView {
                kind: AttributeKind::TerminationAction,
                value: Value::Integer(v.spec_to_u32()),
            },
            Attribute::CalledStationId(v) => AttributeView {
                kind: AttributeKind::CalledStationId,
                value: Value::Text(v@),
            },
            Attribute::CallingStationId(v) => AttributeView {
                kind: AttributeKind::CallingStationId,
                value: Value::Text(v@),
            },
            Attribute::NasIdentifier(v) => AttributeView {
                kind: AttributeKind::NasIdentifier,
                value: Value::Text(v@),
            },
            Attribute::ProxyState(v) => AttributeView {
                kind: AttributeKind::ProxyState,
                value: Value::Text(v@),
            },
            Attribute::LoginLatService(v) => AttributeView {
                kind: AttributeKind::LoginLatService,
                value: Value::Text(v@),
            },
            Attribute::LoginLatNode(v) => AttributeView {
                kind: AttributeKind::LoginLatNode,
                value: Value::Text(v@),
            },
            Attribute::LoginLatGroup(v) => AttributeView {
                kind: AttributeKind::LoginLatGroup,
                value: Value::Text(v@),
            },
            Attribute::FramedAppletalkLink(v) => AttributeView {
                kind: AttributeKind::FramedAppletalkLink,
                value: Value::Text(v@),
            },
            Attribute::FramedAppletalkNetwork(v) => AttributeView {
                kind: AttributeKind::FramedAppletalkNetwork,
                value: Value::Text(v@),
            },
            Attribute::FramedAppletalkZone(v) => AttributeView {
                kind: AttributeKind::FramedAppletalkZone,
                value: Value::Text(v@),
            },
            Attribute::EventTimestamp(v) => AttributeView {
                kind: AttributeKind::EventTimestamp,
                value: Value::Integer(v),
            },
            Attribute::ChapChallenge(v) => AttributeView {
                kind: AttributeKind::ChapChallenge,
                value: Value::Text(v@),
            },
            Attribute::NasPortType(v) => AttributeView {
                kind: AttributeKind::NasPortType,
                value: Value::Integer(v.spec_to_u32()),
            },
            Attribute::PortLimit(v) => AttributeView {
                kind: AttributeKind::PortLimit,
                value: Value::Integer(v),
            },
            Attribute::LoginLatPort(v) => AttributeView {
                kind: AttributeKind::LoginLatPort,
                value: Value::Text(v@),
            },
            Attribute::ConnectInfo(v) => AttributeView {
                kind: AttributeKind::ConnectInfo,
                value: Value::Text(v@),
            },
            Attribute::MessageAuthenticator(v) => AttributeView {
                kind: AttributeKind::MessageAuthenticator,
                value: Value::Text(v@),
            },
            Attribute::NasIpv6Address(v) => AttributeView {
                kind: AttributeKind::NasIpv6Address,
                value: Value::Ipv6(v@),
            },
            Attribute::FramedInterfaceId(v) => AttributeView {
                kind: AttributeKind::FramedInterfaceId,
                value: Value::Text(v@),
            },
            Attribute::FramedIpv6Prefix(v) => AttributeView {
                kind: AttributeKind::FramedIpv6Prefix,
                value: Value::Text(v@),
            },
            Attribute::LoginIpv6Host(v) => AttributeView {
                kind: AttributeKind::LoginIpv6Host,
                value: Value::Text(v@),
            },
            Attribute::FramedIpv6Route(v) => AttributeView {
                kind: AttributeKind::FramedIpv6Route,
                value: Value::Text(v@),
            },
            Attribute::FramedIpv6Pool(v) => AttributeView {
                kind: AttributeKind::FramedIpv6Pool,
                value: Value::Text(v@),
            },
            Attribute::FramedIpv6Address(v) => AttributeView {
                kind: AttributeKind::FramedIpv6Address,
                value: Value::Ipv6(v@),
            },
            Attribute::DnsServerIpv6Address(v) => AttributeView {
                kind: AttributeKind::DnsServerIpv6Address,
                value: Value::Ipv6(v@),
            },
            Attribute::RouteIpv6Information(v) => AttributeView {
                kind: AttributeKind::RouteIpv6Information,
                value: Value::Text(v@),
            },
            Attribute::AcctStatusType(v) => AttributeView {
                kind: AttributeKind::AcctStatusType,
                value: Value::Integer(v.spec_to_u32()),
            },
            Attribute::AcctDelayTime(v) => AttributeView {
                kind: AttributeKind::AcctDelayTime,
                value: Value::Integer(v),
            },
            Attribute::AcctInputOctets(v) => AttributeView {
                kind: AttributeKind::AcctInputOctets,
                value: Value::Integer(v),
            },
            Attribute::AcctOutputOctets(v) => AttributeView {
                kind: AttributeKind::AcctOutputOctets,
                value: Value::Integer(v),
            },
            Attribute::AcctSessionId(v) => AttributeView {
                kind: AttributeKind::AcctSessionId,
                value: Value::Text(v@),
            },
            Attribute::AcctAuthentic(v) => AttributeView {
                kind: AttributeKind::AcctAuthentic,
                value: Value::Integer(v.spec_to_u32()),
            },
            Attribute::AcctSessionTime(v) => AttributeView {
                kind: AttributeKind::AcctSessionTime,
                value: Value::Integer(v),
            },
            Attribute::AcctInputPackets(v) => AttributeView {
                kind: AttributeKind::AcctInputPackets,
                value: Value::Integer(v),
            },
            Attribute::AcctOutputPackets(v) => AttributeView {
                kind: AttributeKind::AcctOutputPackets,
                value: Value::Integer(v),
            },
            Attribute::AcctTerminateCause(v) => AttributeView {
                kind: AttributeKind::AcctTerminateCause,
                value: Value::Integer(v.spec_to_u32()),
            },
            Attribute::AcctMultiSessionId(v) => AttributeView {
                kind: AttributeKind::AcctMultiSessionId,
                value: Value::Integer(v),
            },
            Attribute::AcctLinkCount(v) => AttributeView {
                kind: AttributeKind::AcctLinkCount,
                value: Value::Integer(v),
            },
            Attribute::AcctInputGigawords(v) => AttributeView {
                kind: AttributeKind::AcctInputGigawords,
                value: Value::Integer(v),
            },
            Attribute::AcctOutputGigawords(v) => AttributeView {
                kind: AttributeKind::AcctOutputGigawords,
                value: Value::Integer(v),
            },
            Attribute::DigestResponse(v) => AttributeView {
                kind: AttributeKind::DigestResponse,
                value: Value::Text(v@),
            },
            Attribute::DigestAttributes(v) => AttributeView {
                kind: AttributeKind::DigestAttributes,
                value: Value::Text(v@),
            },
            Attribute::DigestRealm(v) => AttributeView {
                kind: AttributeKind::DigestRealm,
                value: Value::Text(v@),
            },
            Attribute::DigestNonce(v) => AttributeView {
                kind: AttributeKind::DigestNonce,
                value: Value::Text(v@),
            },
            Attribute::DigestMethod(v) => AttributeView {
                kind: AttributeKind::DigestMethod,
                value: Value::Text(v@),
            },
            Attribute::DigestUri(v) => AttributeView {
                kind: AttributeKind::DigestUri,
                value: Value::Text(v@),
            },
            Attribute::DigestQop(v) => AttributeView {
                kind: AttributeKind::DigestQop,
                value: Value::Text(v@),
            },
            Attribute::DigestAlgorithm(v) => AttributeView {
                kind: AttributeKind::DigestAlgorithm,
                value: Value::Text(v@),
            },
            Attribute::DigestBodyDigest(v) => AttributeView {
                kind: AttributeKind::DigestBodyDigest,
                value: Value::Text(v@),
            },
            Attribute::DigestCnonce(v) => AttributeView {
                kind: AttributeKind::DigestCnonce,
                value: Value::Text(v@),
            },
            Attribute::DigestNonceCount(v) => AttributeView {
                kind: AttributeKind::DigestNonceCount,
                value: Value::Text(v@),
            },
            Attribute::DigestUserName(v) => AttributeView {
                kind: AttributeKind::DigestUserName,
                value: Value::Text(v@),
            },
            Attribute::UserId(v) => AttributeView {
                kind: AttributeKind::UserId,
                value: Value::Text(v@),
            },
            Attribute::UserRealm(v) => AttributeView {
                kind: AttributeKind::UserRealm,
                value: Value::Text(v@),
            },
        }
    }
}

/// Narrows a 64-bit number to 32 bits with `num::ToPrimitive::to_u32`: the
/// same number where it fits, `None` where it does not.
#[verifier::external_body]
fn narrow(n: u64) -> (r: Option<u32>)
    ensures
        n <= u32::MAX ==> r == Some(n as u32),
        n > u32::MAX ==> r is None,
{
    num::ToPrimitive::to_u32(&n)
}

impl Attribute {
    /// Which attribute this is.
    pub fn kind(&self) -> (k: AttributeKind)
        ensures
            k == self@.kind,
    {
        match self {
            Attribute::UserName(_) => AttributeKind::UserName,
            Attribute::UserPassword(_) => AttributeKind::UserPassword,
            Attribute::ChapPassword(_) => AttributeKind::ChapPassword,
            Attribute::NasIpAddress(_) => AttributeKind::NasIpAddress,
            Attribute::NasPort(_) => AttributeKind::NasPort,
            Attribute::ServiceType(_) => AttributeKind::ServiceType,
            Attribute::FramedProtocol(_) => AttributeKind::FramedProtocol,
            Attribute::FramedIpAddress(_) => AttributeKind::FramedIpAddress,
            Attribute::FramedIpNetmask(_) => AttributeKind::FramedIpNetmask,
            Attribute::FramedRouting(_) => AttributeKind::FramedRouting,
            Attribute::FilterId(_) => AttributeKind::FilterId,
            Attribute::FramedMtu(_) => AttributeKind::FramedMtu,
            Attribute::FramedCompression(_) => AttributeKind::FramedCompression,
            Attribute::LoginIpHost(_) => AttributeKind::LoginIpHost,
            Attribute::LoginService(_) => AttributeKind::LoginService,
            Attribute::LoginPort(_) => AttributeKind::LoginPort,
            Attribute::OldPassword(_) => AttributeKind::OldPassword,
            Attribute::ReplyMessage(_) => AttributeKind::ReplyMessage,
            Attribute::LoginCallbackNumber(_) => AttributeKind::LoginCallbackNumber,
            Attribute::Expiration(_) => AttributeKind::Expiration,
            Attribute::FramedRoute(_) => AttributeKind::FramedRoute,
            Attribute::FramedIpxNetwork(_) => AttributeKind::FramedIpxNetwork,
            Attribute::State(_) => AttributeKind::State,
            Attribute::Class(_) => AttributeKind::Class,
            Attribute::VendorSpecific(_) => AttributeKind::VendorSpecific,
            Attribute::SessionTimeout(_) => AttributeKind::SessionTimeout,
            Attribute::IdleTimeout(_) => AttributeKind::IdleTimeout,
            Attribute::TerminationAction(_) => AttributeKind::TerminationAction,
            Attribute::CalledStationId(_) => AttributeKind::CalledStationId,
            Attribute::CallingStationId(_) => AttributeKind::CallingStationId,
            Attribute::NasIdentifier(_) => AttributeKind::NasIdentifier,
            Attribute::ProxyState(_) => AttributeKind::ProxyState,
            Attribute::LoginLatService(_) => AttributeKind::LoginLatService,
            Attribute::LoginLatNode(_) => AttributeKind::LoginLatNode,
            Attribute::LoginLatGroup(_) => AttributeKind::LoginLatGroup,
            Attribute::FramedAppletalkLink(_) => AttributeKind::FramedAppletalkLink,
            Attribute::FramedAppletalkNetwork(_) => AttributeKind::FramedAppletalkNetwork,
            Attribute::FramedAppletalkZone(_) => AttributeKind::FramedAppletalkZone,
            Attribute::EventTimestamp(_) => AttributeKind::EventTimestamp,
            Attribute::ChapChallenge(_) => AttributeKind::ChapChallenge,
            Attribute::NasPortType(_) => AttributeKind::NasPortType,
            Attribute::PortLimit(_) => AttributeKind::PortLimit,
            Attribute::LoginLatPort(_) => AttributeKind::LoginLatPort,
            Attribute::ConnectInfo(_) => AttributeKind::ConnectInfo,
            Attribute::MessageAuthenticator(_) => AttributeKind::MessageAuthenticator,
            Attribute::NasIpv6Address(_) => AttributeKind::NasIpv6Address,
            Attribute::FramedInterfaceId(_) => AttributeKind::FramedInterfaceId,
            Attribute::FramedIpv6Prefix(_) => AttributeKind::FramedIpv6Prefix,
            Attribute::LoginIpv6Host(_) => AttributeKind::LoginIpv6Host,
            Attribute::FramedIpv6Route(_) => AttributeKind::FramedIpv6Route,
            Attribute::FramedIpv6Pool(_) => AttributeKind::FramedIpv6Pool,
            Attribute::FramedIpv6Address(_) => AttributeKind::FramedIpv6Address,
            Attribute::DnsServerIpv6Address(_) => AttributeKind::DnsServerIpv6Address,
            Attribute::RouteIpv6Information(_) => AttributeKind::RouteIpv6Information,
            Attribute::AcctStatusType(_) => AttributeKind::AcctStatusType,
            Attribute::AcctDelayTime(_) => AttributeKind::AcctDelayTime,
            Attribute::AcctInputOctets(_) => AttributeKind::AcctInputOctets,
            Attribute::AcctOutputOctets(_) => AttributeKind::AcctOutputOctets,
            Attribute::AcctSessionId(_) => AttributeKind::AcctSessionId,
            Attribute::AcctAuthentic(_) => AttributeKind::AcctAuthentic,
            Attribute::AcctSessionTime(_) => AttributeKind::AcctSessionTime,
            Attribute::AcctInputPackets(_) => AttributeKind::AcctInputPackets,
            Attribute::AcctOutputPackets(_) => AttributeKind::AcctOutputPackets,
            Attribute::AcctTerminateCause(_) => AttributeKind::AcctTerminateCause,
            Attribute::AcctMultiSessionId(_) => AttributeKind::AcctMultiSessionId,
            Attribute::AcctLinkCount(_) => AttributeKind::AcctLinkCount,
            Attribute::AcctInputGigawords(_) => AttributeKind::AcctInputGigawords,
            Attribute::AcctOutputGigawords(_) => AttributeKind::AcctOutputGigawords,
            Attribute::DigestResponse(_) => AttributeKind::DigestResponse,
            Attribute::DigestAttributes(_) => AttributeKind::DigestAttributes,
            Attribute::DigestRealm(_) => AttributeKind::DigestRealm,
            Attribute::DigestNonce(_) => AttributeKind::DigestNonce,
            Attribute::DigestMethod(_) => AttributeKind::DigestMethod,
            Attribute::DigestUri(_) => AttributeKind::DigestUri,
            Attribute::DigestQop(_) => AttributeKind::DigestQop,
            Attribute::DigestAlgorithm(_) => AttributeKind::DigestAlgorithm,
            Attribute::DigestBodyDigest(_) => AttributeKind::DigestBodyDigest,
            Attribute::DigestCnonce(_) => AttributeKind::DigestCnonce,
            Attribute::DigestNonceCount(_) => AttributeKind::DigestNonceCount,
            Attribute::DigestUserName(_) => AttributeKind::DigestUserName,
            Attribute::UserId(_) => AttributeKind::UserId,
            Attribute::UserRealm(_) => AttributeKind::UserRealm,
        }
    }

    /// The wire type that this attribute's value travels as.
    pub fn attribute_type(&self) -> (t: AttributeType)
        ensures
            t == self@.kind.spec_wire_type(),
    {
        self.kind().wire_type()
    }

    /// Takes the value out of the attribute. A symbol of a closed set comes
    /// out as its code.
    pub fn into_payload(self) -> (p: Payload)
        ensures
            p@ == self@.value,
    {
        match self {
            Attribute::UserName(s)
            | Attribute::UserPassword(s)
            | Attribute::ChapPassword(s)
            | Attribute::OldPassword(s)
            | Attribute::ReplyMessage(s)
            | Attribute::LoginCallbackNumber(s)
            | Attribute::FramedRoute(s)
            | Attribute::State(s)
            | Attribute::Class(s)
            | Attribute::VendorSpecific(s)
            | Attribute::CalledStationId(s)
            | Attribute::CallingStationId(s)
            | Attribute::NasIdentifier(s)
            | Attribute::ProxyState(s)
            | Attribute::LoginLatService(s)
            | Attribute::LoginLatNode(s)
            | Attribute::LoginLatGroup(s)
            | Attribute::FramedAppletalkLink(s)
            | Attribute::FramedAppletalkNetwork(s)
            | Attribute::FramedAppletalkZone(s)
            | Attribute::ChapChallenge(s)
            | Attribute::LoginLatPort(s)
            | Attribute::ConnectInfo(s)
            | Attribute::MessageAuthenticator(s)
            | Attribute::FramedInterfaceId(s)
            | Attribute::FramedIpv6Prefix(s)
            | Attribute::LoginIpv6Host(s)
            | Attribute::FramedIpv6Route(s)
            | Attribute::FramedIpv6Pool(s)
            | Attribute::RouteIpv6Information(s)
            | Attribute::AcctSessionId(s)
            | Attribute::DigestResponse(s)
            | Attribute::DigestAttributes(s)
            | Attribute::DigestRealm(s)
            | Attribute::DigestNonce(s)
            | Attribute::DigestMethod(s)
            | Attribute::DigestUri(s)
            | Attribute::DigestQop(s)
            | Attribute::DigestAlgorithm(s)
            | Attribute::DigestBodyDigest(s)
            | Attribute::DigestCnonce(s)
            | Attribute::DigestNonceCount(s)
            | Attribute::DigestUserName(s)
            | Attribute::UserId(s)
            | Attribute::UserRealm(s) => Payload::Text(s),
            Attribute::NasPort(n)
            | Attribute::FilterId(n)
            | Attribute::FramedMtu(n)
            | Attribute::LoginPort(n)
            | Attribute::Expiration(n)
            | Attribute::FramedIpxNetwork(n)
            | Attribute::SessionTimeout(n)
            | Attribute::IdleTimeout(n)
            | Attribute::EventTimestamp(n)
            | Attribute::PortLimit(n)
            | Attribute::AcctDelayTime(n)
            | Attribute::AcctInputOctets(n)
            | Attribute::AcctOutputOctets(n)
            | Attribute::AcctSessionTime(n)
            | Attribute::AcctInputPackets(n)
            | Attribute::AcctOutputPackets(n)
            | Attribute::AcctMultiSessionId(n)
            | Attribute::AcctLinkCount(n)
            | Attribute::AcctInputGigawords(n)
            | Attribute::AcctOutputGigawords(n) => Payload::Integer(n),
            Attribute::NasIpAddress(a)
            | Attribute::FramedIpAddress(a)
            | Attribute::FramedIpNetmask(a)
            | Attribute::LoginIpHost(a) => Payload::Ipv4(a),
            Attribute::NasIpv6Address(a)
            | Attribute::FramedIpv6Address(a)
            | Attribute::DnsServerIpv6Address(a) => Payload::Ipv6(a),
            Attribute::ServiceType(v) => Payload::Integer(v.to_u32()),
            Attribute::FramedProtocol(v) => Payload::Integer(v.to_u32()),
            Attribute::FramedRouting(v) => Payload::Integer(v.to_u32()),
            Attribute::FramedCompression(v) => Payload::Integer(v.to_u32()),
            Attribute::LoginService(v) => Payload::Integer(v.to_u32()),
            Attribute::TerminationAction(v) => Payload::Integer(v.to_u32()),
            Attribute::NasPortType(v) => Payload::Integer(v.to_u32()),
            Attribute::AcctStatusType(v) => Payload::Integer(v.to_u32()),
            Attribute::AcctAuthentic(v) => Payload::Integer(v.to_u32()),
            Attribute::AcctTerminateCause(v) => Payload::Integer(v.to_u32()),
        }
    }

    /// The attribute `kind` holding text, or `TypeMismatch` where `kind`
    /// holds no text.
    pub fn from_text(kind: AttributeKind, text: String) -> (r: Result<Attribute, ConversionError>)
        ensures
            result_view(r) == construct(kind, Value::Text(text@)),
    {
        match kind {
            AttributeKind::UserName => Ok(Attribute::UserName(text)),
            AttributeKind::UserPassword => Ok(Attribute::UserPassword(text)),
            AttributeKind::ChapPassword => Ok(Attribute::ChapPassword(text)),
            AttributeKind::OldPassword => Ok(Attribute::OldPassword(text)),
            AttributeKind::ReplyMessage => Ok(Attribute::ReplyMessage(text)),
            AttributeKind::LoginCallbackNumber => Ok(Attribute::LoginCallbackNumber(text)),
            AttributeKind::FramedRoute => Ok(Attribute::FramedRoute(text)),
            AttributeKind::State => Ok(Attribute::State(text)),
            AttributeKind::Class => Ok(Attribute::Class(text)),
            AttributeKind::VendorSpecific => Ok(Attribute::VendorSpecific(text)),
            AttributeKind::CalledStationId => Ok(Attribute::CalledStationId(text)),
            AttributeKind::CallingStationId => Ok(Attribute::CallingStationId(text)),
            AttributeKind::NasIdentifier => Ok(Attribute::NasIdentifier(text)),
            AttributeKind::ProxyState => Ok(Attribute::ProxyState(text)),
            AttributeKind::LoginLatService => Ok(Attribute::LoginLatService(text)),
            AttributeKind::LoginLatNode => Ok(Attribute::LoginLatNode(text)),
            AttributeKind::LoginLatGroup => Ok(Attribute::LoginLatGroup(text)),
            AttributeKind::FramedAppletalkLink => Ok(Attribute::FramedAppletalkLink(text)),
            AttributeKind::FramedAppletalkNetwork => Ok(Attribute::FramedAppletalkNetwork(text)),
            AttributeKind::FramedAppletalkZone => Ok(Attribute::FramedAppletalkZone(text)),
            AttributeKind::ChapChallenge => Ok(Attribute::ChapChallenge(text)),
            AttributeKind::LoginLatPort => Ok(Attribute::LoginLatPort(text)),
            AttributeKind::ConnectInfo => Ok(Attribute::ConnectInfo(text)),
            AttributeKind::MessageAuthenticator => Ok(Attribute::MessageAuthenticator(text)),
            AttributeKind::FramedInterfaceId => Ok(Attribute::FramedInterfaceId(text)),
            AttributeKind::FramedIpv6Prefix => Ok(Attribute::FramedIpv6Prefix(text)),
            AttributeKind::LoginIpv6Host => Ok(Attribute::LoginIpv6Host(text)),
            AttributeKind::FramedIpv6Route => Ok(Attribute::FramedIpv6Route(text)),
            AttributeKind::FramedIpv6Pool => Ok(Attribute::FramedIpv6Pool(text)),
            AttributeKind::RouteIpv6Information => Ok(Attribute::RouteIpv6Information(text)),
            AttributeKind::AcctSessionId => Ok(Attribute::AcctSessionId(text)),
            AttributeKind::DigestResponse => Ok(Attribute::DigestResponse(text)),
            AttributeKind::DigestAttributes => Ok(Attribute::DigestAttributes(text)),
            AttributeKind::DigestRealm => Ok(Attribute::DigestRealm(text)),
            AttributeKind::DigestNonce => Ok(Attribute::DigestNonce(text)),
            AttributeKind::DigestMethod => Ok(Attribute::DigestMethod(text)),
            AttributeKind::DigestUri => Ok(Attribute::DigestUri(text)),
            AttributeKind::DigestQop => Ok(Attribute::DigestQop(text)),
            AttributeKind::DigestAlgorithm => Ok(Attribute::DigestAlgorithm(text)),
            AttributeKind::DigestBodyDigest => Ok(Attribute::DigestBodyDigest(text)),
            AttributeKind::DigestCnonce => Ok(Attribute::DigestCnonce(text)),
            AttributeKind::DigestNonceCount => Ok(Attribute::DigestNonceCount(text)),
            AttributeKind::DigestUserName => Ok(Attribute::DigestUserName(text)),
            AttributeKind::UserId => Ok(Attribute::UserId(text)),
            AttributeKind::UserRealm => Ok(Attribute::UserRealm(text)),
            _ => Err(ConversionError::TypeMismatch),
        }
    }

    /// The attribute `kind` holding the number `n`, or the symbol with code
    /// `n` for an enumerated attribute. `EnumValueOutOfRange` where no symbol
    /// of the attribute's closed set has that code, `TypeMismatch` where
    /// `kind` holds no number.
    pub fn from_integer(kind: AttributeKind, n: u32) -> (r: Result<Attribute, ConversionError>)
        ensures
            result_view(r) == construct(kind, Value::Integer(n)),
    {
        match kind {
            AttributeKind::NasPort => Ok(Attribute::NasPort(n)),
            AttributeKind::FilterId => Ok(Attribute::FilterId(n)),
            AttributeKind::FramedMtu => Ok(Attribute::FramedMtu(n)),
            AttributeKind::LoginPort => Ok(Attribute::LoginPort(n)),
            AttributeKind::Expiration => Ok(Attribute::Expiration(n)),
            AttributeKind::FramedIpxNetwork => Ok(Attribute::FramedIpxNetwork(n)),
            AttributeKind::SessionTimeout => Ok(Attribute::SessionTimeout(n)),
            AttributeKind::IdleTimeout => Ok(Attribute::IdleTimeout(n)),
            AttributeKind::EventTimestamp => Ok(Attribute::EventTimestamp(n)),
            AttributeKind::PortLimit => Ok(Attribute::PortLimit(n)),
            AttributeKind::AcctDelayTime => Ok(Attribute::AcctDelayTime(n)),
            AttributeKind::AcctInputOctets => Ok(Attribute::AcctInputOctets(n)),
            AttributeKind::AcctOutputOctets => Ok(Attribute::AcctOutputOctets(n)),
            AttributeKind::AcctSessionTime => Ok(Attribute::AcctSessionTime(n)),
            AttributeKind::AcctInputPackets => Ok(Attribute::AcctInputPackets(n)),
            AttributeKind::AcctOutputPackets => Ok(Attribute::AcctOutputPackets(n)),
            AttributeKind::AcctMultiSessionId => Ok(Attribute::AcctMultiSessionId(n)),
            AttributeKind::AcctLinkCount => Ok(Attribute::AcctLinkCount(n)),
            AttributeKind::AcctInputGigawords => Ok(Attribute::AcctInputGigawords(n)),
            AttributeKind::AcctOutputGigawords => Ok(Attribute::AcctOutputGigawords(n)),
            AttributeKind::ServiceType => match ServiceType::from_u32(n) {
                Some(v) => Ok(Attribute::ServiceType(v)),
                None => Err(ConversionError::EnumValueOutOfRange),
            },
            AttributeKind::FramedProtocol => match Protocol::from_u32(n) {
                Some(v) => Ok(Attribute::FramedProtocol(v)),
                None => Err(ConversionError::EnumValueOutOfRange),
            },
            AttributeKind::FramedRouting => match RoutingValue::from_u32(n) {
                Some(v) => Ok(Attribute::FramedRouting(v)),
                None => Err(ConversionError::EnumValueOutOfRange),
            },
            AttributeKind::FramedCompression => match CompressionType::from_u32(n) {
                Some(v) => Ok(Attribute::FramedCompression(v)),
                None => Err(ConversionError::EnumValueOutOfRange),
            },
            AttributeKind::LoginService => match LoginService::from_u32(n) {
                Some(v) => Ok(Attribute::LoginService(v)),
                None => Err(ConversionError::EnumValueOutOfRange),
            },
            AttributeKind::TerminationAction => match TerminationAction::from_u32(n) {
                Some(v) => Ok(Attribute::TerminationAction(v)),
                None => Err(ConversionError::EnumValueOutOfRange),
            },
            AttributeKind::NasPortType => match NasPortType::from_u32(n) {
                Some(v) => Ok(Attribute::NasPortType(v)),
                None => Err(ConversionError::EnumValueOutOfRange),
            },
            AttributeKind::AcctStatusType => match StatusType::from_u32(n) {
                Some(v) => Ok(Attribute::AcctStatusType(v)),
                None => Err(ConversionError::EnumValueOutOfRange),
            },
            AttributeKind::AcctAuthentic => match Authentic::from_u32(n) {
                Some(v) => Ok(Attribute::AcctAuthentic(v)),
                None => Err(ConversionError::EnumValueOutOfRange),
            },
            AttributeKind::AcctTerminateCause => match AccountTerminationCause::from_u32(n) {
                Some(v) => Ok(Attribute::AcctTerminateCause(v)),
                None => Err(ConversionError::EnumValueOutOfRange),
            },
            _ => Err(ConversionError::TypeMismatch),
        }
    }

    /// The attribute `kind` holding an IPv4 address, or `TypeMismatch` where
    /// `kind` holds none.
    pub fn from_ipv4(kind: AttributeKind, address: Ipv4Address) -> (r: Result<
        Attribute,
        ConversionError,
    >)
        ensures
            result_view(r) == construct(kind, Value::Ipv4(address@)),
    {
        match kind {
            AttributeKind::NasIpAddress => Ok(Attribute::NasIpAddress(address)),
            AttributeKind::FramedIpAddress => Ok(Attribute::FramedIpAddress(address)),
            AttributeKind::FramedIpNetmask => Ok(Attribute::FramedIpNetmask(address)),
            AttributeKind::LoginIpHost => Ok(Attribute::LoginIpHost(address)),
            _ => Err(ConversionError::TypeMismatch),
        }
    }

    /// The attribute `kind` holding an IPv6 address, or `TypeMismatch` where
    /// `kind` holds none.
    pub fn from_ipv6(kind: AttributeKind, address: Ipv6Address) -> (r: Result<
        Attribute,
        ConversionError,
    >)
        ensures
            result_view(r) == construct(kind, Value::Ipv6(address@)),
    {
        match kind {
            AttributeKind::NasIpv6Address => Ok(Attribute::NasIpv6Address(address)),
            AttributeKind::FramedIpv6Address => Ok(Attribute::FramedIpv6Address(address)),
            AttributeKind::DnsServerIpv6Address => Ok(Attribute::DnsServerIpv6Address(address)),
            _ => Err(ConversionError::TypeMismatch),
        }
    }

    /// Puts a value into the attribute `kind`.
    pub fn new(kind: AttributeKind, payload: Payload) -> (r: Result<Attribute, ConversionError>)
        ensures
            result_view(r) == construct(kind, payload@),
            r matches Ok(a) ==> a@.wf(),
    {
        match payload {
            Payload::Text(text) => Attribute::from_text(kind, text),
            Payload::Integer(n) => Attribute::from_integer(kind, n),
            Payload::Ipv4(address) => Attribute::from_ipv4(kind, address),
            Payload::Ipv6(address) => Attribute::from_ipv6(kind, address),
        }
    }

    /// The text of a text attribute; `None` for every other attribute.
    pub fn to_string_value(self) -> (r: Option<String>)
        ensures
            match self@.value.as_text() {
                Some(t) => r matches Some(s) && s@ == t,
                None => r is None,
            },
    {
        match self.into_payload() {
            Payload::Text(s) => Some(s),
            _ => None,
        }
    }

    /// The number that stands for the value in four bytes: a plain number,
    /// the code of a symbol, or an IPv4 address read most significant octet
    /// first. `None` for text and for IPv6 addresses.
    pub fn to_int_value(self) -> (r: Option<u32>)
        ensures
            r == self@.value.as_integer(),
    {
        match self.into_payload() {
            Payload::Integer(n) => Some(n),
            Payload::Ipv4(a) => Some(a.to_u32()),
            _ => None,
        }
    }

    /// The attribute's numeric code, as a 64-bit number. Every attribute has
    /// one.
    pub fn to_u64(&self) -> (r: Option<u64>)
        ensures
            r == Some(self@.kind.spec_code() as u64),
    {
        Some(self.kind().code() as u64)
    }

    /// The attribute's numeric code, as a signed 64-bit number.
    pub fn to_i64(&self) -> (r: Option<i64>)
        ensures
            r == Some(self@.kind.spec_code() as i64),
    {
        match self.to_u64() {
            Some(code) => Some(code as i64),
            None => None,
        }
    }

    /// The attribute's numeric code, narrowed from [`Attribute::to_u64`].
    pub fn to_u32(&self) -> (r: Option<u32>)
        ensures
            r == Some(self@.kind.spec_code()),
    {
        match self.to_u64() {
            Some(code) => narrow(code),
            None => None,
        }
    }

    /// Whatever value an attribute holds, it is one that the attribute can
    /// hold.
    pub proof fn lemma_view_wf(self)
        ensures
            self@.wf(),
            construct(self@.kind, self@.value) == Ok::<AttributeView, ConversionError>(self@),
    {
        match self {
            Attribute::ServiceType(v) => {
                ServiceType::lemma_from_to(v);
            },
            Attribute::FramedProtocol(v) => {
                Protocol::lemma_from_to(v);
            },
            Attribute::FramedRouting(v) => {
                RoutingValue::lemma_from_to(v);
            },
            Attribute::FramedCompression(v) => {
                CompressionType::lemma_from_to(v);
            },
            Attribute::LoginService(v) => {
                LoginService::lemma_from_to(v);
            },
            Attribute::TerminationAction(v) => {
                TerminationAction::lemma_from_to(v);
            },
            Attribute::NasPortType(v) => {
                NasPortType::lemma_from_to(v);
            },
            Attribute::AcctStatusType(v) => {
                StatusType::lemma_from_to(v);
            },
            Attribute::AcctAuthentic(v) => {
                Authentic::lemma_from_to(v);
            },
            Attribute::AcctTerminateCause(v) => {
                AccountTerminationCause::lemma_from_to(v);
            },
            _ => {},
        }
    }

    /// The view tells attributes apart: two attributes with the same view
    /// are the same variant with the same content. For every attribute but
    /// the text attributes, whose content is seen through its characters,
    /// that makes them equal.
    pub proof fn lemma_view_injective(self, other: Attribute)
        requires
            self@ == other@,
        ensures
            self@.kind == other@.kind,
            !(self@.value is Text) ==> self == other,
    {
        match (self, other) {
            (Attribute::NasIpAddress(x), Attribute::NasIpAddress(y)) => {
                x.lemma_view_injective(y);
            },
            (Attribute::ServiceType(x), Attribute::ServiceType(y)) => {
                ServiceType::lemma_from_to(x);
                ServiceType::lemma_from_to(y);
            },
            (Attribute::FramedProtocol(x), Attribute::FramedProtocol(y)) => {
                Protocol::lemma_from_to(x);
                Protocol::lemma_from_to(y);
            },
            (Attribute::FramedIpAddress(x), Attribute::FramedIpAddress(y)) => {
                x.lemma_view_injective(y);
            },
            (Attribute::FramedIpNetmask(x), Attribute::FramedIpNetmask(y)) => {
                x.lemma_view_injective(y);
            },
            (Attribute::FramedRouting(x), Attribute::FramedRouting(y)) => {
                RoutingValue::lemma_from_to(x);
                RoutingValue::lemma_from_to(y);
            },
            (Attribute::FramedCompression(x), Attribute::FramedCompression(y)) => {
                CompressionType::lemma_from_to(x);
                CompressionType::lemma_from_to(y);
            },
            (Attribute::LoginIpHost(x), Attribute::LoginIpHost(y)) => {
                x.lemma_view_injective(y);
            },
            (Attribute::LoginService(x), Attribute::LoginService(y)) => {
                LoginService::lemma_from_to(x);
                LoginService::lemma_from_to(y);
            },
            (Attribute::TerminationAction(x), Attribute::TerminationAction(y)) => {
                TerminationAction::lemma_from_to(x);
                TerminationAction::lemma_from_to(y);
            },
            (Attribute::NasPortType(x), Attribute::NasPortType(y)) => {
                NasPortType::lemma_from_to(x);
                NasPortType::lemma_from_to(y);
            },
            (Attribute::NasIpv6Address(x), Attribute::NasIpv6Address(y)) => {
                x.lemma_view_injective(y);
            },
            (Attribute::FramedIpv6Address(x), Attribute::FramedIpv6Address(y)) => {
                x.lemma_view_injective(y);
            },
            (Attribute::DnsServerIpv6Address(x), Attribute::DnsServerIpv6Address(y)) => {
                x.lemma_view_injective(y);
            },
            (Attribute::AcctStatusType(x), Attribute::AcctStatusType(y)) => {
                StatusType::lemma_from_to(x);
                StatusType::lemma_from_to(y);
            },
            (Attribute::AcctAuthentic(x), Attribute::AcctAuthentic(y)) => {
                Authentic::lemma_from_to(x);
                Authentic::lemma_from_to(y);
            },
            (Attribute::AcctTerminateCause(x), Attribute::AcctTerminateCause(y)) => {
                AccountTerminationCause::lemma_from_to(x);
                AccountTerminationCause::lemma_from_to(y);
            },
            _ => {},
        }
    }
}

} // verus!
