//! The closed value sets of the enumerated attributes.
//!
//! Each set maps some 32-bit codes to named symbols. A code outside the set
//! stands for nothing: it is never turned into a default symbol.

use vstd::prelude::*;

verus! {

/// The kind of service that the user asks for or is given.
#[derive(Debug, Clone, Copy, PartialEq, Eq, Hash, Structural)]
pub enum ServiceType {
    Login,
    Framed,
    CallbackLogin,
    CallbackFramed,
    Outbound,
    Administrative,
    NasPrompt,
    AuthenticateOnly,
    CallbackNasPrompt,
}

impl ServiceType {
    /// The code of a symbol.
    pub open spec fn spec_to_u32(self) -> u32 {
        match self {
            ServiceType::Login => 1,
            ServiceType::Framed => 2,
            ServiceType::CallbackLogin => 3,
            ServiceType::CallbackFramed => 4,
            ServiceType::Outbound => 5,
            ServiceType::Administrative => 6,
            ServiceType::NasPrompt => 7,
            ServiceType::AuthenticateOnly => 8,
            ServiceType::CallbackNasPrompt => 9,
        }
    }

    /// The symbol that a code stands for, if it stands for one.
    pub open spec fn spec_from_u32(n: u32) -> Option<ServiceType> {
        if n == 1 {
            Some(ServiceType::Login)
        } else if n == 2 {
            Some(ServiceType::Framed)
        } else if n == 3 {
            Some(ServiceType::CallbackLogin)
        } else if n == 4 {
            Some(ServiceType::CallbackFramed)
        } else if n == 5 {
            Some(ServiceType::Outbound)
        } else if n == 6 {
            Some(ServiceType::Administrative)
        } else if n == 7 {
            Some(ServiceType::NasPrompt)
        } else if n == 8 {
            Some(ServiceType::AuthenticateOnly)
        } else if n == 9 {
            Some(ServiceType::CallbackNasPrompt)
        } else {
            None
        }
    }

    /// The code of this symbol. Every symbol has exactly one.
    #[verifier::when_used_as_spec(spec_to_u32)]
    pub fn to_u32(self) -> (r: u32)
        ensures
            r == self.spec_to_u32(),
    {
        match self {
            ServiceType::Login => 1,
            ServiceType::Framed => 2,
            ServiceType::CallbackLogin => 3,
            ServiceType::CallbackFramed => 4,
            ServiceType::Outbound => 5,
            ServiceType::Administrative => 6,
            ServiceType::NasPrompt => 7,
            ServiceType::AuthenticateOnly => 8,
            ServiceType::CallbackNasPrompt => 9,
        }
    }

    /// The symbol with code `n`; `None` for every code outside the set.
    pub fn from_u32(n: u32) -> (r: Option<ServiceType>)
        ensures
            r == ServiceType::spec_from_u32(n),
            r matches Some(s) ==> s.spec_to_u32() == n,
            r is None ==> forall|s: ServiceType| s.spec_to_u32() != n,
    {
        if n == 1 {
            Some(ServiceType::Login)
        } else if n == 2 {
            Some(ServiceType::Framed)
        } else if n == 3 {
            Some(ServiceType::CallbackLogin)
        } else if n == 4 {
            Some(ServiceType::CallbackFramed)
        } else if n == 5 {
            Some(ServiceType::Outbound)
        } else if n == 6 {
            Some(ServiceType::Administrative)
        } else if n == 7 {
            Some(ServiceType::NasPrompt)
        } else if n == 8 {
            Some(ServiceType::AuthenticateOnly)
        } else if n == 9 {
            Some(ServiceType::CallbackNasPrompt)
        } else {
            None
        }
    }

    /// Every symbol is found again from its code.
    pub proof fn lemma_from_to(s: ServiceType)
        ensures
            ServiceType::spec_from_u32(s.spec_to_u32()) == Some(s),
    {
    }

    /// A code stands for a symbol only if it is that symbol's code: a code
    /// that no symbol has stands for nothing.
    pub proof fn lemma_to_from(n: u32)
        ensures
            match ServiceType::spec_from_u32(n) {
                Some(s) => s.spec_to_u32() == n,
                None => forall|s: ServiceType| s.spec_to_u32() != n,
            },
    {
    }
}

/// The framing of a framed link.
#[derive(Debug, Clone, Copy, PartialEq, Eq, Hash, Structural)]
pub enum Protocol {
    Ppp,
    Slip,
    Ara,
    Gandalf,
    Xylogics,
}

impl Protocol {
    /// The code of a symbol.
    pub open spec fn spec_to_u32(self) -> u32 {
        match self {
            Protocol::Ppp => 1,
            Protocol::Slip => 2,
            Protocol::Ara => 3,
            Protocol::Gandalf => 4,
            Protocol::Xylogics => 5,
        }
    }

    /// The symbol that a code stands for, if it stands for one.
    pub open spec fn spec_from_u32(n: u32) -> Option<Protocol> {
        if n == 1 {
            Some(Protocol::Ppp)
        } else if n == 2 {
            Some(Protocol::Slip)
        } else if n == 3 {
            Some(Protocol::Ara)
        } else if n == 4 {
            Some(Protocol::Gandalf)
        } else if n == 5 {
            Some(Protocol::Xylogics)
        } else {
            None
        }
    }

    /// The code of this symbol. Every symbol has exactly one.
    #[verifier::when_used_as_spec(spec_to_u32)]
    pub fn to_u32(self) -> (r: u32)
        ensures
            r == self.spec_to_u32(),
    {
        match self {
            Protocol::Ppp => 1,
            Protocol::Slip => 2,
            Protocol::Ara => 3,
            Protocol::Gandalf => 4,
            Protocol::Xylogics => 5,
        }
    }

    /// The symbol with code `n`; `None` for every code outside the set.
    pub fn from_u32(n: u32) -> (r: Option<Protocol>)
        ensures
            r == Protocol::spec_from_u32(n),
            r matches Some(s) ==> s.spec_to_u32() == n,
            r is None ==> forall|s: Protocol| s.spec_to_u32() != n,
    {
        if n == 1 {
            Some(Protocol::Ppp)
        } else if n == 2 {
            Some(Protocol::Slip)
        } else if n == 3 {
            Some(Protocol::Ara)
        } else if n == 4 {
            Some(Protocol::Gandalf)
        } else if n == 5 {
            Some(Protocol::Xylogics)
        } else {
            None
        }
    }

    /// Every symbol is found again from its code.
    pub proof fn lemma_from_to(s: Protocol)
        ensures
            Protocol::spec_from_u32(s.spec_to_u32()) == Some(s),
    {
    }

    /// A code stands for a symbol only if it is that symbol's code: a code
    /// that no symbol has stands for nothing.
    pub proof fn lemma_to_from(n: u32)
        ensures
            match Protocol::spec_from_u32(n) {
                Some(s) => s.spec_to_u32() == n,
                None => forall|s: Protocol| s.spec_to_u32() != n,
            },
    {
    }
}

/// How a framed user takes part in routing.
#[derive(Debug, Clone, Copy, PartialEq, Eq, Hash, Structural)]
pub enum RoutingValue {
    NoRouting,
    Broadcast,
    Listen,
    BroadcastListen,
}

impl RoutingValue {
    /// The code of a symbol.
    pub open spec fn spec_to_u32(self) -> u32 {
        match self {
            RoutingValue::NoRouting => 0,
            RoutingValue::Broadcast => 1,
            RoutingValue::Listen => 2,
            RoutingValue::BroadcastListen => 3,
        }
    }

    /// The symbol that a code stands for, if it stands for one.
    pub open spec fn spec_from_u32(n: u32) -> Option<RoutingValue> {
        if n == 0 {
            Some(RoutingValue::NoRouting)
        } else if n == 1 {
            Some(RoutingValue::Broadcast)
        } else if n == 2 {
            Some(RoutingValue::Listen)
        } else if n == 3 {
            Some(RoutingValue::BroadcastListen)
        } else {
            None
        }
    }

    /// The code of this symbol. Every symbol has exactly one.
    #[verifier::when_used_as_spec(spec_to_u32)]
    pub fn to_u32(self) -> (r: u32)
        ensures
            r == self.spec_to_u32(),
    {
        match self {
            RoutingValue::NoRouting => 0,
            RoutingValue::Broadcast => 1,
            RoutingValue::Listen => 2,
            RoutingValue::BroadcastListen => 3,
        }
    }

    /// The symbol with code `n`; `None` for every code outside the set.
    pub fn from_u32(n: u32) -> (r: Option<RoutingValue>)
        ensures
            r == RoutingValue::spec_from_u32(n),
            r matches Some(s) ==> s.spec_to_u32() == n,
            r is None ==> forall|s: RoutingValue| s.spec_to_u32() != n,
    {
        if n == 0 {
            Some(RoutingValue::NoRouting)
        } else if n == 1 {
            Some(RoutingValue::Broadcast)
        } else if n == 2 {
            Some(RoutingValue::Listen)
        } else if n == 3 {
            Some(RoutingValue::BroadcastListen)
        } else {
            None
        }
    }

    /// Every symbol is found again from its code.
    pub proof fn lemma_from_to(s: RoutingValue)
        ensures
            RoutingValue::spec_from_u32(s.spec_to_u32()) == Some(s),
    {
    }

    /// A code stands for a symbol only if it is that symbol's code: a code
    /// that no symbol has stands for nothing.
    pub proof fn lemma_to_from(n: u32)
        ensures
            match RoutingValue::spec_from_u32(n) {
                Some(s) => s.spec_to_u32() == n,
                None => forall|s: RoutingValue| s.spec_to_u32() != n,
            },
    {
    }
}

/// The compression used on a framed link.
#[derive(Debug, Clone, Copy, PartialEq, Eq, Hash, Structural)]
pub enum CompressionType {
    VanJacobsenTcpIp,
    IpxHeaderCompression,
}

impl CompressionType {
    /// The code of a symbol.
    pub open spec fn spec_to_u32(self) -> u32 {
        match self {
            CompressionType::VanJacobsenTcpIp => 1,
            CompressionType::IpxHeaderCompression => 2,
        }
    }

    /// The symbol that a code stands for, if it stands for one.
    pub open spec fn spec_from_u32(n: u32) -> Option<CompressionType> {
        if n == 1 {
            Some(CompressionType::VanJacobsenTcpIp)
        } else if n == 2 {
            Some(CompressionType::IpxHeaderCompression)
        } else {
            None
        }
    }

    /// The code of this symbol. Every symbol has exactly one.
    #[verifier::when_used_as_spec(spec_to_u32)]
    pub fn to_u32(self) -> (r: u32)
        ensures
            r == self.spec_to_u32(),
    {
        match self {
            CompressionType::VanJacobsenTcpIp => 1,
            CompressionType::IpxHeaderCompression => 2,
        }
    }

    /// The symbol with code `n`; `None` for every code outside the set.
    pub fn from_u32(n: u32) -> (r: Option<CompressionType>)
        ensures
            r == CompressionType::spec_from_u32(n),
            r matches Some(s) ==> s.spec_to_u32() == n,
            r is None ==> forall|s: CompressionType| s.spec_to_u32() != n,
    {
        if n == 1 {
            Some(CompressionType::VanJacobsenTcpIp)
        } else if n == 2 {
            Some(CompressionType::IpxHeaderCompression)
        } else {
            None
        }
    }

    /// Every symbol is found again from its code.
    pub proof fn lemma_from_to(s: CompressionType)
        ensures
            CompressionType::spec_from_u32(s.spec_to_u32()) == Some(s),
    {
    }

    /// A code stands for a symbol only if it is that symbol's code: a code
    /// that no symbol has stands for nothing.
    pub proof fn lemma_to_from(n: u32)
        ensures
            match CompressionType::spec_from_u32(n) {
                Some(s) => s.spec_to_u32() == n,
                None => forall|s: CompressionType| s.spec_to_u32() != n,
            },
    {
    }
}

/// The service that connects the user to the login host.
#[derive(Debug, Clone, Copy, PartialEq, Eq, Hash, Structural)]
pub enum LoginService {
    Telnet,
    Rlogin,
    TcpClear,
    Portmaster,
    Lat,
    X25Pad,
    X25T3pos,
}

impl LoginService {
    /// The code of a symbol.
    pub open spec fn spec_to_u32(self) -> u32 {
        match self {
            LoginService::Telnet => 0,
            LoginService::Rlogin => 1,
            LoginService::TcpClear => 2,
            LoginService::Portmaster => 3,
            LoginService::Lat => 4,
            LoginService::X25Pad => 5,
            LoginService::X25T3pos => 6,
        }
    }

    /// The symbol that a code stands for, if it stands for one.
    pub open spec fn spec_from_u32(n: u32) -> Option<LoginService> {
        if n == 0 {
            Some(LoginService::Telnet)
        } else if n == 1 {
            Some(LoginService::Rlogin)
        } else if n == 2 {
            Some(LoginService::TcpClear)
        } else if n == 3 {
            Some(LoginService::Portmaster)
        } else if n == 4 {
            Some(LoginService::Lat)
        } else if n == 5 {
            Some(LoginService::X25Pad)
        } else if n == 6 {
            Some(LoginService::X25T3pos)
        } else {
            None
        }
    }

    /// The code of this symbol. Every symbol has exactly one.
    #[verifier::when_used_as_spec(spec_to_u32)]
    pub fn to_u32(self) -> (r: u32)
        ensures
            r == self.spec_to_u32(),
    {
        match self {
            LoginService::Telnet => 0,
            LoginService::Rlogin => 1,
            LoginService::TcpClear => 2,
            LoginService::Portmaster => 3,
            LoginService::Lat => 4,
            LoginService::X25Pad => 5,
            LoginService::X25T3pos => 6,
        }
    }

    /// The symbol with code `n`; `None` for every code outside the set.
    pub fn from_u32(n: u32) -> (r: Option<LoginService>)
        ensures
            r == LoginService::spec_from_u32(n),
            r matches Some(s) ==> s.spec_to_u32() == n,
            r is None ==> forall|s: LoginService| s.spec_to_u32() != n,
    {
        if n == 0 {
            Some(LoginService::Telnet)
        } else if n == 1 {
            Some(LoginService::Rlogin)
        } else if n == 2 {
            Some(LoginService::TcpClear)
        } else if n == 3 {
            Some(LoginService::Portmaster)
        } else if n == 4 {
            Some(LoginService::Lat)
        } else if n == 5 {
            Some(LoginService::X25Pad)
        } else if n == 6 {
            Some(LoginService::X25T3pos)
        } else {
            None
        }
    }

    /// Every symbol is found again from its code.
    pub proof fn lemma_from_to(s: LoginService)
        ensures
            LoginService::spec_from_u32(s.spec_to_u32()) == Some(s),
    {
    }

    /// A code stands for a symbol only if it is that symbol's code: a code
    /// that no symbol has stands for nothing.
    pub proof fn lemma_to_from(n: u32)
        ensures
            match LoginService::spec_from_u32(n) {
                Some(s) => s.spec_to_u32() == n,
                None => forall|s: LoginService| s.spec_to_u32() != n,
            },
    {
    }
}

/// What the access server does when service ends.
#[derive(Debug, Clone, Copy, PartialEq, Eq, Hash, Structural)]
pub enum TerminationAction {
    Default,
    RadiusRequest,
}

impl TerminationAction {
    /// The code of a symbol.
    pub open spec fn spec_to_u32(self) -> u32 {
        match self {
            TerminationAction::Default => 0,
            TerminationAction::RadiusRequest => 1,
        }
    }

    /// The symbol that a code stands for, if it stands for one.
    pub open spec fn spec_from_u32(n: u32) -> Option<TerminationAction> {
        if n == 0 {
            Some(TerminationAction::Default)
        } else if n == 1 {
            Some(TerminationAction::RadiusRequest)
        } else {
            None
        }
    }

    /// The code of this symbol. Every symbol has exactly one.
    #[verifier::when_used_as_spec(spec_to_u32)]
    pub fn to_u32(self) -> (r: u32)
        ensures
            r == self.spec_to_u32(),
    {
        match self {
            TerminationAction::Default => 0,
            TerminationAction::RadiusRequest => 1,
        }
    }

    /// The symbol with code `n`; `None` for every code outside the set.
    pub fn from_u32(n: u32) -> (r: Option<TerminationAction>)
        ensures
            r == TerminationAction::spec_from_u32(n),
            r matches Some(s) ==> s.spec_to_u32() == n,
            r is None ==> forall|s: TerminationAction| s.spec_to_u32() != n,
    {
        if n == 0 {
            Some(TerminationAction::Default)
        } else if n == 1 {
            Some(TerminationAction::RadiusRequest)
        } else {
            None
        }
    }

    /// Every symbol is found again from its code.
    pub proof fn lemma_from_to(s: TerminationAction)
        ensures
            TerminationAction::spec_from_u32(s.spec_to_u32()) == Some(s),
    {
    }

    /// A code stands for a symbol only if it is that symbol's code: a code
    /// that no symbol has stands for nothing.
    pub proof fn lemma_to_from(n: u32)
        ensures
            match TerminationAction::spec_from_u32(n) {
                Some(s) => s.spec_to_u32() == n,
                None => forall|s: TerminationAction| s.spec_to_u32() != n,
            },
    {
    }
}

/// The protocols that a user may be kept from.
#[derive(Debug, Clone, Copy, PartialEq, Eq, Hash, Structural)]
pub enum ProhibitProtocol {
    Dumb,
    Ppp,
    Slip,
    AuthOnly,
    All,
}

impl ProhibitProtocol {
    /// The code of a symbol.
    pub open spec fn spec_to_u32(self) -> u32 {
        match self {
            ProhibitProtocol::Dumb => 0,
            ProhibitProtocol::Ppp => 1,
            ProhibitProtocol::Slip => 2,
            ProhibitProtocol::AuthOnly => 3,
            ProhibitProtocol::All => 255,
        }
    }

    /// The symbol that a code stands for, if it stands for one.
    pub open spec fn spec_from_u32(n: u32) -> Option<ProhibitProtocol> {
        if n == 0 {
            Some(ProhibitProtocol::Dumb)
        } else if n == 1 {
            Some(ProhibitProtocol::Ppp)
        } else if n == 2 {
            Some(ProhibitProtocol::Slip)
        } else if n == 3 {
            Some(ProhibitProtocol::AuthOnly)
        } else if n == 255 {
            Some(ProhibitProtocol::All)
        } else {
            None
        }
    }

    /// The code of this symbol. Every symbol has exactly one.
    #[verifier::when_used_as_spec(spec_to_u32)]
    pub fn to_u32(self) -> (r: u32)
        ensures
            r == self.spec_to_u32(),
    {
        match self {
            ProhibitProtocol::Dumb => 0,
            ProhibitProtocol::Ppp => 1,
            ProhibitProtocol::Slip => 2,
            ProhibitProtocol::AuthOnly => 3,
            ProhibitProtocol::All => 255,
        }
    }

    /// The symbol with code `n`; `None` for every code outside the set.
    pub fn from_u32(n: u32) -> (r: Option<ProhibitProtocol>)
        ensures
            r == ProhibitProtocol::spec_from_u32(n),
            r matches Some(s) ==> s.spec_to_u32() == n,
            r is None ==> forall|s: ProhibitProtocol| s.spec_to_u32() != n,
    {
        if n == 0 {
            Some(ProhibitProtocol::Dumb)
        } else if n == 1 {
            Some(ProhibitProtocol::Ppp)
        } else if n == 2 {
            Some(ProhibitProtocol::Slip)
        } else if n == 3 {
            Some(ProhibitProtocol::AuthOnly)
        } else if n == 255 {
            Some(ProhibitProtocol::All)
        } else {
            None
        }
    }

    /// Every symbol is found again from its code.
    pub proof fn lemma_from_to(s: ProhibitProtocol)
        ensures
            ProhibitProtocol::spec_from_u32(s.spec_to_u32()) == Some(s),
    {
    }

    /// A code stands for a symbol only if it is that symbol's code: a code
    /// that no symbol has stands for nothing.
    pub proof fn lemma_to_from(n: u32)
        ensures
            match ProhibitProtocol::spec_from_u32(n) {
                Some(s) => s.spec_to_u32() == n,
                None => forall|s: ProhibitProtocol| s.spec_to_u32() != n,
            },
    {
    }
}

/// What an accounting request reports.
#[derive(Debug, Clone, Copy, PartialEq, Eq, Hash, Structural)]
pub enum StatusType {
    Start,
    Stop,
    Alive,
    ModemStart,
    ModemStop,
    StatusCancel,
    AccountingOn,
    AccountingOff,
}

impl StatusType {
    /// The code of a symbol.
    pub open spec fn spec_to_u32(self) -> u32 {
        match self {
            StatusType::Start => 1,
            StatusType::Stop => 2,
            StatusType::Alive => 3,
            StatusType::ModemStart => 4,
            StatusType::ModemStop => 5,
            StatusType::StatusCancel => 6,
            StatusType::AccountingOn => 7,
            StatusType::AccountingOff => 8,
        }
    }

    /// The symbol that a code stands for, if it stands for one.
    pub open spec fn spec_from_u32(n: u32) -> Option<StatusType> {
        if n == 1 {
            Some(StatusType::Start)
        } else if n == 2 {
            Some(StatusType::Stop)
        } else if n == 3 {
            Some(StatusType::Alive)
        } else if n == 4 {
            Some(StatusType::ModemStart)
        } else if n == 5 {
            Some(StatusType::ModemStop)
        } else if n == 6 {
            Some(StatusType::StatusCancel)
        } else if n == 7 {
            Some(StatusType::AccountingOn)
        } else if n == 8 {
            Some(StatusType::AccountingOff)
        } else {
            None
        }
    }

    /// The code of this symbol. Every symbol has exactly one.
    #[verifier::when_used_as_spec(spec_to_u32)]
    pub fn to_u32(self) -> (r: u32)
        ensures
            r == self.spec_to_u32(),
    {
        match self {
            StatusType::Start => 1,
            StatusType::Stop => 2,
            StatusType::Alive => 3,
            StatusType::ModemStart => 4,
            StatusType::ModemStop => 5,
            StatusType::StatusCancel => 6,
            StatusType::AccountingOn => 7,
            StatusType::AccountingOff => 8,
        }
    }

    /// The symbol with code `n`; `None` for every code outside the set.
    pub fn from_u32(n: u32) -> (r: Option<StatusType>)
        ensures
            r == StatusType::spec_from_u32(n),
            r matches Some(s) ==> s.spec_to_u32() == n,
            r is None ==> forall|s: StatusType| s.spec_to_u32() != n,
    {
        if n == 1 {
            Some(StatusType::Start)
        } else if n == 2 {
            Some(StatusType::Stop)
        } else if n == 3 {
            Some(StatusType::Alive)
        } else if n == 4 {
            Some(StatusType::ModemStart)
        } else if n == 5 {
            Some(StatusType::ModemStop)
        } else if n == 6 {
            Some(StatusType::StatusCancel)
        } else if n == 7 {
            Some(StatusType::AccountingOn)
        } else if n == 8 {
            Some(StatusType::AccountingOff)
        } else {
            None
        }
    }

    /// Every symbol is found again from its code.
    pub proof fn lemma_from_to(s: StatusType)
        ensures
            StatusType::spec_from_u32(s.spec_to_u32()) == Some(s),
    {
    }

    /// A code stands for a symbol only if it is that symbol's code: a code
    /// that no symbol has stands for nothing.
    pub proof fn lemma_to_from(n: u32)
        ensures
            match StatusType::spec_from_u32(n) {
                Some(s) => s.spec_to_u32() == n,
                None => forall|s: StatusType| s.spec_to_u32() != n,
            },
    {
    }
}

/// Why a session ended.
#[derive(Debug, Clone, Copy, PartialEq, Eq, Hash, Structural)]
pub enum AccountTerminationCause {
    UserRequest,
    LostCarrier,
    LostService,
    AcctIdleTimeout,
    AcctSessionTimeout,
    AdminReset,
    AdminReboot,
    PortError,
    NasError,
    NasRequest,
    NasReboot,
    PortUnneeded,
    PortPreempted,
    PortSuspended,
    ServiceUnavailible,
    Callback,
    UserError,
    HostRequest,
}

impl AccountTerminationCause {
    /// The code of a symbol.
    pub open spec fn spec_to_u32(self) -> u32 {
        match self {
            AccountTerminationCause::UserRequest => 1,
            AccountTerminationCause::LostCarrier => 2,
            AccountTerminationCause::LostService => 3,
            AccountTerminationCause::AcctIdleTimeout => 4,
            AccountTerminationCause::AcctSessionTimeout => 5,
            AccountTerminationCause::AdminReset => 6,
            AccountTerminationCause::AdminReboot => 7,
            AccountTerminationCause::PortError => 8,
            AccountTerminationCause::NasError => 9,
            AccountTerminationCause::NasRequest => 10,
            AccountTerminationCause::NasReboot => 11,
            AccountTerminationCause::PortUnneeded => 12,
            AccountTerminationCause::PortPreempted => 13,
            AccountTerminationCause::PortSuspended => 14,
            AccountTerminationCause::ServiceUnavailible => 15,
            AccountTerminationCause::Callback => 16,
            AccountTerminationCause::UserError => 17,
            AccountTerminationCause::HostRequest => 18,
        }
    }

    /// The symbol that a code stands for, if it stands for one.
    pub open spec fn spec_from_u32(n: u32) -> Option<AccountTerminationCause> {
        if n == 1 {
            Some(AccountTerminationCause::UserRequest)
        } else if n == 2 {
            Some(AccountTerminationCause::LostCarrier)
        } else if n == 3 {
            Some(AccountTerminationCause::LostService)
        } else if n == 4 {
            Some(AccountTerminationCause::AcctIdleTimeout)
        } else if n == 5 {
            Some(AccountTerminationCause::AcctSessionTimeout)
        } else if n == 6 {
            Some(AccountTerminationCause::AdminReset)
        } else if n == 7 {
            Some(AccountTerminationCause::AdminReboot)
        } else if n == 8 {
            Some(AccountTerminationCause::PortError)
        } else if n == 9 {
            Some(AccountTerminationCause::NasError)
        } else if n == 10 {
            Some(AccountTerminationCause::NasRequest)
        } else if n == 11 {
            Some(AccountTerminationCause::NasReboot)
        } else if n == 12 {
            Some(AccountTerminationCause::PortUnneeded)
        } else if n == 13 {
            Some(AccountTerminationCause::PortPreempted)
        } else if n == 14 {
            Some(AccountTerminationCause::PortSuspended)
        } else if n == 15 {
            Some(AccountTerminationCause::ServiceUnavailible)
        } else if n == 16 {
            Some(AccountTerminationCause::Callback)
        } else if n == 17 {
            Some(AccountTerminationCause::UserError)
        } else if n == 18 {
            Some(AccountTerminationCause::HostRequest)
        } else {
            None
        }
    }

    /// The code of this symbol. Every symbol has exactly one.
    #[verifier::when_used_as_spec(spec_to_u32)]
    pub fn to_u32(self) -> (r: u32)
        ensures
            r == self.spec_to_u32(),
    {
        match self {
            AccountTerminationCause::UserRequest => 1,
            AccountTerminationCause::LostCarrier => 2,
            AccountTerminationCause::LostService => 3,
            AccountTerminationCause::AcctIdleTimeout => 4,
            AccountTerminationCause::AcctSessionTimeout => 5,
            AccountTerminationCause::AdminReset => 6,
            AccountTerminationCause::AdminReboot => 7,
            AccountTerminationCause::PortError => 8,
            AccountTerminationCause::NasError => 9,
            AccountTerminationCause::NasRequest => 10,
            AccountTerminationCause::NasReboot => 11,
            AccountTerminationCause::PortUnneeded => 12,
            AccountTerminationCause::PortPreempted => 13,
            AccountTerminationCause::PortSuspended => 14,
            AccountTerminationCause::ServiceUnavailible => 15,
            AccountTerminationCause::Callback => 16,
            AccountTerminationCause::UserError => 17,
            AccountTerminationCause::HostRequest => 18,
        }
    }

    /// The symbol with code `n`; `None` for every code outside the set.
    pub fn from_u32(n: u32) -> (r: Option<AccountTerminationCause>)
        ensures
            r == AccountTerminationCause::spec_from_u32(n),
            r matches Some(s) ==> s.spec_to_u32() == n,
            r is None ==> forall|s: AccountTerminationCause| s.spec_to_u32() != n,
    {
        if n == 1 {
            Some(AccountTerminationCause::UserRequest)
        } else if n == 2 {
            Some(AccountTerminationCause::LostCarrier)
        } else if n == 3 {
            Some(AccountTerminationCause::LostService)
        } else if n == 4 {
            Some(AccountTerminationCause::AcctIdleTimeout)
        } else if n == 5 {
            Some(AccountTerminationCause::AcctSessionTimeout)
        } else if n == 6 {
            Some(AccountTerminationCause::AdminReset)
        } else if n == 7 {
            Some(AccountTerminationCause::AdminReboot)
        } else if n == 8 {
            Some(AccountTerminationCause::PortError)
        } else if n == 9 {
            Some(AccountTerminationCause::NasError)
        } else if n == 10 {
            Some(AccountTerminationCause::NasRequest)
        } else if n == 11 {
            Some(AccountTerminationCause::NasReboot)
        } else if n == 12 {
            Some(AccountTerminationCause::PortUnneeded)
        } else if n == 13 {
            Some(AccountTerminationCause::PortPreempted)
        } else if n == 14 {
            Some(AccountTerminationCause::PortSuspended)
        } else if n == 15 {
            Some(AccountTerminationCause::ServiceUnavailible)
        } else if n == 16 {
            Some(AccountTerminationCause::Callback)
        } else if n == 17 {
            Some(AccountTerminationCause::UserError)
        } else if n == 18 {
            Some(AccountTerminationCause::HostRequest)
        } else {
            None
        }
    }

    /// Every symbol is found again from its code.
    pub proof fn lemma_from_to(s: AccountTerminationCause)
        ensures
            AccountTerminationCause::spec_from_u32(s.spec_to_u32()) == Some(s),
    {
    }

    /// A code stands for a symbol only if it is that symbol's code: a code
    /// that no symbol has stands for nothing.
    pub proof fn lemma_to_from(n: u32)
        ensures
            match AccountTerminationCause::spec_from_u32(n) {
                Some(s) => s.spec_to_u32() == n,
                None => forall|s: AccountTerminationCause| s.spec_to_u32() != n,
            },
    {
    }
}

/// The kind of physical port that the user is on.
#[derive(Debug, Clone, Copy, PartialEq, Eq, Hash, Structural)]
pub enum NasPortType {
    Async,
    Sync,
    IsdnSync,
    IsdnSyncV120,
    IsdnSyncV110,
    Virtual,
}

impl NasPortType {
    /// The code of a symbol.
    pub open spec fn spec_to_u32(self) -> u32 {
        match self {
            NasPortType::Async => 0,
            NasPortType::Sync => 1,
            NasPortType::IsdnSync => 2,
            NasPortType::IsdnSyncV120 => 3,
            NasPortType::IsdnSyncV110 => 4,
            NasPortType::Virtual => 5,
        }
    }

    /// The symbol that a code stands for, if it stands for one.
    pub open spec fn spec_from_u32(n: u32) -> Option<NasPortType> {
        if n == 0 {
            Some(NasPortType::Async)
        } else if n == 1 {
            Some(NasPortType::Sync)
        } else if n == 2 {
            Some(NasPortType::IsdnSync)
        } else if n == 3 {
            Some(NasPortType::IsdnSyncV120)
        } else if n == 4 {
            Some(NasPortType::IsdnSyncV110)
        } else if n == 5 {
            Some(NasPortType::Virtual)
        } else {
            None
        }
    }

    /// The code of this symbol. Every symbol has exactly one.
    #[verifier::when_used_as_spec(spec_to_u32)]
    pub fn to_u32(self) -> (r: u32)
        ensures
            r == self.spec_to_u32(),
    {
        match self {
            NasPortType::Async => 0,
            NasPortType::Sync => 1,
            NasPortType::IsdnSync => 2,
            NasPortType::IsdnSyncV120 => 3,
            NasPortType::IsdnSyncV110 => 4,
            NasPortType::Virtual => 5,
        }
    }

    /// The symbol with code `n`; `None` for every code outside the set.
    pub fn from_u32(n: u32) -> (r: Option<NasPortType>)
        ensures
            r == NasPortType::spec_from_u32(n),
            r matches Some(s) ==> s.spec_to_u32() == n,
            r is None ==> forall|s: NasPortType| s.spec_to_u32() != n,
    {
        if n == 0 {
            Some(NasPortType::Async)
        } else if n == 1 {
            Some(NasPortType::Sync)
        } else if n == 2 {
            Some(NasPortType::IsdnSync)
        } else if n == 3 {
            Some(NasPortType::IsdnSyncV120)
        } else if n == 4 {
            Some(NasPortType::IsdnSyncV110)
        } else if n == 5 {
            Some(NasPortType::Virtual)
        } else {
            None
        }
    }

    /// Every symbol is found again from its code.
    pub proof fn lemma_from_to(s: NasPortType)
        ensures
            NasPortType::spec_from_u32(s.spec_to_u32()) == Some(s),
    {
    }

    /// A code stands for a symbol only if it is that symbol's code: a code
    /// that no symbol has stands for nothing.
    pub proof fn lemma_to_from(n: u32)
        ensures
            match NasPortType::spec_from_u32(n) {
                Some(s) => s.spec_to_u32() == n,
                None => forall|s: NasPortType| s.spec_to_u32() != n,
            },
    {
    }
}

/// How the user was authenticated.
#[derive(Debug, Clone, Copy, PartialEq, Eq, Hash, Structural)]
pub enum Authentic {
    Radius,
    Local,
    Remote,
}

impl Authentic {
    /// The code of a symbol.
    pub open spec fn spec_to_u32(self) -> u32 {
        match self {
            Authentic::Radius => 1,
            Authentic::Local => 2,
            Authentic::Remote => 3,
        }
    }

    /// The symbol that a code stands for, if it stands for one.
    pub open spec fn spec_from_u32(n: u32) -> Option<Authentic> {
        if n == 1 {
            Some(Authentic::Radius)
        } else if n == 2 {
            Some(Authentic::Local)
        } else if n == 3 {
            Some(Authentic::Remote)
        } else {
            None
        }
    }

    /// The code of this symbol. Every symbol has exactly one.
    #[verifier::when_used_as_spec(spec_to_u32)]
    pub fn to_u32(self) -> (r: u32)
        ensures
            r == self.spec_to_u32(),
    {
        match self {
            Authentic::Radius => 1,
            Authentic::Local => 2,
            Authentic::Remote => 3,
        }
    }

    /// The symbol with code `n`; `None` for every code outside the set.
    pub fn from_u32(n: u32) -> (r: Option<Authentic>)
        ensures
            r == Authentic::spec_from_u32(n),
            r matches Some(s) ==> s.spec_to_u32() == n,
            r is None ==> forall|s: Authentic| s.spec_to_u32() != n,
    {
        if n == 1 {
            Some(Authentic::Radius)
        } else if n == 2 {
            Some(Authentic::Local)
        } else if n == 3 {
            Some(Authentic::Remote)
        } else {
            None
        }
    }

    /// Every symbol is found again from its code.
    pub proof fn lemma_from_to(s: Authentic)
        ensures
            Authentic::spec_from_u32(s.spec_to_u32()) == Some(s),
    {
    }

    /// A code stands for a symbol only if it is that symbol's code: a code
    /// that no symbol has stands for nothing.
    pub proof fn lemma_to_from(n: u32)
        ensures
            match Authentic::spec_from_u32(n) {
                Some(s) => s.spec_to_u32() == n,
                None => forall|s: Authentic| s.spec_to_u32() != n,
            },
    {
    }
}

} // verus!
