//! The messages that clients, zones, worlds and the universe exchange.
pub mod auth;

use vstd::prelude::*;
use crate::identity::UID;
use crate::timeframe::{Frame, TimeFrame};
use crate::action::Action;
use crate::descriptor::Descriptor;
use crate::message::auth::{AuthAnswerMsg, AuthChallengeMsg, AuthRegisterMsg, AuthRequestMsg, AuthorizedMsg};

verus! {

pub type MessageID = u16;

pub type ErrorCode = u8;

/// The error codes of the protocol.
#[derive(Debug, Clone, Copy, PartialEq, Eq, Structural)]
pub enum ErrorCodes {
    IllegalWebsocketFrame,
}

impl ErrorCodes {
    /// The code sent for the error.
    pub fn code(&self) -> (r: ErrorCode)
        ensures
            r == 1,
    {
        match self {
            Self::IllegalWebsocketFrame => 0x01,
        }
    }
}

/// The protocols spoken between the parts of the game, named by who sends to whom.
#[derive(Debug, Clone, Copy, PartialEq, Eq, Structural)]
pub enum Protocol {
    Unsupported,
    ClientToZone,
    ZoneToWorld,
    ZoneToUniverse,
    WorldToUniverse,
    UniverseToWorld,
    UniverseToZone,
    WorldToZone,
    ZoneToClient,
}

impl Protocol {
    pub open spec fn spec_name(self) -> &'static str {
        match self {
            Protocol::Unsupported => "Unsupported",
            Protocol::ClientToZone => "ClientToZone",
            Protocol::ZoneToWorld => "ZoneToWorld",
            Protocol::ZoneToUniverse => "ZoneToUniverse",
            Protocol::WorldToUniverse => "WorldToUniverse",
            Protocol::UniverseToWorld => "UniverseToWorld",
            Protocol::UniverseToZone => "UniverseToZone",
            Protocol::WorldToZone => "WorldToZone",
            Protocol::ZoneToClient => "ZoneToClient",
        }
    }

    /// The name of the protocol, as it is displayed.
    pub fn name(&self) -> (r: &'static str)
        ensures
            r == self.spec_name(),
    {
        match self {
            Self::Unsupported => "Unsupported",
            Self::ClientToZone => "ClientToZone",
            Self::ZoneToWorld => "ZoneToWorld",
            Self::ZoneToUniverse => "ZoneToUniverse",
            Self::WorldToUniverse => "WorldToUniverse",
            Self::UniverseToWorld => "UniverseToWorld",
            Self::UniverseToZone => "UniverseToZone",
            Self::WorldToZone => "WorldToZone",
            Self::ZoneToClient => "ZoneToClient",
        }
    }
}

/// A message type: its name, and the name of each message.
pub trait Messaging: Sized {
    spec fn spec_message_type_name() -> &'static str;

    spec fn spec_message_name(&self) -> &'static str;

    fn message_type_name() -> (r: &'static str)
        ensures
            r == Self::spec_message_type_name(),
    ;

    fn message_name(&self) -> (r: &'static str)
        ensures
            r == self.spec_message_name(),
    ;
}

/// The first message of a connection: the protocol and its version.
#[derive(Debug, Clone, Copy, PartialEq, Eq, Structural)]
pub struct ProtocolHeader {
    pub protocol: Protocol,
    pub version: u8,
}

/// The version of the protocols that this library speaks.
pub const PROTOCOL_VERSION: u8 = 1;

impl Messaging for ProtocolHeader {
    open spec fn spec_message_type_name() -> &'static str {
        "ProtocolHeader"
    }

    open spec fn spec_message_name(&self) -> &'static str {
        "ProtocolHeader"
    }

    fn message_type_name() -> (r: &'static str) {
        "ProtocolHeader"
    }

    fn message_name(&self) -> (r: &'static str) {
        "ProtocolHeader"
    }
}

impl ProtocolHeader {
    pub fn current(protocol: Protocol) -> (r: Self)
        ensures
            r == (ProtocolHeader { protocol, version: PROTOCOL_VERSION }),
    {
        Self { protocol, version: PROTOCOL_VERSION }
    }

    /// Checks this library's version and the expected protocol
    pub fn compatible(&self, expected_protocol: Protocol) -> (r: bool)
        ensures
            r == (self.version == PROTOCOL_VERSION && self.protocol == expected_protocol),
    {
        self.version == PROTOCOL_VERSION && self.protocol == expected_protocol
    }
}

/// A client connects, naming the character it was last downlinked into.
#[derive(Debug, Clone, Copy, PartialEq, Eq, Structural)]
pub struct ConnectMsg {
    pub last_downlink_uid: Option<UID>,
}

/// Requests a page of the downlinks available.
#[derive(Debug, Clone, Copy, PartialEq, Eq, Structural)]
pub struct ListLinkableMsg {
    pub page: u16,
}

/// The messages that a client sends to a zone.
#[derive(Debug)]
pub enum ClientToZoneMessage {
    AuthRegister(AuthRegisterMsg),
    AuthRequest(AuthRequestMsg),
    AuthAnswer(AuthAnswerMsg),
    /// Client is about to disconnect.
    /// Expects response: ZoneToClientMessage::Disconnect
    Disconnect,
    /// Requests a paginated (u16, 0-index) list of downlinks that are reserved for or, if none, those
    /// immediately available to the client's interface.
    ListLinkable(ListLinkableMsg),
    Downlink(UID),
    Unlink,
    Action(Action),
}

impl Messaging for ClientToZoneMessage {
    open spec fn spec_message_type_name() -> &'static str {
        "ClientToZoneMessage"
    }

    /// `Unlink` is named as a downlink.
    open spec fn spec_message_name(&self) -> &'static str {
        match self {
            ClientToZoneMessage::AuthRegister(_) => "ClientToZoneMessage::AuthRegister",
            ClientToZoneMessage::AuthRequest(_) => "ClientToZoneMessage::AuthRequest",
            ClientToZoneMessage::AuthAnswer(_) => "ClientToZoneMessage::AuthAnswer",
            ClientToZoneMessage::Disconnect => "ClientToZoneMessage::Disconnect",
            ClientToZoneMessage::ListLinkable(_) => "ClientToZoneMessage::ListLinkable",
            ClientToZoneMessage::Downlink(_) => "ClientToZoneMessage::Downlink",
            ClientToZoneMessage::Unlink => "ClientToZoneMessage::Downlink",
            ClientToZoneMessage::Action(_) => "ClientToZoneMessage::Action",
        }
    }

    fn message_type_name() -> (r: &'static str) {
        "ClientToZoneMessage"
    }

    fn message_name(&self) -> (r: &'static str) {
        match self {
            Self::AuthRegister(_) => "ClientToZoneMessage::AuthRegister",
            Self::AuthRequest(_) => "ClientToZoneMessage::AuthRequest",
            Self::AuthAnswer(_) => "ClientToZoneMessage::AuthAnswer",
            Self::Disconnect => "ClientToZoneMessage::Disconnect",
            Self::ListLinkable(_) => "ClientToZoneMessage::ListLinkable",
            Self::Downlink(_) => "ClientToZoneMessage::Downlink",
            Self::Unlink => "ClientToZoneMessage::Downlink",
            Self::Action(_) => "ClientToZoneMessage::Action",
        }
    }
}

/// A client is connected: its interface, and the first page of what it can downlink into.
#[derive(Debug)]
pub struct ConnectedMsg {
    pub interface_uid: UID,
    pub linkable: Vec<(UID, Descriptor)>,
    pub linkable_pages: u16,
}

/// A page of what a client can downlink into.
#[derive(Debug)]
pub struct LinkableMsg {
    pub page: u16,
    pub linkable: Vec<(UID, Descriptor)>,
    pub pages: u16,
}

/// The messages that a zone sends to a client.
#[derive(Debug)]
pub enum ZoneToClientMessage {
    /// Response: Request to connect to the world through this server has been accepted.
    Connected,
    /// Response: Request to connect to the world through this server has been rejected.
    ConnectRejected,
    /// A timeframe (tick) has elapsed
    TimeFrame(NewTimeFrameMsg),
    /// The client has to further prove its identity to authenticate.
    AuthChallenge(AuthChallengeMsg),
    /// Authentication has succeeded.
    Authorized(AuthorizedMsg),
    AuthRejected,
    InitInterfaceView(TimeFrame, Vec<u8>),
    Disconnect,
    /// A page (0-index) of the downlinks that are reserved for or immediately available to the client's
    /// interface, with the number of pages.
    Linkable(LinkableMsg),
    DownlinkApproved(Frame, Frame),
    DownlinkRejected(Frame),
    Unlinked(Frame),
    ActionApproved(Frame, Frame),
    ActionRejected(Frame),
}

impl Messaging for ZoneToClientMessage {
    open spec fn spec_message_type_name() -> &'static str {
        "ZoneToClientMessage"
    }

    /// A challenge is named a response, an authorization a result.
    open spec fn spec_message_name(&self) -> &'static str {
        match self {
            ZoneToClientMessage::TimeFrame(_) => "ZoneToClientMessage::TimeFrame",
            ZoneToClientMessage::AuthChallenge(_) => "ZoneToClientMessage::AuthResponse",
            ZoneToClientMessage::Authorized(_) => "ZoneToClientMessage::AuthResult",
            ZoneToClientMessage::AuthRejected => "ZoneToClientMessage::AuthRejected",
            ZoneToClientMessage::Connected => "ZoneToClientMessage::Connected",
            ZoneToClientMessage::ConnectRejected => "ZoneToClientMessage::ConnectRejected",
            ZoneToClientMessage::InitInterfaceView(_, _) => "ZoneToClientMessage::InitInterfaceView",
            ZoneToClientMessage::Disconnect => "ZoneToClientMessage::Disconnect",
            ZoneToClientMessage::Linkable(_) => "ZoneToClientMessage::Linkable",
            ZoneToClientMessage::DownlinkApproved(_, _) => "ZoneToClientMessage::DownlinkApproved",
            ZoneToClientMessage::DownlinkRejected(_) => "ZoneToClientMessage::DownlinkRejected",
            ZoneToClientMessage::Unlinked(_) => "ZoneToClientMessage::Unlinked",
            ZoneToClientMessage::ActionApproved(_, _) => "ZoneToClientMessage::ActionApproved",
            ZoneToClientMessage::ActionRejected(_) => "ZoneToClientMessage::ActionRejected",
        }
    }

    fn message_type_name() -> (r: &'static str) {
        "ZoneToClientMessage"
    }

    fn message_name(&self) -> (r: &'static str) {
        match self {
            Self::TimeFrame(_) => "ZoneToClientMessage::TimeFrame",
            Self::AuthChallenge(_) => "ZoneToClientMessage::AuthResponse",
            Self::Authorized(_) => "ZoneToClientMessage::AuthResult",
            Self::AuthRejected => "ZoneToClientMessage::AuthRejected",
            Self::Connected => "ZoneToClientMessage::Connected",
            Self::ConnectRejected => "ZoneToClientMessage::ConnectRejected",
            Self::InitInterfaceView(_, _) => "ZoneToClientMessage::InitInterfaceView",
            Self::Disconnect => "ZoneToClientMessage::Disconnect",
            Self::Linkable(_) => "ZoneToClientMessage::Linkable",
            Self::DownlinkApproved(_, _) => "ZoneToClientMessage::DownlinkApproved",
            Self::DownlinkRejected(_) => "ZoneToClientMessage::DownlinkRejected",
            Self::Unlinked(_) => "ZoneToClientMessage::Unlinked",
            Self::ActionApproved(_, _) => "ZoneToClientMessage::ActionApproved",
            Self::ActionRejected(_) => "ZoneToClientMessage::ActionRejected",
        }
    }
}

/// The messages that a zone sends to a world.
#[derive(Debug, Clone, Copy, PartialEq, Eq, Structural)]
pub enum ZoneToWorldMessage {
    Connect,
    Disconnect,
}

impl Messaging for ZoneToWorldMessage {
    open spec fn spec_message_type_name() -> &'static str {
        "ZoneToWorldMessage"
    }

    open spec fn spec_message_name(&self) -> &'static str {
        match self {
            ZoneToWorldMessage::Connect => "ZoneToWorldMessage::Connect",
            ZoneToWorldMessage::Disconnect => "ZoneToWorldMessage::Disconnect",
        }
    }

    fn message_type_name() -> (r: &'static str) {
        "ZoneToWorldMessage"
    }

    fn message_name(&self) -> (r: &'static str) {
        match self {
            Self::Connect => "ZoneToWorldMessage::Connect",
            Self::Disconnect => "ZoneToWorldMessage::Disconnect",
        }
    }
}

/// The messages that a zone sends to the universe.
#[derive(Debug)]
pub enum ZoneToUniverseMessage {
    Connect,
    Disconnect,
    AuthRequest(AuthRequestMsg),
}

impl Messaging for ZoneToUniverseMessage {
    open spec fn spec_message_type_name() -> &'static str {
        "ZoneToUniverseMessage"
    }

    open spec fn spec_message_name(&self) -> &'static str {
        match self {
            ZoneToUniverseMessage::Connect => "ZoneToUniverseMessage::Connect",
            ZoneToUniverseMessage::Disconnect => "ZoneToUniverseMessage::Disconnect",
            ZoneToUniverseMessage::AuthRequest(_) => "ZoneToUniverseMessage::AuthRequest",
        }
    }

    fn message_type_name() -> (r: &'static str) {
        "ZoneToUniverseMessage"
    }

    fn message_name(&self) -> (r: &'static str) {
        match self {
            Self::Connect => "ZoneToUniverseMessage::Connect",
            Self::Disconnect => "ZoneToUniverseMessage::Disconnect",
            Self::AuthRequest(_) => "ZoneToUniverseMessage::AuthRequest",
        }
    }
}

/// The messages that the universe sends to a zone.
#[derive(Debug, Clone, Copy, PartialEq, Eq, Structural)]
pub enum UniverseToZoneMessage {
    Connected,
    ConnectRejected,
    Disconnect,
}

impl Messaging for UniverseToZoneMessage {
    open spec fn spec_message_type_name() -> &'static str {
        "UniverseToZoneMessage"
    }

    open spec fn spec_message_name(&self) -> &'static str {
        match self {
            UniverseToZoneMessage::Connected => "UniverseToZoneMessage::Connected",
            UniverseToZoneMessage::ConnectRejected => "UniverseToZoneMessage::ConnectRejected",
            UniverseToZoneMessage::Disconnect => "UniverseToZoneMessage::Disconnect",
        }
    }

    fn message_type_name() -> (r: &'static str) {
        "UniverseToZoneMessage"
    }

    fn message_name(&self) -> (r: &'static str) {
        match self {
            Self::Connected => "UniverseToZoneMessage::Connected",
            Self::ConnectRejected => "UniverseToZoneMessage::ConnectRejected",
            Self::Disconnect => "UniverseToZoneMessage::Disconnect",
        }
    }
}

/// The messages that a world sends to a zone.
#[derive(Debug)]
pub enum WorldToZoneMessage {
    TimeFrame(NewTimeFrameMsg),
    Connected,
    ConnectRejected,
    Disconnect,
    WorldBytes(TimeFrame, Vec<u8>),
}

impl Messaging for WorldToZoneMessage {
    open spec fn spec_message_type_name() -> &'static str {
        "WorldToZoneMessage"
    }

    open spec fn spec_message_name(&self) -> &'static str {
        match self {
            WorldToZoneMessage::TimeFrame(_) => "WorldToZoneMessage::TimeFrame",
            WorldToZoneMessage::Connected => "WorldToZoneMessage::Connected",
            WorldToZoneMessage::ConnectRejected => "WorldToZoneMessage::ConnectRejected",
            WorldToZoneMessage::Disconnect => "WorldToZoneMessage::Disconnect",
            WorldToZoneMessage::WorldBytes(_, _) => "WorldToZoneMessage::WorldBytes",
        }
    }

    fn message_type_name() -> (r: &'static str) {
        "WorldToZoneMessage"
    }

    fn message_name(&self) -> (r: &'static str) {
        match self {
            Self::TimeFrame(_) => "WorldToZoneMessage::TimeFrame",
            Self::Connected => "WorldToZoneMessage::Connected",
            Self::ConnectRejected => "WorldToZoneMessage::ConnectRejected",
            Self::Disconnect => "WorldToZoneMessage::Disconnect",
            Self::WorldBytes(_, _) => "WorldToZoneMessage::WorldBytes",
        }
    }
}

/// The authority acknowledged a message, at a timeframe.
#[derive(Debug)]
pub struct AuthorityAcknowledgedMsg {
    pub message_id: MessageID,
    pub timeframe: TimeFrame,
}

/// A message was acknowledged.
#[derive(Debug, Clone, Copy, PartialEq, Eq, Structural)]
pub struct AcknowledgedMsg {
    pub message_id: MessageID,
}

/// A message failed with an error code.
#[derive(Debug, Clone, Copy, PartialEq, Eq, Structural)]
pub struct ErrorMsg {
    pub message_id: MessageID,
    pub error_code: ErrorCode,
}

/// A new timeframe has begun.
#[derive(Debug)]
pub struct NewTimeFrameMsg {
    pub timeframe: TimeFrame,
}

} // verus!
