//! The parties of the network, its errors, and how the outcomes of stream operations are reported.
use vstd::prelude::*;

verus! {

pub const LOCALHOST_IP: &'static str = "127.0.0.1";
pub const ELSE_UNIVERSE_PORT: u16 = 3152;
pub const ELSE_WORLD_PORT: u16 = 3153;
pub const ELSE_ZONE_PORT: u16 = 8443;
pub const ELSE_LOCALHOST_ZONE_ADDR: &'static str = "127.0.0.1:8443";
pub const ELSE_LOCALHOST_WORLD_ADDR: &'static str = "127.0.0.1:3153";
pub const ELSE_LOCALHOST_UNIVERSE_ADDR: &'static str = "127.0.0.1:3152";
pub const ELSE_LOCALHOST_ZONE_URL: &'static str = "wss://127.0.0.1:8443";
pub const ELSE_LOCALHOST_WORLD_URL: &'static str = "wss://127.0.0.1:3153";
pub const ELSE_LOCALHOST_UNIVERSE_URL: &'static str = "wss://127.0.0.1:3152";
pub const WEBSOCKET_PAYLOAD_ERROR: u16 = 1007;

pub const MAX_RECONNECT_WAIT: u64 = 120;

/// A party of the network: its connection number and address.
#[derive(Clone, Debug)]
pub enum Who {
    Client(usize, String),
    Zone(usize, String),
    World(usize, String),
    Universe(usize, String),
}

impl Who {
    pub open spec fn spec_what(&self) -> &'static str {
        match self {
            Who::Client(_, _) => "client",
            Who::Zone(_, _) => "zone server",
            Who::World(_, _) => "world server",
            Who::Universe(_, _) => "universe server",
        }
    }

    /// What kind of party this is.
    pub fn what(&self) -> (r: &'static str)
        ensures
            r == self.spec_what(),
    {
        match self {
            Self::Client(_, _) => "client",
            Self::Zone(_, _) => "zone server",
            Self::World(_, _) => "world server",
            Self::Universe(_, _) => "universe server",
        }
    }
}

/// The failures of the network.
#[derive(Debug)]
pub enum NetworkError {
    Send { who: Who, msg_name: &'static str, reason: String },
    Receive { who: Who, msg_name: &'static str, reason: String },
    UnexpectedResponse { who: Who, expected: String },
    Rejected { who: Who },
    Disconnected { who: Who },
    StreamIO(String),
    StreamDisconnected,
}

pub type SendResult = Result<(), NetworkError>;

pub type ReceiveResult<M> = Result<M, NetworkError>;

pub type StreamResult = Result<Who, NetworkError>;

/// Void Ok and Err
pub type TaskResult = Result<(), ()>;

/// Error is logged prior to returning. Success may, optionally, be logged as well.
pub type LoggedResult<T> = Result<T, ()>;

/// The error of a connection whose stream failed while receiving a message of the named type: a stream I/O
/// failure (whose reason is given) is a failure to receive from `who`, a closed stream is `who` disconnecting.
pub fn receive_error(who: Who, msg_type_name: &'static str, stream_error: NetworkError) -> (r: NetworkError)
    requires
        stream_error is StreamIO || stream_error is StreamDisconnected,
    ensures
        match stream_error {
            NetworkError::StreamIO(reason) => r matches NetworkError::Receive { who: w, msg_name, reason: rr }
                && w == who && msg_name == msg_type_name && rr@ == reason@,
            _ => r matches NetworkError::Disconnected { who: w } && w == who,
        },
{
    match stream_error {
        NetworkError::StreamIO(reason) => NetworkError::Receive { who, msg_name: msg_type_name, reason },
        NetworkError::StreamDisconnected => NetworkError::Disconnected { who },
        _ => vstd::pervasive::unreached(),
    }
}

/// The error of a connection whose stream failed while sending the named message, for the given reason.
pub fn send_error(who: Who, msg_name: &'static str, reason: String) -> (r: NetworkError)
    ensures
        r matches NetworkError::Send { who: w, msg_name: n, reason: rr } && w == who && n == msg_name && rr@ == reason@,
{
    NetworkError::Send { who, msg_name, reason }
}

/// What reading the next message of a websocket gave.
pub enum StreamEvent {
    /// A binary message, with its bytes.
    Binary(Vec<u8>),
    /// The peer closed the websocket.
    Closed,
    /// A message of another kind than binary.
    NotBinary,
    /// Reading failed, for the given reason.
    Failed(String),
    /// The websocket has no more messages.
    Ended,
}

/// What a stream does with its websocket after an operation.
#[derive(Debug, PartialEq, Eq, Clone, Copy, Structural)]
pub enum StreamAction {
    /// Nothing: the websocket stays open.
    Keep,
    /// Close the websocket.
    Halt,
    /// Close the websocket as having sent invalid data.
    CloseInvalid,
}

/// What a stream makes of the next websocket message: the bytes of a binary message; a closed or ended
/// websocket is a disconnection (and the stream halts); a failure is an I/O error with its reason (and the
/// stream halts); a message of another kind is an I/O error, and the stream closes the websocket as invalid.
pub fn receive_outcome(event: StreamEvent) -> (r: (StreamAction, ReceiveResult<Vec<u8>>))
    ensures
        match event {
            StreamEvent::Binary(bytes) => r.0 == StreamAction::Keep && (r.1 matches Ok(b) && b@ == bytes@),
            StreamEvent::Closed => r.0 == StreamAction::Halt && r.1 matches Err(NetworkError::StreamDisconnected),
            StreamEvent::NotBinary => r.0 == StreamAction::CloseInvalid
                && (r.1 matches Err(NetworkError::StreamIO(reason)) && reason@ == "Unexpected websocket message type"@),
            StreamEvent::Failed(reason) => r.0 == StreamAction::Halt
                && (r.1 matches Err(NetworkError::StreamIO(x)) && x@ == reason@),
            StreamEvent::Ended => r.0 == StreamAction::Halt && r.1 matches Err(NetworkError::StreamDisconnected),
        },
{
    match event {
        StreamEvent::Binary(bytes) => (StreamAction::Keep, Ok(bytes)),
        StreamEvent::Closed => (StreamAction::Halt, Err(NetworkError::StreamDisconnected)),
        StreamEvent::NotBinary => (
            StreamAction::CloseInvalid,
            Err(NetworkError::StreamIO(crate::text::string_of("Unexpected websocket message type"))),
        ),
        StreamEvent::Failed(reason) => (StreamAction::Halt, Err(NetworkError::StreamIO(reason))),
        StreamEvent::Ended => (StreamAction::Halt, Err(NetworkError::StreamDisconnected)),
    }
}

/// What a stream makes of sending a message: success, or, when sending failed for the given reason, an I/O
/// error with that reason (and the stream halts).
pub fn send_outcome(failure: Option<String>) -> (r: (StreamAction, SendResult))
    ensures
        match failure {
            None => r.0 == StreamAction::Keep && r.1 is Ok,
            Some(reason) => r.0 == StreamAction::Halt && (r.1 matches Err(NetworkError::StreamIO(x)) && x@ == reason@),
        },
{
    match failure {
        None => (StreamAction::Keep, Ok(())),
        Some(reason) => (StreamAction::Halt, Err(NetworkError::StreamIO(reason))),
    }
}

/// The error of a message that could not be decoded as the expected type; the connection then closes its
/// stream as invalid.
pub fn payload_error(who: Who, expected: &str) -> (r: NetworkError)
    ensures
        r matches NetworkError::UnexpectedResponse { who: w, expected: x } && w == who && x@ == expected@,
{
    NetworkError::UnexpectedResponse { who, expected: crate::text::string_of(expected) }
}

/// What a connection expects of a protocol header: the name of the protocol and this library's version, as
/// `"<protocol> v<version>"`.
pub open spec fn expected_header_text(expected: crate::message::Protocol) -> Seq<char> {
    expected.spec_name()@ + " v"@ + crate::text::decimal_text(crate::message::PROTOCOL_VERSION as nat)
}

/// The header that opens a connection is accepted when it is the expected protocol in this library's version;
/// otherwise it is an unexpected response from `who`, naming what was expected.
pub fn check_header(who: Who, header: crate::message::ProtocolHeader, expected: crate::message::Protocol)
    -> (r: Result<crate::message::ProtocolHeader, NetworkError>)
    ensures
        header.version == crate::message::PROTOCOL_VERSION && header.protocol == expected
            ==> r == Ok::<crate::message::ProtocolHeader, NetworkError>(header),
        !(header.version == crate::message::PROTOCOL_VERSION && header.protocol == expected)
            ==> (r matches Err(NetworkError::UnexpectedResponse { who: w, expected: x }) && w == who
                && x@ == expected_header_text(expected)),
{
    if header.compatible(expected) {
        Ok(header)
    } else {
        let mut text = crate::text::string_of(expected.name());
        crate::text::append_str(&mut text, " v");
        let version = crate::text::decimal_string(crate::message::PROTOCOL_VERSION as u64);
        crate::text::append_str(&mut text, version.as_str());
        Err(NetworkError::UnexpectedResponse { who, expected: text })
    }
}

} // verus!
