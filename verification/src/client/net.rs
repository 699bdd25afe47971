//! The decisions of the client's connection to its zone server: how long to wait before reconnecting, and what
//! the zone's answers to a connection and to an authentication mean. The connection itself runs in the app.
use vstd::prelude::*;
use crate::network::{MAX_RECONNECT_WAIT, NetworkError, Who};
use crate::message::ZoneToClientMessage;
use crate::message::auth::{AuthChallengeMsg, AuthorizedMsg};
use crate::text::string_of;
use crate::timeframe::Frame;

verus! {

/// The seconds to wait before the next attempt to reconnect: 15, growing by 3 with each attempt, up to the
/// maximum wait.
pub open spec fn spec_reconnect_wait(connect_attempts: u64) -> int {
    if 15 + 3 * connect_attempts <= MAX_RECONNECT_WAIT {
        15 + 3 * connect_attempts
    } else {
        MAX_RECONNECT_WAIT as int
    }
}

pub fn reconnect_wait(connect_attempts: u64) -> (r: u64)
    ensures
        r == spec_reconnect_wait(connect_attempts),
{
    if connect_attempts >= 35 {
        MAX_RECONNECT_WAIT
    } else {
        15 + 3 * connect_attempts
    }
}

/// The error of an answer other than the one expected, naming what was expected.
pub open spec fn is_unexpected(e: NetworkError, who: Who, expected: Seq<char>) -> bool {
    e matches NetworkError::UnexpectedResponse { who: w, expected: x } && w == who && x@ == expected
}

/// What the zone answered to a connection: accepted, rejected, or something unexpected.
pub fn connect_response(who: Who, msg: &ZoneToClientMessage) -> (r: Result<(), NetworkError>)
    ensures
        match msg {
            ZoneToClientMessage::Connected => r is Ok,
            ZoneToClientMessage::ConnectRejected => r matches Err(NetworkError::Rejected { who: w }) && w == who,
            _ => r matches Err(e) && is_unexpected(e, who, "ZoneToClientMessage::[Connected, ConnectRejected]"@),
        },
{
    match msg {
        ZoneToClientMessage::Connected => Ok(()),
        ZoneToClientMessage::ConnectRejected => Err(NetworkError::Rejected { who }),
        _ => Err(NetworkError::UnexpectedResponse {
            who,
            expected: string_of("ZoneToClientMessage::[Connected, ConnectRejected]"),
        }),
    }
}

/// Where an authentication stands after the zone's answer to the request.
#[derive(Debug)]
pub enum AuthStep {
    /// The client must answer this challenge.
    Challenged(AuthChallengeMsg),
    /// The client is authorized.
    Authorized(AuthorizedMsg),
}

/// What the zone answered to an authentication request: a challenge, an authorization, a rejection, or something
/// unexpected.
pub fn auth_response(who: Who, msg: ZoneToClientMessage) -> (r: Result<AuthStep, NetworkError>)
    ensures
        match msg {
            ZoneToClientMessage::AuthChallenge(c) => r matches Ok(AuthStep::Challenged(x)) && x == c,
            ZoneToClientMessage::Authorized(a) => r matches Ok(AuthStep::Authorized(x)) && x == a,
            ZoneToClientMessage::AuthRejected => r matches Err(NetworkError::Rejected { who: w }) && w == who,
            _ => r matches Err(e) && is_unexpected(e, who, "ZoneToClientMessage::[AuthAccepted, AuthRejected]"@),
        },
{
    match msg {
        ZoneToClientMessage::AuthChallenge(challenge) => Ok(AuthStep::Challenged(challenge)),
        ZoneToClientMessage::Authorized(authorization) => Ok(AuthStep::Authorized(authorization)),
        ZoneToClientMessage::AuthRejected => Err(NetworkError::Rejected { who }),
        _ => Err(NetworkError::UnexpectedResponse {
            who,
            expected: string_of("ZoneToClientMessage::[AuthAccepted, AuthRejected]"),
        }),
    }
}

/// What the zone answered to the answer of a challenge: an authorization, a rejection, or something unexpected.
pub fn auth_answer_response(who: Who, msg: ZoneToClientMessage) -> (r: Result<AuthorizedMsg, NetworkError>)
    ensures
        match msg {
            ZoneToClientMessage::Authorized(a) => r == Ok::<AuthorizedMsg, NetworkError>(a),
            ZoneToClientMessage::AuthRejected => r matches Err(NetworkError::Rejected { who: w }) && w == who,
            _ => r matches Err(e) && is_unexpected(e, who, "ZoneToClientMessage::[AuthAccepted, AuthRejected]"@),
        },
{
    match msg {
        ZoneToClientMessage::Authorized(authorization) => Ok(authorization),
        ZoneToClientMessage::AuthRejected => Err(NetworkError::Rejected { who }),
        _ => Err(NetworkError::UnexpectedResponse {
            who,
            expected: string_of("ZoneToClientMessage::[AuthAccepted, AuthRejected]"),
        }),
    }
}

/// What the connector does before an attempt to connect.
#[derive(Debug, PartialEq, Eq, Clone, Copy, Structural)]
pub enum ConnectStep {
    /// The first attempt: announce the connection to the zone server.
    Establish,
    /// A retry: tell the interface that the connection is lost, then wait this many seconds.
    Reconnect(u64),
}

/// The state of the loop that keeps the client connected to its zone server: the number of attempts since
/// the last negotiated session, or none at all before the first attempt.
pub struct ZoneConnector {
    connect_attempts: Option<u64>,
}

impl ZoneConnector {
    pub closed spec fn spec_attempts(self) -> Option<u64> {
        self.connect_attempts
    }

    /// A connector that has not tried yet.
    pub fn new() -> (r: Self)
        ensures
            r.spec_attempts() is None,
    {
        ZoneConnector { connect_attempts: None }
    }

    /// The number of attempts since the last negotiated session, if any attempt was made.
    pub fn connect_attempts(&self) -> (r: Option<u64>)
        ensures
            r == self.spec_attempts(),
    {
        self.connect_attempts
    }

    /// Starts an attempt: the first one is announced; each later one waits longer, and counts.
    pub fn next_attempt(&mut self) -> (r: ConnectStep)
        requires
            old(self).spec_attempts() matches Some(n) ==> n < u64::MAX,
        ensures
            match old(self).spec_attempts() {
                None => r == ConnectStep::Establish && final(self).spec_attempts() == Some(0u64),
                Some(n) => r == ConnectStep::Reconnect(spec_reconnect_wait(n) as u64)
                    && final(self).spec_attempts() == Some((n + 1) as u64),
            },
    {
        match self.connect_attempts {
            None => {
                self.connect_attempts = Some(0);
                ConnectStep::Establish
            },
            Some(n) => {
                let wait = reconnect_wait(n);
                self.connect_attempts = Some(n + 1);
                ConnectStep::Reconnect(wait)
            },
        }
    }

    /// A session was negotiated: the count starts again.
    pub fn session_negotiated(&mut self)
        ensures
            final(self).spec_attempts() == Some(0u64),
    {
        self.connect_attempts = Some(0);
    }
}

/// What the session loop does with a message from the zone.
#[derive(Debug)]
pub enum ZoneStep {
    /// Decode these bytes as the interface's view and synchronize it at this frame.
    Synchronize(Frame, Vec<u8>),
    /// A new frame began.
    Frame(Frame),
    /// Nothing but report the message.
    Report,
}

/// What the session loop makes of a message from the zone: the initial view of the interface is
/// synchronized at its frame; a new timeframe announces its frame; anything else is only reported.
pub fn zone_step(msg: ZoneToClientMessage) -> (r: ZoneStep)
    ensures
        match msg {
            ZoneToClientMessage::InitInterfaceView(tf, bytes) => r matches ZoneStep::Synchronize(f, b)
                && f == tf.spec_frame() && b@ == bytes@,
            ZoneToClientMessage::TimeFrame(m) => r matches ZoneStep::Frame(f) && f == m.timeframe.spec_frame(),
            _ => r is Report,
        },
{
    match msg {
        ZoneToClientMessage::InitInterfaceView(timeframe, bytes) => ZoneStep::Synchronize(timeframe.frame(), bytes),
        ZoneToClientMessage::TimeFrame(m) => ZoneStep::Frame(m.timeframe.frame()),
        _ => ZoneStep::Report,
    }
}

/// The error of a view of the interface that could not be decoded.
pub fn view_decode_error() -> (r: NetworkError)
    ensures
        r matches NetworkError::StreamIO(reason) && reason@ == "Unable to decode interface view"@,
{
    NetworkError::StreamIO(string_of("Unable to decode interface view"))
}

} // verus!
