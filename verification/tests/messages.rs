use else_model::action::multiply::MultiplyAction;
use else_model::action::{Action, BaseAction, BasicAction};
use else_model::behavior::{MultiplierCharacterRoutine, Stimulus};
use else_model::client::net::{auth_answer_response, auth_response, connect_response, reconnect_wait, AuthStep};
use else_model::message::auth::AuthorizedMsg;
use else_model::message::{
    ClientToZoneMessage, ErrorCodes, Messaging, Protocol, ProtocolHeader, UniverseToZoneMessage, ZoneToClientMessage,
    PROTOCOL_VERSION,
};
use else_model::network::{receive_error, send_error, NetworkError, Who};
use else_model::timeframe::TimeFrame;

#[test]
fn protocol_header_is_compatible_with_its_own_protocol_only() {
    let header = ProtocolHeader::current(Protocol::ClientToZone);
    assert_eq!(header.version, PROTOCOL_VERSION);
    assert!(header.compatible(Protocol::ClientToZone));
    assert!(!header.compatible(Protocol::ZoneToClient));
    let old = ProtocolHeader { protocol: Protocol::ClientToZone, version: 0 };
    assert!(!old.compatible(Protocol::ClientToZone));
    assert_eq!(Protocol::WorldToZone.name(), "WorldToZone");
    assert_eq!(ErrorCodes::IllegalWebsocketFrame.code(), 1);
}

#[test]
fn message_names_carry_their_type() {
    assert_eq!(ClientToZoneMessage::message_type_name(), "ClientToZoneMessage");
    assert_eq!(ClientToZoneMessage::Disconnect.message_name(), "ClientToZoneMessage::Disconnect");
    assert_eq!(ClientToZoneMessage::Unlink.message_name(), "ClientToZoneMessage::Downlink");
    assert_eq!(ZoneToClientMessage::Authorized(AuthorizedMsg { interface_uid: 1 }).message_name(),
        "ZoneToClientMessage::AuthResult");
    assert_eq!(UniverseToZoneMessage::ConnectRejected.message_name(), "UniverseToZoneMessage::ConnectRejected");
}

#[test]
fn reconnect_wait_grows_to_its_maximum() {
    assert_eq!(reconnect_wait(0), 15);
    assert_eq!(reconnect_wait(1), 18);
    assert_eq!(reconnect_wait(35), 120);
    assert_eq!(reconnect_wait(1000), 120);
}

fn zone() -> Who {
    Who::Zone(1, "wss://127.0.0.1:8443".to_string())
}

#[test]
fn zone_answers_to_a_connection() {
    assert!(connect_response(zone(), &ZoneToClientMessage::Connected).is_ok());
    assert!(matches!(connect_response(zone(), &ZoneToClientMessage::ConnectRejected), Err(NetworkError::Rejected { .. })));
    match connect_response(zone(), &ZoneToClientMessage::Disconnect) {
        Err(NetworkError::UnexpectedResponse { expected, .. }) => {
            assert_eq!(expected, "ZoneToClientMessage::[Connected, ConnectRejected]");
        },
        _ => panic!("expected an unexpected response"),
    }
}

#[test]
fn zone_answers_to_an_authentication() {
    match auth_response(zone(), ZoneToClientMessage::Authorized(AuthorizedMsg { interface_uid: 7 })) {
        Ok(AuthStep::Authorized(a)) => assert_eq!(a.interface_uid, 7),
        _ => panic!("expected an authorization"),
    }
    assert!(matches!(auth_response(zone(), ZoneToClientMessage::AuthRejected), Err(NetworkError::Rejected { .. })));
    assert_eq!(auth_answer_response(zone(), ZoneToClientMessage::Authorized(AuthorizedMsg { interface_uid: 8 }))
        .unwrap().interface_uid, 8);
    assert!(matches!(auth_answer_response(zone(), ZoneToClientMessage::Connected),
        Err(NetworkError::UnexpectedResponse { .. })));
}

#[test]
fn stream_failures_are_reported_for_the_party() {
    assert_eq!(zone().what(), "zone server");
    match receive_error(zone(), "ZoneToClientMessage", NetworkError::StreamIO("broken".to_string())) {
        NetworkError::Receive { msg_name, reason, .. } => {
            assert_eq!(msg_name, "ZoneToClientMessage");
            assert_eq!(reason, "broken");
        },
        _ => panic!("expected a receive error"),
    }
    assert!(matches!(receive_error(zone(), "M", NetworkError::StreamDisconnected), NetworkError::Disconnected { .. }));
    assert!(matches!(send_error(zone(), "M", "x".to_string()), NetworkError::Send { msg_name: "M", .. }));
}

#[test]
fn multiplier_routine_multiplies_at_each_timeframe() {
    let routine = MultiplierCharacterRoutine(42);
    let timeframe = TimeFrame::new(3, 0);
    let actions = routine.stimulate(Stimulus::Time(&timeframe)).unwrap();
    assert_eq!(actions.len(), 1);
    match &actions[0] {
        Action::Multiply(MultiplyAction { base }) => assert_eq!(*base, BaseAction { frame: 3, thing_uid: 42 }),
        _ => panic!("expected a multiply action"),
    }
    assert_eq!(actions[0].thing_uid(), 42);
    assert!(routine.stimulate(Stimulus::Interface()).is_none());
}

#[test]
fn timeframe_ticks_to_the_next_frame() {
    let mut timeframe = TimeFrame::new(9, 0);
    timeframe.tick_at(1_700_000_000);
    assert_eq!(timeframe.frame(), 10);
    timeframe.tick();
    assert_eq!(timeframe.frame(), 11);
}
