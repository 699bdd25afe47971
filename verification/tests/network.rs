use else_model::client::net::{view_decode_error, zone_step, ConnectStep, ZoneConnector, ZoneStep};
use else_model::message::{NewTimeFrameMsg, Protocol, ProtocolHeader, ZoneToClientMessage};
use else_model::network::{check_header, payload_error, receive_outcome, send_outcome, NetworkError, StreamAction, StreamEvent, Who};
use else_model::timeframe::TimeFrame;

#[test]
fn test_receive_outcome() {
    match receive_outcome(StreamEvent::Binary(vec![1, 2, 3])) {
        (StreamAction::Keep, Ok(bytes)) => assert_eq!(bytes, vec![1, 2, 3]),
        _ => panic!("binary messages are passed on"),
    }
    assert!(matches!(receive_outcome(StreamEvent::Closed), (StreamAction::Halt, Err(NetworkError::StreamDisconnected))));
    assert!(matches!(receive_outcome(StreamEvent::Ended), (StreamAction::Halt, Err(NetworkError::StreamDisconnected))));
    match receive_outcome(StreamEvent::NotBinary) {
        (StreamAction::CloseInvalid, Err(NetworkError::StreamIO(reason))) => {
            assert_eq!(reason, "Unexpected websocket message type")
        },
        _ => panic!("other messages are invalid"),
    }
    match receive_outcome(StreamEvent::Failed(String::from("reset"))) {
        (StreamAction::Halt, Err(NetworkError::StreamIO(reason))) => assert_eq!(reason, "reset"),
        _ => panic!("failures halt"),
    }
}

#[test]
fn test_send_outcome() {
    assert!(matches!(send_outcome(None), (StreamAction::Keep, Ok(()))));
    match send_outcome(Some(String::from("broken pipe"))) {
        (StreamAction::Halt, Err(NetworkError::StreamIO(reason))) => assert_eq!(reason, "broken pipe"),
        _ => panic!("failures halt"),
    }
}

#[test]
fn test_payload_error() {
    match payload_error(Who::Zone(1, String::from("wss://zone")), "ZoneToClientMessage") {
        NetworkError::UnexpectedResponse { who: Who::Zone(1, addr), expected } => {
            assert_eq!(addr, "wss://zone");
            assert_eq!(expected, "ZoneToClientMessage");
        },
        _ => panic!("expected an unexpected response"),
    }
    match view_decode_error() {
        NetworkError::StreamIO(reason) => assert_eq!(reason, "Unable to decode interface view"),
        _ => panic!("expected a stream error"),
    }
}

#[test]
fn test_zone_connector() {
    let mut connector = ZoneConnector::new();
    assert_eq!(connector.connect_attempts(), None);
    assert_eq!(connector.next_attempt(), ConnectStep::Establish);
    assert_eq!(connector.next_attempt(), ConnectStep::Reconnect(15));
    assert_eq!(connector.next_attempt(), ConnectStep::Reconnect(18));
    assert_eq!(connector.connect_attempts(), Some(2));
    connector.session_negotiated();
    assert_eq!(connector.next_attempt(), ConnectStep::Reconnect(15));
    for _ in 0..40 {
        connector.next_attempt();
    }
    assert_eq!(connector.next_attempt(), ConnectStep::Reconnect(120));
}

#[test]
fn test_zone_step() {
    match zone_step(ZoneToClientMessage::InitInterfaceView(TimeFrame::new(9, 100), vec![7])) {
        ZoneStep::Synchronize(frame, bytes) => {
            assert_eq!(frame, 9);
            assert_eq!(bytes, vec![7]);
        },
        _ => panic!("the initial view is synchronized"),
    }
    match zone_step(ZoneToClientMessage::TimeFrame(NewTimeFrameMsg { timeframe: TimeFrame::new(10, 101) })) {
        ZoneStep::Frame(frame) => assert_eq!(frame, 10),
        _ => panic!("a new frame is announced"),
    }
    assert!(matches!(zone_step(ZoneToClientMessage::Connected), ZoneStep::Report));
}

#[test]
fn header_must_be_the_expected_protocol_in_this_version() {
    use_header_checks();
}

fn use_header_checks() {
    let who = Who::Zone(2, String::from("wss://zone"));
    let header = ProtocolHeader::current(Protocol::ZoneToClient);
    match check_header(who.clone(), header, Protocol::ZoneToClient) {
        Ok(h) => assert_eq!(h, header),
        Err(e) => panic!("unexpected: {:?}", e),
    }
    match check_header(who.clone(), header, Protocol::ClientToZone) {
        Err(NetworkError::UnexpectedResponse { expected, .. }) => assert_eq!(expected, "ClientToZone v1"),
        other => panic!("unexpected: {:?}", other),
    }
    let old = ProtocolHeader { protocol: Protocol::ZoneToClient, version: 0 };
    assert!(check_header(who, old, Protocol::ZoneToClient).is_err());
}
