use rdp2web::config::{RdpConfig, RdpMode};
use rdp2web::h264::VideoFrame;
use rdp2web::rdp::{ClientEvent, ServerEvent, ServerStatus};
use rdp2web::web::{
    handshake_step, listener_step, media_message, outbound_message, rdp_config_with_query,
    HandshakeAction, HandshakeOutcome, Inbound, ListenerAction, ListenerEvent, Outbound, RdpQuery,
    SocketReader, SocketWriter,
};

fn base() -> RdpConfig {
    RdpConfig {
        host: "127.0.0.1".to_owned(),
        port: 3389,
        username: "user".to_owned(),
        password: "secret".to_owned(),
        domain: None,
        mode: RdpMode::Shared,
        routing_token: None,
        redirection_auth: None,
        width: 800,
        height: 600,
    }
}

#[test]
fn rdp_query_overrides_session_size() {
    let base = base();
    let query = RdpQuery {
        width: Some(2560),
        height: Some(1440),
    };

    let config = rdp_config_with_query(&base, &query).unwrap();

    assert_eq!(config.width, 2560);
    assert_eq!(config.height, 1440);
    assert_eq!(config.username, "user");
    assert_eq!(config.password, "secret");
}

#[test]
fn an_empty_query_keeps_the_configured_size() {
    let config = rdp_config_with_query(&base(), &RdpQuery::default()).unwrap();
    assert_eq!(format!("{config:?}"), format!("{:?}", base()));
}

#[test]
fn the_same_query_twice_is_the_query_once() {
    let query = RdpQuery {
        width: Some(1024),
        height: None,
    };
    let once = rdp_config_with_query(&base(), &query).unwrap();
    let twice = rdp_config_with_query(&once, &query).unwrap();
    assert_eq!((twice.width, twice.height), (1024, 600));
    assert_eq!(format!("{once:?}"), format!("{twice:?}"));
}

#[test]
fn a_small_desktop_is_refused() {
    let narrow = RdpQuery {
        width: Some(199),
        height: None,
    };
    assert_eq!(
        rdp_config_with_query(&base(), &narrow).unwrap_err(),
        "RDP width and height must be at least 200"
    );
    let low = RdpQuery {
        width: None,
        height: Some(0),
    };
    assert!(rdp_config_with_query(&base(), &low).is_err());
    let least = RdpQuery {
        width: Some(200),
        height: Some(200),
    };
    assert!(rdp_config_with_query(&base(), &least).is_ok());
}

fn resize(width: u16) -> Inbound {
    Inbound::Event(ClientEvent::Resize { width, height: 1 })
}

#[test]
fn events_are_handed_out_until_the_socket_closes() {
    let mut reader = SocketReader::new();
    let mut widths = Vec::new();
    for message in [
        resize(1),
        Inbound::InvalidText,
        Inbound::Other,
        resize(2),
        Inbound::Close,
        resize(3),
    ] {
        if let Some(ClientEvent::Resize { width, .. }) = reader.receive(message) {
            widths.push(width);
            reader.forwarded(true);
        }
    }
    assert_eq!(widths, vec![1, 2]);
    assert!(!reader.open);
}

#[test]
fn a_failure_or_a_lost_session_closes_the_reader() {
    let mut reader = SocketReader::new();
    assert!(reader.receive(Inbound::Failed).is_none());
    assert!(!reader.open);
    let mut reader = SocketReader::new();
    assert!(reader.receive(resize(1)).is_some());
    reader.forwarded(false);
    assert!(reader.receive(resize(2)).is_none());
}

#[test]
fn events_become_messages() {
    assert!(matches!(
        outbound_message(ServerEvent::Status(ServerStatus::Connected)),
        Outbound::Status(ServerStatus::Connected)
    ));
    let frame = VideoFrame {
        key: true,
        data: vec![7, 8],
    };
    assert!(matches!(
        outbound_message(ServerEvent::Video(frame)),
        Outbound::Binary(packet) if packet == vec![1, 1, 7, 8]
    ));
    assert_eq!(
        media_message(),
        r#"{"type":"media","video":{"h264":{"format":"annexb"}}}"#
    );
}

#[test]
fn only_a_finished_handshake_is_delivered() {
    assert_eq!(
        listener_step(ListenerEvent::Accepted),
        ListenerAction::StartHandshake
    );
    assert_eq!(
        listener_step(ListenerEvent::AcceptFailed),
        ListenerAction::Pause
    );
    assert_eq!(
        listener_step(ListenerEvent::HandshakeDone),
        ListenerAction::Deliver
    );
    assert_eq!(
        listener_step(ListenerEvent::HandshakesClosed),
        ListenerAction::Wait
    );
}

#[test]
fn only_a_handshake_done_in_time_is_handed_on() {
    assert_eq!(
        handshake_step(HandshakeOutcome::Finished),
        HandshakeAction::HandOn
    );
    assert_eq!(
        handshake_step(HandshakeOutcome::Failed),
        HandshakeAction::Discard
    );
    assert_eq!(
        handshake_step(HandshakeOutcome::TimedOut),
        HandshakeAction::Discard
    );
}

fn video(byte: u8) -> ServerEvent {
    ServerEvent::Video(VideoFrame {
        key: false,
        data: vec![byte],
    })
}

fn written(results: &[bool]) -> Vec<Vec<u8>> {
    let mut writer = SocketWriter::new();
    let mut messages = Vec::new();
    if let Some(message) = writer.greet() {
        assert!(matches!(message, Outbound::Media));
        messages.push(Vec::new());
        writer.sent(results[0]);
    }
    for (number, result) in results[1..].iter().enumerate() {
        if let Some(Outbound::Binary(packet)) = writer.write(video(number as u8)) {
            messages.push(packet);
            writer.sent(*result);
        }
    }
    messages
}

#[test]
fn the_browser_is_told_in_order_up_to_the_first_failure() {
    assert_eq!(
        written(&[true, true, true]),
        vec![vec![], vec![1, 0, 0], vec![1, 0, 1]]
    );
    assert_eq!(
        written(&[true, false, true]),
        vec![vec![], vec![1, 0, 0]]
    );
    assert_eq!(written(&[false, true, true]), vec![Vec::<u8>::new()]);
}

#[test]
fn nothing_is_written_before_the_first_message_and_that_only_once() {
    let mut writer = SocketWriter::new();
    assert!(writer.write(video(0)).is_none());
    assert!(writer.greet().is_some());
    assert!(writer.greet().is_none());
    assert!(writer.write(video(0)).is_some());
}
