use ironrdp_egfx::pdu::CapabilitiesV81Flags;
use rdp2web::config::{RdpConfig, RdpMode};
use rdp2web::connector::{build_connector_config, platform_for_os, Platform};
use rdp2web::egfx::{CapabilitySet, EgfxHandler, REMOTE_FX_PROGRESSIVE};
use rdp2web::h264::{VideoError, VideoFrame};
use rdp2web::input::InputEvent;
use rdp2web::lifecycle::{LifecycleEvent, SessionLifecycle, Stage};
use rdp2web::rdp::{ClientEvent, ServerEvent, ServerStatus};
use rdp2web::session::{
    write_outputs, ControlAction, ControlPoll, Phase, ReadPoll, ResponseStep, SendStep,
    SessionDriver, StageOutput,
};

#[test]
fn egfx_advertises_only_avc420_capability() {
    let handler = EgfxHandler::new();
    let capabilities = handler.capabilities();

    assert_eq!(capabilities.len(), 1);
    let CapabilitySet::V8_1 { flags } = capabilities[0];
    let flags = CapabilitiesV81Flags::from_bits_retain(flags);
    assert!(flags.contains(CapabilitiesV81Flags::AVC420_ENABLED));
    assert!(flags.contains(CapabilitiesV81Flags::SMALL_CACHE));
    assert!(!flags.contains(CapabilitiesV81Flags::THIN_CLIENT));
}

#[test]
fn progressive_updates_are_reported_once() {
    let mut handler = EgfxHandler::new();
    assert!(handler.on_wire_to_surface2(0x0a).is_none());
    match handler.on_wire_to_surface2(REMOTE_FX_PROGRESSIVE) {
        Some(ServerEvent::Status(ServerStatus::Error { message })) => assert_eq!(
            message,
            "RDP server negotiated RemoteFX Progressive; direct AVC/H.264 is required"
        ),
        other => panic!("unexpected event: {other:?}"),
    }
    assert!(handler.on_wire_to_surface2(REMOTE_FX_PROGRESSIVE).is_none());
    assert_eq!(handler.progressive_updates_seen, 2);
    assert_eq!(
        REMOTE_FX_PROGRESSIVE,
        ironrdp_egfx::pdu::Codec2Type::RemoteFxProgressive as u16
    );
}

#[test]
fn a_full_counter_stays_full() {
    let mut handler = EgfxHandler {
        progressive_updates_seen: u64::MAX,
    };
    assert!(handler.on_wire_to_surface2(REMOTE_FX_PROGRESSIVE).is_none());
    assert_eq!(handler.progressive_updates_seen, u64::MAX);
}

#[test]
fn graphics_messages_become_events() {
    let handler = EgfxHandler::new();
    assert!(matches!(
        handler.on_reset_graphics(800, 600),
        ServerEvent::Status(ServerStatus::DesktopSize {
            width: 800,
            height: 600
        })
    ));
    assert!(matches!(
        handler.on_avc420_frame(&[0, 0, 1, 0x65]),
        Ok(ServerEvent::Video(frame)) if frame.key && frame.data == vec![0, 0, 0, 1, 0x65]
    ));
    assert!(matches!(
        handler.on_avc420_frame(&[1]),
        Err(VideoError::TrailingBytes)
    ));
}

fn picture() -> LifecycleEvent {
    LifecycleEvent::Graphics(ServerEvent::Video(VideoFrame {
        key: true,
        data: vec![7],
    }))
}

fn told(events: Vec<LifecycleEvent>) -> Vec<String> {
    let mut lifecycle = SessionLifecycle::new();
    events
        .into_iter()
        .filter_map(|event| lifecycle.step(event))
        .map(|event| match event {
            ServerEvent::Status(ServerStatus::Error { message }) => format!("error {message}"),
            ServerEvent::Status(status) => format!("{status:?}"),
            ServerEvent::Video(_) => "video".to_owned(),
        })
        .collect()
}

#[test]
fn the_browser_is_told_of_a_session_from_beginning_to_end() {
    assert_eq!(
        told(vec![
            LifecycleEvent::Begun,
            LifecycleEvent::LoggedIn,
            picture(),
            LifecycleEvent::Failed("no".to_owned()),
            picture(),
            LifecycleEvent::Failed("again".to_owned()),
        ]),
        vec!["Connecting", "Connected", "video", "error no"]
    );
    assert_eq!(
        told(vec![
            LifecycleEvent::Begun,
            LifecycleEvent::Failed("login".to_owned()),
            LifecycleEvent::LoggedIn,
        ]),
        vec!["Connecting", "error login"]
    );
    assert_eq!(
        told(vec![
            LifecycleEvent::Begun,
            LifecycleEvent::LoggedIn,
            LifecycleEvent::LoggedIn,
            LifecycleEvent::Begun,
            LifecycleEvent::Ended,
            picture(),
        ]),
        vec!["Connecting", "Connected"]
    );
}

#[test]
fn nothing_is_told_of_a_session_that_has_not_begun() {
    assert!(told(vec![
        LifecycleEvent::LoggedIn,
        picture(),
        LifecycleEvent::Failed("no".to_owned()),
    ])
    .is_empty());
    let mut lifecycle = SessionLifecycle::new();
    assert_eq!(lifecycle.stage, Stage::New);
    assert!(lifecycle.step(LifecycleEvent::Begun).is_some());
    assert_eq!(lifecycle.stage, Stage::Connecting);
}

fn key(code: &str) -> ControlPoll {
    ControlPoll::Event(ClientEvent::Key {
        down: true,
        code: code.to_owned(),
        key: None,
    })
}

fn resize() -> ControlPoll {
    ControlPoll::Event(ClientEvent::Resize {
        width: 640,
        height: 480,
    })
}

fn driver_in(phase: Phase) -> SessionDriver {
    SessionDriver {
        phase,
        failure: None,
    }
}

#[test]
fn the_browser_is_heard_before_the_server() {
    let mut driver = SessionDriver::new();
    assert!(matches!(
        driver.control(resize()),
        ControlAction::Resize {
            width: 640,
            height: 480
        }
    ));
    assert_eq!(driver.phase, Phase::SendResize);
    driver.sent(None);
    assert_eq!(driver.phase, Phase::DrainControl);
    match driver.control(key("KeyA")) {
        ControlAction::SendInput(events) => assert!(matches!(
            events.as_slice(),
            [InputEvent::ScanCode(pdu)] if pdu.key_code == 0x1e
        )),
        other => panic!("unexpected action: {other:?}"),
    }
    assert_eq!(driver.phase, Phase::SendInput);
    driver.sent(None);
    assert!(matches!(
        driver.control(key("Unknown")),
        ControlAction::Nothing
    ));
    assert_eq!(driver.phase, Phase::DrainControl);
    assert!(matches!(
        driver.control(ControlPoll::Empty),
        ControlAction::Nothing
    ));
    assert_eq!(driver.phase, Phase::ReadFrame);
    driver.read(ReadPoll::TimedOut);
    assert_eq!(driver.phase, Phase::DrainControl);
    assert!(matches!(
        driver.control(ControlPoll::Closed),
        ControlAction::Nothing
    ));
    assert_eq!(driver.phase, Phase::Ended);
    assert_eq!(driver.failure, None);
}

#[test]
fn a_failed_send_ends_the_session_with_its_error() {
    for (poll, step, error) in [
        (resize(), SendStep::Encode, "encode RDP resize"),
        (resize(), SendStep::Write, "write resize frame"),
        (resize(), SendStep::Flush, "flush resize frame"),
        (key("KeyA"), SendStep::Encode, "encode RDP input"),
        (key("KeyA"), SendStep::Write, "write RDP input frame"),
        (key("KeyA"), SendStep::Flush, "flush RDP input frame"),
    ] {
        let mut driver = SessionDriver::new();
        driver.control(poll);
        driver.sent(Some(step));
        assert_eq!(driver.phase, Phase::Ended);
        assert_eq!(driver.failure.as_deref(), Some(error));
    }
}

#[test]
fn only_a_failed_read_ends_the_session() {
    for poll in [ReadPoll::WouldBlock, ReadPoll::TimedOut] {
        let mut driver = driver_in(Phase::ReadFrame);
        driver.read(poll);
        assert_eq!(driver.phase, Phase::DrainControl);
        assert_eq!(driver.failure, None);
    }
    let mut driver = driver_in(Phase::ReadFrame);
    driver.read(ReadPoll::Frame);
    assert_eq!(driver.phase, Phase::ProcessFrame);
    let mut driver = driver_in(Phase::ReadFrame);
    driver.read(ReadPoll::Failed("reset".to_owned()));
    assert_eq!(driver.failure, Some("read RDP frame: reset".to_owned()));
    assert_eq!(driver.phase, Phase::Ended);
}

#[test]
fn a_frame_is_processed_and_answered() {
    let mut driver = driver_in(Phase::ProcessFrame);
    assert_eq!(
        driver.processed(Some(vec![StageOutput::ResponseFrame(vec![1])])),
        vec![vec![1]]
    );
    assert_eq!(driver.phase, Phase::SendResponse);
    driver.responded(None);
    assert_eq!(driver.phase, Phase::DrainControl);

    let mut driver = driver_in(Phase::ProcessFrame);
    assert!(driver.processed(None).is_empty());
    assert_eq!(driver.phase, Phase::Ended);
    assert_eq!(driver.failure.as_deref(), Some("process RDP frame"));

    for (step, error) in [
        (None, "RDP session terminated: Why"),
        (Some(ResponseStep::Write), "write RDP response"),
        (Some(ResponseStep::Flush), "flush RDP response"),
    ] {
        let mut driver = driver_in(Phase::ProcessFrame);
        let outputs = vec![
            StageOutput::ResponseFrame(vec![1]),
            StageOutput::Terminate("Why".to_owned()),
        ];
        assert_eq!(driver.processed(Some(outputs)), vec![vec![1]]);
        driver.responded(step);
        assert_eq!(driver.phase, Phase::Ended);
        assert_eq!(driver.failure.as_deref(), Some(error));
    }
}

#[test]
fn responses_are_sent_up_to_the_end_of_the_session() {
    let plan = write_outputs(vec![
        StageOutput::ResponseFrame(vec![1]),
        StageOutput::GraphicsUpdate,
        StageOutput::ResponseFrame(vec![2, 3]),
        StageOutput::Other,
    ]);
    assert_eq!(plan.frames, vec![vec![1], vec![2, 3]]);
    assert_eq!(plan.failure, None);
    let plan = write_outputs(vec![
        StageOutput::ResponseFrame(vec![1]),
        StageOutput::Terminate("UserRequested".to_owned()),
        StageOutput::ResponseFrame(vec![2]),
    ]);
    assert_eq!(plan.frames, vec![vec![1]]);
    assert_eq!(
        plan.failure,
        Some("RDP session terminated: UserRequested".to_owned())
    );
    let plan = write_outputs(vec![]);
    assert!(plan.frames.is_empty());
}

#[test]
fn the_connector_logs_in_as_configured() {
    let config = RdpConfig {
        host: "h".to_owned(),
        port: 3389,
        username: "user".to_owned(),
        password: "secret".to_owned(),
        domain: Some("CORP".to_owned()),
        mode: RdpMode::Session,
        routing_token: None,
        redirection_auth: None,
        width: 1024,
        height: 768,
    };
    let connector = build_connector_config(&config, "linux").unwrap();
    assert_eq!(connector.username, "user");
    assert_eq!(connector.password, "secret");
    assert_eq!(connector.domain.as_deref(), Some("CORP"));
    assert_eq!(
        (connector.desktop_width, connector.desktop_height),
        (1024, 768)
    );
    assert!(connector.enable_credssp && !connector.enable_tls);
    assert_eq!(connector.client_name, "rdp2web");
    assert_eq!(connector.client_dir, r"C:\Windows\System32\mstscax.dll");
    assert_eq!(connector.performance_flags, 0x86);
    let ids: Vec<u8> = connector.codecs.0.iter().map(|codec| codec.id).collect();
    assert_eq!(ids, vec![3]);
    assert_eq!(
        connector.keyboard_type,
        ironrdp_pdu::gcc::KeyboardType::IBM_ENHANCED.0
    );
    assert_eq!(
        connector.compression_type,
        Some(ironrdp_pdu::rdp::client_info::CompressionType::Rdp61.as_u8())
    );
    assert_eq!(connector.platform, Platform::Unix);
    assert!(!connector.keep_licenses);
    assert_eq!(
        build_connector_config(&config, "plan9").unwrap_err(),
        "the gateway does not run on plan9"
    );
    let zone = connector.time_zone;
    assert!(zone.standard_date.is_none() && zone.daylight_date.is_none());
    let standard = ironrdp_pdu::rdp::client_info::TimezoneInfo::default();
    assert_eq!(zone.bias, standard.bias);
    assert_eq!(zone.standard_name, standard.standard_name);
    assert_eq!((zone.standard_bias, zone.daylight_bias), (0, 0));
    assert_eq!(zone.daylight_name, "");
}

#[test]
fn each_operating_system_has_its_platform() {
    for os in ["linux", "freebsd", "dragonfly", "openbsd", "netbsd"] {
        assert_eq!(platform_for_os(os), Some(Platform::Unix), "{os}");
    }
    assert_eq!(platform_for_os("windows"), Some(Platform::Windows));
    assert_eq!(platform_for_os("macos"), Some(Platform::Macintosh));
    assert_eq!(platform_for_os("ios"), Some(Platform::Ios));
    assert_eq!(platform_for_os("android"), Some(Platform::Android));
    assert_eq!(platform_for_os("plan9"), None);
}
