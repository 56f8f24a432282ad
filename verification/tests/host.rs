use telepath::common::packet::{AudioPacket, MAX_FRAMES};
use telepath::common::protocol::{ClientHello, HandshakeResult, HostMessage, ReceiverMessage, SessionError};
use telepath::host::app::{App, Message, ServerState, SILENT_LEVEL_DB_BITS};
use telepath::host::net::{
    audio_destination, end_of_session, session_device, server_hello, set_device, set_monitoring, set_output_device,
    set_recording, HostAction, HostControl, HostEvent, HostPhase, HostSession,
};

fn accepted() -> HostSession {
    let mut s = HostSession::new();
    let a = s.step(HostEvent::ClientHelloReceived(ClientHello { version: 1, requested_sample_rate: 48000, udp_listen_port: 9000 }));
    assert_eq!(a, HostAction::Accept(HandshakeResult::Ready));
    s
}

#[test]
fn controls_are_set() {
    let mut c = HostControl::new();
    set_recording(&mut c, true);
    set_device(&mut c, Some("mic".to_string()));
    set_output_device(&mut c, Some("phones".to_string()));
    set_monitoring(&mut c, true);
    assert!(c.recording && c.monitoring);
    assert_eq!(c.selected_device.as_deref(), Some("mic"));
    assert_eq!(c.output_device.as_deref(), Some("phones"));
    end_of_session(&mut c);
    assert!(!c.recording);
    assert!(c.monitoring);
}

#[test]
fn hello_and_destination() {
    let h = server_hello(48000, "Scarlett".to_string(), 7000);
    assert_eq!((h.version, h.sample_rate, h.channels, h.device_name.as_str(), h.return_udp_port), (1, 48000, 1, "Scarlett", 7000));
    let hello = ClientHello { version: 1, requested_sample_rate: 0, udp_listen_port: 50123 };
    assert_eq!(audio_destination("192.168.1.20", &hello), "192.168.1.20:50123");
}

#[test]
fn version_mismatch_is_refused() {
    let mut s = HostSession::new();
    let a = s.step(HostEvent::ClientHelloReceived(ClientHello { version: 2, requested_sample_rate: 48000, udp_listen_port: 1 }));
    assert_eq!(
        a,
        HostAction::Refuse(
            HandshakeResult::Error(SessionError::VersionMismatch { got: 2, expected: 1 }),
            "protocol version mismatch".to_string()
        )
    );
    assert_eq!(s.phase, HostPhase::Finished);
}

#[test]
fn ping_is_echoed_and_disconnect_ends() {
    let mut s = accepted();
    assert_eq!(
        s.step(HostEvent::ReceiverMessageReceived(ReceiverMessage::Ping { seq: 5, timestamp_us: 77 })),
        HostAction::Send(HostMessage::Pong { seq: 5, timestamp_us: 77 })
    );
    assert_eq!(s.step(HostEvent::ReceiverMessageReceived(ReceiverMessage::Disconnect)), HostAction::Finish);
    assert_eq!(s.step(HostEvent::StatsDue { level_dbfs_x100: 0 }), HostAction::Ignore);
}

#[test]
fn stats_report_counters() {
    let mut s = accepted();
    s.record_delivery(true);
    s.record_delivery(true);
    s.record_delivery(false);
    assert_eq!(
        s.step(HostEvent::StatsDue { level_dbfs_x100: -1234 }),
        HostAction::Send(HostMessage::StreamStats { packets_sent: 2, packets_dropped: 1, level_dbfs_x100: -1234 })
    );
    assert_eq!(s.step(HostEvent::AudioClosed), HostAction::Fail("audio device closed".to_string()));
}

#[test]
fn counters_wrap() {
    let mut s = accepted();
    s.packets_dropped = u32::MAX;
    s.record_delivery(false);
    assert_eq!(s.packets_dropped, 0);
}

#[test]
fn packetize_splits_into_max_frames() {
    let mut s = accepted();
    s.seq = u32::MAX - 1;
    let frames: Vec<u32> = (0..(2 * MAX_FRAMES as u32 + 10)).collect();
    let grams = s.packetize(&frames, true);
    assert_eq!(grams.len(), 3);
    let pkts: Vec<AudioPacket> = grams.iter().map(|g| AudioPacket::decode(g).unwrap()).collect();
    assert_eq!(pkts.iter().map(|p| p.seq).collect::<Vec<_>>(), vec![u32::MAX - 1, u32::MAX, 0]);
    assert_eq!(pkts.iter().map(|p| p.samples.len()).collect::<Vec<_>>(), vec![MAX_FRAMES, MAX_FRAMES, 10]);
    let joined: Vec<u32> = pkts.iter().flat_map(|p| p.samples.clone()).collect();
    assert_eq!(joined, frames);
    assert_eq!(s.seq, 1);
}

#[test]
fn nothing_is_sent_unless_recording_and_streaming() {
    let mut s = accepted();
    assert!(s.packetize(&[1, 2, 3], false).is_empty());
    let mut fresh = HostSession::new();
    assert!(fresh.packetize(&[1, 2, 3], true).is_empty());
    assert!(s.packetize(&[], true).is_empty());
    assert_eq!(s.seq, 0);
}

#[test]
fn level_reports_every_tenth_of_a_second() {
    let mut s = HostSession::new();
    assert!(s.level_report_due(256, 48000));
    assert_eq!(s.level_countdown, 4800);
    assert!(!s.level_report_due(4000, 48000));
    assert_eq!(s.level_countdown, 800);
    assert!(s.level_report_due(800, 48000));
}

#[test]
fn app_records_only_when_connected() {
    let mut app = App::default();
    let mut c = HostControl::new();
    assert_eq!(app.level_db_bits, (-60.0f32).to_bits());
    assert_eq!(SILENT_LEVEL_DB_BITS, (-60.0f32).to_bits());
    app.update(&mut c, Message::RecordToggled);
    assert_eq!(app.server_state, ServerState::Listening);
    assert!(!c.recording);
    app.update(&mut c, Message::PluginConnected("10.0.0.2".to_string()));
    app.update(&mut c, Message::RecordToggled);
    assert_eq!(app.server_state, ServerState::Recording("10.0.0.2".to_string()));
    assert!(c.recording);
    app.update(&mut c, Message::RecordToggled);
    assert_eq!(app.server_state, ServerState::Connected("10.0.0.2".to_string()));
    assert!(!c.recording);
}

#[test]
fn app_first_device_is_selected_once() {
    let mut app = App::default();
    let mut c = HostControl::new();
    app.update(&mut c, Message::DevicesLoaded(vec!["a".to_string(), "b".to_string()]));
    assert_eq!(app.selected_device.as_deref(), Some("a"));
    assert_eq!(c.selected_device.as_deref(), Some("a"));
    app.update(&mut c, Message::DevicesLoaded(vec!["b".to_string()]));
    assert_eq!(app.selected_device.as_deref(), Some("a"));
    app.update(&mut c, Message::DeviceSelected("b".to_string()));
    assert_eq!(c.selected_device.as_deref(), Some("b"));
    app.update(&mut c, Message::OutputDevicesLoaded(vec![]));
    assert_eq!(app.selected_output, None);
    app.update(&mut c, Message::OutputDevicesLoaded(vec!["x".to_string()]));
    assert_eq!(c.output_device.as_deref(), Some("x"));
}

#[test]
fn app_disconnect_and_error_reset() {
    let mut app = App::default();
    let mut c = HostControl::new();
    app.update(&mut c, Message::PluginConnected("h".to_string()));
    app.update(&mut c, Message::RecordToggled);
    app.update(&mut c, Message::MonitorToggled);
    app.update(&mut c, Message::LevelUpdated((-12.5f32).to_bits()));
    assert!(app.monitoring && c.monitoring);
    app.update(&mut c, Message::PluginDisconnected);
    assert_eq!(app.server_state, ServerState::Listening);
    assert!(!app.monitoring && !c.monitoring && !c.recording);
    assert_eq!(app.level_db_bits, SILENT_LEVEL_DB_BITS);
    app.update(&mut c, Message::PluginConnected("h".to_string()));
    app.update(&mut c, Message::RecordToggled);
    app.update(&mut c, Message::ServerError("bind failed".to_string()));
    assert_eq!(app.error.as_deref(), Some("bind failed"));
    assert!(!c.recording);
    app.update(&mut c, Message::PluginConnected("h".to_string()));
    assert_eq!(app.error, None);
}

#[test]
fn app_view_texts() {
    let mut app = App::default();
    let mut c = HostControl::new();
    assert_eq!(app.status_line(), "Waiting for receiver connection...");
    assert_eq!(app.record_button(), ("\u{23fa}  REC", false, false));
    app.update(&mut c, Message::PluginConnected("1.2.3.4".to_string()));
    assert_eq!(app.status_line(), "Receiver connected \u{2014} 1.2.3.4");
    assert_eq!(app.monitor_button(), ("\u{25b6}  Monitor DAW", false, false));
    app.update(&mut c, Message::RecordToggled);
    assert_eq!(app.status_line(), "\u{25cf} Streaming \u{2014} 1.2.3.4");
    assert_eq!(app.record_button(), ("\u{23f9}  STOP", true, true));
    app.update(&mut c, Message::OutputDeviceSelected("o".to_string()));
    app.update(&mut c, Message::MonitorToggled);
    assert_eq!(app.monitor_button(), ("\u{23f9}  Stop monitor", true, true));
}

#[test]
fn numbering_continues_across_captures() {
    let mut s = accepted();
    let first = s.packetize(&vec![0u32; MAX_FRAMES + 1], true);
    let second = s.packetize(&[1, 2], true);
    let seqs: Vec<u32> = first.iter().chain(second.iter()).map(|g| AudioPacket::decode(g).unwrap().seq).collect();
    assert_eq!(seqs, vec![0, 1, 2]);
}

#[test]
fn session_needs_a_selected_device() {
    assert_eq!(session_device(&Some("Mic".to_string())), Ok("Mic".to_string()));
    assert_eq!(session_device(&None), Err("no audio device selected".to_string()));
}

#[test]
fn close_before_client_hello_fails_the_session() {
    let mut s = HostSession::new();
    assert_eq!(s.step(HostEvent::ReaderClosed), HostAction::Fail("connection closed during handshake".to_string()));
    assert_eq!(s.phase, HostPhase::Finished);
}
