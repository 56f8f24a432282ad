use telepath::common::error::PacketError;
use telepath::common::packet::AudioPacket;
use telepath::common::protocol::{
    ClientHello, HandshakeResult, HostMessage, ReceiverMessage, ServerHello, SessionError,
};
use telepath::common::session::{ClientAction, ClientEvent, ClientPhase, ClientRole, ClientSession};

fn hello(version: u16, sample_rate: u32) -> ServerHello {
    ServerHello { version, sample_rate, channels: 1, device_name: "mic".to_string(), return_udp_port: 0 }
}

fn streaming(role: ClientRole) -> ClientSession {
    let mut s = ClientSession::new(role);
    assert_eq!(s.step(ClientEvent::ServerHelloReceived(hello(1, 48000))), ClientAction::PrepareLocal);
    s.step(ClientEvent::LocalReady { output_sample_rate: 44100, udp_listen_port: 5000 });
    assert_eq!(s.step(ClientEvent::HandshakeReceived(HandshakeResult::Ready)), ClientAction::Connected);
    assert_eq!(s.phase, ClientPhase::Streaming);
    s
}

#[test]
fn receiver_handshake_requests_its_device_rate() {
    let mut s = ClientSession::new(ClientRole::Receiver);
    assert_eq!(s.step(ClientEvent::ServerHelloReceived(hello(1, 48000))), ClientAction::PrepareLocal);
    assert_eq!(s.host_sample_rate, 48000);
    assert_eq!(
        s.step(ClientEvent::LocalReady { output_sample_rate: 44100, udp_listen_port: 5000 }),
        ClientAction::SendHello(ClientHello { version: 1, requested_sample_rate: 44100, udp_listen_port: 5000 })
    );
}

#[test]
fn plugin_handshake_requests_the_host_rate() {
    let mut s = ClientSession::new(ClientRole::Plugin);
    s.step(ClientEvent::ServerHelloReceived(hello(1, 96000)));
    assert_eq!(
        s.step(ClientEvent::LocalReady { output_sample_rate: 44100, udp_listen_port: 6000 }),
        ClientAction::SendHello(ClientHello { version: 1, requested_sample_rate: 96000, udp_listen_port: 6000 })
    );
}

#[test]
fn wrong_host_version_fails_with_role_text() {
    let mut s = ClientSession::new(ClientRole::Receiver);
    assert_eq!(
        s.step(ClientEvent::ServerHelloReceived(hello(3, 48000))),
        ClientAction::Fail("host protocol version 3 \u{2014} receiver expects 1".to_string())
    );
    assert_eq!(s.phase, ClientPhase::Finished);
    let mut p = ClientSession::new(ClientRole::Plugin);
    assert_eq!(
        p.step(ClientEvent::ServerHelloReceived(hello(0, 48000))),
        ClientAction::Fail("host protocol version 0 \u{2014} plugin expects 1".to_string())
    );
}

#[test]
fn refused_handshake_fails_with_session_error_text() {
    let mut s = ClientSession::new(ClientRole::Receiver);
    s.step(ClientEvent::ServerHelloReceived(hello(1, 48000)));
    s.step(ClientEvent::LocalReady { output_sample_rate: 48000, udp_listen_port: 1 });
    assert_eq!(
        s.step(ClientEvent::HandshakeReceived(HandshakeResult::Error(SessionError::DeviceUnavailable))),
        ClientAction::Fail("audio device unavailable".to_string())
    );
    assert_eq!(s.phase, ClientPhase::Finished);
}

#[test]
fn pings_count_up_and_wrap() {
    let mut s = streaming(ClientRole::Receiver);
    assert_eq!(s.step(ClientEvent::PingDue { now_us: 10 }), ClientAction::Send(ReceiverMessage::Ping { seq: 0, timestamp_us: 10 }));
    assert_eq!(s.step(ClientEvent::PingDue { now_us: 20 }), ClientAction::Send(ReceiverMessage::Ping { seq: 1, timestamp_us: 20 }));
    s.ping_seq = u32::MAX;
    assert_eq!(s.step(ClientEvent::PingDue { now_us: 30 }), ClientAction::Send(ReceiverMessage::Ping { seq: u32::MAX, timestamp_us: 30 }));
    assert_eq!(s.ping_seq, 0);
}

#[test]
fn pong_gives_half_the_round_trip() {
    let mut s = streaming(ClientRole::Plugin);
    assert_eq!(
        s.step(ClientEvent::HostMessageReceived { msg: HostMessage::Pong { seq: 0, timestamp_us: 1_000 }, now_us: 25_001 }),
        ClientAction::LatencyMeasured(12_000)
    );
    assert_eq!(
        s.step(ClientEvent::HostMessageReceived { msg: HostMessage::Pong { seq: 0, timestamp_us: 5_000 }, now_us: 1_000 }),
        ClientAction::LatencyMeasured(0)
    );
    assert_eq!(
        s.step(ClientEvent::HostMessageReceived { msg: HostMessage::Pong { seq: 0, timestamp_us: 0 }, now_us: 1 << 40 }),
        ClientAction::LatencyMeasured(((1u64 << 39) % (1u64 << 32)) as u32)
    );
}

#[test]
fn host_stats_and_error() {
    let mut s = streaming(ClientRole::Receiver);
    assert_eq!(
        s.step(ClientEvent::HostMessageReceived {
            msg: HostMessage::StreamStats { packets_sent: 10, packets_dropped: 2, level_dbfs_x100: -600 },
            now_us: 0
        }),
        ClientAction::HostStats { packets_sent: 10, packets_dropped: 2 }
    );
    assert_eq!(
        s.step(ClientEvent::HostMessageReceived { msg: HostMessage::Error(SessionError::Internal("x".to_string())), now_us: 0 }),
        ClientAction::Fail("host error: internal error: x".to_string())
    );
    assert_eq!(s.phase, ClientPhase::Finished);
}

#[test]
fn disconnect_sends_disconnect_and_ends() {
    let mut s = streaming(ClientRole::Receiver);
    assert_eq!(s.step(ClientEvent::DisconnectRequested), ClientAction::SendAndFinish(ReceiverMessage::Disconnect));
    assert_eq!(s.phase, ClientPhase::Finished);
    assert_eq!(s.step(ClientEvent::PingDue { now_us: 1 }), ClientAction::Ignore);
}

#[test]
fn reader_closed_ends_cleanly_and_reader_error_fails() {
    let mut s = streaming(ClientRole::Receiver);
    assert_eq!(s.step(ClientEvent::ReaderClosed), ClientAction::Finish);
    let mut t = ClientSession::new(ClientRole::Receiver);
    assert_eq!(t.step(ClientEvent::ReaderFailed("eof".to_string())), ClientAction::Fail("eof".to_string()));
}

#[test]
fn disconnect_during_handshake_is_ignored() {
    let mut s = ClientSession::new(ClientRole::Receiver);
    assert_eq!(s.step(ClientEvent::DisconnectRequested), ClientAction::Ignore);
    assert_eq!(s.phase, ClientPhase::AwaitingServerHello);
}

#[test]
fn datagrams_play_only_while_streaming() {
    let pkt = AudioPacket { seq: 1, timestamp_us: 2, samples: vec![0x3f00_0000, 0xbf00_0000] };
    let bytes = pkt.encode().unwrap();
    let fresh = ClientSession::new(ClientRole::Receiver);
    assert_eq!(fresh.on_datagram(&bytes), ClientAction::Ignore);
    let s = streaming(ClientRole::Receiver);
    assert_eq!(s.on_datagram(&bytes), ClientAction::Play(vec![0x3f00_0000, 0xbf00_0000]));
    assert_eq!(s.on_datagram(&bytes[..5]), ClientAction::DiscardDatagram(PacketError::TooShort { got: 5 }));
}

#[test]
fn close_during_handshake_fails_the_session() {
    let closed = ClientAction::Fail("connection closed during handshake".to_string());
    let mut s = ClientSession::new(ClientRole::Receiver);
    assert_eq!(s.step(ClientEvent::ReaderClosed), closed);
    assert_eq!(s.phase, ClientPhase::Finished);
    let mut s = ClientSession::new(ClientRole::Plugin);
    assert_eq!(s.step(ClientEvent::ServerHelloReceived(hello(1, 48000))), ClientAction::PrepareLocal);
    assert_eq!(s.step(ClientEvent::ReaderClosed), closed);
    assert_eq!(s.phase, ClientPhase::Finished);
}
