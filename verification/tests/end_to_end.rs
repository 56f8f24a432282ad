use telepath::common::packet::MAX_FRAMES;
use telepath::common::protocol::{HandshakeResult, HostMessage, ReceiverMessage};
use telepath::common::session::{ClientAction, ClientEvent, ClientPhase, ClientRole, ClientSession};
use telepath::common::text::{append_decimal, parse_u16_decimal};
use telepath::host::app::{App, Message, ServerState};
use telepath::host::net::{server_hello, HostAction, HostControl, HostEvent, HostPhase, HostSession};

#[test]
fn receiver_and_host_complete_the_handshake_and_stream() {
    let mut host = HostSession::new();
    let mut client = ClientSession::new(ClientRole::Receiver);
    let hello = server_hello(48000, "mic".to_string(), 0);
    assert_eq!(client.step(ClientEvent::ServerHelloReceived(hello)), ClientAction::PrepareLocal);
    let ClientAction::SendHello(client_hello) =
        client.step(ClientEvent::LocalReady { output_sample_rate: 44100, udp_listen_port: 40000 })
    else {
        panic!("no hello")
    };
    let HostAction::Accept(reply) = host.step(HostEvent::ClientHelloReceived(client_hello)) else {
        panic!("refused")
    };
    assert_eq!(reply, HandshakeResult::Ready);
    assert_eq!(client.step(ClientEvent::HandshakeReceived(reply)), ClientAction::Connected);
    assert_eq!((host.phase, client.phase), (HostPhase::Streaming, ClientPhase::Streaming));

    let ClientAction::Send(ping) = client.step(ClientEvent::PingDue { now_us: 1_000_000 }) else {
        panic!("no ping")
    };
    assert_eq!(ping, ReceiverMessage::Ping { seq: 0, timestamp_us: 1_000_000 });
    let HostAction::Send(pong) = host.step(HostEvent::ReceiverMessageReceived(ping)) else {
        panic!("no pong")
    };
    assert_eq!(pong, HostMessage::Pong { seq: 0, timestamp_us: 1_000_000 });
    assert_eq!(
        client.step(ClientEvent::HostMessageReceived { msg: pong, now_us: 1_024_000 }),
        ClientAction::LatencyMeasured(12_000)
    );

    let frames: Vec<u32> = (0..(MAX_FRAMES as u32 + 3)).map(|i| i.wrapping_mul(2654435761)).collect();
    let mut played = Vec::new();
    for datagram in host.packetize(&frames, true) {
        match client.on_datagram(&datagram) {
            ClientAction::Play(samples) => played.extend(samples),
            other => panic!("unexpected {other:?}"),
        }
    }
    assert_eq!(played, frames);
}

#[test]
fn decimal_text_reads_back() {
    for n in [0u16, 7, 10, 7271, 65535] {
        let mut s = String::new();
        append_decimal(&mut s, n as u64);
        assert_eq!(parse_u16_decimal(&s), Some(n));
    }
}

#[test]
fn connect_during_recording_leaves_stream_running() {
    let mut app = App::default();
    let mut c = HostControl::new();
    app.update(&mut c, Message::PluginConnected("a".to_string()));
    app.update(&mut c, Message::RecordToggled);
    app.update(&mut c, Message::PluginConnected("b".to_string()));
    assert_eq!(app.server_state, ServerState::Connected("b".to_string()));
    assert!(c.recording);
}
