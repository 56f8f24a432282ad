use telepath::receiver::app::{App, ConnectionState, Message};
use telepath::receiver::net::{clear_disconnect_request, request_disconnect, take_disconnect_request, ReceiverControl};

#[test]
fn disconnect_request_is_taken_once() {
    let mut c = ReceiverControl::new();
    assert!(!take_disconnect_request(&mut c));
    request_disconnect(&mut c);
    assert!(take_disconnect_request(&mut c));
    assert!(!take_disconnect_request(&mut c));
    request_disconnect(&mut c);
    clear_disconnect_request(&mut c);
    assert!(!c.disconnect_requested);
}

#[test]
fn default_app() {
    let app = App::default();
    assert_eq!(app.host, "192.168.1.");
    assert_eq!(app.port, "7271");
    assert_eq!(app.connection_state, ConnectionState::Disconnected);
    assert_eq!(app.session_target(), None);
}

#[test]
fn port_accepts_only_digits() {
    let mut app = App::default();
    let mut c = ReceiverControl::new();
    app.update(&mut c, Message::PortChanged("72a".to_string()));
    assert_eq!(app.port, "7271");
    app.update(&mut c, Message::PortChanged("".to_string()));
    assert_eq!(app.port, "");
    app.update(&mut c, Message::PortChanged("8000".to_string()));
    assert_eq!(app.port, "8000");
}

#[test]
fn session_target_parses_port_with_fallback() {
    let mut app = App::default();
    let mut c = ReceiverControl::new();
    app.update(&mut c, Message::HostChanged("10.1.1.1".to_string()));
    app.update(&mut c, Message::OutputDevicesLoaded(vec!["CABLE".to_string()]));
    app.update(&mut c, Message::ConnectPressed);
    assert_eq!(app.session_target(), Some(("10.1.1.1".to_string(), 7271, "CABLE".to_string())));
    app.update(&mut c, Message::PortChanged("99999".to_string()));
    assert_eq!(app.session_target(), Some(("10.1.1.1".to_string(), 7271, "CABLE".to_string())));
    app.update(&mut c, Message::PortChanged("6000".to_string()));
    assert_eq!(app.session_target().unwrap().1, 6000);
}

#[test]
fn connect_and_disconnect_flow() {
    let mut app = App::default();
    let mut c = ReceiverControl::new();
    assert!(!app.can_connect());
    app.update(&mut c, Message::OutputDevicesLoaded(vec!["out".to_string()]));
    assert!(app.can_connect());
    assert_eq!(app.connect_button(), ("Connect", true, false));
    app.update(&mut c, Message::ConnectPressed);
    assert_eq!(app.connect_button(), ("Connecting...", false, false));
    app.update(&mut c, Message::Connected);
    app.update(&mut c, Message::LatencyUpdated(1500));
    assert_eq!(app.latency_us, 1500);
    assert_eq!(app.connect_button(), ("Disconnect", true, true));
    app.update(&mut c, Message::DisconnectPressed);
    assert!(c.disconnect_requested);
    assert_eq!(app.connection_state, ConnectionState::Disconnected);
    assert_eq!(app.latency_us, 0);
}

#[test]
fn return_stream_toggles_and_resets() {
    let mut app = App::default();
    let mut c = ReceiverControl::new();
    app.update(&mut c, Message::InputDevicesLoaded(vec!["Stereo Mix".to_string()]));
    assert_eq!(c.return_device.as_deref(), Some("Stereo Mix"));
    assert_eq!(app.return_button(), ("\u{25b6}  Send DAW audio to host", false, false));
    app.update(&mut c, Message::ConnectPressed);
    app.update(&mut c, Message::Connected);
    app.update(&mut c, Message::ReturnToggled);
    assert!(app.return_enabled && c.return_enabled);
    assert_eq!(app.return_button(), ("\u{23f9}  Stop return", true, true));
    app.update(&mut c, Message::Error("host error: x".to_string()));
    assert!(!app.return_enabled);
    assert!(c.return_enabled);
    assert_eq!(app.error.as_deref(), Some("host error: x"));
}

#[test]
fn session_end_messages() {
    assert_eq!(telepath::receiver::app::session_end_message(Ok(())), Message::Disconnected);
    assert_eq!(
        telepath::receiver::app::session_end_message(Err("TCP connect to h:1 failed".to_string())),
        Message::Error("TCP connect to h:1 failed".to_string())
    );
}

#[test]
fn connection_state_defaults_to_disconnected() {
    assert_eq!(ConnectionState::default(), ConnectionState::Disconnected);
}

#[test]
fn connect_press_follows_connection_state() {
    let mut app = App::default();
    assert_eq!(app.connect_press(), None);
    app.selected_output = Some("Speakers".to_string());
    assert_eq!(app.connect_press(), Some(Message::ConnectPressed));
    app.host = String::new();
    assert_eq!(app.connect_press(), None);
    app.host = "10.0.0.2".to_string();
    app.connection_state = ConnectionState::Connecting;
    assert_eq!(app.connect_press(), None);
    app.connection_state = ConnectionState::Connected;
    assert_eq!(app.connect_press(), Some(Message::DisconnectPressed));
}
