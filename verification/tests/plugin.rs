use telepath::plugin::config::ConnectionConfig;
use telepath::plugin::editor::{connection_button, edited_port, settings_editable, EditorRequest};
use telepath::plugin::{decode_conn_state, encode_conn_state, ConnState, ConnectionState};

#[test]
fn state_codes_roundtrip() {
    for s in [ConnState::Disconnected, ConnState::Connecting, ConnState::Connected] {
        assert_eq!(decode_conn_state(encode_conn_state(s)), s);
    }
    assert_eq!(encode_conn_state(ConnState::Connected), 2);
    assert_eq!(decode_conn_state(77), ConnState::Disconnected);
}

#[test]
fn shared_state_stores_and_loads() {
    let c = ConnectionState::new(ConnState::Disconnected);
    assert_eq!(c.load(), ConnState::Disconnected);
    c.store(ConnState::Connecting);
    assert_eq!(c.load(), ConnState::Connecting);
    assert!(!c.is_connected());
    c.store(ConnState::Connected);
    assert!(c.is_connected());
}

#[test]
fn default_config() {
    let c = ConnectionConfig::default();
    assert_eq!(c.host, "127.0.0.1");
    assert_eq!(c.port, 7271);
}

#[test]
fn editor_decisions() {
    assert_eq!(connection_button(ConnState::Disconnected), ("Connect", true, EditorRequest::Connect));
    assert_eq!(connection_button(ConnState::Connecting), ("Connecting...", false, EditorRequest::Nothing));
    assert_eq!(connection_button(ConnState::Connected), ("Disconnect", true, EditorRequest::Disconnect));
    assert!(settings_editable(ConnState::Connecting));
    assert!(!settings_editable(ConnState::Connected));
    assert_eq!(edited_port(7271, "8080"), 8080);
    assert_eq!(edited_port(7271, "80x"), 7271);
    assert_eq!(edited_port(7271, "70000"), 7271);
}
