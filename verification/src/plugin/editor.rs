//! The decisions of the plugin's editor window.
use vstd::prelude::*;

use crate::common::text::{parse_u16, parse_u16_decimal};
use crate::plugin::ConnState;

verus! {

/// What a click on the editor's connection button asks of the plugin.
#[derive(Debug, Clone, Copy, PartialEq, Eq, Structural)]
pub enum EditorRequest {
    Connect,
    Disconnect,
    Nothing,
}

/// The connection button in state `s`: its label, whether it can be pressed,
/// and what a click on it asks.
pub fn connection_button(s: ConnState) -> (r: (&'static str, bool, EditorRequest))
    ensures
        s == ConnState::Disconnected ==> r.0@ == "Connect"@ && r.1 && r.2 == EditorRequest::Connect,
        s == ConnState::Connecting ==> r.0@ == "Connecting..."@ && !r.1 && r.2
            == EditorRequest::Nothing,
        s == ConnState::Connected ==> r.0@ == "Disconnect"@ && r.1 && r.2
            == EditorRequest::Disconnect,
{
    match s {
        ConnState::Disconnected => ("Connect", true, EditorRequest::Connect),
        ConnState::Connecting => ("Connecting...", false, EditorRequest::Nothing),
        ConnState::Connected => ("Disconnect", true, EditorRequest::Disconnect),
    }
}

/// Whether the host and port fields can be edited: only while not connected.
pub fn settings_editable(s: ConnState) -> (r: bool)
    ensures
        r == (s != ConnState::Connected),
{
    s != ConnState::Connected
}

/// The port after the user edited its text: the number typed when it is a
/// `u16`, else the port as it was.
pub fn edited_port(current: u16, text: &str) -> (r: u16)
    ensures
        r == match parse_u16(text@) {
            Some(p) => p,
            None => current,
        },
{
    match parse_u16_decimal(text) {
        Some(p) => p,
        None => current,
    }
}

/// Per-editor flags and the last error shown; not persisted.
#[derive(Debug, Clone, PartialEq, Eq)]
pub struct EditorState {
    pub connect_requested: bool,
    pub disconnect_requested: bool,
    pub last_error: Option<String>,
}

impl Default for EditorState {
    fn default() -> (s: EditorState)
        ensures
            !s.connect_requested,
            !s.disconnect_requested,
            s.last_error.is_none(),
    {
        EditorState { connect_requested: false, disconnect_requested: false, last_error: None }
    }
}

} // verus!
