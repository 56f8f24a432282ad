//! The DAW plugin: receives the host's stream inside the DAW.
pub mod config;
pub mod editor;

use std::sync::atomic::{AtomicU32, Ordering};
use std::sync::Arc;
use vstd::prelude::*;

verus! {

/// Connection state shared between the plugin and its editor.
#[derive(Debug, Clone, Copy, PartialEq, Eq, Structural)]
pub enum ConnState {
    Disconnected,
    Connecting,
    Connected,
}

/// The number that stands for a connection state in the shared atomic.
pub open spec fn conn_state_code(s: ConnState) -> u32 {
    match s {
        ConnState::Disconnected => 0,
        ConnState::Connecting => 1,
        ConnState::Connected => 2,
    }
}

/// The connection state that a number in the shared atomic stands for;
/// numbers that stand for none read as `Disconnected`.
pub open spec fn conn_state_of_code(v: u32) -> ConnState {
    if v == 1 {
        ConnState::Connecting
    } else if v == 2 {
        ConnState::Connected
    } else {
        ConnState::Disconnected
    }
}

/// The number that stands for a connection state in the shared atomic.
pub fn encode_conn_state(s: ConnState) -> (v: u32)
    ensures
        v == conn_state_code(s),
{
    match s {
        ConnState::Disconnected => 0,
        ConnState::Connecting => 1,
        ConnState::Connected => 2,
    }
}

/// The connection state that a number in the shared atomic stands for.
pub fn decode_conn_state(v: u32) -> (s: ConnState)
    ensures
        s == conn_state_of_code(v),
{
    if v == 1 {
        ConnState::Connecting
    } else if v == 2 {
        ConnState::Connected
    } else {
        ConnState::Disconnected
    }
}

/// Reading back the number stored for a state gives the state.
pub proof fn lemma_conn_state_roundtrip(s: ConnState)
    ensures
        conn_state_of_code(conn_state_code(s)) == s,
{
}

/// Atomic cell so the editor (UI thread) and plugin (audio thread) can read
/// and write the connection state without a lock on the hot path. What a
/// load returns depends on the other threads' stores, so no contract states
/// it; what is stated is how a state is stored and read as a number.
pub struct ConnectionState(AtomicU32);

impl ConnectionState {
    /// A shared cell holding `s`.
    pub fn new(s: ConnState) -> Arc<Self> {
        Arc::new(ConnectionState(AtomicU32::new(encode_conn_state(s))))
    }

    /// Stores `s` for the other threads to read.
    pub fn store(&self, s: ConnState) {
        self.0.store(encode_conn_state(s), Ordering::Release);
    }

    /// Reads the state that some thread stored last.
    pub fn load(&self) -> ConnState {
        let v = self.0.load(Ordering::Acquire);
        decode_conn_state(v)
    }

    /// Whether the state that some thread stored last is `Connected`.
    pub fn is_connected(&self) -> bool {
        self.load() == ConnState::Connected
    }
}

} // verus!
