//! The host's user interface state: what it shows and how it reacts to the
//! user and to the session.
use vstd::prelude::*;

use crate::host::net::{
    set_device, set_monitoring, set_output_device, set_recording, HostControl,
};

verus! {

/// Bit pattern of the `f32` value -60.0: the level shown when nothing is
/// captured, in dBFS.
pub const SILENT_LEVEL_DB_BITS: u32 = 0xC270_0000;

/// Where the host stands with a receiver.
#[derive(Debug, Clone, PartialEq, Eq)]
pub enum ServerState {
    Listening,
    Connected(String),
    Recording(String),
}

/// The host's user interface state.
#[derive(Debug)]
pub struct App {
    // Capture (mic to receiver)
    pub devices: Vec<String>,
    pub selected_device: Option<String>,
    pub server_state: ServerState,
    /// Capture level in dBFS, as the bit pattern of its `f32` value.
    pub level_db_bits: u32,
    // Monitoring (DAW playback to the audio interface)
    pub output_devices: Vec<String>,
    pub selected_output: Option<String>,
    pub monitoring: bool,
    pub error: Option<String>,
}

/// What the user or the session reports to the interface.
#[derive(Debug, Clone, PartialEq, Eq)]
pub enum Message {
    // Capture side
    DevicesLoaded(Vec<String>),
    DeviceSelected(String),
    PluginConnected(String),
    PluginDisconnected,
    RecordToggled,
    /// A new capture level in dBFS, as the bit pattern of its `f32` value.
    LevelUpdated(u32),
    ServerError(String),
    // Monitoring side
    OutputDevicesLoaded(Vec<String>),
    OutputDeviceSelected(String),
    MonitorToggled,
}

/// The first of a list of names, if any.
pub open spec fn first_of(devs: Seq<String>) -> Option<String> {
    if devs.len() > 0 {
        Some(devs[0])
    } else {
        None
    }
}

fn first_name(devs: &Vec<String>) -> (r: Option<String>)
    ensures
        r == first_of(devs@),
{
    if devs.len() > 0 {
        Some(devs[0].clone())
    } else {
        None
    }
}

fn clone_name(name: &Option<String>) -> (r: Option<String>)
    ensures
        r == *name,
{
    match name {
        Some(s) => Some(s.clone()),
        None => None,
    }
}

impl Default for App {
    fn default() -> (a: App)
        ensures
            a.devices@.len() == 0,
            a.selected_device.is_none(),
            a.server_state == ServerState::Listening,
            a.level_db_bits == SILENT_LEVEL_DB_BITS,
            a.output_devices@.len() == 0,
            a.selected_output.is_none(),
            !a.monitoring,
            a.error.is_none(),
    {
        App {
            devices: Vec::new(),
            selected_device: None,
            server_state: ServerState::Listening,
            level_db_bits: SILENT_LEVEL_DB_BITS,
            output_devices: Vec::new(),
            selected_output: None,
            monitoring: false,
            error: None,
        }
    }
}

/// The interface and the shared controls agree: the same devices are
/// selected, monitoring is on in both or in neither, and audio is streamed
/// exactly while the interface shows a recording.
pub open spec fn in_sync(a: App, c: HostControl) -> bool {
    &&& c.selected_device == a.selected_device
    &&& c.output_device == a.selected_output
    &&& c.monitoring == a.monitoring
    &&& c.recording == (a.server_state is Recording)
}

/// The interface after `m`, with the controls that `m` leaves as they were.
pub open spec fn app_after(a: App, m: Message) -> App {
    match m {
        Message::DevicesLoaded(devs) => App {
            selected_device: if a.selected_device.is_none() {
                first_of(devs@)
            } else {
                a.selected_device
            },
            devices: devs,
            ..a
        },
        Message::DeviceSelected(dev) => App { selected_device: Some(dev), ..a },
        Message::OutputDevicesLoaded(devs) => App {
            selected_output: if a.selected_output.is_none() {
                first_of(devs@)
            } else {
                a.selected_output
            },
            output_devices: devs,
            ..a
        },
        Message::OutputDeviceSelected(dev) => App { selected_output: Some(dev), ..a },
        Message::MonitorToggled => App { monitoring: !a.monitoring, ..a },
        Message::PluginConnected(addr) => App {
            server_state: ServerState::Connected(addr),
            error: None,
            ..a
        },
        Message::PluginDisconnected => App {
            monitoring: false,
            server_state: ServerState::Listening,
            level_db_bits: SILENT_LEVEL_DB_BITS,
            ..a
        },
        Message::RecordToggled => match a.server_state {
            ServerState::Connected(addr) => App { server_state: ServerState::Recording(addr), ..a },
            ServerState::Recording(addr) => App { server_state: ServerState::Connected(addr), ..a },
            ServerState::Listening => a,
        },
        Message::LevelUpdated(db) => App { level_db_bits: db, ..a },
        Message::ServerError(e) => App {
            error: Some(e),
            server_state: ServerState::Listening,
            monitoring: false,
            ..a
        },
    }
}

/// The shared controls after `m` in interface state `a`.
pub open spec fn control_after(a: App, c: HostControl, m: Message) -> HostControl {
    match m {
        Message::DevicesLoaded(devs) => if a.selected_device.is_none() {
            HostControl { selected_device: first_of(devs@), ..c }
        } else {
            c
        },
        Message::DeviceSelected(dev) => HostControl { selected_device: Some(dev), ..c },
        Message::OutputDevicesLoaded(devs) => if a.selected_output.is_none() {
            HostControl { output_device: first_of(devs@), ..c }
        } else {
            c
        },
        Message::OutputDeviceSelected(dev) => HostControl { output_device: Some(dev), ..c },
        Message::MonitorToggled => HostControl { monitoring: !a.monitoring, ..c },
        Message::PluginDisconnected => HostControl { recording: false, monitoring: false, ..c },
        Message::RecordToggled => match a.server_state {
            ServerState::Connected(_) => HostControl { recording: true, ..c },
            ServerState::Recording(_) => HostControl { recording: false, ..c },
            ServerState::Listening => c,
        },
        Message::ServerError(_) => HostControl { recording: false, monitoring: false, ..c },
        _ => c,
    }
}

impl App {
    /// Reacts to a message: updates the interface and the shared controls.
    pub fn update(&mut self, control: &mut HostControl, message: Message)
        ensures
            *final(self) == app_after(*old(self), message),
            *final(control) == control_after(*old(self), *old(control), message),
            message matches Message::LevelUpdated(db) ==> final(self).level_db_bits == db,
            message matches Message::DeviceSelected(d) ==> final(self).selected_device == Some(d)
                && final(control).selected_device == Some(d),
            message matches Message::OutputDeviceSelected(d) ==> final(self).selected_output
                == Some(d) && final(control).output_device == Some(d),
    {
        match message {
            Message::DevicesLoaded(devs) => {
                if self.selected_device.is_none() {
                    self.selected_device = first_name(&devs);
                    set_device(control, clone_name(&self.selected_device));
                }
                self.devices = devs;
            },
            Message::DeviceSelected(dev) => {
                set_device(control, Some(dev.clone()));
                self.selected_device = Some(dev);
            },
            Message::OutputDevicesLoaded(devs) => {
                if self.selected_output.is_none() {
                    self.selected_output = first_name(&devs);
                    set_output_device(control, clone_name(&self.selected_output));
                }
                self.output_devices = devs;
            },
            Message::OutputDeviceSelected(dev) => {
                set_output_device(control, Some(dev.clone()));
                self.selected_output = Some(dev);
            },
            Message::MonitorToggled => {
                self.monitoring = !self.monitoring;
                set_monitoring(control, self.monitoring);
            },
            Message::PluginConnected(addr) => {
                self.server_state = ServerState::Connected(addr);
                self.error = None;
            },
            Message::PluginDisconnected => {
                set_recording(control, false);
                set_monitoring(control, false);
                self.monitoring = false;
                self.server_state = ServerState::Listening;
                self.level_db_bits = SILENT_LEVEL_DB_BITS;
            },
            Message::RecordToggled => {
                let next = match &self.server_state {
                    ServerState::Connected(addr) => {
                        set_recording(control, true);
                        ServerState::Recording(addr.clone())
                    },
                    ServerState::Recording(addr) => {
                        set_recording(control, false);
                        ServerState::Connected(addr.clone())
                    },
                    ServerState::Listening => ServerState::Listening,
                };
                self.server_state = next;
            },
            Message::LevelUpdated(db) => self.level_db_bits = db,
            Message::ServerError(e) => {
                self.error = Some(e);
                self.server_state = ServerState::Listening;
                set_recording(control, false);
                set_monitoring(control, false);
                self.monitoring = false;
            },
        }
    }
}

/// The level shown is the last one reported: a report sets it exactly, the
/// receiver leaving resets it to silence, and no other message moves it.
pub proof fn lemma_level_follows_reports(a: App, m: Message)
    ensures
        m matches Message::LevelUpdated(db) ==> app_after(a, m).level_db_bits == db,
        m is PluginDisconnected ==> app_after(a, m).level_db_bits == SILENT_LEVEL_DB_BITS,
        !(m is LevelUpdated) && !(m is PluginDisconnected) ==> app_after(a, m).level_db_bits
            == a.level_db_bits,
{
}

/// A fresh interface and fresh controls agree.
pub proof fn lemma_fresh_in_sync(a: App, c: HostControl)
    requires
        a.selected_device.is_none(),
        a.selected_output.is_none(),
        !a.monitoring,
        a.server_state == ServerState::Listening,
        c == (HostControl {
            recording: false,
            selected_device: None,
            output_device: None,
            monitoring: false,
        }),
    ensures
        in_sync(a, c),
{
}

/// Every message keeps the interface and the shared controls in agreement,
/// but one: a receiver connecting while a recording is shown, which shows a
/// connection and leaves the stream running.
pub proof fn lemma_update_keeps_sync(a: App, c: HostControl, m: Message)
    requires
        in_sync(a, c),
        !(m is PluginConnected && a.server_state is Recording),
    ensures
        in_sync(app_after(a, m), control_after(a, c, m)),
{
}

/// The status line under the device pickers.
pub open spec fn status_text(state: ServerState) -> Seq<char> {
    match state {
        ServerState::Listening => "Waiting for receiver connection..."@,
        ServerState::Connected(addr) => "Receiver connected \u{2014} "@ + addr@,
        ServerState::Recording(addr) => "\u{25cf} Streaming \u{2014} "@ + addr@,
    }
}

impl App {
    /// Whether a receiver is connected (recording or not).
    pub fn is_peer_connected(&self) -> (r: bool)
        ensures
            r == (self.server_state is Connected || self.server_state is Recording),
    {
        match &self.server_state {
            ServerState::Listening => false,
            _ => true,
        }
    }

    /// The status line under the device pickers.
    pub fn status_line(&self) -> (r: String)
        ensures
            r@ == status_text(self.server_state),
    {
        match &self.server_state {
            ServerState::Listening => String::from_str("Waiting for receiver connection..."),
            ServerState::Connected(addr) => {
                let mut out = String::from_str("Receiver connected \u{2014} ");
                out.append(addr.as_str());
                out
            },
            ServerState::Recording(addr) => {
                let mut out = String::from_str("\u{25cf} Streaming \u{2014} ");
                out.append(addr.as_str());
                out
            },
        }
    }

    /// The record button: its label, whether it shows danger (a recording
    /// runs), and whether it can be pressed (a receiver is connected).
    pub fn record_button(&self) -> (r: (&'static str, bool, bool))
        ensures
            r.0@ == (if self.server_state is Recording {
                "\u{23f9}  STOP"@
            } else {
                "\u{23fa}  REC"@
            }),
            r.1 == self.server_state is Recording,
            r.2 == (self.server_state is Connected || self.server_state is Recording),
    {
        let connected = self.is_peer_connected();
        match &self.server_state {
            ServerState::Recording(_) => ("\u{23f9}  STOP", true, connected),
            _ => ("\u{23fa}  REC", false, connected),
        }
    }

    /// The monitor button: its label, whether it shows danger (monitoring
    /// runs), and whether it can be pressed (a receiver is connected and an
    /// output device is selected).
    pub fn monitor_button(&self) -> (r: (&'static str, bool, bool))
        ensures
            r.0@ == (if self.monitoring {
                "\u{23f9}  Stop monitor"@
            } else {
                "\u{25b6}  Monitor DAW"@
            }),
            r.1 == self.monitoring,
            r.2 == ((self.server_state is Connected || self.server_state is Recording)
                && self.selected_output.is_some()),
    {
        let enabled = self.is_peer_connected() && self.selected_output.is_some();
        if self.monitoring {
            ("\u{23f9}  Stop monitor", true, enabled)
        } else {
            ("\u{25b6}  Monitor DAW", false, enabled)
        }
    }
}

} // verus!
