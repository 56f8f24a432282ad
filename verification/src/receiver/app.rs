//! The receiver's user interface state: what it shows and how it reacts to
//! the user and to the session.
use vstd::prelude::*;

use crate::common::protocol::DEFAULT_PORT;
use crate::common::text::{all_digits, is_all_digits, parse_u16, parse_u16_decimal};
use crate::receiver::net::{
    request_disconnect, set_return_device, set_return_enabled, ReceiverControl,
};

verus! {

/// Where the receiver stands with the host.
#[derive(Debug, Clone, Copy, PartialEq, Eq, Structural)]
pub enum ConnectionState {
    Disconnected,
    Connecting,
    Connected,
}

impl Default for ConnectionState {
    fn default() -> (s: ConnectionState)
        ensures
            s == ConnectionState::Disconnected,
    {
        ConnectionState::Disconnected
    }
}

/// The receiver's user interface state.
#[derive(Debug)]
pub struct App {
    pub host: String,
    pub port: String,
    pub connection_state: ConnectionState,
    pub latency_us: u32,
    pub error: Option<String>,
    pub output_devices: Vec<String>,
    pub selected_output: Option<String>,
    pub input_devices: Vec<String>,
    pub selected_input: Option<String>,
    pub return_enabled: bool,
}

/// What the user or the session reports to the interface.
#[derive(Debug, Clone, PartialEq, Eq)]
pub enum Message {
    HostChanged(String),
    PortChanged(String),
    ConnectPressed,
    DisconnectPressed,
    Connected,
    Disconnected,
    LatencyUpdated(u32),
    Error(String),
    OutputDevicesLoaded(Vec<String>),
    OutputDeviceSelected(String),
    InputDevicesLoaded(Vec<String>),
    InputDeviceSelected(String),
    ReturnToggled,
}

/// The first of a list of names, if any.
pub open spec fn first_of(devs: Seq<String>) -> Option<String> {
    if devs.len() > 0 {
        Some(devs[0])
    } else {
        None
    }
}

fn first_name(devs: &Vec<String>) -> (r: Option<String>)
    ensures
        r == first_of(devs@),
{
    if devs.len() > 0 {
        Some(devs[0].clone())
    } else {
        None
    }
}

fn clone_name(name: &Option<String>) -> (r: Option<String>)
    ensures
        r == *name,
{
    match name {
        Some(s) => Some(s.clone()),
        None => None,
    }
}

impl Default for App {
    fn default() -> (a: App)
        ensures
            a.host@ == "192.168.1."@,
            a.port@ == "7271"@,
            a.connection_state == ConnectionState::Disconnected,
            a.latency_us == 0,
            a.error.is_none(),
            a.output_devices@.len() == 0,
            a.selected_output.is_none(),
            a.input_devices@.len() == 0,
            a.selected_input.is_none(),
            !a.return_enabled,
    {
        App {
            host: String::from_str("192.168.1."),
            port: String::from_str("7271"),
            connection_state: ConnectionState::Disconnected,
            latency_us: 0,
            error: None,
            output_devices: Vec::new(),
            selected_output: None,
            input_devices: Vec::new(),
            selected_input: None,
            return_enabled: false,
        }
    }
}

/// The interface after `m`.
pub open spec fn app_after(a: App, m: Message) -> App {
    match m {
        Message::HostChanged(v) => App { host: v, ..a },
        Message::PortChanged(v) => if all_digits(v@) {
            App { port: v, ..a }
        } else {
            a
        },
        Message::OutputDevicesLoaded(devs) => App {
            selected_output: if a.selected_output.is_none() {
                first_of(devs@)
            } else {
                a.selected_output
            },
            output_devices: devs,
            ..a
        },
        Message::OutputDeviceSelected(d) => App { selected_output: Some(d), ..a },
        Message::InputDevicesLoaded(devs) => App {
            selected_input: if a.selected_input.is_none() {
                first_of(devs@)
            } else {
                a.selected_input
            },
            input_devices: devs,
            ..a
        },
        Message::InputDeviceSelected(d) => App { selected_input: Some(d), ..a },
        Message::ReturnToggled => App { return_enabled: !a.return_enabled, ..a },
        Message::ConnectPressed => App {
            connection_state: ConnectionState::Connecting,
            error: None,
            latency_us: 0,
            return_enabled: false,
            ..a
        },
        Message::DisconnectPressed => App {
            connection_state: ConnectionState::Disconnected,
            latency_us: 0,
            return_enabled: false,
            ..a
        },
        Message::Connected => App { connection_state: ConnectionState::Connected, ..a },
        Message::Disconnected => App {
            connection_state: ConnectionState::Disconnected,
            latency_us: 0,
            return_enabled: false,
            ..a
        },
        Message::LatencyUpdated(us) => App { latency_us: us, ..a },
        Message::Error(e) => App {
            error: Some(e),
            connection_state: ConnectionState::Disconnected,
            return_enabled: false,
            ..a
        },
    }
}

/// The shared controls after `m` in interface state `a`.
pub open spec fn control_after(a: App, c: ReceiverControl, m: Message) -> ReceiverControl {
    match m {
        Message::InputDevicesLoaded(devs) => if a.selected_input.is_none() {
            ReceiverControl { return_device: first_of(devs@), ..c }
        } else {
            c
        },
        Message::InputDeviceSelected(d) => ReceiverControl { return_device: Some(d), ..c },
        Message::ReturnToggled => ReceiverControl { return_enabled: !a.return_enabled, ..c },
        Message::ConnectPressed => ReceiverControl { return_enabled: false, ..c },
        Message::DisconnectPressed => ReceiverControl {
            disconnect_requested: true,
            return_enabled: false,
            ..c
        },
        _ => c,
    }
}

impl App {
    /// Reacts to a message: updates the interface and the shared controls.
    pub fn update(&mut self, control: &mut ReceiverControl, message: Message)
        ensures
            *final(self) == app_after(*old(self), message),
            *final(control) == control_after(*old(self), *old(control), message),
            message matches Message::OutputDeviceSelected(d) ==> final(self).selected_output
                == Some(d),
            message matches Message::InputDeviceSelected(d) ==> final(self).selected_input == Some(
                d,
            ) && final(control).return_device == Some(d),
            message matches Message::HostChanged(h) ==> final(self).host == h,
            message matches Message::LatencyUpdated(us) ==> final(self).latency_us == us,
    {
        match message {
            Message::HostChanged(v) => self.host = v,
            Message::PortChanged(v) => {
                if is_all_digits(v.as_str()) {
                    self.port = v;
                }
            },
            Message::OutputDevicesLoaded(devs) => {
                if self.selected_output.is_none() {
                    self.selected_output = first_name(&devs);
                }
                self.output_devices = devs;
            },
            Message::OutputDeviceSelected(d) => self.selected_output = Some(d),
            Message::InputDevicesLoaded(devs) => {
                if self.selected_input.is_none() {
                    self.selected_input = first_name(&devs);
                    set_return_device(control, clone_name(&self.selected_input));
                }
                self.input_devices = devs;
            },
            Message::InputDeviceSelected(d) => {
                set_return_device(control, Some(d.clone()));
                self.selected_input = Some(d);
            },
            Message::ReturnToggled => {
                self.return_enabled = !self.return_enabled;
                set_return_enabled(control, self.return_enabled);
            },
            Message::ConnectPressed => {
                self.connection_state = ConnectionState::Connecting;
                self.error = None;
                self.latency_us = 0;
                self.return_enabled = false;
                set_return_enabled(control, false);
            },
            Message::DisconnectPressed => {
                request_disconnect(control);
                self.connection_state = ConnectionState::Disconnected;
                self.latency_us = 0;
                self.return_enabled = false;
                set_return_enabled(control, false);
            },
            Message::Connected => self.connection_state = ConnectionState::Connected,
            Message::Disconnected => {
                self.connection_state = ConnectionState::Disconnected;
                self.latency_us = 0;
                self.return_enabled = false;
            },
            Message::LatencyUpdated(us) => self.latency_us = us,
            Message::Error(e) => {
                self.error = Some(e);
                self.connection_state = ConnectionState::Disconnected;
                self.return_enabled = false;
            },
        }
    }
}

/// The return stream's device is the same in the interface and in the shared
/// controls.
pub open spec fn return_device_in_sync(a: App, c: ReceiverControl) -> bool {
    c.return_device == a.selected_input
}

/// The return stream is on in both the interface and the shared controls, or
/// in neither.
pub open spec fn return_enabled_in_sync(a: App, c: ReceiverControl) -> bool {
    c.return_enabled == a.return_enabled
}

/// The output device that the user picks is the one selected, whatever was
/// selected before; and no message but loading or picking output devices
/// changes which output device is selected.
pub proof fn lemma_output_device_choice(a: App, m: Message)
    ensures
        m matches Message::OutputDeviceSelected(d) ==> app_after(a, m).selected_output == Some(d),
        !(m is OutputDeviceSelected) && !(m is OutputDevicesLoaded) ==> app_after(
            a,
            m,
        ).selected_output == a.selected_output,
        m is OutputDevicesLoaded && a.selected_output is Some ==> app_after(a, m).selected_output
            == a.selected_output,
{
}

/// Every message keeps the return stream's device the same in the interface
/// and in the shared controls.
pub proof fn lemma_update_keeps_return_device(a: App, c: ReceiverControl, m: Message)
    requires
        return_device_in_sync(a, c),
    ensures
        return_device_in_sync(app_after(a, m), control_after(a, c, m)),
{
}

/// Every message keeps the return stream on in both or in neither, but two:
/// the session ending (`Disconnected`) or failing (`Error`) turns it off in
/// the interface alone.
pub proof fn lemma_update_keeps_return_enabled(a: App, c: ReceiverControl, m: Message)
    requires
        return_enabled_in_sync(a, c),
        !(m is Disconnected),
        !(m is Error),
    ensures
        return_enabled_in_sync(app_after(a, m), control_after(a, c, m)),
{
}

/// The session that the interface asks for: none while disconnected; else
/// the host's address, the port (7271 when the text is no `u16`), and the
/// output device (empty when none is selected).
pub open spec fn session_target_of(a: App) -> Option<(Seq<char>, u16, Seq<char>)> {
    if a.connection_state == ConnectionState::Disconnected {
        None
    } else {
        Some(
            (
                a.host@,
                match parse_u16(a.port@) {
                    Some(p) => p,
                    None => DEFAULT_PORT,
                },
                match a.selected_output {
                    Some(d) => d@,
                    None => Seq::empty(),
                },
            ),
        )
    }
}

/// What the interface is told when a session ends: `Disconnected` after a
/// clean end, else the error's text.
pub fn session_end_message(outcome: Result<(), String>) -> (m: Message)
    ensures
        match outcome {
            Ok(()) => m == Message::Disconnected,
            Err(text) => m == Message::Error(text),
        },
{
    match outcome {
        Ok(()) => Message::Disconnected,
        Err(text) => Message::Error(text),
    }
}

impl App {
    /// The session that the interface asks for: none while disconnected; else
    /// the host's address, the port, and the output device.
    pub fn session_target(&self) -> (r: Option<(String, u16, String)>)
        ensures
            match session_target_of(*self) {
                None => r.is_none(),
                Some((h, p, d)) => r matches Some(t) && t.0@ == h && t.1 == p && t.2@ == d,
            },
    {
        if self.connection_state == ConnectionState::Disconnected {
            return None;
        }
        let port = match parse_u16_decimal(self.port.as_str()) {
            Some(p) => p,
            None => DEFAULT_PORT,
        };
        let device = match &self.selected_output {
            Some(d) => d.clone(),
            None => String::new(),
        };
        Some((self.host.clone(), port, device))
    }

    /// Whether the connect button can be pressed: disconnected, a host
    /// address typed, an output device selected.
    pub fn can_connect(&self) -> (r: bool)
        ensures
            r == (self.connection_state == ConnectionState::Disconnected && self.host@.len() > 0
                && self.selected_output.is_some()),
    {
        self.connection_state == ConnectionState::Disconnected && !self.host.as_str().is_empty()
            && self.selected_output.is_some()
    }

    /// The connect button: its label, whether it can be pressed, and whether
    /// it shows danger (it disconnects).
    pub fn connect_button(&self) -> (r: (&'static str, bool, bool))
        ensures
            self.connection_state == ConnectionState::Disconnected ==> r.0@ == "Connect"@ && r.1
                == (self.host@.len() > 0 && self.selected_output.is_some()) && !r.2,
            self.connection_state == ConnectionState::Connecting ==> r.0@ == "Connecting..."@
                && !r.1 && !r.2,
            self.connection_state == ConnectionState::Connected ==> r.0@ == "Disconnect"@ && r.1
                && r.2,
    {
        match self.connection_state {
            ConnectionState::Disconnected => ("Connect", self.can_connect(), false),
            ConnectionState::Connecting => ("Connecting...", false, false),
            ConnectionState::Connected => ("Disconnect", true, true),
        }
    }

    /// What a press of the connect button sends: a connection request when
    /// disconnected with a host typed and an output device selected, a
    /// disconnection when connected, and nothing otherwise (the button is
    /// disabled).
    pub fn connect_press(&self) -> (r: Option<Message>)
        ensures
            self.connection_state == ConnectionState::Disconnected ==> r == (if self.host@.len()
                > 0 && self.selected_output.is_some() {
                Some(Message::ConnectPressed)
            } else {
                None
            }),
            self.connection_state == ConnectionState::Connecting ==> r == None::<Message>,
            self.connection_state == ConnectionState::Connected ==> r == Some(
                Message::DisconnectPressed,
            ),
    {
        match self.connection_state {
            ConnectionState::Disconnected => {
                if self.can_connect() {
                    Some(Message::ConnectPressed)
                } else {
                    None
                }
            },
            ConnectionState::Connecting => None,
            ConnectionState::Connected => Some(Message::DisconnectPressed),
        }
    }

    /// The return stream button: its label, whether it shows danger (the
    /// return stream runs), and whether it can be pressed (connected, with an
    /// input device selected).
    pub fn return_button(&self) -> (r: (&'static str, bool, bool))
        ensures
            r.0@ == (if self.return_enabled {
                "\u{23f9}  Stop return"@
            } else {
                "\u{25b6}  Send DAW audio to host"@
            }),
            r.1 == self.return_enabled,
            r.2 == (self.connection_state == ConnectionState::Connected
                && self.selected_input.is_some()),
    {
        let enabled = self.connection_state == ConnectionState::Connected
            && self.selected_input.is_some();
        if self.return_enabled {
            ("\u{23f9}  Stop return", true, enabled)
        } else {
            ("\u{25b6}  Send DAW audio to host", false, enabled)
        }
    }
}

} // verus!
