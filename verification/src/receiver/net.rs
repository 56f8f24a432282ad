//! The receiver's shared controls: what the user interface tells the running
//! session.
use vstd::prelude::*;

verus! {

/// What the user interface tells the running session.
#[derive(Debug, Clone, PartialEq, Eq)]
pub struct ReceiverControl {
    /// The user asked to end the session.
    pub disconnect_requested: bool,
    /// The device whose audio goes back to the host.
    pub return_device: Option<String>,
    /// Whether audio goes back to the host.
    pub return_enabled: bool,
}

impl ReceiverControl {
    /// No request, no return stream.
    pub fn new() -> (c: ReceiverControl)
        ensures
            c == (ReceiverControl {
                disconnect_requested: false,
                return_device: None,
                return_enabled: false,
            }),
    {
        ReceiverControl { disconnect_requested: false, return_device: None, return_enabled: false }
    }
}

/// Asks the running session to send `Disconnect` and end.
pub fn request_disconnect(control: &mut ReceiverControl)
    ensures
        *final(control) == (ReceiverControl { disconnect_requested: true, ..*old(control) }),
{
    control.disconnect_requested = true;
}

/// A new session starts with no request pending.
pub fn clear_disconnect_request(control: &mut ReceiverControl)
    ensures
        *final(control) == (ReceiverControl { disconnect_requested: false, ..*old(control) }),
{
    control.disconnect_requested = false;
}

/// Takes the pending request, if any: reports it once and clears it.
pub fn take_disconnect_request(control: &mut ReceiverControl) -> (requested: bool)
    ensures
        requested == old(control).disconnect_requested,
        *final(control) == (ReceiverControl { disconnect_requested: false, ..*old(control) }),
{
    let requested = control.disconnect_requested;
    control.disconnect_requested = false;
    requested
}

/// Selects the device whose audio goes back to the host.
pub fn set_return_device(control: &mut ReceiverControl, dev: Option<String>)
    ensures
        *final(control) == (ReceiverControl { return_device: dev, ..*old(control) }),
{
    control.return_device = dev;
}

/// Starts or stops sending audio back to the host.
pub fn set_return_enabled(control: &mut ReceiverControl, val: bool)
    ensures
        *final(control) == (ReceiverControl { return_enabled: val, ..*old(control) }),
{
    control.return_enabled = val;
}

} // verus!
