//! Connect and disconnect events.
//!
//! A monitor watches the host for SA430 devices that come and go and tells
//! the handler subscribed to it. Monitors are specific to an operating
//! system; this module holds what they share: the events, the two
//! interfaces, and the rule that turns what the host reports into an event.

use crate::channel::TransportError;
use crate::port::Port;
use vstd::prelude::*;

verus! {

/// Something that happened to an SA430 device.
#[derive(Debug, Clone, PartialEq, Eq)]
pub enum Event {
    /// A device was connected to the port.
    DeviceAdded(Port),
    /// The device was disconnected from the port.
    DeviceRemoved(Port),
}

/// What the host reports of a device.
#[derive(Debug, Clone, Copy, PartialEq, Eq, Structural)]
pub enum Action {
    /// The device was added.
    Add,
    /// The device was removed.
    Remove,
    /// Anything else: a change, a driver bound or unbound.
    Other,
}

/// Whoever wants to know of events.
pub trait EventHandler {
    /// Takes note of an event.
    fn handle(&mut self, event: &Event);
}

/// A source of events.
pub trait Monitor<'a, H: EventHandler> {
    /// Adds a handler to those that are told of events.
    fn subscribe(&mut self, handler: &'a mut H);

    /// Watches for events and tells the handlers of each. Returns when
    /// watching fails, or when the monitor has nothing more to watch.
    fn start(&mut self) -> Result<(), TransportError>;
}

/// The event that an action on a port amounts to: an added device is
/// connected, a removed one disconnected, and nothing else is an event.
pub fn event_for(action: Action, port: Port) -> (event: Option<Event>)
    ensures
        event == match action {
            Action::Add => Some(Event::DeviceAdded(port)),
            Action::Remove => Some(Event::DeviceRemoved(port)),
            Action::Other => None,
        },
{
    match action {
        Action::Add => Some(Event::DeviceAdded(port)),
        Action::Remove => Some(Event::DeviceRemoved(port)),
        Action::Other => None,
    }
}

} // verus!
