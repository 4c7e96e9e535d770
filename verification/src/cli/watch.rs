//! The report of a watch: a line for each device that comes or goes.

use crate::channel::TransportError;
use crate::cli::scan::port_columns;
use crate::cli::scan::print_port_columns;
use crate::monitor::Event;
use crate::monitor::EventHandler;
use crate::monitor::Monitor;
use crate::port::Port;
use crate::port::PortView;
use vstd::prelude::*;
use vstd::string::StringExecFns;

verus! {

/// The line for something that happened to a port: what happened, a colon,
/// and the port's three columns.
pub open spec fn port_line(event_type: Seq<char>, port: PortView) -> Seq<char> {
    event_type + ": "@ + port_columns(port) + "\n"@
}

/// The line for an event: a device on a port is connected or disconnected.
pub open spec fn event_line(event: Event) -> Seq<char> {
    match event {
        Event::DeviceAdded(port) => port_line("Connected"@, port@),
        Event::DeviceRemoved(port) => port_line("Disconnected"@, port@),
    }
}

/// A handler that writes a line for each event to a text of its own.
pub struct PrinterEventHandler {
    output: String,
}

impl PrinterEventHandler {
    /// The text written so far.
    pub closed spec fn text(&self) -> Seq<char> {
        self.output@
    }

    /// A handler that appends its lines to `output`.
    pub fn new(output: String) -> (handler: PrinterEventHandler)
        ensures
            handler.text() == output@,
    {
        PrinterEventHandler { output }
    }

    /// The text written so far.
    pub fn output(&self) -> (output: &str)
        ensures
            output@ == self.text(),
    {
        self.output.as_str()
    }

    /// Gives up the handler for its text.
    pub fn into_output(self) -> (output: String)
        ensures
            output@ == self.text(),
    {
        self.output
    }
}

impl EventHandler for PrinterEventHandler {
    /// Appends the line for the event.
    fn handle(&mut self, event: &Event)
        ensures
            final(self).text() == old(self).text() + event_line(*event),
    {
        match event {
            Event::DeviceAdded(port) => print("Connected", port, &mut self.output),
            Event::DeviceRemoved(port) => print("Disconnected", port, &mut self.output),
        }
    }
}

/// Subscribes the handler to the monitor and starts the monitor. The call
/// returns when the monitor does, with what the monitor returns.
///
/// What a monitor does is the monitor's to say, so the call is stated over
/// what `subscribe` and `start` say of themselves. The monitor, as the call
/// finds it, is handed the handler, as the call finds it; the monitor that
/// `subscribe` leaves is started; the monitor that `start` leaves is the one
/// that the call leaves, the handler is left as the monitor leaves it, and
/// what `start` returns is what the call returns.
pub fn watch<'a, H: EventHandler, M: Monitor<'a, H>>(
    monitor: &mut M,
    handler: &'a mut H,
) -> (result: Result<(), TransportError>)
    ensures
        exists|subscribing: &mut M, subscribed: &'a mut H, starting: &mut M|
            {
                &&& *subscribing == *old(monitor)
                &&& *subscribed == *old(handler)
                &&& #[trigger] call_ensures(M::subscribe, (subscribing, subscribed), ())
                &&& *starting == *final(subscribing)
                &&& #[trigger] call_ensures(M::start, (starting,), result)
                &&& *final(monitor) == *final(starting)
                &&& *final(handler) == *final(subscribed)
            },
{
    monitor.subscribe(handler);
    monitor.start()
}

/// Appends the line for something that happened to a port.
pub fn print(event_type: &str, port: &Port, output: &mut String)
    ensures
        final(output)@ == old(output)@ + port_line(event_type@, port@),
{
    output.append(event_type);
    output.append(": ");
    print_port_columns(port, output);
    output.append("\n");
    assert(output@ =~= old(output)@ + port_line(event_type@, port@));
}

} // verus!
