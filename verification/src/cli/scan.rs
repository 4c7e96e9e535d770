//! The report of a scan: a table of the ports found.

use crate::port::views;
use crate::port::Port;
use crate::port::PortView;
use crate::scanner::Scanner;
use crate::text::padded;
use crate::text::push_padded;
use vstd::prelude::*;
use vstd::string::StringExecFns;

verus! {

/// The width of the column that holds a port's name.
pub const PORT_COLUMN_WIDTH: usize = 14;

/// The width of the column that holds a serial number.
pub const SERIAL_NUMBER_COLUMN_WIDTH: usize = 16;

/// The width of the column that holds a firmware version.
pub const VERSION_COLUMN_WIDTH: usize = 4;

/// The three columns of a port: name, serial number and firmware version,
/// each padded to its column's width, with bars between them.
pub open spec fn port_columns(port: PortView) -> Seq<char> {
    padded(port.name, PORT_COLUMN_WIDTH as nat) + " | "@ + padded(
        port.serial_number,
        SERIAL_NUMBER_COLUMN_WIDTH as nat,
    ) + " | "@ + padded(port.firmware_version, VERSION_COLUMN_WIDTH as nat)
}

/// The table's row for a port.
pub open spec fn port_row(port: PortView) -> Seq<char> {
    port_columns(port) + "\n"@
}

/// The table's rows for a list of ports, in order.
pub open spec fn port_rows(ports: Seq<PortView>) -> Seq<char>
    decreases ports.len(),
{
    if ports.len() == 0 {
        Seq::<char>::empty()
    } else {
        port_rows(ports.drop_last()) + port_row(ports.last())
    }
}

/// The table of a list of ports: the column titles, a rule, a row for each
/// port, and a rule.
pub open spec fn port_table(ports: Seq<PortView>) -> Seq<char> {
    "port           | serial number    | version\n"@
        + "---------------|------------------|--------\n"@ + port_rows(ports)
        + "---------------|------------------|--------\n"@
}

/// Appends the three columns of a port.
pub fn print_port_columns(port: &Port, writer: &mut String)
    ensures
        final(writer)@ == old(writer)@ + port_columns(port@),
{
    push_padded(writer, port.name(), PORT_COLUMN_WIDTH);
    writer.append(" | ");
    push_padded(writer, port.serial_number(), SERIAL_NUMBER_COLUMN_WIDTH);
    writer.append(" | ");
    push_padded(writer, port.firmware_version(), VERSION_COLUMN_WIDTH);
    assert(writer@ =~= old(writer)@ + port_columns(port@));
}

/// Appends the table's row for a port.
pub fn print_port_information(port: &Port, writer: &mut String)
    ensures
        final(writer)@ == old(writer)@ + port_row(port@),
{
    print_port_columns(port, writer);
    writer.append("\n");
    assert(writer@ =~= old(writer)@ + port_row(port@));
}

/// Appends the table of a list of ports.
pub fn print_ports(ports: &Vec<Port>, writer: &mut String)
    ensures
        final(writer)@ == old(writer)@ + port_table(views(ports@)),
{
    writer.append("port           | serial number    | version\n");
    writer.append("---------------|------------------|--------\n");
    let ghost head = writer@;
    let mut i: usize = 0;
    assert(views(ports@).take(0) =~= Seq::<PortView>::empty());
    assert(head + port_rows(Seq::<PortView>::empty()) =~= head);
    while i < ports.len()
        invariant
            i <= ports@.len(),
            writer@ == head + port_rows(views(ports@).take(i as int)),
        decreases ports@.len() - i,
    {
        print_port_information(&ports[i], writer);
        proof {
            let before = views(ports@).take(i as int);
            let after = views(ports@).take(i + 1);
            assert(after.drop_last() =~= before);
            assert(after.last() == ports@[i as int]@);
            assert(head + port_rows(before) + port_row(ports@[i as int]@) =~= head + port_rows(
                after,
            ));
        }
        i += 1;
    }
    assert(views(ports@).take(i as int) =~= views(ports@));
    writer.append("---------------|------------------|--------\n");
    assert(writer@ =~= old(writer)@ + port_table(views(ports@)));
}

/// Scans for devices and appends the table of the ports found. What is
/// found is the scanner's to say: the table is that of a list of ports that
/// `scan` returns for this scanner, by what `scan` says of itself.
pub fn scan<S: Scanner>(scanner: &S, writer: &mut String)
    ensures
        exists|found: Vec<Port>| #[trigger]
            call_ensures(S::scan, (scanner,), found) && final(writer)@ == old(writer)@
                + port_table(views(found@)),
{
    let ports = scanner.scan();
    print_ports(&ports, writer);
}

} // verus!
