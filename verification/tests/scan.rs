use sa430::cli::scan::print_port_information;
use sa430::cli::scan::print_ports;
use sa430::cli::scan::scan;
use sa430::port::Port;
use sa430::scanner::fixtures::FakeScanner;
use sa430::scanner::Scanner;

#[test]
fn given_a_device_is_connected_when_scan_then_print_port_information() {
    let writer = &mut String::new();
    let ports = vec![
        Port::new("/dev/ttyUSB1", "08FF41E50F8B3A34", "0104"),
        Port::new("/dev/ttyUSB2", "08FF41E50F8B3A35", "0104"),
        Port::new("/dev/ttyUSB3", "08FF41E50F8B3A36", "0102"),
    ];
    let scanner = FakeScanner::new(ports);

    scan(&scanner, writer);

    let output = writer.clone();
    assert_eq!(
        output,
        "port           | serial number    | version\n\
         ---------------|------------------|--------\n\
         /dev/ttyUSB1   | 08FF41E50F8B3A34 | 0104\n\
         /dev/ttyUSB2   | 08FF41E50F8B3A35 | 0104\n\
         /dev/ttyUSB3   | 08FF41E50F8B3A36 | 0102\n\
         ---------------|------------------|--------\n"
    );
}

#[test]
fn given_no_device_is_connected_when_scan_then_print_no_port_information() {
    let writer = &mut String::new();
    let ports = vec![];
    let scanner = FakeScanner::new(ports);

    scan(&scanner, writer);

    let output = writer.clone();
    assert_eq!(
        output,
        "port           | serial number    | version\n\
         ---------------|------------------|--------\n\
         ---------------|------------------|--------\n"
    );
}

struct ListScanner {
    devices: Vec<Port>,
}

impl Scanner for ListScanner {
    fn scan(&self) -> Vec<Port> {
        self.devices.clone()
    }
}

#[test]
fn scan_given_a_device_is_connected_when_scan_then_print_device_information() {
    let writer = &mut String::new();
    let devices = vec![
        Port::new("/dev/ttyUSB1", "08FF41E50F8B3A34", "0104"),
        Port::new("/dev/ttyUSB2", "08FF41E50F8B3A35", "0104"),
        Port::new("/dev/ttyUSB3", "08FF41E50F8B3A36", "0102"),
    ];
    let scanner = ListScanner { devices };

    scan(&scanner, writer);

    let output = writer.clone();
    assert_eq!(
        output,
        "port           | serial number    | version\n\
         ---------------|------------------|--------\n\
         /dev/ttyUSB1   | 08FF41E50F8B3A34 | 0104\n\
         /dev/ttyUSB2   | 08FF41E50F8B3A35 | 0104\n\
         /dev/ttyUSB3   | 08FF41E50F8B3A36 | 0102\n\
         ---------------|------------------|--------\n"
    );
}

#[test]
fn scan_given_no_device_is_connected_when_scan_then_print_no_device_information() {
    let writer = &mut String::new();
    let devices = vec![];
    let scanner = ListScanner { devices };

    scan(&scanner, writer);

    let output = writer.clone();
    assert_eq!(
        output,
        "port           | serial number    | version\n\
         ---------------|------------------|--------\n\
         ---------------|------------------|--------\n"
    );
}

#[test]
fn a_port_knows_its_name_serial_number_and_firmware_version() {
    let port = Port::new("/dev/ttyUSB0", "08FF41E50F8B3A34", "0104");
    assert_eq!(port.name(), "/dev/ttyUSB0");
    assert_eq!(port.serial_number(), "08FF41E50F8B3A34");
    assert_eq!(port.firmware_version(), "0104");
    assert_eq!(port.clone(), port);
    assert_ne!(port, Port::new("/dev/ttyUSB0", "08FF41E50F8B3A34", "0105"));
}

#[test]
fn a_fake_scanner_finds_the_same_ports_at_every_scan() {
    let ports = vec![
        Port::new("/dev/ttyUSB1", "08FF41E50F8B3A34", "0104"),
        Port::new("/dev/ttyUSB2", "08FF41E50F8B3A35", "0104"),
    ];
    let scanner = FakeScanner::new(ports.clone());
    assert_eq!(scanner.scan(), ports);
    assert_eq!(scanner.scan(), ports);
    assert_eq!(FakeScanner::new_empty().scan(), vec![]);
}

#[test]
fn a_row_pads_each_field_to_its_column() {
    let mut row = String::new();
    print_port_information(&Port::new("COM3", "1", "2"), &mut row);
    assert_eq!(row, "COM3           | 1                | 2   \n");
}

#[test]
fn a_field_wider_than_its_column_is_left_as_it_is() {
    let mut row = String::from("> ");
    print_port_information(
        &Port::new("/dev/serial/by-id/usb-Texas_Instruments", "08FF41E50F8B3A34AB", "01.04"),
        &mut row,
    );
    assert_eq!(
        row,
        "> /dev/serial/by-id/usb-Texas_Instruments | 08FF41E50F8B3A34AB | 01.04\n"
    );
}

#[test]
fn columns_are_counted_in_characters() {
    let mut row = String::new();
    print_port_information(&Port::new("/dev/ttyÜSB1", "größe", "µ"), &mut row);
    assert_eq!(row, "/dev/ttyÜSB1   | größe            | µ   \n");
}

#[test]
fn a_table_is_appended_to_what_the_writer_holds() {
    let mut writer = String::from("found:\n");
    print_ports(&vec![Port::new("/dev/ttyUSB1", "08FF41E50F8B3A34", "0104")], &mut writer);
    assert_eq!(
        writer,
        "found:\n\
         port           | serial number    | version\n\
         ---------------|------------------|--------\n\
         /dev/ttyUSB1   | 08FF41E50F8B3A34 | 0104\n\
         ---------------|------------------|--------\n"
    );
}
