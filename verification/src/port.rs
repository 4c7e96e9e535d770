//! The serial port that an instrument is connected to.
//!
//! An SA430 shows up as a USB serial port. What the host knows of it before
//! it opens the port is the port's name and two properties of the USB
//! device: its serial number and the revision of its firmware.

use vstd::prelude::*;
use vstd::string::StringExecFns;

verus! {

/// The USB vendor id of an SA430.
pub const USB_VENDOR_ID: &'static str = "2047";

/// The USB product id of an SA430.
pub const USB_PRODUCT_ID: &'static str = "0005";

/// The name of the property that holds a device's vendor id.
pub const VENDOR_ID_PROPERTY_KEY: &'static str = "ID_VENDOR_ID";

/// The name of the property that holds a device's product id.
pub const PRODUCT_ID_PROPERTY_KEY: &'static str = "ID_MODEL_ID";

/// The name of the property that holds a device's serial number.
pub const SERIAL_NUMBER_PROPERTY_KEY: &'static str = "ID_SERIAL_SHORT";

/// The name of the property that holds a device's firmware version.
pub const FIRMWARE_VERSION_PROPERTY_KEY: &'static str = "ID_REVISION";

/// What a port holds: three texts.
pub struct PortView {
    /// The port's name, such as `/dev/ttyUSB1`.
    pub name: Seq<char>,
    /// The device's serial number, such as `08FF41E50F8B3A34`.
    pub serial_number: Seq<char>,
    /// The version of the device's firmware, such as `0104`.
    pub firmware_version: Seq<char>,
}

/// A port with an SA430 connected to it.
#[derive(Debug, PartialEq, Eq)]
pub struct Port {
    name: String,
    serial_number: String,
    firmware_version: String,
}

impl View for Port {
    type V = PortView;

    closed spec fn view(&self) -> PortView {
        PortView {
            name: self.name@,
            serial_number: self.serial_number@,
            firmware_version: self.firmware_version@,
        }
    }
}

impl Clone for Port {
    fn clone(&self) -> (copy: Port)
        ensures
            copy@ == self@,
    {
        Port {
            name: self.name.clone(),
            serial_number: self.serial_number.clone(),
            firmware_version: self.firmware_version.clone(),
        }
    }
}

impl Port {
    /// A port with the given name, serial number and firmware version.
    pub fn new(port: &str, serial_number: &str, firmware_version: &str) -> (result: Port)
        ensures
            result@.name == port@,
            result@.serial_number == serial_number@,
            result@.firmware_version == firmware_version@,
    {
        Port {
            name: String::from_str(port),
            serial_number: String::from_str(serial_number),
            firmware_version: String::from_str(firmware_version),
        }
    }

    /// The port's name, such as `/dev/ttyUSB1`.
    pub fn name(&self) -> (name: &str)
        ensures
            name@ == self@.name,
    {
        self.name.as_str()
    }

    /// The device's serial number, such as `08FF41E50F8B3A34`.
    pub fn serial_number(&self) -> (serial_number: &str)
        ensures
            serial_number@ == self@.serial_number,
    {
        self.serial_number.as_str()
    }

    /// The version of the device's firmware, such as `0104`.
    pub fn firmware_version(&self) -> (firmware_version: &str)
        ensures
            firmware_version@ == self@.firmware_version,
    {
        self.firmware_version.as_str()
    }
}

/// The views of a list of ports, in order.
pub open spec fn views(ports: Seq<Port>) -> Seq<PortView> {
    ports.map_values(|port: Port| port@)
}

} // verus!
