//! What the host's device database says of a USB serial device, and what of
//! it makes an SA430.

use crate::port::Port;
use crate::port::PortView;
use crate::port::USB_PRODUCT_ID;
use crate::port::USB_VENDOR_ID;
use vstd::prelude::*;
use vstd::string::StringExecFns;

verus! {

/// The properties of a device that matter here, each as the host reports
/// it, or `None` where the host reports none.
#[derive(Debug, Clone, PartialEq, Eq)]
pub struct DeviceProperties {
    /// The device node, such as `/dev/ttyUSB1`.
    pub devnode: Option<String>,
    /// The USB vendor id.
    pub vendor_id: Option<String>,
    /// The USB product id.
    pub product_id: Option<String>,
    /// The serial number.
    pub serial_number: Option<String>,
    /// The revision of the firmware.
    pub firmware_version: Option<String>,
}

/// Whether a property is there and reads `text`.
pub open spec fn reads(property: Option<String>, text: Seq<char>) -> bool {
    property matches Some(value) && value@ == text
}

impl DeviceProperties {
    /// Whether the properties are those of an SA430: its vendor id and its
    /// product id.
    pub open spec fn describes_sa430(&self) -> bool {
        reads(self.vendor_id, USB_VENDOR_ID@) && reads(self.product_id, USB_PRODUCT_ID@)
    }

    /// Whether the properties say all that a port is made of: the device
    /// node, the serial number and the firmware version.
    pub open spec fn names_port(&self) -> bool {
        self.devnode is Some && self.serial_number is Some && self.firmware_version is Some
    }

    /// The port that the properties describe.
    pub open spec fn port(&self) -> PortView
        recommends
            self.names_port(),
    {
        PortView {
            name: self.devnode->Some_0@,
            serial_number: self.serial_number->Some_0@,
            firmware_version: self.firmware_version->Some_0@,
        }
    }
}

/// Whether a property is there and reads `text`.
fn property_reads(property: &Option<String>, text: &str) -> (same: bool)
    ensures
        same == reads(*property, text@),
{
    match property {
        Some(value) => *value == String::from_str(text),
        None => false,
    }
}

/// Whether a device is an SA430.
pub fn is_sa430(device: &DeviceProperties) -> (found: bool)
    ensures
        found == device.describes_sa430(),
{
    property_reads(&device.vendor_id, USB_VENDOR_ID) && property_reads(
        &device.product_id,
        USB_PRODUCT_ID,
    )
}

/// Whether the properties say all that a port is made of.
pub fn names_port(device: &DeviceProperties) -> (complete: bool)
    ensures
        complete == device.names_port(),
{
    device.devnode.is_some() && device.serial_number.is_some() && device.firmware_version.is_some()
}

/// The port of a device whose properties say all that a port is made of.
pub fn port_from_device(device: &DeviceProperties) -> (port: Port)
    requires
        device.names_port(),
    ensures
        port@ == device.port(),
{
    Port::new(
        device.devnode.as_ref().unwrap().as_str(),
        device.serial_number.as_ref().unwrap().as_str(),
        device.firmware_version.as_ref().unwrap().as_str(),
    )
}

} // verus!
