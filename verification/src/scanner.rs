//! Finding the SA430 devices connected to the host.
//!
//! A scanner looks for USB devices with the vendor and product id of an
//! SA430 and returns the ports they are connected to. Scanners are specific
//! to an operating system; [`fixtures::FakeScanner`] is one for tests.

use crate::port::Port;
use vstd::prelude::*;

pub mod fixtures;

verus! {

/// Finds the SA430 devices connected to the host.
pub trait Scanner {
    /// The ports that SA430 devices are connected to at the time of the
    /// call.
    fn scan(&self) -> Vec<Port>;
}

} // verus!
