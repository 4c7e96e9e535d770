//! The mark of the channels that this crate makes.

use vstd::prelude::*;

verus! {

/// Borne by the types of this crate that are channels, and by no other
/// type: the module is private, so the mark cannot be given outside.
pub trait Sealed {
}

} // verus!
