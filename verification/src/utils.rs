//! Names shared by the modules of the crate.

use vstd::prelude::*;

verus! {

/// The identifier that the transport gives a serial device when it is opened.
pub type UartID = u32;

/// The identifier a transmit handle carries until the transport has given one.
pub const UNASSIGNED: UartID = 0xffff_ffff;

} // verus!
