//! Protocol Data Units: the function-code-specific payloads of Modbus frames.

pub mod coil;
pub mod coils;
pub mod exception_response;
pub mod function_code;
pub mod request;
pub mod response;
pub mod word;

pub use coil::DataCoils;
pub use word::DataWords;

use vstd::prelude::*;

verus! {

/// A Modbus data address.
pub type Address = u16;

/// A Modbus element count.
pub type Quantity = u16;

/// The coil a single-coil wire word names: `0x0000` is off, `0xff00` is on,
/// anything else is no coil at all.
pub open spec fn spec_u16_coil_to_coil(word: u16) -> Option<bool> {
    if word == 0x0000 {
        Some(false)
    } else if word == 0xff00 {
        Some(true)
    } else {
        None
    }
}

/// The single-coil wire word of a coil: `0xff00` for on, `0x0000` for off.
pub open spec fn spec_coil_to_u16_coil(coil: bool) -> u16 {
    if coil {
        0xff00
    } else {
        0x0000
    }
}

/// Reads a coil from its wire word; only `0x0000` and `0xff00` are coils.
pub fn u16_coil_to_coil(u16_coil: u16) -> (r: Option<bool>)
    ensures
        r == spec_u16_coil_to_coil(u16_coil),
{
    match u16_coil {
        0x0000 => Some(false),
        0xff00 => Some(true),
        _ => None,
    }
}

/// Writes a coil as its wire word.
pub fn coil_to_u16_coil(coil: bool) -> (r: u16)
    ensures
        r == spec_coil_to_u16_coil(coil),
{
    if coil {
        0xff00
    } else {
        0x0000
    }
}

} // verus!
