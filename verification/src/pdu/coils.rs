//! A plain, open pairing of packed coil bytes with a coil count, for callers
//! that want to carry the two together without the accessors of
//! [`DataCoils`](crate::pdu::coil::DataCoils).

use vstd::prelude::*;

verus! {

/// Packed coil bytes and the number of coils they hold.
#[derive(Debug, PartialEq, Eq)]
pub struct Coils<'a> {
    pub data: &'a [u8],
    pub quantity: usize,
}

} // verus!
