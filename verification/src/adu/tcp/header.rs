//! The 7-byte MBAP header that frames every Modbus TCP frame: transaction
//! id, protocol id (always zero), length, unit id, all big-endian.

use crate::error::{spec_incomplete, DecodeError, EncodeError};
use crate::wire::{read_u16_be, spec_u16_be, spec_u16_from_be, write_u8, write_u16_be};
use vstd::prelude::*;

verus! {

/// The MBAP header.  `length` counts the unit id plus the PDU that follows,
/// so a well-formed frame keeps `length == pdu_byte_length + 1`.
#[derive(Debug, PartialEq, Eq, Clone, Copy, Structural)]
pub struct Header {
    pub transaction_id: u16,
    pub protocol_id: u16,
    pub length: u16,
    pub unit_id: u8,
}

/// The seven encoded bytes of a header.
pub open spec fn spec_header_encode(h: Header) -> Seq<u8> {
    spec_u16_be(h.transaction_id) + spec_u16_be(h.protocol_id) + spec_u16_be(h.length) + seq![
        h.unit_id,
    ]
}

/// The decoding of a byte buffer as a header: the seven fixed fields, or an
/// incomplete-buffer hint.  Past the length check no byte pattern fails.
pub open spec fn spec_header_decode(s: Seq<u8>) -> Result<Header, DecodeError> {
    if s.len() < 7 {
        Err(spec_incomplete(s.len() as int, 7))
    } else {
        Ok(
            Header {
                transaction_id: spec_u16_from_be(s[0], s[1]),
                protocol_id: spec_u16_from_be(s[2], s[3]),
                length: spec_u16_from_be(s[4], s[5]),
                unit_id: s[6],
            },
        )
    }
}

impl Header {
    /// A header with the given fields and the fixed protocol id zero.
    pub fn new(transaction_id: u16, length: u16, unit_id: u8) -> (r: Self)
        ensures
            r == (Header { transaction_id, protocol_id: 0, length, unit_id }),
    {
        Self { transaction_id, protocol_id: 0, length, unit_id }
    }

    /// The fixed wire size of a header: seven bytes.
    pub fn size() -> (n: usize)
        ensures
            n == 7,
    {
        7
    }

    /// Encodes this header into the front of `buf`; fails, leaving `buf`
    /// unchanged, exactly when `buf` is shorter than seven bytes.
    pub fn encode(&self, buf: &mut [u8]) -> (r: Result<usize, EncodeError>)
        ensures
            match r {
                Ok(n) => {
                    &&& n == 7
                    &&& n <= old(buf).len()
                    &&& final(buf)@ == spec_header_encode(*self) + old(buf)@.skip(7)
                },
                Err(e) => {
                    &&& e == EncodeError::InvalidBufferSize
                    &&& old(buf).len() < 7
                    &&& final(buf)@ == old(buf)@
                },
            },
    {
        if Self::size() > buf.len() {
            return Err(EncodeError::InvalidBufferSize);
        }
        write_u16_be(buf, 0, self.transaction_id);
        write_u16_be(buf, 2, self.protocol_id);
        write_u16_be(buf, 4, self.length);
        write_u8(buf, 6, self.unit_id);
        assert(buf@ =~= spec_header_encode(*self) + old(buf)@.skip(7));
        Ok(7)
    }

    /// Decodes the front of `buf` as a header, exactly as
    /// [`spec_header_decode`] reads it.
    pub fn decode(buf: &[u8]) -> (r: Result<Self, DecodeError>)
        ensures
            r == spec_header_decode(buf@),
    {
        if buf.len() < Self::size() {
            return Err(
                DecodeError::IncompleteBuffer { current_size: buf.len(), min_needed_size: 7 },
            );
        }
        Ok(
            Self {
                transaction_id: read_u16_be(buf, 0),
                protocol_id: read_u16_be(buf, 2),
                length: read_u16_be(buf, 4),
                unit_id: buf[6],
            },
        )
    }
}

/// Round trip: decoding an encoded header gives the header back, whatever
/// its fields hold.
pub proof fn lemma_header_round_trip(h: Header)
    ensures
        spec_header_decode(spec_header_encode(h)) == Ok::<Header, DecodeError>(h),
{
}

/// Incomplete-buffer monotonicity: any strict truncation of an encoded
/// header decodes to `IncompleteBuffer` asking for the full seven bytes.
pub proof fn lemma_header_truncated_decode(h: Header, k: int)
    requires
        0 <= k < 7,
    ensures
        spec_header_decode(spec_header_encode(h).take(k)) == Err::<Header, DecodeError>(
            spec_incomplete(k, 7),
        ),
{
}

} // verus!
