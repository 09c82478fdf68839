//! A Modbus TCP response frame: an MBAP header composed with either a
//! response PDU or a device-reported exception response.

use crate::adu::tcp::header::{spec_header_decode, spec_header_encode, Header};
use crate::error::{spec_incomplete, DecodeError, EncodeError};
use crate::pdu::exception_response::{
    spec_exception_response_encode, ExceptionResponse, SpecExceptionResponse,
};
use crate::pdu::response::{
    spec_response_decode, spec_response_encode, spec_response_len, Response as PduResponse,
    SpecResponse as SpecPduResponse,
};
use vstd::prelude::*;

verus! {

/// Ghost image of a response frame: the header, and either a response PDU
/// or the exception the device reported instead.
pub struct SpecResponse {
    pub header: Header,
    pub pdu: Result<SpecPduResponse, SpecExceptionResponse>,
}

/// The ghost image of a response-or-exception payload.
pub open spec fn spec_pdu_result_view<'a>(
    p: Result<PduResponse<'a>, ExceptionResponse>,
) -> Result<SpecPduResponse, SpecExceptionResponse> {
    match p {
        Ok(r) => Ok(r@),
        Err(e) => Err(e@),
    }
}

/// A response frame; its header's `length` is kept at the PDU length plus
/// one on every construction path.
#[derive(Debug, PartialEq, Eq)]
pub struct Response<'a> {
    header: Header,
    pdu: Result<PduResponse<'a>, ExceptionResponse>,
}

impl View for Response<'_> {
    type V = SpecResponse;

    closed spec fn view(&self) -> SpecResponse {
        SpecResponse { header: self.header, pdu: spec_pdu_result_view(self.pdu) }
    }
}

/// The byte length of a response-or-exception payload.
pub open spec fn spec_adu_response_pdu_len(
    pdu: Result<SpecPduResponse, SpecExceptionResponse>,
) -> int {
    match pdu {
        Ok(p) => spec_response_len(p),
        Err(_) => 2,
    }
}

/// The exact byte length of an encoded response frame.
pub open spec fn spec_adu_response_len(r: SpecResponse) -> int {
    7 + spec_adu_response_pdu_len(r.pdu)
}

/// The encoded bytes of a response frame: the header, then the response or
/// exception PDU.
pub open spec fn spec_adu_response_encode(r: SpecResponse) -> Seq<u8> {
    spec_header_encode(r.header) + match r.pdu {
        Ok(p) => spec_response_encode(p),
        Err(e) => spec_exception_response_encode(e),
    }
}

/// The decoding of a byte buffer as a response frame: the header first,
/// then — once the header's length fits the bytes that arrived — the PDU,
/// any PDU incompleteness restated to count the header bytes already read.
pub open spec fn spec_adu_response_decode(s: Seq<u8>) -> Result<SpecResponse, DecodeError> {
    match spec_header_decode(s) {
        Err(e) => Err(e),
        Ok(header) => {
            let rest = s.skip(7);
            if header.length as int > rest.len() + 1 {
                Err(spec_incomplete(s.len() as int, header.length as int + 6))
            } else {
                match spec_response_decode(rest) {
                    Ok(p) => Ok(SpecResponse { header, pdu: Ok(p) }),
                    Err(DecodeError::IncompleteBuffer { current_size, min_needed_size }) => Err(
                        spec_incomplete(current_size + 7, min_needed_size + 7),
                    ),
                    Err(e) => Err(e),
                }
            }
        },
    }
}

impl<'a> Response<'a> {
    /// Frames a response or exception PDU: the header's length field is the
    /// PDU length plus one, the one counting the unit id.
    pub fn new(
        transaction_id: u16,
        unit_id: u8,
        pdu_res: Result<PduResponse<'a>, ExceptionResponse>,
    ) -> (r: Self)
        requires
            spec_adu_response_pdu_len(spec_pdu_result_view(pdu_res)) + 1 <= 0xffff,
        ensures
            r@.header == (Header {
                transaction_id,
                protocol_id: 0,
                length: (spec_adu_response_pdu_len(spec_pdu_result_view(pdu_res)) + 1) as u16,
                unit_id,
            }),
            r@.pdu == spec_pdu_result_view(pdu_res),
    {
        let pdu_len = match &pdu_res {
            Ok(pdu) => pdu.pdu_len(),
            Err(pdu) => pdu.pdu_len(),
        };
        Self { header: Header::new(transaction_id, (pdu_len + 1) as u16, unit_id), pdu: pdu_res }
    }

    /// The frame's header.
    pub fn header(&self) -> (h: &Header)
        ensures
            *h == self@.header,
    {
        &self.header
    }

    /// The frame's payload: a response PDU, or the device's exception.
    pub fn pdu(&self) -> (p: &Result<PduResponse<'a>, ExceptionResponse>)
        ensures
            spec_pdu_result_view(*p) == self@.pdu,
    {
        &self.pdu
    }

    /// The byte length of the PDU alone.
    pub fn pdu_len(&self) -> (n: usize)
        requires
            spec_adu_response_pdu_len(self@.pdu) <= usize::MAX,
        ensures
            n == spec_adu_response_pdu_len(self@.pdu),
    {
        match &self.pdu {
            Ok(pdu) => pdu.pdu_len(),
            Err(pdu) => pdu.pdu_len(),
        }
    }

    /// The byte length of the whole frame: the PDU plus the seven header
    /// bytes.
    pub fn adu_len(&self) -> (n: usize)
        requires
            spec_adu_response_len(self@) <= usize::MAX,
        ensures
            n == spec_adu_response_len(self@),
    {
        self.pdu_len() + Header::size()
    }

    /// Encodes the whole frame into the front of `buf`; fails, leaving
    /// `buf` unchanged, exactly when `buf` is shorter than `adu_len`.
    pub fn encode(&self, buf: &mut [u8]) -> (r: Result<usize, EncodeError>)
        requires
            spec_adu_response_len(self@) <= usize::MAX,
        ensures
            match r {
                Ok(n) => {
                    &&& n == spec_adu_response_len(self@)
                    &&& n <= old(buf).len()
                    &&& final(buf)@ == spec_adu_response_encode(self@) + old(buf)@.skip(n as int)
                },
                Err(e) => {
                    &&& e == EncodeError::InvalidBufferSize
                    &&& old(buf).len() < spec_adu_response_len(self@)
                    &&& final(buf)@ == old(buf)@
                },
            },
    {
        let n = self.adu_len();
        if n > buf.len() {
            return Err(EncodeError::InvalidBufferSize);
        }
        let (header_buf, pdu_buf) = buf.split_at_mut(Header::size());
        let header_size = match self.header.encode(header_buf) {
            Ok(m) => m,
            Err(e) => {
                return Err(e);
            },
        };
        let pdu_size = match &self.pdu {
            Ok(pdu) => match pdu.encode(pdu_buf) {
                Ok(m) => m,
                Err(e) => {
                    return Err(e);
                },
            },
            Err(pdu) => match pdu.encode(pdu_buf) {
                Ok(m) => m,
                Err(e) => {
                    return Err(e);
                },
            },
        };
        assert(buf@ =~= spec_adu_response_encode(self@) + old(buf)@.skip(n as int));
        Ok(header_size + pdu_size)
    }

    /// Decodes the front of `buf` as a response frame, exactly as
    /// [`spec_adu_response_decode`] reads it.
    pub fn decode(buf: &'a [u8]) -> (r: Result<Response<'a>, DecodeError>)
        ensures
            match r {
                Ok(res) => spec_adu_response_decode(buf@) == Ok::<SpecResponse, DecodeError>(res@),
                Err(e) => spec_adu_response_decode(buf@) == Err::<SpecResponse, DecodeError>(e),
            },
    {
        if buf.len() < Header::size() {
            return Err(
                DecodeError::IncompleteBuffer { current_size: buf.len(), min_needed_size: 7 },
            );
        }
        let (header_buf, pdu_buf) = buf.split_at(Header::size());
        assert(pdu_buf@ =~= buf@.skip(7));
        let header = match Header::decode(header_buf) {
            Ok(h) => h,
            Err(e) => {
                return Err(e);
            },
        };
        assert(spec_header_decode(buf@) == Ok::<Header, DecodeError>(header));
        if header.length as usize > pdu_buf.len() + 1 {
            return Err(
                DecodeError::IncompleteBuffer {
                    current_size: buf.len(),
                    min_needed_size: header.length as usize + Header::size() - 1,
                },
            );
        }
        match PduResponse::decode(pdu_buf) {
            Ok(pdu) => Ok(Self { header, pdu: Ok(pdu) }),
            Err(DecodeError::IncompleteBuffer { current_size, min_needed_size }) => {
                proof {
                    crate::pdu::response::lemma_response_decode_error_bounds(pdu_buf@);
                }
                Err(
                    DecodeError::IncompleteBuffer {
                        current_size: current_size + 7,
                        min_needed_size: min_needed_size + 7,
                    },
                )
            },
            Err(e) => Err(e),
        }
    }
}

impl SpecResponse {
    /// Whether a response frame is constructible by the codec itself: the
    /// header's length counts the PDU plus the unit id, and the payload is
    /// itself constructible.
    pub open spec fn valid(self) -> bool {
        &&& self.header.length == spec_adu_response_pdu_len(self.pdu) + 1
        &&& match self.pdu {
            Ok(p) => p.valid(),
            Err(e) => crate::pdu::function_code::spec_function_code_canonical(e.function_code),
        }
    }
}

/// Round trip: decoding the encoding of a valid response frame gives the
/// frame back when it carries a response, and the matching
/// `ModbusExceptionCode` error when it carries a device exception — the
/// decoder reports device exceptions as errors rather than as frames.
pub proof fn lemma_adu_response_round_trip(r: SpecResponse)
    requires
        r.valid(),
    ensures
        r.pdu is Ok ==> spec_adu_response_decode(spec_adu_response_encode(r)) == Ok::<
            SpecResponse,
            DecodeError,
        >(r),
        r.pdu matches Err(e) ==> spec_adu_response_decode(spec_adu_response_encode(r)) == Err::<
            SpecResponse,
            DecodeError,
        >(DecodeError::ModbusExceptionCode(e.function_code, Ok(e.exception_code))),
{
    let enc = spec_adu_response_encode(r);
    assert(enc.skip(7) =~= match r.pdu {
        Ok(p) => spec_response_encode(p),
        Err(e) => spec_exception_response_encode(e),
    });
    assert(spec_header_decode(enc) == Ok::<Header, DecodeError>(r.header));
    match r.pdu {
        Ok(p) => crate::pdu::response::lemma_response_round_trip(p),
        Err(e) => crate::pdu::exception_response::lemma_exception_response_decode(e),
    }
}

/// Incomplete-buffer monotonicity: any strict truncation of an encoded
/// response frame whose header length is kept consistent decodes to
/// `IncompleteBuffer` whose current size is the truncated length and whose
/// needed size never overshoots the full frame.
pub proof fn lemma_adu_response_truncated_decode(r: SpecResponse, k: int)
    requires
        r.header.length == spec_adu_response_pdu_len(r.pdu) + 1,
        0 <= k < spec_adu_response_len(r),
    ensures
        spec_adu_response_decode(spec_adu_response_encode(r).take(k)) matches Err(
            DecodeError::IncompleteBuffer { current_size, min_needed_size },
        ) && current_size == k && k < min_needed_size <= spec_adu_response_len(r),
{
    let enc = spec_adu_response_encode(r);
    let t = enc.take(k);
    if k >= 7 {
        assert(spec_header_decode(t) == Ok::<Header, DecodeError>(r.header));
    }
}

} // verus!
