//! A Modbus TCP request frame: an MBAP header composed with a request PDU.

use crate::adu::tcp::header::{spec_header_encode, Header};
use crate::error::EncodeError;
use crate::pdu::request::{
    spec_request_encode, spec_request_len, Request as PduRequest, SpecRequest as SpecPduRequest,
};
use vstd::prelude::*;

verus! {

/// Ghost image of a request frame.
pub struct SpecRequest {
    pub header: Header,
    pub pdu: SpecPduRequest,
}

/// A request frame; its header's `length` is kept at the PDU length plus
/// one on every construction path.
#[derive(Debug, PartialEq, Eq)]
pub struct Request<'a> {
    header: Header,
    pdu: PduRequest<'a>,
}

impl View for Request<'_> {
    type V = SpecRequest;

    closed spec fn view(&self) -> SpecRequest {
        SpecRequest { header: self.header, pdu: self.pdu@ }
    }
}

/// The exact byte length of an encoded request frame: the header and the
/// PDU.
pub open spec fn spec_adu_request_len(r: SpecRequest) -> int {
    7 + spec_request_len(r.pdu)
}

/// The encoded bytes of a request frame: the header, then the PDU.
pub open spec fn spec_adu_request_encode(r: SpecRequest) -> Seq<u8> {
    spec_header_encode(r.header) + spec_request_encode(r.pdu)
}

impl<'a> Request<'a> {
    /// Frames a request PDU: the header's length field is the PDU length
    /// plus one, the one counting the unit id.
    pub fn new(transaction_id: u16, unit_id: u8, pdu_req: PduRequest<'a>) -> (r: Self)
        requires
            spec_request_len(pdu_req@) + 1 <= 0xffff,
        ensures
            r@.header == (Header {
                transaction_id,
                protocol_id: 0,
                length: (spec_request_len(pdu_req@) + 1) as u16,
                unit_id,
            }),
            r@.pdu == pdu_req@,
    {
        let pdu_len = pdu_req.pdu_len();
        Self { header: Header::new(transaction_id, (pdu_len + 1) as u16, unit_id), pdu: pdu_req }
    }

    /// The frame's header.
    pub fn header(&self) -> (h: &Header)
        ensures
            *h == self@.header,
    {
        &self.header
    }

    /// The frame's PDU.
    pub fn pdu(&self) -> (p: &PduRequest<'a>)
        ensures
            p@ == self@.pdu,
    {
        &self.pdu
    }

    /// The byte length of the PDU alone.
    pub fn pdu_len(&self) -> (n: usize)
        requires
            spec_request_len(self@.pdu) <= usize::MAX,
        ensures
            n == spec_request_len(self@.pdu),
    {
        self.pdu.pdu_len()
    }

    /// The byte length of the whole frame: the PDU plus the seven header
    /// bytes.
    pub fn adu_len(&self) -> (n: usize)
        requires
            spec_adu_request_len(self@) <= usize::MAX,
        ensures
            n == spec_adu_request_len(self@),
    {
        self.pdu_len() + Header::size()
    }

    /// Encodes the whole frame into the front of `buf`; fails, leaving
    /// `buf` unchanged, exactly when `buf` is shorter than `adu_len`.
    pub fn encode(&self, buf: &mut [u8]) -> (r: Result<usize, EncodeError>)
        requires
            spec_adu_request_len(self@) <= usize::MAX,
        ensures
            match r {
                Ok(n) => {
                    &&& n == spec_adu_request_len(self@)
                    &&& n <= old(buf).len()
                    &&& final(buf)@ == spec_adu_request_encode(self@) + old(buf)@.skip(n as int)
                },
                Err(e) => {
                    &&& e == EncodeError::InvalidBufferSize
                    &&& old(buf).len() < spec_adu_request_len(self@)
                    &&& final(buf)@ == old(buf)@
                },
            },
    {
        let n = self.adu_len();
        if n > buf.len() {
            return Err(EncodeError::InvalidBufferSize);
        }
        let (header_buf, pdu_buf) = buf.split_at_mut(Header::size());
        let header_size = match self.header.encode(header_buf) {
            Ok(m) => m,
            Err(e) => {
                return Err(e);
            },
        };
        let pdu_size = match self.pdu.encode(pdu_buf) {
            Ok(m) => m,
            Err(e) => {
                return Err(e);
            },
        };
        assert(buf@ =~= spec_adu_request_encode(self@) + old(buf)@.skip(n as int));
        Ok(header_size + pdu_size)
    }
}

} // verus!
