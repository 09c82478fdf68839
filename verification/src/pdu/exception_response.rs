//! The exception response a device sends in place of a normal response: the
//! function code with its high bit set, then the exception code.

use crate::error::{DecodeError, EncodeError};
use crate::exception_code::{spec_exception_code_byte, ExceptionCode};
use crate::pdu::function_code::{spec_function_code_byte, spec_function_code_canonical, FunctionCode};
use crate::pdu::request::spec_request_decode;
use crate::pdu::response::spec_response_decode;
use crate::wire::write_u8;
use vstd::prelude::*;

verus! {

/// Ghost image of an exception response.
pub struct SpecExceptionResponse {
    pub function_code: FunctionCode,
    pub exception_code: ExceptionCode,
}

/// A device-reported exception, paired with the function it answers.
#[derive(Debug, PartialEq, Eq)]
pub struct ExceptionResponse {
    function_code: FunctionCode,
    exception_code: ExceptionCode,
}

impl View for ExceptionResponse {
    type V = SpecExceptionResponse;

    closed spec fn view(&self) -> SpecExceptionResponse {
        SpecExceptionResponse {
            function_code: self.function_code,
            exception_code: self.exception_code,
        }
    }
}

/// The two encoded bytes of an exception response: the function code with
/// the exception marker, then the exception code.
pub open spec fn spec_exception_response_encode(e: SpecExceptionResponse) -> Seq<u8> {
    seq![
        spec_function_code_byte(e.function_code) | 0x80,
        spec_exception_code_byte(e.exception_code),
    ]
}

impl ExceptionResponse {
    /// Pairs a function code with the exception code reported for it.
    pub fn new(function_code: FunctionCode, exception_code: ExceptionCode) -> (r: Self)
        ensures
            r@ == (SpecExceptionResponse { function_code, exception_code }),
    {
        Self { function_code, exception_code }
    }

    /// The exact number of bytes `encode` writes: always two.
    pub fn pdu_len(&self) -> (n: usize)
        ensures
            n == 2,
    {
        2
    }

    /// Encodes this exception response into the front of `buf`; fails,
    /// leaving `buf` unchanged, exactly when `buf` is shorter than two bytes.
    pub fn encode(&self, buf: &mut [u8]) -> (r: Result<usize, EncodeError>)
        ensures
            match r {
                Ok(n) => {
                    &&& n == 2
                    &&& n <= old(buf).len()
                    &&& final(buf)@ == spec_exception_response_encode(self@) + old(buf)@.skip(2)
                },
                Err(e) => {
                    &&& e == EncodeError::InvalidBufferSize
                    &&& old(buf).len() < 2
                    &&& final(buf)@ == old(buf)@
                },
            },
    {
        if 2 > buf.len() {
            return Err(EncodeError::InvalidBufferSize);
        }
        write_u8(buf, 0, self.function_code.to_byte() | 0x80);
        write_u8(buf, 1, self.exception_code.to_byte());
        assert(buf@ =~= spec_exception_response_encode(self@) + old(buf)@.skip(2));
        Ok(2)
    }
}

/// Setting and clearing the exception marker are inverse on function-code
/// bytes, which never carry the marker themselves.
proof fn lemma_exception_marker(byte: u8)
    by (bit_vector)
    requires
        byte < 0x80,
    ensures
        byte | 0x80 >= 0x80,
        ((byte | 0x80) - 0x80) as u8 == byte,
{
}

/// Exception framing: the encoding of an exception response decodes — as a
/// request and as a response alike — to the `ModbusExceptionCode` error
/// naming the same function and exception code.
pub proof fn lemma_exception_response_decode(e: SpecExceptionResponse)
    requires
        spec_function_code_canonical(e.function_code),
    ensures
        spec_request_decode(spec_exception_response_encode(e)) == Err::<
            crate::pdu::request::SpecRequest,
            DecodeError,
        >(DecodeError::ModbusExceptionCode(e.function_code, Ok(e.exception_code))),
        spec_response_decode(spec_exception_response_encode(e)) == Err::<
            crate::pdu::response::SpecResponse,
            DecodeError,
        >(DecodeError::ModbusExceptionCode(e.function_code, Ok(e.exception_code))),
{
    crate::pdu::function_code::lemma_function_code_round_trip(e.function_code);
    lemma_exception_marker(spec_function_code_byte(e.function_code));
}

} // verus!
