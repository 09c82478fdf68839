//! The response-side PDU codec: decoding a byte buffer into a typed
//! response and encoding a typed response back into bytes.

use crate::error::{spec_incomplete, DecodeError, EncodeError, ExceptionError};
use crate::exception_code::{spec_exception_code_of_byte, ExceptionCode};
use crate::pdu::coil::{DataCoils, SpecDataCoils};
use crate::pdu::function_code::{
    spec_function_code_byte, spec_function_code_canonical, spec_function_code_of_byte, FunctionCode,
};
use crate::pdu::word::{DataWords, SpecDataWords};
use crate::pdu::{
    coil_to_u16_coil, spec_coil_to_u16_coil, spec_u16_coil_to_coil, u16_coil_to_coil, Address,
    Quantity,
};
use crate::wire::{read_u16_be, spec_u16_be, spec_u16_from_be, write_slice, write_u16_be, write_u8};
use vstd::prelude::*;
use vstd::slice::slice_subrange;

verus! {

/// Ghost image of a response: payload slices become byte sequences.
pub enum SpecResponse {
    ReadCoils(SpecDataCoils),
    ReadDiscreteInput(SpecDataCoils),
    ReadHoldingRegisters(SpecDataWords),
    ReadInputRegisters(SpecDataWords),
    WriteSingleCoil(u16, bool),
    WriteSingleRegister(u16, u16),
    WriteMultipleCoils(u16, u16),
    WriteMultipleRegisters(u16, u16),
    MaskWriteRegister(u16, u16, u16),
    ReadWriteMultipleRegisters(SpecDataWords),
    Custom(FunctionCode, Seq<u8>),
}

/// A typed Modbus response; data-carrying variants borrow from the buffer
/// they were decoded from.
#[derive(Debug, PartialEq, Eq)]
pub enum Response<'a> {
    ReadCoils(DataCoils<'a>),
    ReadDiscreteInput(DataCoils<'a>),
    ReadHoldingRegisters(DataWords<'a>),
    ReadInputRegisters(DataWords<'a>),
    WriteSingleCoil(Address, bool),
    WriteSingleRegister(Address, u16),
    WriteMultipleCoils(Address, Quantity),
    WriteMultipleRegisters(Address, Quantity),
    MaskWriteRegister(Address, u16, u16),
    ReadWriteMultipleRegisters(DataWords<'a>),
    Custom(FunctionCode, &'a [u8]),
}

impl View for Response<'_> {
    type V = SpecResponse;

    open spec fn view(&self) -> SpecResponse {
        match self {
            Response::ReadCoils(c) => SpecResponse::ReadCoils(c@),
            Response::ReadDiscreteInput(c) => SpecResponse::ReadDiscreteInput(c@),
            Response::ReadHoldingRegisters(w) => SpecResponse::ReadHoldingRegisters(w@),
            Response::ReadInputRegisters(w) => SpecResponse::ReadInputRegisters(w@),
            Response::WriteSingleCoil(a, c) => SpecResponse::WriteSingleCoil(*a, *c),
            Response::WriteSingleRegister(a, w) => SpecResponse::WriteSingleRegister(*a, *w),
            Response::WriteMultipleCoils(a, q) => SpecResponse::WriteMultipleCoils(*a, *q),
            Response::WriteMultipleRegisters(a, q) => SpecResponse::WriteMultipleRegisters(*a, *q),
            Response::MaskWriteRegister(a, and_mask, or_mask) => SpecResponse::MaskWriteRegister(
                *a,
                *and_mask,
                *or_mask,
            ),
            Response::ReadWriteMultipleRegisters(w) => SpecResponse::ReadWriteMultipleRegisters(w@),
            Response::Custom(c, d) => SpecResponse::Custom(*c, d@),
        }
    }
}

/// The function code of a response.
pub open spec fn spec_response_function_code(r: SpecResponse) -> FunctionCode {
    match r {
        SpecResponse::ReadCoils(..) => FunctionCode::ReadCoils,
        SpecResponse::ReadDiscreteInput(..) => FunctionCode::ReadDiscreteInput,
        SpecResponse::ReadHoldingRegisters(..) => FunctionCode::ReadHoldingRegisters,
        SpecResponse::ReadInputRegisters(..) => FunctionCode::ReadInputRegisters,
        SpecResponse::WriteSingleCoil(..) => FunctionCode::WriteSingleCoil,
        SpecResponse::WriteSingleRegister(..) => FunctionCode::WriteSingleRegister,
        SpecResponse::WriteMultipleCoils(..) => FunctionCode::WriteMultipleCoils,
        SpecResponse::WriteMultipleRegisters(..) => FunctionCode::WriteMultipleRegisters,
        SpecResponse::MaskWriteRegister(..) => FunctionCode::MaskWriteRegister,
        SpecResponse::ReadWriteMultipleRegisters(..) => FunctionCode::ReadWriteMultipleRegisters,
        SpecResponse::Custom(c, _) => c,
    }
}

/// The exact byte length of an encoded response.
pub open spec fn spec_response_len(r: SpecResponse) -> int {
    match r {
        SpecResponse::ReadCoils(c) => 2 + c.data.len() as int,
        SpecResponse::ReadDiscreteInput(c) => 2 + c.data.len() as int,
        SpecResponse::ReadHoldingRegisters(w) => 2 + w.data.len() as int,
        SpecResponse::ReadInputRegisters(w) => 2 + w.data.len() as int,
        SpecResponse::WriteSingleCoil(..) => 5,
        SpecResponse::WriteSingleRegister(..) => 5,
        SpecResponse::WriteMultipleCoils(..) => 5,
        SpecResponse::WriteMultipleRegisters(..) => 5,
        SpecResponse::MaskWriteRegister(..) => 7,
        SpecResponse::ReadWriteMultipleRegisters(w) => 2 + w.data.len() as int,
        SpecResponse::Custom(_, d) => 1 + d.len() as int,
    }
}

/// The encoded bytes of a response: the function-code byte, then the fields
/// in the layout the decoder expects.
pub open spec fn spec_response_encode(r: SpecResponse) -> Seq<u8> {
    let code = seq![spec_function_code_byte(spec_response_function_code(r))];
    match r {
        SpecResponse::ReadCoils(c) => code + seq![(c.data.len() % 0x100) as u8] + c.data,
        SpecResponse::ReadDiscreteInput(c) => code + seq![(c.data.len() % 0x100) as u8] + c.data,
        SpecResponse::ReadHoldingRegisters(w) => code + seq![(w.data.len() % 0x100) as u8] + w.data,
        SpecResponse::ReadInputRegisters(w) => code + seq![(w.data.len() % 0x100) as u8] + w.data,
        SpecResponse::WriteSingleCoil(a, c) => code + spec_u16_be(a) + spec_u16_be(
            spec_coil_to_u16_coil(c),
        ),
        SpecResponse::WriteSingleRegister(a, w) => code + spec_u16_be(a) + spec_u16_be(w),
        SpecResponse::WriteMultipleCoils(a, q) => code + spec_u16_be(a) + spec_u16_be(q),
        SpecResponse::WriteMultipleRegisters(a, q) => code + spec_u16_be(a) + spec_u16_be(q),
        SpecResponse::MaskWriteRegister(a, and_mask, or_mask) => code + spec_u16_be(a)
            + spec_u16_be(and_mask) + spec_u16_be(or_mask),
        SpecResponse::ReadWriteMultipleRegisters(w) => code + seq![(w.data.len() % 0x100) as u8]
            + w.data,
        SpecResponse::Custom(_, d) => code + d,
    }
}

/// Decoding a byte-counted data body: the data bytes after the count, or the
/// incomplete-buffer hint when the count or the data is missing.
pub open spec fn spec_counted_data(s: Seq<u8>) -> Result<Seq<u8>, DecodeError> {
    if s.len() < 2 {
        Err(spec_incomplete(1, 2))
    } else {
        let byte_count = s[1] as int;
        if byte_count + 2 > s.len() {
            Err(spec_incomplete(s.len() as int, byte_count + 2))
        } else {
            Ok(s.subrange(2, byte_count + 2))
        }
    }
}

/// The decoding of a byte buffer as a response: a typed response, an
/// incomplete-buffer hint, a business-rule failure, or a device exception.
pub open spec fn spec_response_decode(s: Seq<u8>) -> Result<SpecResponse, DecodeError> {
    if s.len() == 0 {
        Err(spec_incomplete(0, 1))
    } else if s[0] >= 0x80 {
        if s.len() > 1 {
            Err(
                DecodeError::ModbusExceptionCode(
                    spec_function_code_of_byte((s[0] - 0x80) as u8),
                    spec_exception_code_of_byte(s[1]),
                ),
            )
        } else {
            Err(spec_incomplete(1, 2))
        }
    } else {
        let code = spec_function_code_of_byte(s[0]);
        match code {
            FunctionCode::ReadCoils => match spec_counted_data(s) {
                Ok(data) => Ok(
                    SpecResponse::ReadCoils(SpecDataCoils { data, quantity: 8 * data.len() as int }),
                ),
                Err(e) => Err(e),
            },
            FunctionCode::ReadDiscreteInput => match spec_counted_data(s) {
                Ok(data) => Ok(
                    SpecResponse::ReadDiscreteInput(
                        SpecDataCoils { data, quantity: 8 * data.len() as int },
                    ),
                ),
                Err(e) => Err(e),
            },
            FunctionCode::ReadHoldingRegisters => match spec_counted_data(s) {
                Ok(data) => Ok(
                    SpecResponse::ReadHoldingRegisters(
                        SpecDataWords { data, quantity: data.len() as int / 2 },
                    ),
                ),
                Err(e) => Err(e),
            },
            FunctionCode::ReadInputRegisters => match spec_counted_data(s) {
                Ok(data) => Ok(
                    SpecResponse::ReadInputRegisters(
                        SpecDataWords { data, quantity: data.len() as int / 2 },
                    ),
                ),
                Err(e) => Err(e),
            },
            FunctionCode::ReadWriteMultipleRegisters => match spec_counted_data(s) {
                Ok(data) => Ok(
                    SpecResponse::ReadWriteMultipleRegisters(
                        SpecDataWords { data, quantity: data.len() as int / 2 },
                    ),
                ),
                Err(e) => Err(e),
            },
            FunctionCode::WriteSingleCoil => {
                if s.len() < 5 {
                    Err(spec_incomplete(s.len() as int, 5))
                } else {
                    match spec_u16_coil_to_coil(spec_u16_from_be(s[3], s[4])) {
                        Some(coil) => Ok(
                            SpecResponse::WriteSingleCoil(spec_u16_from_be(s[1], s[2]), coil),
                        ),
                        None => Err(
                            DecodeError::ModbusExceptionError(
                                code,
                                ExceptionError::IllegalDataValue,
                            ),
                        ),
                    }
                }
            },
            FunctionCode::WriteSingleRegister => {
                if s.len() < 5 {
                    Err(spec_incomplete(s.len() as int, 5))
                } else {
                    Ok(
                        SpecResponse::WriteSingleRegister(
                            spec_u16_from_be(s[1], s[2]),
                            spec_u16_from_be(s[3], s[4]),
                        ),
                    )
                }
            },
            FunctionCode::WriteMultipleCoils => {
                if s.len() < 5 {
                    Err(spec_incomplete(s.len() as int, 5))
                } else {
                    let quantity = spec_u16_from_be(s[3], s[4]);
                    if quantity == 0 || quantity > 0x07b0 {
                        Err(
                            DecodeError::ModbusExceptionError(
                                code,
                                ExceptionError::IllegalDataValue,
                            ),
                        )
                    } else {
                        Ok(SpecResponse::WriteMultipleCoils(spec_u16_from_be(s[1], s[2]), quantity))
                    }
                }
            },
            FunctionCode::WriteMultipleRegisters => {
                if s.len() < 5 {
                    Err(spec_incomplete(s.len() as int, 5))
                } else {
                    let quantity = spec_u16_from_be(s[3], s[4]);
                    if quantity == 0 || quantity > 0x7b {
                        Err(
                            DecodeError::ModbusExceptionError(
                                code,
                                ExceptionError::IllegalDataValue,
                            ),
                        )
                    } else {
                        Ok(
                            SpecResponse::WriteMultipleRegisters(
                                spec_u16_from_be(s[1], s[2]),
                                quantity,
                            ),
                        )
                    }
                }
            },
            FunctionCode::MaskWriteRegister => {
                if s.len() < 7 {
                    Err(spec_incomplete(s.len() as int, 7))
                } else {
                    Ok(
                        SpecResponse::MaskWriteRegister(
                            spec_u16_from_be(s[1], s[2]),
                            spec_u16_from_be(s[3], s[4]),
                            spec_u16_from_be(s[5], s[6]),
                        ),
                    )
                }
            },
            FunctionCode::Custom(_) => Ok(SpecResponse::Custom(code, s.skip(1))),
        }
    }
}

impl<'a> Response<'a> {
    /// The function code of this response.
    pub fn function_code(&self) -> (code: FunctionCode)
        ensures
            code == spec_response_function_code(self@),
    {
        match self {
            Response::ReadCoils(..) => FunctionCode::ReadCoils,
            Response::ReadDiscreteInput(..) => FunctionCode::ReadDiscreteInput,
            Response::ReadHoldingRegisters(..) => FunctionCode::ReadHoldingRegisters,
            Response::ReadInputRegisters(..) => FunctionCode::ReadInputRegisters,
            Response::WriteSingleCoil(..) => FunctionCode::WriteSingleCoil,
            Response::WriteSingleRegister(..) => FunctionCode::WriteSingleRegister,
            Response::WriteMultipleCoils(..) => FunctionCode::WriteMultipleCoils,
            Response::WriteMultipleRegisters(..) => FunctionCode::WriteMultipleRegisters,
            Response::MaskWriteRegister(..) => FunctionCode::MaskWriteRegister,
            Response::ReadWriteMultipleRegisters(..) => FunctionCode::ReadWriteMultipleRegisters,
            Response::Custom(code, _) => *code,
        }
    }

    /// The exact number of bytes `encode` writes for this response.
    pub fn pdu_len(&self) -> (n: usize)
        requires
            spec_response_len(self@) <= usize::MAX,
        ensures
            n == spec_response_len(self@),
    {
        match self {
            Response::ReadCoils(coils) | Response::ReadDiscreteInput(coils) => 2
                + coils.data_len(),
            Response::ReadHoldingRegisters(words)
            | Response::ReadInputRegisters(words)
            | Response::ReadWriteMultipleRegisters(words) => 2 + words.data().len(),
            Response::WriteSingleCoil(..)
            | Response::WriteSingleRegister(..)
            | Response::WriteMultipleCoils(..)
            | Response::WriteMultipleRegisters(..) => 5,
            Response::MaskWriteRegister(..) => 7,
            Response::Custom(_, d) => 1 + d.len(),
        }
    }

    /// Encodes this response into the front of `buf`; fails, leaving `buf`
    /// unchanged, exactly when `buf` is shorter than `pdu_len`.
    pub fn encode(&self, buf: &mut [u8]) -> (r: Result<usize, EncodeError>)
        requires
            spec_response_len(self@) <= usize::MAX,
        ensures
            match r {
                Ok(n) => {
                    &&& n == spec_response_len(self@)
                    &&& n <= old(buf).len()
                    &&& final(buf)@ == spec_response_encode(self@) + old(buf)@.skip(n as int)
                },
                Err(e) => {
                    &&& e == EncodeError::InvalidBufferSize
                    &&& old(buf).len() < spec_response_len(self@)
                    &&& final(buf)@ == old(buf)@
                },
            },
    {
        let n = self.pdu_len();
        if n > buf.len() {
            return Err(EncodeError::InvalidBufferSize);
        }
        write_u8(buf, 0, self.function_code().to_byte());
        match self {
            Response::ReadCoils(coils) | Response::ReadDiscreteInput(coils) => {
                write_u8(buf, 1, (coils.data_len() % 0x100) as u8);
                write_slice(buf, 2, coils.data());
            },
            Response::ReadHoldingRegisters(words)
            | Response::ReadInputRegisters(words)
            | Response::ReadWriteMultipleRegisters(words) => {
                write_u8(buf, 1, (words.data().len() % 0x100) as u8);
                write_slice(buf, 2, words.data());
            },
            Response::WriteSingleCoil(address, coil) => {
                write_u16_be(buf, 1, *address);
                write_u16_be(buf, 3, coil_to_u16_coil(*coil));
            },
            Response::WriteSingleRegister(address, value)
            | Response::WriteMultipleCoils(address, value)
            | Response::WriteMultipleRegisters(address, value) => {
                write_u16_be(buf, 1, *address);
                write_u16_be(buf, 3, *value);
            },
            Response::MaskWriteRegister(address, and_mask, or_mask) => {
                write_u16_be(buf, 1, *address);
                write_u16_be(buf, 3, *and_mask);
                write_u16_be(buf, 5, *or_mask);
            },
            Response::Custom(_, data) => {
                write_slice(buf, 1, data);
            },
        }
        assert(buf@ =~= spec_response_encode(self@) + old(buf)@.skip(n as int));
        Ok(n)
    }

    /// Decodes the front of `buf` as a response, exactly as
    /// [`spec_response_decode`] reads it.
    pub fn decode(buf: &'a [u8]) -> (r: Result<Response<'a>, DecodeError>)
        ensures
            match r {
                Ok(res) => spec_response_decode(buf@) == Ok::<SpecResponse, DecodeError>(res@),
                Err(e) => spec_response_decode(buf@) == Err::<SpecResponse, DecodeError>(e),
            },
    {
        if buf.len() == 0 {
            return Err(DecodeError::IncompleteBuffer { current_size: 0, min_needed_size: 1 });
        }
        let code_byte = buf[0];
        if code_byte >= 0x80 {
            return if buf.len() > 1 {
                Err(
                    DecodeError::ModbusExceptionCode(
                        FunctionCode::of_byte(code_byte - 0x80),
                        ExceptionCode::try_from(buf[1]),
                    ),
                )
            } else {
                Err(DecodeError::IncompleteBuffer { current_size: 1, min_needed_size: 2 })
            };
        }
        let code = FunctionCode::of_byte(code_byte);
        match code {
            FunctionCode::ReadCoils => match Self::counted_data(buf) {
                Ok(data) => Ok(Response::ReadCoils(DataCoils::new(data, data.len() * 8))),
                Err(e) => Err(e),
            },
            FunctionCode::ReadDiscreteInput => match Self::counted_data(buf) {
                Ok(data) => Ok(Response::ReadDiscreteInput(DataCoils::new(data, data.len() * 8))),
                Err(e) => Err(e),
            },
            FunctionCode::ReadHoldingRegisters => match Self::counted_data(buf) {
                Ok(data) => Ok(
                    Response::ReadHoldingRegisters(DataWords::new(data, data.len() / 2)),
                ),
                Err(e) => Err(e),
            },
            FunctionCode::ReadInputRegisters => match Self::counted_data(buf) {
                Ok(data) => Ok(Response::ReadInputRegisters(DataWords::new(data, data.len() / 2))),
                Err(e) => Err(e),
            },
            FunctionCode::ReadWriteMultipleRegisters => match Self::counted_data(buf) {
                Ok(data) => Ok(
                    Response::ReadWriteMultipleRegisters(DataWords::new(data, data.len() / 2)),
                ),
                Err(e) => Err(e),
            },
            FunctionCode::WriteSingleCoil => {
                if buf.len() < 5 {
                    return Err(
                        DecodeError::IncompleteBuffer {
                            current_size: buf.len(),
                            min_needed_size: 5,
                        },
                    );
                }
                let value = read_u16_be(buf, 3);
                match u16_coil_to_coil(value) {
                    Some(coil) => Ok(Response::WriteSingleCoil(read_u16_be(buf, 1), coil)),
                    None => Err(
                        DecodeError::ModbusExceptionError(code, ExceptionError::IllegalDataValue),
                    ),
                }
            },
            FunctionCode::WriteSingleRegister => {
                if buf.len() < 5 {
                    return Err(
                        DecodeError::IncompleteBuffer {
                            current_size: buf.len(),
                            min_needed_size: 5,
                        },
                    );
                }
                Ok(Response::WriteSingleRegister(read_u16_be(buf, 1), read_u16_be(buf, 3)))
            },
            FunctionCode::WriteMultipleCoils => {
                if buf.len() < 5 {
                    return Err(
                        DecodeError::IncompleteBuffer {
                            current_size: buf.len(),
                            min_needed_size: 5,
                        },
                    );
                }
                let quantity = read_u16_be(buf, 3);
                if quantity == 0 || quantity > 0x07b0 {
                    return Err(
                        DecodeError::ModbusExceptionError(code, ExceptionError::IllegalDataValue),
                    );
                }
                Ok(Response::WriteMultipleCoils(read_u16_be(buf, 1), quantity))
            },
            FunctionCode::WriteMultipleRegisters => {
                if buf.len() < 5 {
                    return Err(
                        DecodeError::IncompleteBuffer {
                            current_size: buf.len(),
                            min_needed_size: 5,
                        },
                    );
                }
                let quantity = read_u16_be(buf, 3);
                if quantity == 0 || quantity > 0x7b {
                    return Err(
                        DecodeError::ModbusExceptionError(code, ExceptionError::IllegalDataValue),
                    );
                }
                Ok(Response::WriteMultipleRegisters(read_u16_be(buf, 1), quantity))
            },
            FunctionCode::MaskWriteRegister => {
                if buf.len() < 7 {
                    return Err(
                        DecodeError::IncompleteBuffer {
                            current_size: buf.len(),
                            min_needed_size: 7,
                        },
                    );
                }
                Ok(
                    Response::MaskWriteRegister(
                        read_u16_be(buf, 1),
                        read_u16_be(buf, 3),
                        read_u16_be(buf, 5),
                    ),
                )
            },
            FunctionCode::Custom(_) => {
                let data = slice_subrange(buf, 1, buf.len());
                assert(data@ =~= buf@.skip(1));
                Ok(Response::Custom(code, data))
            },
        }
    }

    /// Reads the byte-counted data block that follows the function code.
    fn counted_data(buf: &'a [u8]) -> (r: Result<&'a [u8], DecodeError>)
        requires
            buf.len() >= 1,
        ensures
            match r {
                Ok(data) => spec_counted_data(buf@) == Ok::<Seq<u8>, DecodeError>(data@),
                Err(e) => spec_counted_data(buf@) == Err::<Seq<u8>, DecodeError>(e),
            },
    {
        if buf.len() < 2 {
            return Err(DecodeError::IncompleteBuffer { current_size: 1, min_needed_size: 2 });
        }
        let byte_count = buf[1] as usize;
        if byte_count + 2 > buf.len() {
            return Err(
                DecodeError::IncompleteBuffer {
                    current_size: buf.len(),
                    min_needed_size: byte_count + 2,
                },
            );
        }
        Ok(slice_subrange(buf, 2, byte_count + 2))
    }
}

impl SpecResponse {
    /// Whether a response is constructible by the codec itself.  Read
    /// responses carry a whole number of bytes, so their element count is
    /// what the byte count implies: eight coils per byte, one register per
    /// byte pair.  Write-multiple echoes keep their quantity in the range
    /// the decoder accepts.
    pub open spec fn valid(self) -> bool {
        match self {
            SpecResponse::ReadCoils(c) => c.quantity == 8 * c.data.len() && c.data.len() <= 255,
            SpecResponse::ReadDiscreteInput(c) => c.quantity == 8 * c.data.len() && c.data.len()
                <= 255,
            SpecResponse::ReadHoldingRegisters(w) => w.data.len() == 2 * w.quantity
                && w.data.len() <= 255,
            SpecResponse::ReadInputRegisters(w) => w.data.len() == 2 * w.quantity && w.data.len()
                <= 255,
            SpecResponse::WriteSingleCoil(..) => true,
            SpecResponse::WriteSingleRegister(..) => true,
            SpecResponse::WriteMultipleCoils(_, q) => 1 <= q <= 0x07b0,
            SpecResponse::WriteMultipleRegisters(_, q) => 1 <= q <= 0x7b,
            SpecResponse::MaskWriteRegister(..) => true,
            SpecResponse::ReadWriteMultipleRegisters(w) => w.data.len() == 2 * w.quantity
                && w.data.len() <= 255,
            SpecResponse::Custom(code, _) => code is Custom && spec_function_code_canonical(code),
        }
    }
}

/// Round trip: decoding the encoding of any valid response gives the
/// response back, so encoding loses nothing.
pub proof fn lemma_response_round_trip(r: SpecResponse)
    requires
        r.valid(),
    ensures
        spec_response_decode(spec_response_encode(r)) == Ok::<SpecResponse, DecodeError>(r),
{
    let enc = spec_response_encode(r);
    crate::pdu::function_code::lemma_function_code_round_trip(spec_response_function_code(r));
    match r {
        SpecResponse::ReadCoils(c) => {
            assert(enc.subrange(2, 2 + c.data.len() as int) =~= c.data);
        },
        SpecResponse::ReadDiscreteInput(c) => {
            assert(enc.subrange(2, 2 + c.data.len() as int) =~= c.data);
        },
        SpecResponse::ReadHoldingRegisters(w) => {
            assert(enc.subrange(2, 2 + w.data.len() as int) =~= w.data);
        },
        SpecResponse::ReadInputRegisters(w) => {
            assert(enc.subrange(2, 2 + w.data.len() as int) =~= w.data);
        },
        SpecResponse::ReadWriteMultipleRegisters(w) => {
            assert(enc.subrange(2, 2 + w.data.len() as int) =~= w.data);
        },
        SpecResponse::Custom(code, d) => {
            assert(enc.skip(1) =~= d);
        },
        _ => {},
    }
}

/// Any incomplete-buffer error of the response decoder reports a current
/// size no larger than the buffer itself and asks for at most 257 bytes,
/// the longest byte-counted body.
pub proof fn lemma_response_decode_error_bounds(s: Seq<u8>)
    ensures
        spec_response_decode(s) matches Err(DecodeError::IncompleteBuffer {
            current_size,
            min_needed_size,
        }) ==> current_size <= s.len() && min_needed_size <= 257,
{
}

/// Incomplete-buffer monotonicity: any strict truncation of a valid encoded
/// response (other than a `Custom` response, whose payload is by definition
/// the rest of the buffer) decodes to `IncompleteBuffer` whose current size
/// is the truncated length and whose needed size never overshoots the full
/// frame.
pub proof fn lemma_response_truncated_decode(r: SpecResponse, k: int)
    requires
        r.valid(),
        !(r is Custom),
        0 <= k < spec_response_len(r),
    ensures
        spec_response_decode(spec_response_encode(r).take(k)) matches Err(
            DecodeError::IncompleteBuffer { current_size, min_needed_size },
        ) && current_size == k && k < min_needed_size <= spec_response_len(r),
{
    let enc = spec_response_encode(r);
    let t = enc.take(k);
    crate::pdu::function_code::lemma_function_code_round_trip(spec_response_function_code(r));
    if k > 0 {
        assert(t[0] == enc[0]);
    }
}

} // verus!
