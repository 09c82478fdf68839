//! The request-side PDU codec: decoding a byte buffer into a typed request
//! and encoding a typed request back into bytes.

use crate::error::{spec_incomplete, DecodeError, EncodeError, ExceptionError};
use crate::exception_code::{spec_exception_code_of_byte, ExceptionCode};
use crate::pdu::coil::{DataCoils, SpecDataCoils};
use crate::pdu::function_code::{
    spec_function_code_byte, spec_function_code_canonical, spec_function_code_of_byte, FunctionCode,
};
use crate::pdu::word::{DataWords, SpecDataWords};
use crate::pdu::{
    coil_to_u16_coil, spec_coil_to_u16_coil, spec_u16_coil_to_coil, u16_coil_to_coil, Address,
    Quantity,
};
use crate::wire::{read_u16_be, spec_u16_be, spec_u16_from_be, write_slice, write_u16_be, write_u8};
use vstd::prelude::*;
use vstd::slice::slice_subrange;

verus! {

/// Ghost image of a request: payload slices become byte sequences.
pub enum SpecRequest {
    ReadCoils(u16, u16),
    ReadDiscreteInput(u16, u16),
    ReadHoldingRegisters(u16, u16),
    ReadInputRegisters(u16, u16),
    WriteSingleCoil(u16, bool),
    WriteSingleRegister(u16, u16),
    WriteMultipleCoils(u16, SpecDataCoils),
    WriteMultipleRegisters(u16, SpecDataWords),
    MaskWriteRegister(u16, u16, u16),
    ReadWriteMultipleRegisters(u16, u16, u16, SpecDataWords),
    Custom(FunctionCode, Seq<u8>),
}

/// A typed Modbus request; data-carrying variants borrow from the buffer
/// they were decoded from.
#[derive(Debug, PartialEq, Eq)]
pub enum Request<'a> {
    ReadCoils(Address, Quantity),
    ReadDiscreteInput(Address, Quantity),
    ReadHoldingRegisters(Address, Quantity),
    ReadInputRegisters(Address, Quantity),
    WriteSingleCoil(Address, bool),
    WriteSingleRegister(Address, u16),
    WriteMultipleCoils(Address, DataCoils<'a>),
    WriteMultipleRegisters(Address, DataWords<'a>),
    MaskWriteRegister(Address, u16, u16),
    ReadWriteMultipleRegisters(Address, Quantity, Address, DataWords<'a>),
    Custom(FunctionCode, &'a [u8]),
}

impl View for Request<'_> {
    type V = SpecRequest;

    open spec fn view(&self) -> SpecRequest {
        match self {
            Request::ReadCoils(a, q) => SpecRequest::ReadCoils(*a, *q),
            Request::ReadDiscreteInput(a, q) => SpecRequest::ReadDiscreteInput(*a, *q),
            Request::ReadHoldingRegisters(a, q) => SpecRequest::ReadHoldingRegisters(*a, *q),
            Request::ReadInputRegisters(a, q) => SpecRequest::ReadInputRegisters(*a, *q),
            Request::WriteSingleCoil(a, c) => SpecRequest::WriteSingleCoil(*a, *c),
            Request::WriteSingleRegister(a, w) => SpecRequest::WriteSingleRegister(*a, *w),
            Request::WriteMultipleCoils(a, c) => SpecRequest::WriteMultipleCoils(*a, c@),
            Request::WriteMultipleRegisters(a, w) => SpecRequest::WriteMultipleRegisters(*a, w@),
            Request::MaskWriteRegister(a, and_mask, or_mask) => SpecRequest::MaskWriteRegister(
                *a,
                *and_mask,
                *or_mask,
            ),
            Request::ReadWriteMultipleRegisters(ra, rq, wa, w) => {
                SpecRequest::ReadWriteMultipleRegisters(*ra, *rq, *wa, w@)
            },
            Request::Custom(c, d) => SpecRequest::Custom(*c, d@),
        }
    }
}

/// The function code of a request.
pub open spec fn spec_request_function_code(r: SpecRequest) -> FunctionCode {
    match r {
        SpecRequest::ReadCoils(..) => FunctionCode::ReadCoils,
        SpecRequest::ReadDiscreteInput(..) => FunctionCode::ReadDiscreteInput,
        SpecRequest::ReadHoldingRegisters(..) => FunctionCode::ReadHoldingRegisters,
        SpecRequest::ReadInputRegisters(..) => FunctionCode::ReadInputRegisters,
        SpecRequest::WriteSingleCoil(..) => FunctionCode::WriteSingleCoil,
        SpecRequest::WriteSingleRegister(..) => FunctionCode::WriteSingleRegister,
        SpecRequest::WriteMultipleCoils(..) => FunctionCode::WriteMultipleCoils,
        SpecRequest::WriteMultipleRegisters(..) => FunctionCode::WriteMultipleRegisters,
        SpecRequest::MaskWriteRegister(..) => FunctionCode::MaskWriteRegister,
        SpecRequest::ReadWriteMultipleRegisters(..) => FunctionCode::ReadWriteMultipleRegisters,
        SpecRequest::Custom(c, _) => c,
    }
}

/// The exact byte length of an encoded request.
pub open spec fn spec_request_len(r: SpecRequest) -> int {
    match r {
        SpecRequest::ReadCoils(..) => 5,
        SpecRequest::ReadDiscreteInput(..) => 5,
        SpecRequest::ReadHoldingRegisters(..) => 5,
        SpecRequest::ReadInputRegisters(..) => 5,
        SpecRequest::WriteSingleCoil(..) => 5,
        SpecRequest::WriteSingleRegister(..) => 5,
        SpecRequest::WriteMultipleCoils(_, c) => 6 + c.data.len() as int,
        SpecRequest::WriteMultipleRegisters(_, w) => 6 + w.data.len() as int,
        SpecRequest::MaskWriteRegister(..) => 7,
        SpecRequest::ReadWriteMultipleRegisters(_, _, _, w) => 10 + w.data.len() as int,
        SpecRequest::Custom(_, d) => 1 + d.len() as int,
    }
}

/// The encoded bytes of a request: the function-code byte, then the fields
/// in the layout the decoder expects.
pub open spec fn spec_request_encode(r: SpecRequest) -> Seq<u8> {
    let code = seq![spec_function_code_byte(spec_request_function_code(r))];
    match r {
        SpecRequest::ReadCoils(a, q) => code + spec_u16_be(a) + spec_u16_be(q),
        SpecRequest::ReadDiscreteInput(a, q) => code + spec_u16_be(a) + spec_u16_be(q),
        SpecRequest::ReadHoldingRegisters(a, q) => code + spec_u16_be(a) + spec_u16_be(q),
        SpecRequest::ReadInputRegisters(a, q) => code + spec_u16_be(a) + spec_u16_be(q),
        SpecRequest::WriteSingleCoil(a, c) => code + spec_u16_be(a) + spec_u16_be(
            spec_coil_to_u16_coil(c),
        ),
        SpecRequest::WriteSingleRegister(a, w) => code + spec_u16_be(a) + spec_u16_be(w),
        SpecRequest::WriteMultipleCoils(a, c) => code + spec_u16_be(a) + spec_u16_be(
            (c.quantity % 0x10000) as u16,
        ) + seq![(c.data.len() % 0x100) as u8] + c.data,
        SpecRequest::WriteMultipleRegisters(a, w) => code + spec_u16_be(a) + spec_u16_be(
            (w.quantity % 0x10000) as u16,
        ) + seq![(w.data.len() % 0x100) as u8] + w.data,
        SpecRequest::MaskWriteRegister(a, and_mask, or_mask) => code + spec_u16_be(a) + spec_u16_be(
            and_mask,
        ) + spec_u16_be(or_mask),
        SpecRequest::ReadWriteMultipleRegisters(ra, rq, wa, w) => code + spec_u16_be(ra)
            + spec_u16_be(rq) + spec_u16_be(wa) + spec_u16_be((w.quantity % 0x10000) as u16)
            + seq![(w.data.len() % 0x100) as u8] + w.data,
        SpecRequest::Custom(_, d) => code + d,
    }
}

/// Decoding a 5-byte address-and-quantity request body: the address and the
/// quantity, or the error when bytes are missing or the quantity is out of
/// the allowed range `1..=max`.
pub open spec fn spec_read_request_fields(s: Seq<u8>, code: FunctionCode, max: u16) -> Result<
    (u16, u16),
    DecodeError,
> {
    if s.len() < 5 {
        Err(spec_incomplete(s.len() as int, 5))
    } else {
        let quantity = spec_u16_from_be(s[3], s[4]);
        if quantity == 0 || quantity > max {
            Err(DecodeError::ModbusExceptionError(code, ExceptionError::IllegalDataValue))
        } else {
            Ok((spec_u16_from_be(s[1], s[2]), quantity))
        }
    }
}

/// The decoding of a byte buffer as a request: a typed request, an
/// incomplete-buffer hint, a business-rule failure, or a device exception.
pub open spec fn spec_request_decode(s: Seq<u8>) -> Result<SpecRequest, DecodeError> {
    if s.len() == 0 {
        Err(spec_incomplete(0, 1))
    } else if s[0] >= 0x80 {
        if s.len() > 1 {
            Err(
                DecodeError::ModbusExceptionCode(
                    spec_function_code_of_byte((s[0] - 0x80) as u8),
                    spec_exception_code_of_byte(s[1]),
                ),
            )
        } else {
            Err(spec_incomplete(1, 2))
        }
    } else {
        let code = spec_function_code_of_byte(s[0]);
        match code {
            FunctionCode::ReadCoils => match spec_read_request_fields(s, code, 2000) {
                Ok((a, q)) => Ok(SpecRequest::ReadCoils(a, q)),
                Err(e) => Err(e),
            },
            FunctionCode::ReadDiscreteInput => match spec_read_request_fields(s, code, 2000) {
                Ok((a, q)) => Ok(SpecRequest::ReadDiscreteInput(a, q)),
                Err(e) => Err(e),
            },
            FunctionCode::ReadHoldingRegisters => match spec_read_request_fields(s, code, 125) {
                Ok((a, q)) => Ok(SpecRequest::ReadHoldingRegisters(a, q)),
                Err(e) => Err(e),
            },
            FunctionCode::ReadInputRegisters => match spec_read_request_fields(s, code, 125) {
                Ok((a, q)) => Ok(SpecRequest::ReadInputRegisters(a, q)),
                Err(e) => Err(e),
            },
            FunctionCode::WriteSingleCoil => {
                if s.len() < 5 {
                    Err(spec_incomplete(s.len() as int, 5))
                } else {
                    match spec_u16_coil_to_coil(spec_u16_from_be(s[3], s[4])) {
                        Some(coil) => Ok(
                            SpecRequest::WriteSingleCoil(spec_u16_from_be(s[1], s[2]), coil),
                        ),
                        None => Err(
                            DecodeError::ModbusExceptionError(
                                code,
                                ExceptionError::IllegalDataValue,
                            ),
                        ),
                    }
                }
            },
            FunctionCode::WriteSingleRegister => {
                if s.len() < 5 {
                    Err(spec_incomplete(s.len() as int, 5))
                } else {
                    Ok(
                        SpecRequest::WriteSingleRegister(
                            spec_u16_from_be(s[1], s[2]),
                            spec_u16_from_be(s[3], s[4]),
                        ),
                    )
                }
            },
            FunctionCode::WriteMultipleCoils => {
                if s.len() < 6 {
                    Err(spec_incomplete(s.len() as int, 6))
                } else {
                    let quantity = spec_u16_from_be(s[3], s[4]);
                    if quantity == 0 || quantity > 0x07b0 {
                        Err(
                            DecodeError::ModbusExceptionError(
                                code,
                                ExceptionError::IllegalDataValue,
                            ),
                        )
                    } else {
                        let byte_count = s[5] as int;
                        if byte_count + 6 > s.len() {
                            Err(spec_incomplete(s.len() as int, byte_count + 6))
                        } else {
                            Ok(
                                SpecRequest::WriteMultipleCoils(
                                    spec_u16_from_be(s[1], s[2]),
                                    SpecDataCoils {
                                        data: s.subrange(6, byte_count + 6),
                                        quantity: quantity as int,
                                    },
                                ),
                            )
                        }
                    }
                }
            },
            FunctionCode::WriteMultipleRegisters => {
                if s.len() < 6 {
                    Err(spec_incomplete(s.len() as int, 6))
                } else {
                    let quantity = spec_u16_from_be(s[3], s[4]);
                    if quantity == 0 || quantity > 0x7b {
                        Err(
                            DecodeError::ModbusExceptionError(
                                code,
                                ExceptionError::IllegalDataValue,
                            ),
                        )
                    } else {
                        let byte_count = s[5] as int;
                        if byte_count + 6 > s.len() {
                            Err(spec_incomplete(s.len() as int, byte_count + 6))
                        } else {
                            Ok(
                                SpecRequest::WriteMultipleRegisters(
                                    spec_u16_from_be(s[1], s[2]),
                                    SpecDataWords {
                                        data: s.subrange(6, byte_count + 6),
                                        quantity: quantity as int,
                                    },
                                ),
                            )
                        }
                    }
                }
            },
            FunctionCode::MaskWriteRegister => {
                if s.len() < 7 {
                    Err(spec_incomplete(s.len() as int, 7))
                } else {
                    Ok(
                        SpecRequest::MaskWriteRegister(
                            spec_u16_from_be(s[1], s[2]),
                            spec_u16_from_be(s[3], s[4]),
                            spec_u16_from_be(s[5], s[6]),
                        ),
                    )
                }
            },
            FunctionCode::ReadWriteMultipleRegisters => {
                if s.len() < 10 {
                    Err(spec_incomplete(s.len() as int, 10))
                } else {
                    let read_quantity = spec_u16_from_be(s[3], s[4]);
                    if read_quantity == 0 || read_quantity > 0x7d {
                        Err(
                            DecodeError::ModbusExceptionError(
                                code,
                                ExceptionError::IllegalDataValue,
                            ),
                        )
                    } else {
                        let write_quantity = spec_u16_from_be(s[7], s[8]);
                        if write_quantity == 0 || write_quantity > 0x7d {
                            Err(
                                DecodeError::ModbusExceptionError(
                                    code,
                                    ExceptionError::IllegalDataValue,
                                ),
                            )
                        } else {
                            let byte_count = s[9] as int;
                            if byte_count + 10 > s.len() {
                                Err(spec_incomplete(s.len() as int, byte_count + 10))
                            } else {
                                Ok(
                                    SpecRequest::ReadWriteMultipleRegisters(
                                        spec_u16_from_be(s[1], s[2]),
                                        read_quantity,
                                        spec_u16_from_be(s[5], s[6]),
                                        SpecDataWords {
                                            data: s.subrange(10, byte_count + 10),
                                            quantity: write_quantity as int,
                                        },
                                    ),
                                )
                            }
                        }
                    }
                }
            },
            FunctionCode::Custom(_) => Ok(SpecRequest::Custom(code, s.skip(1))),
        }
    }
}

impl<'a> Request<'a> {
    /// The function code of this request.
    pub fn function_code(&self) -> (code: FunctionCode)
        ensures
            code == spec_request_function_code(self@),
    {
        match self {
            Request::ReadCoils(..) => FunctionCode::ReadCoils,
            Request::ReadDiscreteInput(..) => FunctionCode::ReadDiscreteInput,
            Request::ReadHoldingRegisters(..) => FunctionCode::ReadHoldingRegisters,
            Request::ReadInputRegisters(..) => FunctionCode::ReadInputRegisters,
            Request::WriteSingleCoil(..) => FunctionCode::WriteSingleCoil,
            Request::WriteSingleRegister(..) => FunctionCode::WriteSingleRegister,
            Request::WriteMultipleCoils(..) => FunctionCode::WriteMultipleCoils,
            Request::WriteMultipleRegisters(..) => FunctionCode::WriteMultipleRegisters,
            Request::MaskWriteRegister(..) => FunctionCode::MaskWriteRegister,
            Request::ReadWriteMultipleRegisters(..) => FunctionCode::ReadWriteMultipleRegisters,
            Request::Custom(code, _) => *code,
        }
    }

    /// The exact number of bytes `encode` writes for this request.
    pub fn pdu_len(&self) -> (n: usize)
        requires
            spec_request_len(self@) <= usize::MAX,
        ensures
            n == spec_request_len(self@),
    {
        match self {
            Request::ReadCoils(..)
            | Request::ReadDiscreteInput(..)
            | Request::ReadHoldingRegisters(..)
            | Request::ReadInputRegisters(..)
            | Request::WriteSingleCoil(..)
            | Request::WriteSingleRegister(..) => 5,
            Request::WriteMultipleCoils(_, coils) => 6 + coils.data_len(),
            Request::WriteMultipleRegisters(_, words) => 6 + words.data().len(),
            Request::MaskWriteRegister(..) => 7,
            Request::ReadWriteMultipleRegisters(_, _, _, words) => 10 + words.data().len(),
            Request::Custom(_, d) => 1 + d.len(),
        }
    }

    /// Encodes this request into the front of `buf`; fails, leaving `buf`
    /// unchanged, exactly when `buf` is shorter than `pdu_len`.
    pub fn encode(&self, buf: &mut [u8]) -> (r: Result<usize, EncodeError>)
        requires
            spec_request_len(self@) <= usize::MAX,
        ensures
            match r {
                Ok(n) => {
                    &&& n == spec_request_len(self@)
                    &&& n <= old(buf).len()
                    &&& final(buf)@ == spec_request_encode(self@) + old(buf)@.skip(n as int)
                },
                Err(e) => {
                    &&& e == EncodeError::InvalidBufferSize
                    &&& old(buf).len() < spec_request_len(self@)
                    &&& final(buf)@ == old(buf)@
                },
            },
    {
        let n = self.pdu_len();
        if n > buf.len() {
            return Err(EncodeError::InvalidBufferSize);
        }
        write_u8(buf, 0, self.function_code().to_byte());
        match self {
            Request::ReadCoils(address, quantity)
            | Request::ReadDiscreteInput(address, quantity)
            | Request::ReadHoldingRegisters(address, quantity)
            | Request::ReadInputRegisters(address, quantity)
            | Request::WriteSingleRegister(address, quantity) => {
                write_u16_be(buf, 1, *address);
                write_u16_be(buf, 3, *quantity);
            },
            Request::WriteSingleCoil(address, coil) => {
                write_u16_be(buf, 1, *address);
                write_u16_be(buf, 3, coil_to_u16_coil(*coil));
            },
            Request::WriteMultipleCoils(address, coils) => {
                write_u16_be(buf, 1, *address);
                write_u16_be(buf, 3, (coils.quantity() % 0x10000) as u16);
                write_u8(buf, 5, (coils.data_len() % 0x100) as u8);
                write_slice(buf, 6, coils.data());
            },
            Request::WriteMultipleRegisters(address, words) => {
                write_u16_be(buf, 1, *address);
                write_u16_be(buf, 3, (words.quantity() % 0x10000) as u16);
                write_u8(buf, 5, (words.data().len() % 0x100) as u8);
                write_slice(buf, 6, words.data());
            },
            Request::MaskWriteRegister(address, and_mask, or_mask) => {
                write_u16_be(buf, 1, *address);
                write_u16_be(buf, 3, *and_mask);
                write_u16_be(buf, 5, *or_mask);
            },
            Request::ReadWriteMultipleRegisters(read_address, read_quantity, write_address, words) => {
                write_u16_be(buf, 1, *read_address);
                write_u16_be(buf, 3, *read_quantity);
                write_u16_be(buf, 5, *write_address);
                write_u16_be(buf, 7, (words.quantity() % 0x10000) as u16);
                write_u8(buf, 9, (words.data().len() % 0x100) as u8);
                write_slice(buf, 10, words.data());
            },
            Request::Custom(_, data) => {
                write_slice(buf, 1, data);
            },
        }
        assert(buf@ =~= spec_request_encode(self@) + old(buf)@.skip(n as int));
        Ok(n)
    }

    /// Decodes the front of `buf` as a request, exactly as
    /// [`spec_request_decode`] reads it.
    pub fn decode(buf: &'a [u8]) -> (r: Result<Request<'a>, DecodeError>)
        ensures
            match r {
                Ok(req) => spec_request_decode(buf@) == Ok::<SpecRequest, DecodeError>(req@),
                Err(e) => spec_request_decode(buf@) == Err::<SpecRequest, DecodeError>(e),
            },
    {
        if buf.len() == 0 {
            return Err(DecodeError::IncompleteBuffer { current_size: 0, min_needed_size: 1 });
        }
        let code_byte = buf[0];
        if code_byte >= 0x80 {
            return if buf.len() > 1 {
                Err(
                    DecodeError::ModbusExceptionCode(
                        FunctionCode::of_byte(code_byte - 0x80),
                        ExceptionCode::try_from(buf[1]),
                    ),
                )
            } else {
                Err(DecodeError::IncompleteBuffer { current_size: 1, min_needed_size: 2 })
            };
        }
        let code = FunctionCode::of_byte(code_byte);
        match code {
            FunctionCode::ReadCoils => match Self::read_request_fields(buf, code, 2000) {
                Ok((address, quantity)) => Ok(Request::ReadCoils(address, quantity)),
                Err(e) => Err(e),
            },
            FunctionCode::ReadDiscreteInput => match Self::read_request_fields(buf, code, 2000) {
                Ok((address, quantity)) => Ok(Request::ReadDiscreteInput(address, quantity)),
                Err(e) => Err(e),
            },
            FunctionCode::ReadHoldingRegisters => match Self::read_request_fields(buf, code, 125) {
                Ok((address, quantity)) => Ok(Request::ReadHoldingRegisters(address, quantity)),
                Err(e) => Err(e),
            },
            FunctionCode::ReadInputRegisters => match Self::read_request_fields(buf, code, 125) {
                Ok((address, quantity)) => Ok(Request::ReadInputRegisters(address, quantity)),
                Err(e) => Err(e),
            },
            FunctionCode::WriteSingleCoil => {
                if buf.len() < 5 {
                    return Err(
                        DecodeError::IncompleteBuffer {
                            current_size: buf.len(),
                            min_needed_size: 5,
                        },
                    );
                }
                let value = read_u16_be(buf, 3);
                match u16_coil_to_coil(value) {
                    Some(coil) => Ok(Request::WriteSingleCoil(read_u16_be(buf, 1), coil)),
                    None => Err(
                        DecodeError::ModbusExceptionError(code, ExceptionError::IllegalDataValue),
                    ),
                }
            },
            FunctionCode::WriteSingleRegister => {
                if buf.len() < 5 {
                    return Err(
                        DecodeError::IncompleteBuffer {
                            current_size: buf.len(),
                            min_needed_size: 5,
                        },
                    );
                }
                Ok(Request::WriteSingleRegister(read_u16_be(buf, 1), read_u16_be(buf, 3)))
            },
            FunctionCode::WriteMultipleCoils => {
                if buf.len() < 6 {
                    return Err(
                        DecodeError::IncompleteBuffer {
                            current_size: buf.len(),
                            min_needed_size: 6,
                        },
                    );
                }
                let quantity = read_u16_be(buf, 3);
                if quantity == 0 || quantity > 0x07b0 {
                    return Err(
                        DecodeError::ModbusExceptionError(code, ExceptionError::IllegalDataValue),
                    );
                }
                let byte_count = buf[5] as usize;
                if byte_count + 6 > buf.len() {
                    return Err(
                        DecodeError::IncompleteBuffer {
                            current_size: buf.len(),
                            min_needed_size: byte_count + 6,
                        },
                    );
                }
                let data = slice_subrange(buf, 6, byte_count + 6);
                Ok(
                    Request::WriteMultipleCoils(
                        read_u16_be(buf, 1),
                        DataCoils::new(data, quantity as usize),
                    ),
                )
            },
            FunctionCode::WriteMultipleRegisters => {
                if buf.len() < 6 {
                    return Err(
                        DecodeError::IncompleteBuffer {
                            current_size: buf.len(),
                            min_needed_size: 6,
                        },
                    );
                }
                let quantity = read_u16_be(buf, 3);
                if quantity == 0 || quantity > 0x7b {
                    return Err(
                        DecodeError::ModbusExceptionError(code, ExceptionError::IllegalDataValue),
                    );
                }
                let byte_count = buf[5] as usize;
                if byte_count + 6 > buf.len() {
                    return Err(
                        DecodeError::IncompleteBuffer {
                            current_size: buf.len(),
                            min_needed_size: byte_count + 6,
                        },
                    );
                }
                let data = slice_subrange(buf, 6, byte_count + 6);
                Ok(
                    Request::WriteMultipleRegisters(
                        read_u16_be(buf, 1),
                        DataWords::new(data, quantity as usize),
                    ),
                )
            },
            FunctionCode::MaskWriteRegister => {
                if buf.len() < 7 {
                    return Err(
                        DecodeError::IncompleteBuffer {
                            current_size: buf.len(),
                            min_needed_size: 7,
                        },
                    );
                }
                Ok(
                    Request::MaskWriteRegister(
                        read_u16_be(buf, 1),
                        read_u16_be(buf, 3),
                        read_u16_be(buf, 5),
                    ),
                )
            },
            FunctionCode::ReadWriteMultipleRegisters => {
                if buf.len() < 10 {
                    return Err(
                        DecodeError::IncompleteBuffer {
                            current_size: buf.len(),
                            min_needed_size: 10,
                        },
                    );
                }
                let read_quantity = read_u16_be(buf, 3);
                if read_quantity == 0 || read_quantity > 0x7d {
                    return Err(
                        DecodeError::ModbusExceptionError(code, ExceptionError::IllegalDataValue),
                    );
                }
                let write_quantity = read_u16_be(buf, 7);
                if write_quantity == 0 || write_quantity > 0x7d {
                    return Err(
                        DecodeError::ModbusExceptionError(code, ExceptionError::IllegalDataValue),
                    );
                }
                let byte_count = buf[9] as usize;
                if byte_count + 10 > buf.len() {
                    return Err(
                        DecodeError::IncompleteBuffer {
                            current_size: buf.len(),
                            min_needed_size: byte_count + 10,
                        },
                    );
                }
                let data = slice_subrange(buf, 10, byte_count + 10);
                Ok(
                    Request::ReadWriteMultipleRegisters(
                        read_u16_be(buf, 1),
                        read_quantity,
                        read_u16_be(buf, 5),
                        DataWords::new(data, write_quantity as usize),
                    ),
                )
            },
            FunctionCode::Custom(_) => {
                let data = slice_subrange(buf, 1, buf.len());
                assert(data@ =~= buf@.skip(1));
                Ok(Request::Custom(code, data))
            },
        }
    }

    /// Reads the address and quantity of a 5-byte request body, holding the
    /// quantity to `1..=max`.
    fn read_request_fields(buf: &[u8], code: FunctionCode, max: u16) -> (r: Result<
        (u16, u16),
        DecodeError,
    >)
        ensures
            r == spec_read_request_fields(buf@, code, max),
    {
        if buf.len() < 5 {
            return Err(
                DecodeError::IncompleteBuffer { current_size: buf.len(), min_needed_size: 5 },
            );
        }
        let quantity = read_u16_be(buf, 3);
        if quantity == 0 || quantity > max {
            return Err(DecodeError::ModbusExceptionError(code, ExceptionError::IllegalDataValue));
        }
        Ok((read_u16_be(buf, 1), quantity))
    }
}

impl SpecRequest {
    /// Whether a request is constructible by the codec itself: quantities in
    /// their per-function range and data blocks sized to their quantity, as
    /// the wire format prescribes.
    pub open spec fn valid(self) -> bool {
        match self {
            SpecRequest::ReadCoils(_, q) => 1 <= q <= 2000,
            SpecRequest::ReadDiscreteInput(_, q) => 1 <= q <= 2000,
            SpecRequest::ReadHoldingRegisters(_, q) => 1 <= q <= 125,
            SpecRequest::ReadInputRegisters(_, q) => 1 <= q <= 125,
            SpecRequest::WriteSingleCoil(..) => true,
            SpecRequest::WriteSingleRegister(..) => true,
            SpecRequest::WriteMultipleCoils(_, c) => 1 <= c.quantity <= 0x07b0 && c.data.len() == (
            c.quantity + 7) / 8,
            SpecRequest::WriteMultipleRegisters(_, w) => 1 <= w.quantity <= 0x7b && w.data.len()
                == 2 * w.quantity,
            SpecRequest::MaskWriteRegister(..) => true,
            SpecRequest::ReadWriteMultipleRegisters(_, rq, _, w) => 1 <= rq <= 0x7d && 1
                <= w.quantity <= 0x7d && w.data.len() == 2 * w.quantity,
            SpecRequest::Custom(code, _) => code is Custom && spec_function_code_canonical(code),
        }
    }
}

/// Round trip: decoding the encoding of any valid request gives the request
/// back, so encoding loses nothing.
pub proof fn lemma_request_round_trip(r: SpecRequest)
    requires
        r.valid(),
    ensures
        spec_request_decode(spec_request_encode(r)) == Ok::<SpecRequest, DecodeError>(r),
{
    let enc = spec_request_encode(r);
    crate::pdu::function_code::lemma_function_code_round_trip(spec_request_function_code(r));
    match r {
        SpecRequest::WriteMultipleCoils(a, c) => {
            assert(enc.subrange(6, 6 + c.data.len() as int) =~= c.data);
        },
        SpecRequest::WriteMultipleRegisters(a, w) => {
            assert(enc.subrange(6, 6 + w.data.len() as int) =~= w.data);
        },
        SpecRequest::ReadWriteMultipleRegisters(ra, rq, wa, w) => {
            assert(enc.subrange(10, 10 + w.data.len() as int) =~= w.data);
        },
        SpecRequest::Custom(code, d) => {
            assert(enc.skip(1) =~= d);
        },
        _ => {},
    }
}

/// Incomplete-buffer monotonicity: any strict truncation of a valid encoded
/// request (other than a `Custom` request, whose payload is by definition
/// the rest of the buffer) decodes to `IncompleteBuffer` whose current size
/// is the truncated length and whose needed size never overshoots the full
/// frame.
pub proof fn lemma_request_truncated_decode(r: SpecRequest, k: int)
    requires
        r.valid(),
        !(r is Custom),
        0 <= k < spec_request_len(r),
    ensures
        spec_request_decode(spec_request_encode(r).take(k)) matches Err(
            DecodeError::IncompleteBuffer { current_size, min_needed_size },
        ) && current_size == k && k < min_needed_size <= spec_request_len(r),
{
    let enc = spec_request_encode(r);
    let t = enc.take(k);
    crate::pdu::function_code::lemma_function_code_round_trip(spec_request_function_code(r));
    if k > 0 {
        assert(t[0] == enc[0]);
    }
}

} // verus!
