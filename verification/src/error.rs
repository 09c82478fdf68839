//! The codec's error taxonomy.  Encoding can only run out of room; decoding
//! separates "too few bytes so far" from "the bytes break a protocol rule"
//! from "the peer reported a device exception".

use crate::exception_code::ExceptionCode;
use crate::pdu::function_code::FunctionCode;
use vstd::prelude::*;

verus! {

/// A protocol business rule a complete buffer broke.
#[derive(Debug, Clone, Copy, PartialEq, Eq)]
pub enum ExceptionError {
    IllegalDataAddress(u16),
    IllegalDataValue,
}

/// Encoding failed; the destination buffer is too small.  More room fixes it.
#[derive(Debug, Clone, Copy, PartialEq, Eq)]
pub enum EncodeError {
    InvalidBufferSize,
}

/// Decoding failed.
#[derive(Debug, Clone, Copy, PartialEq, Eq)]
pub enum DecodeError {
    /// The buffer may still become a valid frame: retry once it holds at
    /// least `min_needed_size` bytes.
    IncompleteBuffer { current_size: usize, min_needed_size: usize },
    /// The bytes are complete but break a business rule of the named
    /// function; more bytes would not fix it.
    ModbusExceptionError(FunctionCode, ExceptionError),
    /// The peer reported a device exception for the named function; an
    /// unrecognized exception byte is kept raw.
    ModbusExceptionCode(FunctionCode, Result<ExceptionCode, u8>),
}

/// An incomplete-buffer error for a buffer of `current` bytes of which at
/// least `min_needed` are needed.
pub open spec fn spec_incomplete(current: int, min_needed: int) -> DecodeError {
    DecodeError::IncompleteBuffer {
        current_size: current as usize,
        min_needed_size: min_needed as usize,
    }
}

} // verus!
