//! The Modbus function codes: the ten standard codes plus an escape for
//! vendor-specific codes below the exception marker.

use vstd::prelude::*;

verus! {

/// A Modbus function code.  Bytes `0x80` and above are never function codes:
/// they mark an exception response layered on the code without its high bit.
#[derive(Debug, PartialEq, Eq, Clone, Copy, Structural)]
pub enum FunctionCode {
    ReadCoils,
    ReadDiscreteInput,
    ReadHoldingRegisters,
    ReadInputRegisters,
    WriteSingleCoil,
    WriteSingleRegister,
    WriteMultipleCoils,
    WriteMultipleRegisters,
    MaskWriteRegister,
    ReadWriteMultipleRegisters,
    Custom(u8),
}

/// The wire byte of a function code.
pub open spec fn spec_function_code_byte(code: FunctionCode) -> u8 {
    match code {
        FunctionCode::ReadCoils => 0x01,
        FunctionCode::ReadDiscreteInput => 0x02,
        FunctionCode::ReadHoldingRegisters => 0x03,
        FunctionCode::ReadInputRegisters => 0x04,
        FunctionCode::WriteSingleCoil => 0x05,
        FunctionCode::WriteSingleRegister => 0x06,
        FunctionCode::WriteMultipleCoils => 0x0f,
        FunctionCode::WriteMultipleRegisters => 0x10,
        FunctionCode::MaskWriteRegister => 0x16,
        FunctionCode::ReadWriteMultipleRegisters => 0x17,
        FunctionCode::Custom(code) => code,
    }
}

/// The function code a wire byte below `0x80` names: a standard code, or
/// `Custom` carrying the byte itself.
pub open spec fn spec_function_code_of_byte(byte: u8) -> FunctionCode {
    if byte == 0x01 {
        FunctionCode::ReadCoils
    } else if byte == 0x02 {
        FunctionCode::ReadDiscreteInput
    } else if byte == 0x03 {
        FunctionCode::ReadHoldingRegisters
    } else if byte == 0x04 {
        FunctionCode::ReadInputRegisters
    } else if byte == 0x05 {
        FunctionCode::WriteSingleCoil
    } else if byte == 0x06 {
        FunctionCode::WriteSingleRegister
    } else if byte == 0x0f {
        FunctionCode::WriteMultipleCoils
    } else if byte == 0x10 {
        FunctionCode::WriteMultipleRegisters
    } else if byte == 0x16 {
        FunctionCode::MaskWriteRegister
    } else if byte == 0x17 {
        FunctionCode::ReadWriteMultipleRegisters
    } else {
        FunctionCode::Custom(byte)
    }
}

/// Whether a code is one a decoder can yield: every code but a `Custom` that
/// shadows a standard byte or carries the exception marker.
pub open spec fn spec_function_code_canonical(code: FunctionCode) -> bool {
    match code {
        FunctionCode::Custom(byte) => byte < 0x80 && spec_function_code_of_byte(byte)
            == FunctionCode::Custom(byte),
        _ => true,
    }
}

/// Reading the wire byte of a canonical code gives the code back.
pub proof fn lemma_function_code_round_trip(code: FunctionCode)
    requires
        spec_function_code_canonical(code),
    ensures
        spec_function_code_byte(code) < 0x80,
        spec_function_code_of_byte(spec_function_code_byte(code)) == code,
{
}

impl FunctionCode {
    /// The function code a wire byte names; bytes in the exception range
    /// (`0x80` and above) come back unchanged as the error.
    pub fn try_from(byte: u8) -> (r: Result<FunctionCode, u8>)
        ensures
            byte < 0x80 ==> r == Ok::<FunctionCode, u8>(spec_function_code_of_byte(byte)),
            byte >= 0x80 ==> r == Err::<FunctionCode, u8>(byte),
    {
        if byte >= 0x80 {
            Err(byte)
        } else {
            Ok(Self::of_byte(byte))
        }
    }

    /// The function code a byte below the exception marker names.
    pub fn of_byte(byte: u8) -> (r: FunctionCode)
        requires
            byte < 0x80,
        ensures
            r == spec_function_code_of_byte(byte),
    {
        match byte {
            0x01 => FunctionCode::ReadCoils,
            0x02 => FunctionCode::ReadDiscreteInput,
            0x03 => FunctionCode::ReadHoldingRegisters,
            0x04 => FunctionCode::ReadInputRegisters,
            0x05 => FunctionCode::WriteSingleCoil,
            0x06 => FunctionCode::WriteSingleRegister,
            0x0f => FunctionCode::WriteMultipleCoils,
            0x10 => FunctionCode::WriteMultipleRegisters,
            0x16 => FunctionCode::MaskWriteRegister,
            0x17 => FunctionCode::ReadWriteMultipleRegisters,
            _ => FunctionCode::Custom(byte),
        }
    }

    /// The wire byte of this code.
    pub fn to_byte(self) -> (r: u8)
        ensures
            r == spec_function_code_byte(self),
    {
        match self {
            FunctionCode::ReadCoils => 0x01,
            FunctionCode::ReadDiscreteInput => 0x02,
            FunctionCode::ReadHoldingRegisters => 0x03,
            FunctionCode::ReadInputRegisters => 0x04,
            FunctionCode::WriteSingleCoil => 0x05,
            FunctionCode::WriteSingleRegister => 0x06,
            FunctionCode::WriteMultipleCoils => 0x0f,
            FunctionCode::WriteMultipleRegisters => 0x10,
            FunctionCode::MaskWriteRegister => 0x16,
            FunctionCode::ReadWriteMultipleRegisters => 0x17,
            FunctionCode::Custom(code) => code,
        }
    }
}

} // verus!
