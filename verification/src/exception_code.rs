//! The exception codes a Modbus device reports inside an exception response.

use vstd::prelude::*;

verus! {

/// A standard device-reported exception code.
#[derive(Debug, PartialEq, Eq, Clone, Copy, Structural)]
pub enum ExceptionCode {
    IllegalFunction,
    IllegalDataAddress,
    IllegalDataValue,
    ServerDeviceFailure,
    Acknowledge,
    ServerDeviceBusy,
    MemoryParityError,
    GatewayPathUnavailable,
    GatewayTargetDeviceFailedToRespond,
}

/// The wire byte of an exception code.
pub open spec fn spec_exception_code_byte(code: ExceptionCode) -> u8 {
    match code {
        ExceptionCode::IllegalFunction => 0x01,
        ExceptionCode::IllegalDataAddress => 0x02,
        ExceptionCode::IllegalDataValue => 0x03,
        ExceptionCode::ServerDeviceFailure => 0x04,
        ExceptionCode::Acknowledge => 0x05,
        ExceptionCode::ServerDeviceBusy => 0x06,
        ExceptionCode::MemoryParityError => 0x08,
        ExceptionCode::GatewayPathUnavailable => 0x0a,
        ExceptionCode::GatewayTargetDeviceFailedToRespond => 0x0b,
    }
}

/// The exception code a wire byte names; an unrecognized byte comes back
/// unchanged as the error, so no information is dropped.
pub open spec fn spec_exception_code_of_byte(byte: u8) -> Result<ExceptionCode, u8> {
    if byte == 0x01 {
        Ok(ExceptionCode::IllegalFunction)
    } else if byte == 0x02 {
        Ok(ExceptionCode::IllegalDataAddress)
    } else if byte == 0x03 {
        Ok(ExceptionCode::IllegalDataValue)
    } else if byte == 0x04 {
        Ok(ExceptionCode::ServerDeviceFailure)
    } else if byte == 0x05 {
        Ok(ExceptionCode::Acknowledge)
    } else if byte == 0x06 {
        Ok(ExceptionCode::ServerDeviceBusy)
    } else if byte == 0x08 {
        Ok(ExceptionCode::MemoryParityError)
    } else if byte == 0x0a {
        Ok(ExceptionCode::GatewayPathUnavailable)
    } else if byte == 0x0b {
        Ok(ExceptionCode::GatewayTargetDeviceFailedToRespond)
    } else {
        Err(byte)
    }
}

impl ExceptionCode {
    /// The exception code a wire byte names, or the byte itself.
    pub fn try_from(byte: u8) -> (r: Result<ExceptionCode, u8>)
        ensures
            r == spec_exception_code_of_byte(byte),
    {
        match byte {
            0x01 => Ok(ExceptionCode::IllegalFunction),
            0x02 => Ok(ExceptionCode::IllegalDataAddress),
            0x03 => Ok(ExceptionCode::IllegalDataValue),
            0x04 => Ok(ExceptionCode::ServerDeviceFailure),
            0x05 => Ok(ExceptionCode::Acknowledge),
            0x06 => Ok(ExceptionCode::ServerDeviceBusy),
            0x08 => Ok(ExceptionCode::MemoryParityError),
            0x0a => Ok(ExceptionCode::GatewayPathUnavailable),
            0x0b => Ok(ExceptionCode::GatewayTargetDeviceFailedToRespond),
            _ => Err(byte),
        }
    }

    /// The wire byte of this exception code.
    pub fn to_byte(self) -> (r: u8)
        ensures
            r == spec_exception_code_byte(self),
    {
        match self {
            ExceptionCode::IllegalFunction => 0x01,
            ExceptionCode::IllegalDataAddress => 0x02,
            ExceptionCode::IllegalDataValue => 0x03,
            ExceptionCode::ServerDeviceFailure => 0x04,
            ExceptionCode::Acknowledge => 0x05,
            ExceptionCode::ServerDeviceBusy => 0x06,
            ExceptionCode::MemoryParityError => 0x08,
            ExceptionCode::GatewayPathUnavailable => 0x0a,
            ExceptionCode::GatewayTargetDeviceFailedToRespond => 0x0b,
        }
    }
}

} // verus!
