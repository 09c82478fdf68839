//! A verified codec for the Modbus wire protocol.
//!
//! The crate turns byte buffers into typed, validated requests and responses
//! and typed values back into bytes.  Decoding distinguishes buffers that are
//! merely too short (more bytes may arrive) from buffers that break a protocol
//! rule, and from device-reported exceptions.

pub mod adu;
pub mod error;
pub mod exception_code;
pub mod pdu;
mod wire;
