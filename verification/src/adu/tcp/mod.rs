//! The Modbus TCP framing: the MBAP header followed by the PDU.

pub mod header;
pub mod request;
pub mod response;
