//! Application Data Units: a transport header composed with a PDU.

pub mod tcp;
