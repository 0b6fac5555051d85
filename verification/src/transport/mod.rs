//! Framing on top of the raw link: reads come in chunks of any length, the protocol
//! wants responses of a known length.

pub mod serialport;
