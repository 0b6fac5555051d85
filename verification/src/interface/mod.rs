//! How the programmer reaches the board.

use vstd::prelude::*;

pub mod serialport;

use serialport::{BaudRate, ComPort};

verus! {

/// A serial port as a caller names it. Whatever is left open is filled in from the
/// board catalog.
#[derive(Debug, Clone, PartialEq, Eq)]
pub struct ComPortParams {
    /// The port's name; found by USB product id where none is given.
    pub port: Option<ComPort>,
    /// The speed of the link; usually fixed by the kind of board.
    pub baud: Option<BaudRate>,
}

/// The kinds of link to a board.
#[derive(Debug, Clone, PartialEq, Eq)]
pub enum DeviceInterfaceType {
    /// A serial port, real or provided by a USB adapter.
    VirtualComPort(ComPortParams),
}

} // verus!
