//! STK500 version 2, the framed protocol of the mega-class boards. Only the parameters
//! of such a board are described here.

use vstd::prelude::*;

verus! {

/// What the protocol needs to know about a board.
#[derive(Debug, Clone, PartialEq, Eq)]
pub struct Stk500v2Params {
    /// Name of the serial port the board is attached to.
    pub port: String,
    /// Speed of the serial link.
    pub baud: u32,
    /// The three signature bytes the chip must report.
    pub device_signature: Vec<u8>,
    /// Size of a flash page in bytes.
    pub page_size: u16,
    /// USB product ids under which the board's serial adapter may appear.
    pub product_id: Vec<u16>,
}

/// `Stk500v2Params` over sequences.
pub struct Stk500v2ParamsView {
    pub port: Seq<char>,
    pub baud: u32,
    pub device_signature: Seq<u8>,
    pub page_size: u16,
    pub product_id: Seq<u16>,
}

impl View for Stk500v2Params {
    type V = Stk500v2ParamsView;

    open spec fn view(&self) -> Stk500v2ParamsView {
        Stk500v2ParamsView {
            port: self.port@,
            baud: self.baud,
            device_signature: self.device_signature@,
            page_size: self.page_size,
            product_id: self.product_id@,
        }
    }
}

} // verus!
