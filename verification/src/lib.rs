//! Programs AVR microcontrollers that run an STK500-compatible bootloader.
//!
//! The crate holds the decisions of a programming run and leaves the serial port to its
//! caller. A [`Programmer`] is made for a board; given an image, it hands out a protocol
//! engine, [`protocols::stk500v1::Stk500v1`]. The caller carries out what the engine asks
//! for (reset the chip, send a frame and collect the response) and reports back what
//! happened, until the engine says that the run is done or has failed.

use vstd::prelude::*;
use vstd::string::*;

pub mod boards;
pub mod constants;
pub mod error;
pub mod hex;
pub mod interface;
pub mod protocols;
pub mod transport;
pub mod util;

pub use boards::Microcontroller;
use boards::{protocol_for_mcu, spec_protocol_for_mcu, PortInfo};
use error::{result_view, AvrError, AvrErrorView, AvrResult};
use hex::{hex_lines, line_views, spec_image_from_lines, HexLine, HexLineView};
use interface::DeviceInterfaceType;
use protocols::stk500v1::{spec_new, EngineView, Stk500v1, Stk500v1Params, Stk500v1ParamsView};
use protocols::stk500v2::{Stk500v2Params, Stk500v2ParamsView};

verus! {

/// A protocol together with its parameters for one board.
#[derive(Debug, Clone, PartialEq, Eq)]
pub enum ProtocolType {
    /// The byte protocol of the classic bootloaders.
    Stk500v1(Stk500v1Params),
    /// The framed protocol of the mega-class boards.
    Stk500v2(Stk500v2Params),
}

/// `ProtocolType` over sequences.
pub enum ProtocolView {
    Stk500v1(Stk500v1ParamsView),
    Stk500v2(Stk500v2ParamsView),
}

impl View for ProtocolType {
    type V = ProtocolView;

    open spec fn view(&self) -> ProtocolView {
        match self {
            ProtocolType::Stk500v1(params) => ProtocolView::Stk500v1(params@),
            ProtocolType::Stk500v2(params) => ProtocolView::Stk500v2(params@),
        }
    }
}

/// A programmer as a mathematical value.
pub struct ProgrammerView {
    /// The parameters of the board.
    pub params: Stk500v1ParamsView,
    /// Whether the image is read back after it is written.
    pub verify: bool,
    /// Whether a progress bar is wanted.
    pub progress_bar: bool,
}

/// The programmer that a protocol gives: one for STK500v1 with valid parameters, which
/// verifies and shows no progress bar until told otherwise. Anything else is refused as
/// a configuration error.
pub open spec fn spec_from_protocol(protocol: ProtocolView) -> Result<ProgrammerView, AvrErrorView> {
    match protocol {
        ProtocolView::Stk500v1(params) => if params.valid() {
            Ok(ProgrammerView { params, verify: true, progress_bar: false })
        } else {
            Err(AvrErrorView::ConfigurationError("protocol parameters are not valid"@))
        },
        ProtocolView::Stk500v2(_) => Err(AvrErrorView::ConfigurationError("STK500v2 is not supported"@)),
    }
}

/// The programmer for a board: what the catalog answers, made into a programmer.
pub open spec fn spec_programmer_for(
    mcu: Microcontroller,
    interface_type: Option<DeviceInterfaceType>,
    ports: Result<Vec<PortInfo>, String>,
) -> Result<ProgrammerView, AvrErrorView> {
    match spec_protocol_for_mcu(mcu, interface_type, ports) {
        Ok(protocol) => spec_from_protocol(protocol),
        Err(error) => Err(error),
    }
}

/// The engine for a run of `programmer` with `image`: the engine made for the
/// programmer's board and choice of verifying.
pub open spec fn spec_engine_for(programmer: ProgrammerView, image: Seq<u8>) -> Result<EngineView, AvrErrorView> {
    spec_new(programmer.params, image, programmer.verify)
}

/// What programming from HEX lines comes to: the error of the first malformed line, or
/// else the engine for the image that the lines describe.
pub open spec fn spec_engine_for_lines(programmer: ProgrammerView, lines: Seq<HexLineView>) -> Result<
    EngineView,
    AvrErrorView,
> {
    match spec_image_from_lines(lines) {
        Ok(image) => spec_engine_for(programmer, image),
        Err(error) => Err(error),
    }
}

/// Programs the boards of one kind: holds the board's parameters and the two choices of
/// the caller, whether to verify and whether to show progress.
#[derive(Debug)]
pub struct Programmer {
    params: Stk500v1Params,
    verify: bool,
    progress_bar_enable: bool,
}

impl View for Programmer {
    type V = ProgrammerView;

    closed spec fn view(&self) -> ProgrammerView {
        ProgrammerView { params: self.params@, verify: self.verify, progress_bar: self.progress_bar_enable }
    }
}

impl Programmer {
    #[verifier::type_invariant]
    spec fn inv(self) -> bool {
        self.params.valid()
    }

    /// The simplest way to a programmer: for a known board, with the port found among
    /// `ports` by USB product id and every setting the board's own.
    pub fn new(mcu: Microcontroller, ports: &Result<Vec<PortInfo>, String>) -> (made: AvrResult<Programmer>)
        ensures
            result_view(made) == spec_programmer_for(mcu, None, *ports),
    {
        match protocol_for_mcu(mcu, None, ports) {
            Ok(protocol) => Self::from_protocol(protocol),
            Err(error) => Err(error),
        }
    }

    /// A programmer with parameters of the caller's own making, for boards that the
    /// catalog does not know but that speak STK500v1.
    pub fn from_protocol(protocol: ProtocolType) -> (made: AvrResult<Programmer>)
        ensures
            result_view(made) == spec_from_protocol(protocol@),
    {
        match protocol {
            ProtocolType::Stk500v1(params) => {
                if params.is_valid() {
                    Ok(Programmer { params, verify: true, progress_bar_enable: false })
                } else {
                    Err(AvrError::ConfigurationError(String::from_str("protocol parameters are not valid")))
                }
            },
            ProtocolType::Stk500v2(_) => Err(
                AvrError::ConfigurationError(String::from_str("STK500v2 is not supported")),
            ),
        }
    }

    /// A programmer for a known board on a port or at a speed of the caller's choosing.
    /// What `interface` leaves open is filled in as `new` does.
    pub fn from_mcu_and_interface(
        mcu: Microcontroller,
        interface: DeviceInterfaceType,
        ports: &Result<Vec<PortInfo>, String>,
    ) -> (made: AvrResult<Programmer>)
        ensures
            result_view(made) == spec_programmer_for(mcu, Some(interface), *ports),
    {
        match protocol_for_mcu(mcu, Some(interface), ports) {
            Ok(protocol) => Self::from_protocol(protocol),
            Err(error) => Err(error),
        }
    }

    /// Asks for a progress bar during programming and verifying, or for none. None is
    /// shown unless asked for.
    pub fn progress_bar(&mut self, enable: bool)
        ensures
            final(self)@ == (ProgrammerView { progress_bar: enable, ..old(self)@ }),
    {
        proof {
            use_type_invariant(&*self);
        }
        self.progress_bar_enable = enable;
    }

    /// Asks for the image to be read back after programming, or not. It is read back
    /// unless asked otherwise.
    pub fn verify_after_programming(&mut self, enable: bool)
        ensures
            final(self)@ == (ProgrammerView { verify: enable, ..old(self)@ }),
    {
        proof {
            use_type_invariant(&*self);
        }
        self.verify = enable;
    }

    /// The parameters of the board.
    pub fn params(&self) -> (params: &Stk500v1Params)
        ensures
            params@ == self@.params,
            params.valid(),
    {
        proof {
            use_type_invariant(self);
        }
        &self.params
    }

    /// Whether the image is read back after programming.
    pub fn verifies(&self) -> (verify: bool)
        ensures
            verify == self@.verify,
    {
        self.verify
    }

    /// Whether a progress bar is wanted.
    pub fn shows_progress(&self) -> (wanted: bool)
        ensures
            wanted == self@.progress_bar,
    {
        self.progress_bar_enable
    }

    /// Reads Intel HEX text into the flat image it describes.
    pub fn parse_intel_hex(&self, hex_content: &str) -> (outcome: AvrResult<Vec<u8>>)
        ensures
            result_view(outcome) == spec_image_from_lines(hex_lines(hex_content@, false, true)),
    {
        hex::parse_intel_hex(hex_content)
    }

    /// Prepares a run that programs the image described by HEX lines already read.
    pub fn program_hex_lines(&self, lines: &Vec<HexLine>) -> (engine: AvrResult<Stk500v1>)
        ensures
            self@.params.valid(),
            result_view(engine) == spec_engine_for_lines(self@, line_views(lines@)),
    {
        proof {
            use_type_invariant(self);
        }
        match hex::image_from_lines(lines) {
            Ok(bin) => self.program_binary(bin),
            Err(error) => Err(error),
        }
    }

    /// Prepares a run that programs the image given as Intel HEX text, as read from a
    /// `.hex` file.
    pub fn program_hex_buffer(&self, hex_content: &str) -> (engine: AvrResult<Stk500v1>)
        ensures
            self@.params.valid(),
            result_view(engine) == spec_engine_for_lines(self@, hex_lines(hex_content@, false, true)),
    {
        let lines = hex::read_hex_lines(hex_content);
        self.program_hex_lines(&lines)
    }

    /// Prepares a run that programs the image `bin`.
    pub fn program_binary(&self, bin: Vec<u8>) -> (engine: AvrResult<Stk500v1>)
        ensures
            self@.params.valid(),
            result_view(engine) == spec_engine_for(self@, bin@),
    {
        proof {
            use_type_invariant(self);
        }
        Stk500v1::new(&self.params, bin.as_slice(), self.verify)
    }
}

} // verus!
