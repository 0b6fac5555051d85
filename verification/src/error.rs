//! Error kinds reported by the programmer.

use vstd::prelude::*;
use vstd::string::*;

verus! {

/// What went wrong during a programming run. The four kinds are flat: none wraps another.
#[derive(Debug, Clone, PartialEq, Eq)]
pub enum AvrError {
    /// The serial link failed: the port could not be opened, read or written, the reader
    /// worker went away, or the device stayed silent past its deadline.
    Communication(String),
    /// The firmware image could not be obtained or cannot be loaded into flash.
    FirmwareError(String),
    /// The bootloader conversation went off script: wrong signature, unexpected response
    /// bytes, or a malformed HEX record.
    ProgrammerError(String),
    /// No usable serial port or protocol parameters.
    ConfigurationError(String),
}

pub type AvrResult<T> = Result<T, AvrError>;

/// An error with its message as a sequence of characters.
pub enum AvrErrorView {
    Communication(Seq<char>),
    FirmwareError(Seq<char>),
    ProgrammerError(Seq<char>),
    ConfigurationError(Seq<char>),
}

impl View for AvrError {
    type V = AvrErrorView;

    open spec fn view(&self) -> AvrErrorView {
        match self {
            AvrError::Communication(m) => AvrErrorView::Communication(m@),
            AvrError::FirmwareError(m) => AvrErrorView::FirmwareError(m@),
            AvrError::ProgrammerError(m) => AvrErrorView::ProgrammerError(m@),
            AvrError::ConfigurationError(m) => AvrErrorView::ConfigurationError(m@),
        }
    }
}

/// A result with the value and the error each taken by its view.
pub open spec fn result_view<T: View>(result: AvrResult<T>) -> Result<T::V, AvrErrorView> {
    match result {
        Ok(value) => Ok(value@),
        Err(error) => Err(error@),
    }
}

impl AvrError {
    /// The text carried by the error, whatever its kind.
    pub open spec fn spec_message(&self) -> Seq<char> {
        match self {
            AvrError::Communication(m) => m@,
            AvrError::FirmwareError(m) => m@,
            AvrError::ProgrammerError(m) => m@,
            AvrError::ConfigurationError(m) => m@,
        }
    }

    /// The heading under which an error of this kind is shown.
    pub open spec fn spec_heading(&self) -> Seq<char> {
        match self {
            AvrError::Communication(_) => "Communication error: "@,
            AvrError::FirmwareError(_) => "Firmware error: "@,
            AvrError::ProgrammerError(_) => "Programmer error: "@,
            AvrError::ConfigurationError(_) => "Configuration error: "@,
        }
    }

    /// The text carried by the error.
    pub fn message(&self) -> (m: &String)
        ensures
            m@ == self.spec_message(),
    {
        match self {
            AvrError::Communication(m) => m,
            AvrError::FirmwareError(m) => m,
            AvrError::ProgrammerError(m) => m,
            AvrError::ConfigurationError(m) => m,
        }
    }

    /// The error as shown to a person: the heading of its kind, then its message.
    pub fn to_string(&self) -> (text: String)
        ensures
            text@ == self.spec_heading() + self.spec_message(),
    {
        let heading = match self {
            AvrError::Communication(_) => "Communication error: ",
            AvrError::FirmwareError(_) => "Firmware error: ",
            AvrError::ProgrammerError(_) => "Programmer error: ",
            AvrError::ConfigurationError(_) => "Configuration error: ",
        };
        String::from_str(heading).concat(self.message().as_str())
    }
}

} // verus!
