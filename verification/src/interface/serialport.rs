//! The serial link: how the port is set up, how the chip is reset over the control
//! lines, and what a read of the port comes to.

use crate::constants::{POST_RESET_BOOTUP_DELAY_MS, RESET_DTR_RTS_LOW_MICROS, SERIAL_TIMEOUT_MS};
use crate::error::{AvrError, AvrErrorView, AvrResult};
use crate::util::copy_range;
use vstd::prelude::*;

verus! {

pub type ComPort = String;

pub type BaudRate = u32;

/// One step of a reset: drive a control line, or wait.
#[derive(Debug, Clone, Copy, PartialEq, Eq, Structural)]
pub enum LineStep {
    /// Assert (`true`) or deassert (`false`) Data Terminal Ready.
    SetDtr(bool),
    /// Assert (`true`) or deassert (`false`) Request To Send.
    SetRts(bool),
    /// Do nothing for so many microseconds.
    SleepMicros(u64),
}

/// How one read of the port ended.
#[derive(Debug, Clone, PartialEq, Eq)]
pub enum ReadOutcome {
    /// So many bytes were placed at the start of the buffer.
    Read(usize),
    /// Nothing came before the read timed out.
    TimedOut,
    /// The operating system reported an error, described by the text.
    Failed(String),
}

/// The microseconds slept in the steps `from` up to, not including, `to`.
pub open spec fn slept_between(plan: Seq<LineStep>, from: int, to: int) -> nat
    decreases to - from,
{
    if from >= to {
        0
    } else {
        slept_between(plan, from, to - 1) + match plan[to - 1] {
            LineStep::SleepMicros(micros) => micros as nat,
            _ => 0,
        }
    }
}

/// The step drives DTR, either way.
pub open spec fn drives_dtr(step: LineStep) -> bool {
    step is SetDtr
}

/// The step drives RTS, either way.
pub open spec fn drives_rts(step: LineStep) -> bool {
    step is SetRts
}

/// Step `j` of the plan asserts a line that step `d` (for DTR) or `r` (for RTS)
/// deasserted and that no step in between has driven; by then the other line has been
/// deasserted too, and since either deassertion at least `low_micros` microseconds have
/// been slept.
pub open spec fn held_low_before(plan: Seq<LineStep>, d: int, r: int, j: int, low_micros: nat) -> bool {
    &&& 0 <= d < j
    &&& 0 <= r < j
    &&& plan[d] == LineStep::SetDtr(false)
    &&& plan[r] == LineStep::SetRts(false)
    &&& slept_between(plan, d + 1, j) >= low_micros
    &&& slept_between(plan, r + 1, j) >= low_micros
    &&& plan[j] == LineStep::SetDtr(true) ==> forall|k: int| d < k < j ==> !drives_dtr(#[trigger] plan[k])
    &&& plan[j] == LineStep::SetRts(true) ==> forall|k: int| r < k < j ==> !drives_rts(#[trigger] plan[k])
}

/// Wherever the plan asserts a line, both lines have been deasserted before, the line
/// has stayed so, and at least `low_micros` microseconds have been slept in between.
pub open spec fn deasserts_before_asserting(plan: Seq<LineStep>, low_micros: nat) -> bool {
    forall|j: int|
        0 <= j < plan.len() && (#[trigger] plan[j] == LineStep::SetDtr(true) || plan[j] == LineStep::SetRts(true))
            ==> exists|d: int, r: int| held_low_before(plan, d, r, j, low_micros)
}

/// The reset that drops the chip into its bootloader: both lines low, a short wait,
/// both lines high, and a wait for the bootloader to come up.
pub open spec fn reset_sequence() -> Seq<LineStep> {
    seq![
        LineStep::SetDtr(false),
        LineStep::SetRts(false),
        LineStep::SleepMicros(100),
        LineStep::SetDtr(true),
        LineStep::SetRts(true),
        LineStep::SleepMicros(250_000),
    ]
}

/// How the serial port of a board is to be opened and used. The framing is the common
/// one: eight data bits, no parity, one stop bit.
#[derive(Debug, Clone, PartialEq, Eq)]
pub struct SerialPortDevice {
    port: ComPort,
    baud: BaudRate,
    timeout_ms: u64,
    dtr_on_open: bool,
}

impl SerialPortDevice {
    /// The name of the port.
    pub closed spec fn spec_port(&self) -> Seq<char> {
        self.port@
    }

    /// The speed of the link.
    pub closed spec fn spec_baud(&self) -> u32 {
        self.baud
    }

    /// How long one read may wait, in milliseconds.
    pub closed spec fn spec_timeout_ms(&self) -> u64 {
        self.timeout_ms
    }

    /// Whether DTR is asserted when the port is opened.
    pub closed spec fn spec_dtr_on_open(&self) -> bool {
        self.dtr_on_open
    }

    /// The link to the board on `port` at `baud`: reads wait one millisecond at most, and
    /// DTR stays low when the port is opened, so that opening it does not reset the chip.
    pub fn new(port: ComPort, baud: BaudRate) -> (device: SerialPortDevice)
        ensures
            device.spec_port() == port@,
            device.spec_baud() == baud,
            device.spec_timeout_ms() == SERIAL_TIMEOUT_MS,
            !device.spec_dtr_on_open(),
    {
        SerialPortDevice { port, baud, timeout_ms: SERIAL_TIMEOUT_MS, dtr_on_open: false }
    }

    /// The name of the port.
    pub fn port(&self) -> (port: &ComPort)
        ensures
            port@ == self.spec_port(),
    {
        &self.port
    }

    /// The speed of the link.
    pub fn baud(&self) -> (baud: BaudRate)
        ensures
            baud == self.spec_baud(),
    {
        self.baud
    }

    /// How long one read may wait, in milliseconds.
    pub fn timeout_ms(&self) -> (timeout: u64)
        ensures
            timeout == self.spec_timeout_ms(),
    {
        self.timeout_ms
    }

    /// Whether DTR is asserted when the port is opened.
    pub fn dtr_on_open(&self) -> (asserted: bool)
        ensures
            asserted == self.spec_dtr_on_open(),
    {
        self.dtr_on_open
    }

    /// The steps of a reset, to be carried out in order. Both lines are deasserted
    /// before either is asserted again, with at least `RESET_DTR_RTS_LOW_MICROS` between.
    pub fn reset(&self) -> (plan: Vec<LineStep>)
        ensures
            plan@ == reset_sequence(),
            deasserts_before_asserting(plan@, RESET_DTR_RTS_LOW_MICROS as nat),
    {
        let mut plan: Vec<LineStep> = Vec::new();
        plan.push(LineStep::SetDtr(false));
        plan.push(LineStep::SetRts(false));
        plan.push(LineStep::SleepMicros(RESET_DTR_RTS_LOW_MICROS));
        plan.push(LineStep::SetDtr(true));
        plan.push(LineStep::SetRts(true));
        plan.push(LineStep::SleepMicros(POST_RESET_BOOTUP_DELAY_MS * 1000));
        proof {
            let steps = plan@;
            reveal_with_fuel(slept_between, 5);
            assert(held_low_before(steps, 0, 1, 3, 100));
            assert(held_low_before(steps, 0, 1, 4, 100));
        }
        plan
    }

    /// What a read of the port comes to. `buffer` is the buffer that was handed to the
    /// read. A timeout is no error: it yields no bytes. Any other failure is a
    /// communication error with the system's description as its message.
    pub fn receive(&self, buffer: &[u8], outcome: ReadOutcome) -> (received: AvrResult<Vec<u8>>)
        ensures
            match outcome {
                ReadOutcome::Read(size) => received is Ok && received->Ok_0@ == buffer@.take(
                    if size <= buffer@.len() {
                        size as int
                    } else {
                        buffer@.len() as int
                    },
                ),
                ReadOutcome::TimedOut => received is Ok && received->Ok_0@ == Seq::<u8>::empty(),
                ReadOutcome::Failed(reason) => received is Err && received->Err_0@
                    == AvrErrorView::Communication(reason@),
            },
    {
        match outcome {
            ReadOutcome::Read(size) => {
                let kept = if size <= buffer.len() {
                    size
                } else {
                    buffer.len()
                };
                Ok(copy_range(buffer, 0, kept))
            },
            ReadOutcome::TimedOut => Ok(Vec::new()),
            ReadOutcome::Failed(reason) => Err(AvrError::Communication(reason)),
        }
    }
}

} // verus!
