//! STK500 version 1: the byte protocol of the classic Arduino bootloaders.
//!
//! Every command frame ends with `SYNC_CRC_EOP` (0x20). Every good response starts with
//! `RESP_IN_SYNC` (0x14), may carry a payload, and ends with `RESP_OK` (0x10). The
//! protocol is strictly lock-step: one frame out, one response in, then the next frame.

use crate::constants::{PROGRAM_DEADLINE_MS, SYNC_DEADLINE_MS};
use crate::error::{result_view, AvrError, AvrErrorView, AvrResult};
use crate::protocols::frames::{
    exchange_views, mismatch_text, program_firmware, program_script, Exchange, ExchangeView,
};
use crate::protocols::paging::{count_pages, lemma_page_count_is_ceiling, page_count, MAX_IMAGE_BYTES};
use crate::util::{copy_range, starts_with};
use vstd::prelude::*;
use vstd::string::*;

verus! {

/// The single-byte codes of the protocol.
#[derive(Debug, Clone, Copy, PartialEq, Eq)]
pub enum Stk500v1Message {
    /// Closes every good response.
    RespStkOk,
    /// Opens every good response.
    RespStkInSync,
    /// Closes every command frame.
    SyncCrcEop,
    /// Get in sync with the bootloader.
    CmndStkGetSync,
    /// Set the device parameters.
    CmndStkSetDevice,
    /// Enter programming mode.
    CmndStkEnterProgMode,
    /// Leave programming mode.
    CmndStkLeaveProgMode,
    /// Load the word address for the next page command.
    CmndStkLoadAddress,
    /// Write a page.
    CmndStkProgPage,
    /// Read a page.
    CmndStkReadPage,
    /// Read the signature bytes.
    CmndStkReadSign,
}

impl Stk500v1Message {
    /// The byte that stands for the message on the wire.
    pub open spec fn spec_code(self) -> u8 {
        match self {
            Stk500v1Message::RespStkOk => 0x10,
            Stk500v1Message::RespStkInSync => 0x14,
            Stk500v1Message::SyncCrcEop => 0x20,
            Stk500v1Message::CmndStkGetSync => 0x30,
            Stk500v1Message::CmndStkSetDevice => 0x42,
            Stk500v1Message::CmndStkEnterProgMode => 0x50,
            Stk500v1Message::CmndStkLeaveProgMode => 0x51,
            Stk500v1Message::CmndStkLoadAddress => 0x55,
            Stk500v1Message::CmndStkProgPage => 0x64,
            Stk500v1Message::CmndStkReadPage => 0x74,
            Stk500v1Message::CmndStkReadSign => 0x75,
        }
    }

    /// The byte that stands for the message on the wire.
    #[verifier::when_used_as_spec(spec_code)]
    pub fn code(self) -> (c: u8)
        ensures
            c == self.spec_code(),
    {
        match self {
            Stk500v1Message::RespStkOk => 0x10,
            Stk500v1Message::RespStkInSync => 0x14,
            Stk500v1Message::SyncCrcEop => 0x20,
            Stk500v1Message::CmndStkGetSync => 0x30,
            Stk500v1Message::CmndStkSetDevice => 0x42,
            Stk500v1Message::CmndStkEnterProgMode => 0x50,
            Stk500v1Message::CmndStkLeaveProgMode => 0x51,
            Stk500v1Message::CmndStkLoadAddress => 0x55,
            Stk500v1Message::CmndStkProgPage => 0x64,
            Stk500v1Message::CmndStkReadPage => 0x74,
            Stk500v1Message::CmndStkReadSign => 0x75,
        }
    }
}

/// What the protocol needs to know about a board.
#[derive(Debug, Clone, PartialEq, Eq)]
pub struct Stk500v1Params {
    /// Name of the serial port the board is attached to.
    pub port: String,
    /// Speed of the serial link.
    pub baud: u32,
    /// The three signature bytes the chip must report.
    pub device_signature: Vec<u8>,
    /// Size of a flash page in bytes.
    pub page_size: u16,
    /// Number of flash pages.
    pub num_pages: u16,
    /// USB product ids under which the board's serial adapter may appear.
    pub product_id: Vec<u16>,
}

/// `Stk500v1Params` over sequences.
pub struct Stk500v1ParamsView {
    pub port: Seq<char>,
    pub baud: u32,
    pub device_signature: Seq<u8>,
    pub page_size: u16,
    pub num_pages: u16,
    pub product_id: Seq<u16>,
}

impl View for Stk500v1Params {
    type V = Stk500v1ParamsView;

    open spec fn view(&self) -> Stk500v1ParamsView {
        Stk500v1ParamsView {
            port: self.port@,
            baud: self.baud,
            device_signature: self.device_signature@,
            page_size: self.page_size,
            num_pages: self.num_pages,
            product_id: self.product_id@,
        }
    }
}

impl Stk500v1ParamsView {
    /// The parameters describe a board that can be programmed: a signature of three
    /// bytes and a page size that is positive and even.
    pub open spec fn valid(self) -> bool {
        &&& self.device_signature.len() == 3
        &&& self.page_size > 0
        &&& self.page_size % 2 == 0
    }
}

impl Stk500v1Params {
    /// The parameters describe a board that can be programmed: a signature of three
    /// bytes and a page size that is positive and even.
    pub open spec fn valid(&self) -> bool {
        self@.valid()
    }

    /// Tells whether the parameters describe a board that can be programmed.
    pub fn is_valid(&self) -> (yes: bool)
        ensures
            yes == self.valid(),
    {
        self.device_signature.len() == 3 && self.page_size > 0 && self.page_size % 2 == 0
    }
}

/// How often the sync exchange is tried before the run is given up.
pub const SYNC_ATTEMPTS: u8 = 3;

/// The pause before a repeated sync, in milliseconds.
pub const SYNC_RETRY_PAUSE_MS: u64 = 50;

/// How far a programming run has come. A run moves down this list and never back;
/// any failure leads to `Failed`, from which there is no way on.
#[derive(Debug, Clone, Copy, PartialEq, Eq, Structural)]
pub enum Phase {
    /// Nothing has happened yet.
    Idle,
    /// The reset of the chip has been asked for.
    Reset,
    /// The chip has been reset; sync and signature are being exchanged.
    Syncing,
    /// The chip has shown the expected signature.
    Identified,
    /// The device parameters have been accepted.
    Configured,
    /// The chip is in programming mode and pages are being written.
    Programming,
    /// All pages are written and are being read back.
    Verifying,
    /// The chip has left programming mode: the run has succeeded.
    Done,
    /// The run has failed.
    Failed,
}

/// What the outside world reports to the engine.
#[derive(Debug, Clone, PartialEq, Eq)]
pub enum Event {
    /// The run is to begin.
    Start,
    /// The reset that the engine asked for has been carried out.
    ResetDone,
    /// The bytes that arrived in answer to the frame last sent.
    Response(Vec<u8>),
    /// Nothing, or not enough, arrived before the deadline.
    Timeout,
    /// The link itself failed.
    Failure(AvrError),
}

/// An `Event` over byte and character sequences.
pub enum EventView {
    Start,
    ResetDone,
    Response(Seq<u8>),
    Timeout,
    Failure(AvrErrorView),
}

impl View for Event {
    type V = EventView;

    open spec fn view(&self) -> EventView {
        match self {
            Event::Start => EventView::Start,
            Event::ResetDone => EventView::ResetDone,
            Event::Response(bytes) => EventView::Response(bytes@),
            Event::Timeout => EventView::Timeout,
            Event::Failure(error) => EventView::Failure(error@),
        }
    }
}

/// What the engine asks the outside world to do next.
#[derive(Debug, Clone, PartialEq, Eq)]
pub enum Action {
    /// Reset the chip into its bootloader, then report `Event::ResetDone`.
    Reset,
    /// Wait `pause_millis`, write `command` to the link, collect at least `response_len`
    /// bytes, and report them as `Event::Response`.
    Send { command: Vec<u8>, response_len: usize, pause_millis: u64 },
    /// The run has succeeded; there is nothing left to do.
    Done,
    /// The run has failed with this error; there is nothing left to do.
    Fail(AvrError),
}

/// An `Action` over byte and character sequences.
pub enum ActionView {
    Reset,
    Send { command: Seq<u8>, response_len: nat, pause_millis: nat },
    Done,
    Fail(AvrErrorView),
}

impl View for Action {
    type V = ActionView;

    open spec fn view(&self) -> ActionView {
        match self {
            Action::Reset => ActionView::Reset,
            Action::Send { command, response_len, pause_millis } => ActionView::Send {
                command: command@,
                response_len: *response_len as nat,
                pause_millis: *pause_millis as nat,
            },
            Action::Done => ActionView::Done,
            Action::Fail(error) => ActionView::Fail(error@),
        }
    }
}

/// The engine as a mathematical value.
pub struct EngineView {
    /// The conversation to be held, first exchange first.
    pub script: Seq<ExchangeView>,
    /// The number of pages of the image.
    pub pages: nat,
    /// Whether the image is read back after it is written.
    pub verify: bool,
    /// How far the run has come.
    pub phase: Phase,
    /// Position in the script of the exchange in flight.
    pub cursor: nat,
    /// How often the sync frame has been sent.
    pub sync_attempts: nat,
}

/// An exchange is in flight: a frame is out and its response is awaited.
pub open spec fn in_flight(phase: Phase) -> bool {
    phase is Syncing || phase is Identified || phase is Configured || phase is Programming
        || phase is Verifying
}

/// The number of exchanges in the script of an image of `pages` pages.
pub open spec fn script_len(pages: nat, verify: bool) -> nat {
    if verify {
        5 + 4 * pages
    } else {
        5 + 2 * pages
    }
}

/// The phase of a run whose exchange in flight is the one at `cursor`.
pub open spec fn phase_at(cursor: nat, pages: nat, verify: bool) -> Phase {
    if cursor < 2 {
        Phase::Syncing
    } else if cursor == 2 {
        Phase::Identified
    } else if cursor == 3 {
        Phase::Configured
    } else if cursor < 4 + 2 * pages {
        Phase::Programming
    } else if cursor + 1 < script_len(pages, verify) {
        Phase::Verifying
    } else if cursor + 1 == script_len(pages, verify) {
        if verify && pages > 0 {
            Phase::Verifying
        } else {
            Phase::Programming
        }
    } else {
        Phase::Done
    }
}

impl EngineView {
    /// The state is one that a run can be in.
    pub open spec fn wf(self) -> bool {
        &&& self.script.len() == script_len(self.pages, self.verify)
        &&& self.cursor <= self.script.len()
        &&& self.sync_attempts <= SYNC_ATTEMPTS
        &&& self.phase is Idle || self.phase is Reset ==> self.cursor == 0
        &&& in_flight(self.phase) ==> {
            &&& self.cursor < self.script.len()
            &&& self.phase == phase_at(self.cursor, self.pages, self.verify)
            &&& self.sync_attempts >= 1
        }
    }

    /// The number of pages that the pass under way has finished: written while
    /// programming, read back while verifying. All of them once the run is done.
    pub open spec fn pages_done(self) -> nat {
        match self.phase {
            Phase::Programming => if self.cursor < 4 + 2 * self.pages {
                ((self.cursor - 4) / 2) as nat
            } else {
                self.pages
            },
            Phase::Verifying => if self.cursor < 4 + 4 * self.pages {
                ((self.cursor - 4 - 2 * self.pages) / 2) as nat
            } else {
                self.pages
            },
            Phase::Done => self.pages,
            _ => 0,
        }
    }

    /// How long the response to the frame in flight may take, in milliseconds: a third
    /// of the sync deadline for each of the three sync attempts, and the deadline of the
    /// whole run for any other frame.
    pub open spec fn response_deadline_ms(self) -> nat {
        if self.cursor == 0 {
            (SYNC_DEADLINE_MS / (SYNC_ATTEMPTS as u64)) as nat
        } else {
            PROGRAM_DEADLINE_MS as nat
        }
    }

    /// The state in the given phase.
    pub open spec fn in_phase(self, phase: Phase) -> EngineView {
        EngineView { phase, ..self }
    }

    /// The sync exchange is in flight and may be tried again.
    pub open spec fn may_retry(self) -> bool {
        self.cursor == 0 && self.sync_attempts < SYNC_ATTEMPTS
    }

    /// The request to send the exchange at `cursor` after a pause.
    pub open spec fn send(self, cursor: nat, pause_millis: nat) -> ActionView {
        ActionView::Send {
            command: self.script[cursor as int].command,
            response_len: self.script[cursor as int].expected.len(),
            pause_millis,
        }
    }

    /// The run fails with `error`.
    pub open spec fn fail(self, error: AvrErrorView) -> (EngineView, ActionView) {
        (self.in_phase(Phase::Failed), ActionView::Fail(error))
    }

    /// The sync frame goes out once more, after a pause.
    pub open spec fn retry(self) -> (EngineView, ActionView) {
        (
            EngineView { sync_attempts: self.sync_attempts + 1, ..self },
            self.send(0, SYNC_RETRY_PAUSE_MS as nat),
        )
    }

    /// The exchange in flight has been answered as expected: the next one goes out, or
    /// the run is done.
    pub open spec fn advance(self) -> (EngineView, ActionView) {
        let next = self.cursor + 1;
        if next < self.script.len() {
            (
                EngineView { cursor: next, phase: phase_at(next, self.pages, self.verify), ..self },
                self.send(next, 0),
            )
        } else {
            (EngineView { cursor: next, phase: Phase::Done, ..self }, ActionView::Done)
        }
    }
}

/// The state before a run: nothing sent, everything still to do.
pub open spec fn initial_view(signature: Seq<u8>, page_size: nat, image: Seq<u8>, verify: bool) -> EngineView {
    EngineView {
        script: program_script(signature, page_size, image, verify),
        pages: page_count(image.len(), page_size),
        verify,
        phase: Phase::Idle,
        cursor: 0,
        sync_attempts: 0,
    }
}

/// What making an engine comes to: the state before a run, or the reason for which no
/// run can be made.
pub open spec fn spec_new(params: Stk500v1ParamsView, firmware: Seq<u8>, verify: bool) -> Result<
    EngineView,
    AvrErrorView,
> {
    if !params.valid() {
        Err(AvrErrorView::ConfigurationError("protocol parameters are not valid"@))
    } else if firmware.len() > MAX_IMAGE_BYTES {
        Err(AvrErrorView::FirmwareError("image too large for 16-bit word addresses"@))
    } else {
        Ok(initial_view(params.device_signature, params.page_size as nat, firmware, verify))
    }
}

/// The engine's rule: the state and the request that follow from a state and an event.
///
/// - `Idle` begins on `Start` by asking for a reset.
/// - `Reset` goes on, once the reset is done, to send the first frame, sync.
/// - While an exchange is in flight, a response that begins with the expected bytes
///   moves the run to the next exchange, or to `Done` after the last. Any other response,
///   and a timeout, is retried if it concerns sync and fewer than `SYNC_ATTEMPTS` sync
///   frames have gone out; otherwise the run fails.
/// - A failure of the link fails the run with the error reported.
/// - An event out of turn fails the run.
/// - `Done` and `Failed` are final.
pub open spec fn transition(pre: EngineView, event: EventView) -> (EngineView, ActionView) {
    match pre.phase {
        Phase::Done => (pre, ActionView::Done),
        Phase::Failed => (pre, ActionView::Fail(AvrErrorView::ProgrammerError("the run has failed"@))),
        Phase::Idle => match event {
            EventView::Start => (pre.in_phase(Phase::Reset), ActionView::Reset),
            EventView::Failure(error) => pre.fail(error),
            _ => pre.fail(AvrErrorView::ProgrammerError("event out of turn"@)),
        },
        Phase::Reset => match event {
            EventView::ResetDone => (
                EngineView { phase: Phase::Syncing, cursor: 0, sync_attempts: 1, ..pre },
                pre.send(0, 0),
            ),
            EventView::Timeout => pre.fail(AvrErrorView::Communication("timeout"@)),
            EventView::Failure(error) => pre.fail(error),
            _ => pre.fail(AvrErrorView::ProgrammerError("event out of turn"@)),
        },
        _ => match event {
            EventView::Response(observed) => {
                let expected = pre.script[pre.cursor as int].expected;
                if starts_with(observed, expected) {
                    pre.advance()
                } else if pre.may_retry() {
                    pre.retry()
                } else {
                    pre.fail(AvrErrorView::ProgrammerError(mismatch_text(pre.script[pre.cursor as int], observed)))
                }
            },
            EventView::Timeout => if pre.may_retry() {
                pre.retry()
            } else {
                pre.fail(AvrErrorView::Communication("timeout"@))
            },
            EventView::Failure(error) => pre.fail(error),
            _ => pre.fail(AvrErrorView::ProgrammerError("event out of turn"@)),
        },
    }
}

/// The part of the engine that changes during a run.
#[derive(Debug, Clone, Copy, PartialEq, Eq)]
struct Progress {
    phase: Phase,
    cursor: usize,
    sync_attempts: u8,
}

/// The protocol engine for one programming run: it decides, event by event, what is
/// sent next and when the run has succeeded or failed. It performs no input or output
/// itself.
#[derive(Debug)]
pub struct Stk500v1 {
    script: Vec<Exchange>,
    pages: usize,
    verify: bool,
    progress: Progress,
}

impl View for Stk500v1 {
    type V = EngineView;

    closed spec fn view(&self) -> EngineView {
        EngineView {
            script: exchange_views(self.script@),
            pages: self.pages as nat,
            verify: self.verify,
            phase: self.progress.phase,
            cursor: self.progress.cursor as nat,
            sync_attempts: self.progress.sync_attempts as nat,
        }
    }
}

impl Stk500v1 {
    #[verifier::type_invariant]
    spec fn inv(self) -> bool {
        &&& self@.wf()
        &&& self.pages <= MAX_IMAGE_BYTES
    }

    /// An engine for writing `firmware` to a board described by `params`, and for
    /// reading it back when `verify` is set. Parameters that are not valid are refused
    /// as a configuration error; an image too large to address, as a firmware error.
    pub fn new(params: &Stk500v1Params, firmware: &[u8], verify: bool) -> (made: AvrResult<Stk500v1>)
        ensures
            result_view(made) == spec_new(params@, firmware@, verify),
            made is Ok ==> made->Ok_0@.wf(),
    {
        if !params.is_valid() {
            return Err(
                AvrError::ConfigurationError(String::from_str("protocol parameters are not valid")),
            );
        }
        if firmware.len() > MAX_IMAGE_BYTES {
            return Err(
                AvrError::FirmwareError(String::from_str("image too large for 16-bit word addresses")),
            );
        }
        let script = program_firmware(params.device_signature.as_slice(), params.page_size, firmware, verify);
        let pages = count_pages(firmware.len(), params.page_size);
        proof {
            lemma_page_count_is_ceiling(firmware@.len(), params.page_size as nat);
            let n = page_count(firmware@.len(), params.page_size as nat);
            if n > 0 {
                assert(n - 1 <= (n - 1) * params.page_size) by (nonlinear_arith)
                    requires
                        n >= 1,
                        params.page_size >= 1,
                ;
            }
        }
        Ok(Stk500v1 { script, pages, verify, progress: Progress { phase: Phase::Idle, cursor: 0, sync_attempts: 0 } })
    }

    /// How far the run has come.
    pub fn phase(&self) -> (phase: Phase)
        ensures
            phase == self@.phase,
    {
        self.progress.phase
    }

    /// The number of pages of the image.
    pub fn pages(&self) -> (n: usize)
        ensures
            n == self@.pages,
    {
        self.pages
    }

    /// Whether the image is read back after it is written.
    pub fn verifies(&self) -> (verify: bool)
        ensures
            verify == self@.verify,
    {
        self.verify
    }

    /// The number of pages that the pass under way has finished.
    pub fn pages_done(&self) -> (n: usize)
        ensures
            n == self@.pages_done(),
    {
        proof {
            use_type_invariant(self);
        }
        let cursor = self.progress.cursor;
        match self.progress.phase {
            Phase::Programming => if cursor < 4 + 2 * self.pages {
                (cursor - 4) / 2
            } else {
                self.pages
            },
            Phase::Verifying => if cursor < 4 + 4 * self.pages {
                (cursor - 4 - 2 * self.pages) / 2
            } else {
                self.pages
            },
            Phase::Done => self.pages,
            _ => 0,
        }
    }

    /// How long the response to the frame in flight may take, in milliseconds.
    pub fn response_deadline_ms(&self) -> (deadline: u64)
        ensures
            deadline == self@.response_deadline_ms(),
    {
        if self.progress.cursor == 0 {
            SYNC_DEADLINE_MS / (SYNC_ATTEMPTS as u64)
        } else {
            PROGRAM_DEADLINE_MS
        }
    }

    /// How often the sync frame has been sent.
    pub fn sync_attempts(&self) -> (n: u8)
        ensures
            n == self@.sync_attempts,
    {
        self.progress.sync_attempts
    }

    /// The exchange in flight, if there is one.
    pub fn pending(&self) -> (exchange: Option<&Exchange>)
        ensures
            self@.wf(),
            in_flight(self@.phase) ==> exchange.is_some() && exchange.unwrap()@ == self@.script[self@.cursor as int],
            !in_flight(self@.phase) ==> exchange.is_none(),
    {
        proof {
            use_type_invariant(self);
        }
        match self.progress.phase {
            Phase::Syncing | Phase::Identified | Phase::Configured | Phase::Programming | Phase::Verifying => {
                Some(&self.script[self.progress.cursor])
            },
            _ => None,
        }
    }

    /// The phase of a run whose exchange in flight is the one at `cursor`.
    fn phase_for(&self, cursor: usize) -> (phase: Phase)
        requires
            cursor <= 5 + 4 * MAX_IMAGE_BYTES,
            self.pages <= MAX_IMAGE_BYTES,
        ensures
            phase == phase_at(cursor as nat, self.pages as nat, self.verify),
    {
        let upload_end = 4 + 2 * self.pages;
        let len = if self.verify {
            5 + 4 * self.pages
        } else {
            5 + 2 * self.pages
        };
        if cursor < 2 {
            Phase::Syncing
        } else if cursor == 2 {
            Phase::Identified
        } else if cursor == 3 {
            Phase::Configured
        } else if cursor < upload_end {
            Phase::Programming
        } else if cursor + 1 < len {
            Phase::Verifying
        } else if cursor + 1 == len {
            if self.verify && self.pages > 0 {
                Phase::Verifying
            } else {
                Phase::Programming
            }
        } else {
            Phase::Done
        }
    }

    /// The request to send the exchange at `cursor`.
    fn send(&self, cursor: usize, pause_millis: u64) -> (action: Action)
        requires
            cursor < self.script@.len(),
        ensures
            action@ == self@.send(cursor as nat, pause_millis as nat),
    {
        let exchange = &self.script[cursor];
        let command = copy_range(exchange.command.as_slice(), 0, exchange.command.len());
        assert(command@ == exchange.command@);
        Action::Send { command, response_len: exchange.expected.len(), pause_millis }
    }

    /// Ends the run with `error`.
    fn fail(&mut self, error: AvrError) -> (action: Action)
        ensures
            (final(self)@, action@) == old(self)@.fail(error@),
    {
        proof {
            use_type_invariant(&*self);
        }
        self.progress = Progress { phase: Phase::Failed, ..self.progress };
        Action::Fail(error)
    }

    /// Ends the run because an event came that the current phase does not wait for.
    fn out_of_turn(&mut self) -> (action: Action)
        ensures
            (final(self)@, action@) == old(self)@.fail(AvrErrorView::ProgrammerError("event out of turn"@)),
    {
        self.fail(AvrError::ProgrammerError(String::from_str("event out of turn")))
    }

    /// Ends the run because the device stayed silent.
    fn timed_out(&mut self) -> (action: Action)
        ensures
            (final(self)@, action@) == old(self)@.fail(AvrErrorView::Communication("timeout"@)),
    {
        self.fail(AvrError::Communication(String::from_str("timeout")))
    }

    /// Sends the sync frame once more.
    fn retry(&mut self) -> (action: Action)
        requires
            in_flight(old(self)@.phase),
            old(self)@.may_retry(),
        ensures
            (final(self)@, action@) == old(self)@.retry(),
    {
        proof {
            use_type_invariant(&*self);
        }
        let action = self.send(0, SYNC_RETRY_PAUSE_MS);
        self.progress = Progress { sync_attempts: self.progress.sync_attempts + 1, ..self.progress };
        action
    }

    /// Judges the response to the exchange in flight and decides what follows.
    fn judge(&mut self, observed: &[u8]) -> (action: Action)
        requires
            in_flight(old(self)@.phase),
        ensures
            (final(self)@, action@) == transition(old(self)@, EventView::Response(observed@)),
    {
        proof {
            use_type_invariant(&*self);
        }
        let cursor = self.progress.cursor;
        match self.script[cursor].verify_response(observed) {
            Ok(()) => {
                let next = cursor + 1;
                if next < self.script.len() {
                    let action = self.send(next, 0);
                    let phase = self.phase_for(next);
                    self.progress = Progress { phase, cursor: next, ..self.progress };
                    action
                } else {
                    self.progress = Progress { phase: Phase::Done, cursor: next, ..self.progress };
                    Action::Done
                }
            },
            Err(error) => {
                if cursor == 0 && self.progress.sync_attempts < SYNC_ATTEMPTS {
                    self.retry()
                } else {
                    self.fail(error)
                }
            },
        }
    }

    /// Takes one event and answers with what is to be done next.
    pub fn step(&mut self, event: Event) -> (action: Action)
        ensures
            old(self)@.wf(),
            final(self)@.wf(),
            (final(self)@, action@) == transition(old(self)@, event@),
    {
        proof {
            use_type_invariant(&*self);
        }
        match self.progress.phase {
            Phase::Done => Action::Done,
            Phase::Failed => Action::Fail(AvrError::ProgrammerError(String::from_str("the run has failed"))),
            Phase::Idle => match event {
                Event::Start => {
                    self.progress = Progress { phase: Phase::Reset, ..self.progress };
                    Action::Reset
                },
                Event::Failure(error) => self.fail(error),
                _ => self.out_of_turn(),
            },
            Phase::Reset => match event {
                Event::ResetDone => {
                    let action = self.send(0, 0);
                    self.progress = Progress { phase: Phase::Syncing, cursor: 0, sync_attempts: 1 };
                    action
                },
                Event::Timeout => self.timed_out(),
                Event::Failure(error) => self.fail(error),
                _ => self.out_of_turn(),
            },
            _ => match event {
                Event::Response(observed) => self.judge(observed.as_slice()),
                Event::Timeout => if self.progress.cursor == 0 && self.progress.sync_attempts < SYNC_ATTEMPTS {
                    self.retry()
                } else {
                    self.timed_out()
                },
                Event::Failure(error) => self.fail(error),
                _ => self.out_of_turn(),
            },
        }
    }
}

} // verus!
