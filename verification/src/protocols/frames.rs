//! The frames of STK500 version 1 and the order in which a programming run sends them.

use crate::error::{AvrError, AvrErrorView, AvrResult};
use crate::protocols::paging::{
    bytes_in_pages, end_of_page, lemma_bytes_in_pages, lemma_page_bounds, lemma_page_count_is_ceiling,
    lemma_page_in_range, page_bytes, page_count, page_end, page_start, word_address, MAX_IMAGE_BYTES,
};
use crate::protocols::stk500v1::Stk500v1Message;
use crate::util::{append_bytes, has_prefix, hex_string, hex_text, starts_with};
use vstd::prelude::*;
use vstd::slice::slice_subrange;
use vstd::string::*;

verus! {

/// The memory selector for flash in the page commands: the letter `F`.
pub const MEMORY_TYPE_FLASH: u8 = 0x46;

/// The number of placeholder bytes in the set-device command.
pub const SET_DEVICE_PARAMETER_BYTES: usize = 20;

/// One turn of the conversation: the frame to send and the bytes the response must
/// begin with.
#[derive(Debug, Clone, PartialEq, Eq)]
pub struct Exchange {
    /// The frame that goes out.
    pub command: Vec<u8>,
    /// The bytes that the response must begin with.
    pub expected: Vec<u8>,
}

/// An `Exchange` as two byte strings.
pub struct ExchangeView {
    pub command: Seq<u8>,
    pub expected: Seq<u8>,
}

impl View for Exchange {
    type V = ExchangeView;

    open spec fn view(&self) -> ExchangeView {
        ExchangeView { command: self.command@, expected: self.expected@ }
    }
}

/// The part of a response that is looked at: as many bytes as were expected, or all of
/// them where fewer came.
pub open spec fn judged(expected: Seq<u8>, observed: Seq<u8>) -> Seq<u8> {
    if observed.len() <= expected.len() {
        observed
    } else {
        observed.take(expected.len() as int)
    }
}

/// The frame asks the chip for its signature.
pub open spec fn reads_signature(command: Seq<u8>) -> bool {
    command.len() > 0 && command[0] == 0x75u8
}

/// The message of the error raised when a response does not begin with what the
/// exchange expects: both byte strings in hexadecimal, under the heading `wrong device`
/// where it was the signature that differed.
pub open spec fn mismatch_text(exchange: ExchangeView, observed: Seq<u8>) -> Seq<char> {
    (if reads_signature(exchange.command) {
        "wrong device: expected "@
    } else {
        "unexpected response: expected "@
    }) + hex_text(exchange.expected) + ", received "@ + hex_text(judged(exchange.expected, observed))
}

impl Exchange {
    /// Holds a response against what the exchange expects. The response is good where it
    /// begins with the expected bytes; what follows them is not looked at. Any other
    /// response is a programmer error that shows both byte strings.
    pub fn verify_response(&self, response: &[u8]) -> (verdict: AvrResult<()>)
        ensures
            starts_with(response@, self@.expected) ==> verdict is Ok,
            !starts_with(response@, self@.expected) ==> verdict is Err && verdict->Err_0@
                == AvrErrorView::ProgrammerError(mismatch_text(self@, response@)),
    {
        if has_prefix(response, self.expected.as_slice()) {
            return Ok(());
        }
        let seen = if response.len() <= self.expected.len() {
            response.len()
        } else {
            self.expected.len()
        };
        let heading = if self.command.len() > 0 && self.command[0] == Stk500v1Message::CmndStkReadSign.code() {
            "wrong device: expected "
        } else {
            "unexpected response: expected "
        };
        let shown = slice_subrange(response, 0, seen);
        assert(shown@ == judged(self.expected@, response@));
        let message = String::from_str(heading).concat(hex_string(self.expected.as_slice()).as_str()).concat(
            ", received ",
        ).concat(hex_string(shown).as_str());
        Err(AvrError::ProgrammerError(message))
    }
}

/// The views of a list of exchanges.
pub open spec fn exchange_views(exchanges: Seq<Exchange>) -> Seq<ExchangeView> {
    exchanges.map_values(|e: Exchange| e@)
}

/// The response to a command that returns no data: in sync, then ok.
pub open spec fn acknowledgement() -> Seq<u8> {
    seq![0x14u8, 0x10u8]
}

/// The high byte of a 16-bit quantity.
pub open spec fn high_byte(n: nat) -> u8 {
    ((n / 256) % 256) as u8
}

/// The low byte of a 16-bit quantity.
pub open spec fn low_byte(n: nat) -> u8 {
    (n % 256) as u8
}

/// Get in sync with the bootloader.
pub open spec fn sync_exchange() -> ExchangeView {
    ExchangeView { command: seq![0x30u8, 0x20u8], expected: acknowledgement() }
}

/// Read the signature; the chip must answer with the expected one.
pub open spec fn signature_exchange(signature: Seq<u8>) -> ExchangeView {
    ExchangeView { command: seq![0x75u8, 0x20u8], expected: seq![0x14u8] + signature + seq![0x10u8] }
}

/// Set the device parameters: twenty zero bytes, which the bootloader ignores.
pub open spec fn set_device_exchange() -> ExchangeView {
    ExchangeView {
        command: seq![0x42u8] + Seq::new(20, |i: int| 0u8) + seq![0x20u8],
        expected: acknowledgement(),
    }
}

/// Enter programming mode.
pub open spec fn enter_progmode_exchange() -> ExchangeView {
    ExchangeView { command: seq![0x50u8, 0x20u8], expected: acknowledgement() }
}

/// Point the bootloader at a word address, sent low byte first.
pub open spec fn load_address_exchange(word: nat) -> ExchangeView {
    ExchangeView { command: seq![0x55u8, low_byte(word), high_byte(word), 0x20u8], expected: acknowledgement() }
}

/// Write one page of flash. The byte count goes high byte first.
pub open spec fn prog_page_exchange(page: Seq<u8>) -> ExchangeView {
    ExchangeView {
        command: seq![0x64u8, high_byte(page.len()), low_byte(page.len()), 0x46u8] + page + seq![0x20u8],
        expected: acknowledgement(),
    }
}

/// Read one page of flash back; the bootloader must answer with the bytes written.
pub open spec fn read_page_exchange(page: Seq<u8>) -> ExchangeView {
    ExchangeView {
        command: seq![0x74u8, high_byte(page.len()), low_byte(page.len()), 0x46u8, 0x20u8],
        expected: seq![0x14u8] + page + seq![0x10u8],
    }
}

/// Leave programming mode.
pub open spec fn leave_progmode_exchange() -> ExchangeView {
    ExchangeView { command: seq![0x51u8, 0x20u8], expected: acknowledgement() }
}

/// What is said about one page once its address is loaded: its bytes written, or read
/// back and compared.
pub open spec fn page_exchange(page: Seq<u8>, reading: bool) -> ExchangeView {
    if reading {
        read_page_exchange(page)
    } else {
        prog_page_exchange(page)
    }
}

/// One pass over the pages of an image: for each page in turn, the word address of its
/// first byte and then the page itself.
pub open spec fn page_pass(image: Seq<u8>, page_size: nat, reading: bool) -> Seq<ExchangeView> {
    Seq::new(
        2 * page_count(image.len(), page_size),
        |i: int|
            if i % 2 == 0 {
                load_address_exchange(word_address(page_start((i / 2) as nat, page_size)))
            } else {
                page_exchange(page_bytes(image, page_size, (i / 2) as nat), reading)
            },
    )
}

/// The exchanges that write an image.
pub open spec fn upload_pass(image: Seq<u8>, page_size: nat) -> Seq<ExchangeView> {
    page_pass(image, page_size, false)
}

/// The exchanges that read an image back and compare it.
pub open spec fn verify_pass(image: Seq<u8>, page_size: nat) -> Seq<ExchangeView> {
    page_pass(image, page_size, true)
}

/// The whole conversation of a programming run after the reset: sync, signature, set
/// device, enter programming mode, the upload, the read-back if asked for, and leave.
pub open spec fn program_script(signature: Seq<u8>, page_size: nat, image: Seq<u8>, verify: bool) -> Seq<
    ExchangeView,
> {
    seq![sync_exchange(), signature_exchange(signature), set_device_exchange(), enter_progmode_exchange()]
        + upload_pass(image, page_size) + (if verify {
        verify_pass(image, page_size)
    } else {
        Seq::empty()
    }) + seq![leave_progmode_exchange()]
}

/// The number of image bytes that a frame writes: the payload of a program-page frame,
/// and nothing for any other frame.
pub open spec fn programmed_len(command: Seq<u8>) -> nat {
    if command.len() >= 5 && command[0] == 0x64u8 {
        (command.len() - 5) as nat
    } else {
        0
    }
}

/// The number of image bytes that the frames of a list of exchanges write together.
pub open spec fn programmed_total(exchanges: Seq<ExchangeView>) -> nat
    decreases exchanges.len(),
{
    if exchanges.len() == 0 {
        0
    } else {
        programmed_total(exchanges.drop_last()) + programmed_len(exchanges.last().command)
    }
}

/// The exchanges of the first `k` pages of an upload write the bytes of those pages.
proof fn lemma_programmed_prefix(image: Seq<u8>, page_size: nat, k: int)
    requires
        page_size > 0,
        0 <= k <= page_count(image.len(), page_size),
    ensures
        programmed_total(upload_pass(image, page_size).take(2 * k)) == bytes_in_pages(
            image.len(),
            page_size,
            k as nat,
        ),
    decreases k,
{
    let pass = upload_pass(image, page_size);
    if k > 0 {
        let j = k - 1;
        lemma_programmed_prefix(image, page_size, j);
        lemma_page_bounds(image.len(), page_size, j as nat);
        let upto_page = pass.take(2 * j + 1);
        let with_page = pass.take(2 * k);
        assert(with_page.drop_last() == upto_page);
        assert(upto_page.drop_last() == pass.take(2 * j));
        assert(programmed_total(upto_page) == programmed_total(pass.take(2 * j)));
    }
}

/// What holds of page `k` of an upload `pass` of `image`: the address sent is half
/// the number of bytes written before it, and the page sent is the next piece of the
/// image, not empty and at most `page_size` bytes long.
pub open spec fn page_is_next_piece(image: Seq<u8>, page_size: nat, pass: Seq<ExchangeView>, k: int) -> bool {
    let written_before = programmed_total(pass.take(2 * k));
    let page_len = programmed_len(pass[2 * k + 1].command);
    &&& pass[2 * k] == load_address_exchange(written_before / 2)
    &&& pass[2 * k + 1] == prog_page_exchange(image.subrange(written_before as int, (written_before + page_len) as int))
    &&& 0 < page_len <= page_size
    &&& written_before + page_len <= image.len()
}

/// Every upload writes its image page by page and in full.
///
/// For an image of `N` bytes and a page size of `P` bytes, the upload consists of
/// `N / P`, rounded up, pairs of a load-address exchange and a program-page exchange;
/// the pages written add up to `N` bytes; no page is empty or longer than `P`; and each
/// address sent is half the number of bytes written before it.
pub proof fn lemma_upload_covers_image(image: Seq<u8>, page_size: nat)
    requires
        page_size > 0,
    ensures
        upload_pass(image, page_size).len() == 2 * page_count(image.len(), page_size),
        image.len() <= page_count(image.len(), page_size) * page_size,
        image.len() > 0 ==> (page_count(image.len(), page_size) - 1) * page_size < image.len(),
        programmed_total(upload_pass(image, page_size)) == image.len(),
        forall|k: int|
            0 <= k < page_count(image.len(), page_size) ==> #[trigger] page_is_next_piece(
                image,
                page_size,
                upload_pass(image, page_size),
                k,
            ),
{
    let pass = upload_pass(image, page_size);
    let len = image.len();
    let pages = page_count(len, page_size);
    lemma_page_count_is_ceiling(len, page_size);
    lemma_programmed_prefix(image, page_size, pages as int);
    lemma_bytes_in_pages(len, page_size, pages);
    assert(pass.take(2 * (pages as int)) == pass);
    assert forall|k: int| 0 <= k < pages implies #[trigger] page_is_next_piece(image, page_size, pass, k) by {
        lemma_programmed_prefix(image, page_size, k);
        lemma_bytes_in_pages(len, page_size, k as nat);
        lemma_page_bounds(len, page_size, k as nat);
    }
}

/// The two-byte acknowledgement as a vector.
fn ack() -> (bytes: Vec<u8>)
    ensures
        bytes@ == acknowledgement(),
{
    let mut bytes: Vec<u8> = Vec::new();
    bytes.push(Stk500v1Message::RespStkInSync.code());
    bytes.push(Stk500v1Message::RespStkOk.code());
    bytes
}

/// A frame of one command byte and the terminator.
fn bare_command(message: Stk500v1Message) -> (bytes: Vec<u8>)
    ensures
        bytes@ == seq![message.spec_code(), 0x20u8],
{
    let mut bytes: Vec<u8> = Vec::new();
    bytes.push(message.code());
    bytes.push(Stk500v1Message::SyncCrcEop.code());
    bytes
}

/// `payload` between the in-sync and ok bytes.
fn framed_response(payload: &[u8]) -> (bytes: Vec<u8>)
    ensures
        bytes@ == seq![0x14u8] + payload@ + seq![0x10u8],
{
    let mut bytes: Vec<u8> = Vec::new();
    bytes.push(Stk500v1Message::RespStkInSync.code());
    append_bytes(&mut bytes, payload);
    bytes.push(Stk500v1Message::RespStkOk.code());
    bytes
}

/// The two bytes of `n`, high byte first.
fn split_u16(n: u16) -> (bytes: (u8, u8))
    ensures
        bytes.0 == high_byte(n as nat),
        bytes.1 == low_byte(n as nat),
{
    let high = ((n >> 8) & 0xFF) as u8;
    let low = (n & 0xFF) as u8;
    assert(((n >> 8) & 0xFF) == (n / 256) % 256) by (bit_vector);
    assert((n & 0xFF) == n % 256) by (bit_vector);
    (high, low)
}

/// The sync exchange.
pub fn sync() -> (exchange: Exchange)
    ensures
        exchange@ == sync_exchange(),
{
    Exchange { command: bare_command(Stk500v1Message::CmndStkGetSync), expected: ack() }
}

/// The exchange that checks the chip's signature against `signature`.
pub fn verify_signature(signature: &[u8]) -> (exchange: Exchange)
    ensures
        exchange@ == signature_exchange(signature@),
{
    Exchange { command: bare_command(Stk500v1Message::CmndStkReadSign), expected: framed_response(signature) }
}

/// The set-device exchange, with all twenty parameter bytes zero.
pub fn set_options() -> (exchange: Exchange)
    ensures
        exchange@ == set_device_exchange(),
{
    let mut command: Vec<u8> = Vec::new();
    command.push(Stk500v1Message::CmndStkSetDevice.code());
    let mut i: usize = 0;
    while i < SET_DEVICE_PARAMETER_BYTES
        invariant
            i <= SET_DEVICE_PARAMETER_BYTES,
            command@ == seq![0x42u8] + Seq::new(i as nat, |j: int| 0u8),
        decreases SET_DEVICE_PARAMETER_BYTES - i,
    {
        command.push(0);
        i += 1;
    }
    command.push(Stk500v1Message::SyncCrcEop.code());
    assert(command@ =~= set_device_exchange().command);
    Exchange { command, expected: ack() }
}

/// The exchange that enters programming mode.
pub fn enter_programming_mode() -> (exchange: Exchange)
    ensures
        exchange@ == enter_progmode_exchange(),
{
    Exchange { command: bare_command(Stk500v1Message::CmndStkEnterProgMode), expected: ack() }
}

/// The exchange that loads the word address `use_addr`.
pub fn load_address(use_addr: u16) -> (exchange: Exchange)
    ensures
        exchange@ == load_address_exchange(use_addr as nat),
{
    let (high_addr, low_addr) = split_u16(use_addr);
    let mut command: Vec<u8> = Vec::new();
    command.push(Stk500v1Message::CmndStkLoadAddress.code());
    command.push(low_addr);
    command.push(high_addr);
    command.push(Stk500v1Message::SyncCrcEop.code());
    assert(command@ =~= load_address_exchange(use_addr as nat).command);
    Exchange { command, expected: ack() }
}

/// The first four bytes of a page command: the command, the byte count high byte
/// first, and the flash selector.
fn page_header(message: Stk500v1Message, len: u16) -> (bytes: Vec<u8>)
    ensures
        bytes@ == seq![message.spec_code(), high_byte(len as nat), low_byte(len as nat), 0x46u8],
{
    let (bytes_high, bytes_low) = split_u16(len);
    let mut bytes: Vec<u8> = Vec::new();
    bytes.push(message.code());
    bytes.push(bytes_high);
    bytes.push(bytes_low);
    bytes.push(MEMORY_TYPE_FLASH);
    bytes
}

/// The exchange that writes the page `write_bytes`.
pub fn load_page(write_bytes: &[u8]) -> (exchange: Exchange)
    requires
        write_bytes@.len() <= u16::MAX,
    ensures
        exchange@ == prog_page_exchange(write_bytes@),
{
    let mut command = page_header(Stk500v1Message::CmndStkProgPage, write_bytes.len() as u16);
    append_bytes(&mut command, write_bytes);
    command.push(Stk500v1Message::SyncCrcEop.code());
    assert(command@ =~= prog_page_exchange(write_bytes@).command);
    Exchange { command, expected: ack() }
}

/// The exchange that reads a page back and expects `verify_bytes`.
pub fn verify_page(verify_bytes: &[u8]) -> (exchange: Exchange)
    requires
        verify_bytes@.len() <= u16::MAX,
    ensures
        exchange@ == read_page_exchange(verify_bytes@),
{
    let mut command = page_header(Stk500v1Message::CmndStkReadPage, verify_bytes.len() as u16);
    command.push(Stk500v1Message::SyncCrcEop.code());
    assert(command@ =~= read_page_exchange(verify_bytes@).command);
    Exchange { command, expected: framed_response(verify_bytes) }
}

/// The exchange that leaves programming mode.
pub fn exit_programming_mode() -> (exchange: Exchange)
    ensures
        exchange@ == leave_progmode_exchange(),
{
    Exchange { command: bare_command(Stk500v1Message::CmndStkLeaveProgMode), expected: ack() }
}

/// The word address of a byte address.
fn word_of(byte_addr: usize) -> (word: u16)
    requires
        byte_addr < MAX_IMAGE_BYTES,
    ensures
        word == word_address(byte_addr as nat),
{
    let wide = byte_addr as u32;
    assert(wide >> 1 == wide / 2) by (bit_vector);
    (wide >> 1) as u16
}

/// Walks the image page by page and lists, for each page, the load of its word address
/// and then the exchange that writes it or, when `reading`, reads it back.
fn pass_over_pages(bin: &[u8], page_size: u16, reading: bool) -> (pass: Vec<Exchange>)
    requires
        page_size > 0,
        bin@.len() <= MAX_IMAGE_BYTES,
    ensures
        exchange_views(pass@) == page_pass(bin@, page_size as nat, reading),
{
    let ghost len = bin@.len();
    let ghost size = page_size as nat;
    let ghost pages = page_count(len, size);
    let ghost wanted = page_pass(bin@, size, reading);
    let mut pass: Vec<Exchange> = Vec::new();
    let mut byte_addr: usize = 0;
    let ghost mut k: nat = 0;
    proof {
        lemma_page_in_range(len, size, 0);
    }
    while byte_addr < bin.len()
        invariant
            page_size > 0,
            len == bin@.len(),
            len <= MAX_IMAGE_BYTES,
            size == page_size as nat,
            pages == page_count(len, size),
            wanted == page_pass(bin@, size, reading),
            k <= pages,
            k < pages ==> byte_addr == page_start(k, size),
            k == pages ==> byte_addr == len,
            pass@.len() == 2 * k,
            forall|i: int| 0 <= i < 2 * k ==> (#[trigger] pass@[i])@ == wanted[i],
        decreases len - byte_addr,
    {
        proof {
            lemma_page_bounds(len, size, k);
        }
        let use_addr = word_of(byte_addr);
        let end = end_of_page(bin.len(), page_size, byte_addr);
        assert(end == page_end(k, len, size)) by {
            assert((k + 1) * size == k * size + size) by (nonlinear_arith);
        }
        let slice = slice_subrange(bin, byte_addr, end);
        pass.push(load_address(use_addr));
        if reading {
            pass.push(verify_page(slice));
        } else {
            pass.push(load_page(slice));
        }
        byte_addr = end;
        proof {
            k = k + 1;
        }
    }
    proof {
        lemma_page_in_range(len, size, k);
    }
    pass
}

/// The exchanges that write `bin` into flash, page by page. The last page may be short;
/// its byte count is its true length.
pub fn upload(bin: &[u8], page_size: u16) -> (pass: Vec<Exchange>)
    requires
        page_size > 0,
        bin@.len() <= MAX_IMAGE_BYTES,
    ensures
        exchange_views(pass@) == upload_pass(bin@, page_size as nat),
{
    pass_over_pages(bin, page_size, false)
}

/// The exchanges that read `bin` back from flash, page by page, each read expecting the
/// page's bytes in the response.
pub fn verify(bin: &[u8], page_size: u16) -> (pass: Vec<Exchange>)
    requires
        page_size > 0,
        bin@.len() <= MAX_IMAGE_BYTES,
    ensures
        exchange_views(pass@) == verify_pass(bin@, page_size as nat),
{
    pass_over_pages(bin, page_size, true)
}

/// Moves the exchanges of `pass` to the end of `script`.
fn append_pass(script: &mut Vec<Exchange>, pass: Vec<Exchange>)
    ensures
        exchange_views(final(script)@) == exchange_views(old(script)@) + exchange_views(pass@),
{
    let mut pass = pass;
    script.append(&mut pass);
}

/// The whole conversation of a programming run, in the order in which it is held.
pub fn program_firmware(signature: &[u8], page_size: u16, firmware: &[u8], verify_after: bool) -> (script: Vec<
    Exchange,
>)
    requires
        page_size > 0,
        firmware@.len() <= MAX_IMAGE_BYTES,
    ensures
        exchange_views(script@) == program_script(signature@, page_size as nat, firmware@, verify_after),
{
    let mut script: Vec<Exchange> = Vec::new();
    script.push(sync());
    script.push(verify_signature(signature));
    script.push(set_options());
    script.push(enter_programming_mode());
    assert(exchange_views(script@) =~= seq![
        sync_exchange(),
        signature_exchange(signature@),
        set_device_exchange(),
        enter_progmode_exchange(),
    ]);
    append_pass(&mut script, upload(firmware, page_size));
    if verify_after {
        append_pass(&mut script, verify(firmware, page_size));
    }
    script.push(exit_programming_mode());
    script
}

} // verus!
