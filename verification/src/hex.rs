//! Intel HEX input: the text is read line by line by the `ihex` crate, and the data
//! records are joined, in file order, into one flat image that starts at flash address 0.

use crate::error::{result_view, AvrError, AvrErrorView, AvrResult};
use crate::util::append_bytes;
use ihex::{ReaderError, Record};
use vstd::prelude::*;
use vstd::string::*;

verus! {

/// The line reader of the `ihex` crate. Nothing inside it is visible here.
#[verifier::external_type_specification]
#[verifier::external_body]
pub struct ExReader<'a>(ihex::Reader<'a>);

/// A record as the `ihex` crate holds it. Its variants are read in `next_line` alone.
#[verifier::external_type_specification]
#[verifier::external_body]
pub struct ExRecord(ihex::Record);

/// The reasons for which the `ihex` crate refuses a line. Read in `next_line` alone.
#[verifier::external_type_specification]
#[verifier::external_body]
pub struct ExReaderError(ihex::ReaderError);

/// One non-empty line of a HEX text, as the reader hands it out.
#[derive(Debug, Clone, PartialEq, Eq)]
pub enum HexLine {
    /// Bytes to be placed in memory, with the 16-bit load offset the record names.
    Data { offset: u16, value: Vec<u8> },
    /// The closing record of a file.
    EndOfFile,
    /// Bits 4 to 19 of a segment base address.
    ExtendedSegmentAddress(u16),
    /// Start address as a CS:IP pair.
    StartSegmentAddress { cs: u16, ip: u16 },
    /// The upper 16 bits of a 32-bit linear address.
    ExtendedLinearAddress(u16),
    /// Start address as a 32-bit linear address.
    StartLinearAddress(u32),
    /// A well-formed record whose type byte is none of the six above.
    UnsupportedRecordType(u8),
    /// A line that is no record at all; the text says why, in the reader's words.
    Malformed(String),
}

/// A `HexLine` over byte and character sequences.
pub enum HexLineView {
    Data { offset: u16, value: Seq<u8> },
    EndOfFile,
    ExtendedSegmentAddress(u16),
    StartSegmentAddress { cs: u16, ip: u16 },
    ExtendedLinearAddress(u16),
    StartLinearAddress(u32),
    UnsupportedRecordType(u8),
    Malformed(Seq<char>),
}

impl View for HexLine {
    type V = HexLineView;

    open spec fn view(&self) -> HexLineView {
        match self {
            HexLine::Data { offset, value } => HexLineView::Data { offset: *offset, value: value@ },
            HexLine::EndOfFile => HexLineView::EndOfFile,
            HexLine::ExtendedSegmentAddress(address) => HexLineView::ExtendedSegmentAddress(*address),
            HexLine::StartSegmentAddress { cs, ip } => HexLineView::StartSegmentAddress { cs: *cs, ip: *ip },
            HexLine::ExtendedLinearAddress(address) => HexLineView::ExtendedLinearAddress(*address),
            HexLine::StartLinearAddress(address) => HexLineView::StartLinearAddress(*address),
            HexLine::UnsupportedRecordType(record_type) => HexLineView::UnsupportedRecordType(*record_type),
            HexLine::Malformed(reason) => HexLineView::Malformed(reason@),
        }
    }
}

/// The views of a list of lines.
pub open spec fn line_views(lines: Seq<HexLine>) -> Seq<HexLineView> {
    lines.map_values(|line: HexLine| line@)
}

/// The lines that an `ihex::Reader` made over `text` with the two given options hands out,
/// first to last.
pub uninterp spec fn hex_lines(text: Seq<char>, stop_after_first_error: bool, stop_after_eof: bool) -> Seq<
    HexLineView,
>;

/// The lines that a reader has yet to hand out, next one first.
pub uninterp spec fn unread_lines(reader: ihex::Reader<'_>) -> Seq<HexLineView>;

/// `ihex::Reader::new_with_options`: a reader placed before the first line of `text`.
/// Trusted: the reader will hand out exactly the lines that `hex_lines` names.
#[verifier::external_body]
fn open_reader<'a>(text: &'a str, stop_after_first_error: bool, stop_after_eof: bool) -> (reader: ihex::Reader<'a>)
    ensures
        unread_lines(reader) == hex_lines(text@, stop_after_first_error, stop_after_eof),
{
    ihex::Reader::new_with_options(text, ihex::ReaderOptions { stop_after_first_error, stop_after_eof })
}

/// `Iterator::next` of `ihex::Reader`: the next line, with the crate's `Record` and
/// `ReaderError` rewritten variant by variant as a `HexLine`. Trusted: the reader hands out
/// its unread lines in order, one per call, and `None` once there are none left.
#[verifier::external_body]
fn next_line(reader: &mut ihex::Reader<'_>) -> (line: Option<HexLine>)
    ensures
        unread_lines(*old(reader)).len() == 0 ==> line.is_none() && unread_lines(*final(reader)).len() == 0,
        unread_lines(*old(reader)).len() > 0 ==> line.is_some() && line.unwrap()@ == unread_lines(
            *old(reader),
        )[0] && unread_lines(*final(reader)) == unread_lines(*old(reader)).skip(1),
{
    Some(match reader.next()? {
        Ok(Record::Data { offset, value }) => HexLine::Data { offset, value },
        Ok(Record::EndOfFile) => HexLine::EndOfFile,
        Ok(Record::ExtendedSegmentAddress(a)) => HexLine::ExtendedSegmentAddress(a),
        Ok(Record::StartSegmentAddress { cs, ip }) => HexLine::StartSegmentAddress { cs, ip },
        Ok(Record::ExtendedLinearAddress(a)) => HexLine::ExtendedLinearAddress(a),
        Ok(Record::StartLinearAddress(a)) => HexLine::StartLinearAddress(a),
        Err(ReaderError::UnsupportedRecordType(t)) => HexLine::UnsupportedRecordType(t),
        Err(e) => HexLine::Malformed(format!("{:?}", e)),
    })
}

/// All lines of `text`, read to the end of the file or to its end-of-file record,
/// whichever comes first. A bad line does not stop the reading.
pub fn read_hex_lines(text: &str) -> (lines: Vec<HexLine>)
    ensures
        line_views(lines@) == hex_lines(text@, false, true),
{
    let mut reader = open_reader(text, false, true);
    let mut lines: Vec<HexLine> = Vec::new();
    loop
        invariant
            line_views(lines@) + unread_lines(reader) == hex_lines(text@, false, true),
        ensures
            line_views(lines@) == hex_lines(text@, false, true),
        decreases unread_lines(reader).len(),
    {
        match next_line(&mut reader) {
            Some(line) => lines.push(line),
            None => break,
        }
    }
    lines
}

impl HexLineView {
    /// The bytes that the line adds to the image: those of a data record, none otherwise.
    pub open spec fn payload(self) -> Seq<u8> {
        match self {
            HexLineView::Data { value, .. } => value,
            _ => Seq::empty(),
        }
    }
}

/// The payloads of all lines, joined in file order.
pub open spec fn image_of(lines: Seq<HexLineView>) -> Seq<u8>
    decreases lines.len(),
{
    if lines.len() == 0 {
        Seq::empty()
    } else {
        image_of(lines.drop_last()) + lines.last().payload()
    }
}

/// Line `i` is malformed and no line before it is.
pub open spec fn first_malformed_at(lines: Seq<HexLineView>, i: int) -> bool {
    &&& 0 <= i < lines.len()
    &&& lines[i] is Malformed
    &&& forall|j: int| 0 <= j < i ==> !(#[trigger] lines[j] is Malformed)
}

/// What reading `lines` comes to: the image when no line is malformed, and else a
/// programmer error whose message is `hex parse: ` followed by the reader's complaint
/// about the first malformed line.
pub open spec fn spec_image_from_lines(lines: Seq<HexLineView>) -> Result<Seq<u8>, AvrErrorView> {
    if exists|i: int| first_malformed_at(lines, i) {
        let i = choose|i: int| first_malformed_at(lines, i);
        Err(AvrErrorView::ProgrammerError("hex parse: "@ + lines[i]->Malformed_0))
    } else {
        Ok(image_of(lines))
    }
}

/// At most one line is the first malformed one.
proof fn lemma_first_malformed_is_one(lines: Seq<HexLineView>, i: int, j: int)
    requires
        first_malformed_at(lines, i),
        first_malformed_at(lines, j),
    ensures
        i == j,
{
}

/// Joins the data records of `lines` into one image. Records of every other type,
/// recognised or not, add nothing; the first malformed line ends the reading with an error.
pub fn image_from_lines(lines: &Vec<HexLine>) -> (outcome: AvrResult<Vec<u8>>)
    ensures
        result_view(outcome) == spec_image_from_lines(line_views(lines@)),
{
    let mut image: Vec<u8> = Vec::new();
    let mut i: usize = 0;
    while i < lines.len()
        invariant
            i <= lines.len(),
            forall|j: int| 0 <= j < i ==> !(#[trigger] line_views(lines@)[j] is Malformed),
            image@ == image_of(line_views(lines@).take(i as int)),
        decreases lines.len() - i,
    {
        match &lines[i] {
            HexLine::Data { value, .. } => {
                append_bytes(&mut image, value.as_slice());
            },
            HexLine::Malformed(reason) => {
                let message = String::from_str("hex parse: ").concat(reason.as_str());
                proof {
                    let first = choose|first: int| first_malformed_at(line_views(lines@), first);
                    lemma_first_malformed_is_one(line_views(lines@), i as int, first);
                }
                return Err(AvrError::ProgrammerError(message));
            },
            _ => {},
        }
        assert(line_views(lines@).take(i + 1).drop_last() == line_views(lines@).take(i as int));
        i += 1;
    }
    assert(line_views(lines@).take(lines.len() as int) == line_views(lines@));
    Ok(image)
}

/// Reads Intel HEX text into the flat image it describes.
pub fn parse_intel_hex(hex_content: &str) -> (outcome: AvrResult<Vec<u8>>)
    ensures
        result_view(outcome) == spec_image_from_lines(hex_lines(hex_content@, false, true)),
{
    let lines = read_hex_lines(hex_content);
    image_from_lines(&lines)
}

} // verus!
