//! Intel HEX text read into a flat image.

use avrman::error::AvrError;
use avrman::hex::{image_from_lines, parse_intel_hex, read_hex_lines, HexLine};
use avrman::protocols::stk500v1::Stk500v1Params;
use avrman::{Programmer, ProtocolType};

fn data(offset: u16, value: &[u8]) -> HexLine {
    HexLine::Data { offset, value: value.to_vec() }
}

/// Intel HEX text for `bytes`, in records of `per_record` bytes, written by the `ihex` crate.
fn hex_text_for(bytes: &[u8], per_record: usize) -> String {
    let mut records: Vec<ihex::Record> = bytes
        .chunks(per_record)
        .enumerate()
        .map(|(i, chunk)| ihex::Record::Data { offset: (i * per_record) as u16, value: chunk.to_vec() })
        .collect();
    records.push(ihex::Record::EndOfFile);
    ihex::create_object_file_representation(&records).unwrap()
}

#[test]
fn data_records_are_joined_in_file_order() {
    let text = ":0300000001020BEF\n:020003000D0CE2\n:00000001FF\n";
    assert_eq!(parse_intel_hex(text), Ok(vec![0x01, 0x02, 0x0b, 0x0d, 0x0c]));
}

#[test]
fn lines_are_handed_out_as_the_reader_sees_them() {
    let text = ":0300100001020BDF\r\n\r\n:020000021200EA\n:0400000300003800C1\n:02000004FFFFFC\n:04000005000000CD2A\n:00000001FF\n";
    assert_eq!(
        read_hex_lines(text),
        vec![
            data(0x0010, &[0x01, 0x02, 0x0b]),
            HexLine::ExtendedSegmentAddress(0x1200),
            HexLine::StartSegmentAddress { cs: 0x0000, ip: 0x3800 },
            HexLine::ExtendedLinearAddress(0xffff),
            HexLine::StartLinearAddress(0x0000_00cd),
            HexLine::EndOfFile,
        ]
    );
}

#[test]
fn reading_stops_at_the_end_of_file_record() {
    let text = ":0100000011EE\n:00000001FF\n:0100010022DC\n";
    assert_eq!(read_hex_lines(text), vec![data(0, &[0x11]), HexLine::EndOfFile]);
    assert_eq!(parse_intel_hex(text), Ok(vec![0x11]));
}

#[test]
fn records_that_are_not_data_add_nothing() {
    let text = ":020000021200EA\n:0100000011EE\n:02000004FFFFFC\n:0100010022DC\n:0400000300003800C1\n:04000005000000CD2A\n:00000001FF\n";
    assert_eq!(parse_intel_hex(text), Ok(vec![0x11, 0x22]));
}

#[test]
fn unknown_record_type_between_data_is_passed_over() {
    // Record type 06 is none that the format defines.
    let text = ":0100000011EE\n:010000067782\n:0100010022DC\n:00000001FF\n";
    assert_eq!(
        read_hex_lines(text),
        vec![data(0, &[0x11]), HexLine::UnsupportedRecordType(6), data(1, &[0x22]), HexLine::EndOfFile]
    );
    assert_eq!(parse_intel_hex(text), Ok(vec![0x11, 0x22]));
}

#[test]
fn malformed_line_is_a_programmer_error() {
    assert_eq!(
        parse_intel_hex(":0100000011EE\n:0100010022DD\n:00000001FF\n"),
        Err(AvrError::ProgrammerError("hex parse: ChecksumMismatch(220, 221)".to_string()))
    );
    assert_eq!(
        parse_intel_hex("0100000011EE\n"),
        Err(AvrError::ProgrammerError("hex parse: MissingStartCode".to_string()))
    );
    assert_eq!(
        parse_intel_hex(":01000000ZZEE\n"),
        Err(AvrError::ProgrammerError("hex parse: ContainsInvalidCharacters".to_string()))
    );
    assert_eq!(
        parse_intel_hex(":0000\n"),
        Err(AvrError::ProgrammerError("hex parse: RecordTooShort".to_string()))
    );
    assert_eq!(
        parse_intel_hex(":0200000011ED\n"),
        Err(AvrError::ProgrammerError("hex parse: PayloadLengthMismatch".to_string()))
    );
    assert_eq!(
        parse_intel_hex(":0100000111ED\n"),
        Err(AvrError::ProgrammerError("hex parse: InvalidLengthForType".to_string()))
    );
}

#[test]
fn first_malformed_line_is_the_one_reported() {
    let lines = vec![
        data(0, &[1]),
        HexLine::Malformed("first".to_string()),
        data(1, &[2]),
        HexLine::Malformed("second".to_string()),
    ];
    assert_eq!(image_from_lines(&lines), Err(AvrError::ProgrammerError("hex parse: first".to_string())));
}

#[test]
fn image_from_lines_takes_only_payloads() {
    let lines = vec![
        HexLine::ExtendedLinearAddress(0),
        data(0x100, &[9, 8]),
        HexLine::UnsupportedRecordType(0x22),
        data(0, &[]),
        HexLine::StartLinearAddress(4),
        data(0x10, &[7]),
        HexLine::EndOfFile,
    ];
    assert_eq!(image_from_lines(&lines), Ok(vec![9, 8, 7]));
    assert_eq!(image_from_lines(&Vec::new()), Ok(Vec::new()));
}

#[test]
fn empty_text_is_an_empty_image() {
    assert_eq!(parse_intel_hex(""), Ok(Vec::new()));
    assert_eq!(parse_intel_hex("\n\n"), Ok(Vec::new()));
    assert_eq!(read_hex_lines(""), Vec::new());
}

#[test]
fn written_hex_reads_back_as_the_same_bytes() {
    let samples: Vec<Vec<u8>> = vec![
        Vec::new(),
        vec![0],
        vec![0xff; 16],
        (0..=255u8).collect(),
        (0..1000usize).map(|i| (i * 31 % 251) as u8).collect(),
    ];
    for bytes in samples {
        for per_record in [1usize, 16, 32, 255] {
            let text = hex_text_for(&bytes, per_record);
            assert_eq!(parse_intel_hex(&text), Ok(bytes.clone()));
        }
    }
}

#[test]
fn programmer_reads_hex_as_the_module_does() {
    let programmer = Programmer::from_protocol(ProtocolType::Stk500v1(Stk500v1Params {
        port: "COM3".to_string(),
        baud: 57600,
        device_signature: vec![0x1e, 0x95, 0x0f],
        page_size: 128,
        num_pages: 256,
        product_id: vec![0x6001],
    }))
    .unwrap();
    let text = hex_text_for(&[5, 6, 7], 2);
    assert_eq!(programmer.parse_intel_hex(&text), Ok(vec![5, 6, 7]));
    assert!(programmer.program_hex_buffer(&text).is_ok());
    assert_eq!(
        programmer.program_hex_buffer(":00\n").err(),
        Some(AvrError::ProgrammerError("hex parse: RecordTooShort".to_string()))
    );
    let engine = programmer.program_hex_lines(&vec![data(0, &[1; 129])]).unwrap();
    assert_eq!(engine.pages(), 2);
    assert!(engine.verifies());
    assert_eq!(
        programmer.program_hex_lines(&vec![HexLine::Malformed("bad".to_string())]).err(),
        Some(AvrError::ProgrammerError("hex parse: bad".to_string()))
    );
}
