//! The frames of the protocol, byte for byte.

use avrman::error::AvrError;
use avrman::protocols::frames::{
    enter_programming_mode, exit_programming_mode, load_address, load_page, program_firmware, set_options, sync,
    upload, verify, verify_page, verify_signature, Exchange, MEMORY_TYPE_FLASH, SET_DEVICE_PARAMETER_BYTES,
};
use avrman::protocols::paging::{count_pages, end_of_page, MAX_IMAGE_BYTES};
use avrman::protocols::stk500v1::Stk500v1Message;

const ACK: [u8; 2] = [0x14, 0x10];

#[test]
fn message_codes_are_those_of_the_protocol() {
    assert_eq!(Stk500v1Message::RespStkOk.code(), 0x10);
    assert_eq!(Stk500v1Message::RespStkInSync.code(), 0x14);
    assert_eq!(Stk500v1Message::SyncCrcEop.code(), 0x20);
    assert_eq!(Stk500v1Message::CmndStkGetSync.code(), 0x30);
    assert_eq!(Stk500v1Message::CmndStkSetDevice.code(), 0x42);
    assert_eq!(Stk500v1Message::CmndStkEnterProgMode.code(), 0x50);
    assert_eq!(Stk500v1Message::CmndStkLeaveProgMode.code(), 0x51);
    assert_eq!(Stk500v1Message::CmndStkLoadAddress.code(), 0x55);
    assert_eq!(Stk500v1Message::CmndStkProgPage.code(), 0x64);
    assert_eq!(Stk500v1Message::CmndStkReadPage.code(), 0x74);
    assert_eq!(Stk500v1Message::CmndStkReadSign.code(), 0x75);
    assert_eq!(MEMORY_TYPE_FLASH, b'F');
    assert_eq!(SET_DEVICE_PARAMETER_BYTES, 20);
}

#[test]
fn short_commands_are_a_code_and_the_terminator() {
    assert_eq!(sync(), Exchange { command: vec![0x30, 0x20], expected: ACK.to_vec() });
    assert_eq!(enter_programming_mode(), Exchange { command: vec![0x50, 0x20], expected: ACK.to_vec() });
    assert_eq!(exit_programming_mode(), Exchange { command: vec![0x51, 0x20], expected: ACK.to_vec() });
}

#[test]
fn signature_is_expected_between_in_sync_and_ok() {
    assert_eq!(
        verify_signature(&[0x1e, 0x95, 0x0f]),
        Exchange { command: vec![0x75, 0x20], expected: vec![0x14, 0x1e, 0x95, 0x0f, 0x10] }
    );
}

#[test]
fn set_device_carries_twenty_zero_bytes() {
    let exchange = set_options();
    let mut command = vec![0x42u8];
    command.extend_from_slice(&[0u8; 20]);
    command.push(0x20);
    assert_eq!(exchange.command, command);
    assert_eq!(exchange.command.len(), 22);
    assert_eq!(exchange.expected, ACK.to_vec());
}

#[test]
fn address_goes_low_byte_first() {
    assert_eq!(load_address(0x0040).command, vec![0x55, 0x40, 0x00, 0x20]);
    assert_eq!(load_address(0x1234).command, vec![0x55, 0x34, 0x12, 0x20]);
    assert_eq!(load_address(0xffff).command, vec![0x55, 0xff, 0xff, 0x20]);
    assert_eq!(load_address(0).command, vec![0x55, 0x00, 0x00, 0x20]);
    assert_eq!(load_address(7).expected, ACK.to_vec());
}

#[test]
fn page_length_goes_high_byte_first() {
    let page: Vec<u8> = (0..300usize).map(|i| i as u8).collect();
    let write = load_page(&page);
    assert_eq!(write.command[..4], [0x64, 0x01, 0x2c, 0x46]);
    assert_eq!(write.command[4..304], page[..]);
    assert_eq!(write.command[304], 0x20);
    assert_eq!(write.command.len(), 305);
    assert_eq!(write.expected, ACK.to_vec());

    let read = verify_page(&page);
    assert_eq!(read.command, vec![0x74, 0x01, 0x2c, 0x46, 0x20]);
    assert_eq!(read.expected[0], 0x14);
    assert_eq!(read.expected[1..301], page[..]);
    assert_eq!(read.expected[301], 0x10);

    assert_eq!(load_page(&[0xaa, 0xbb]).command, vec![0x64, 0x00, 0x02, 0x46, 0xaa, 0xbb, 0x20]);
    assert_eq!(verify_page(&[0xaa, 0xbb]).expected, vec![0x14, 0xaa, 0xbb, 0x10]);
    assert_eq!(load_page(&[]).command, vec![0x64, 0x00, 0x00, 0x46, 0x20]);
}

#[test]
fn upload_walks_the_image_in_pages() {
    let image: Vec<u8> = (0..300usize).map(|i| (i / 2) as u8).collect();
    let pass = upload(&image, 128);
    assert_eq!(pass.len(), 6);
    assert_eq!(pass[0], load_address(0x0000));
    assert_eq!(pass[1], load_page(&image[0..128]));
    assert_eq!(pass[2], load_address(0x0040));
    assert_eq!(pass[3], load_page(&image[128..256]));
    assert_eq!(pass[4], load_address(0x0080));
    assert_eq!(pass[5], load_page(&image[256..300]));
}

#[test]
fn last_byte_of_a_short_last_page_is_written() {
    let image: Vec<u8> = (1..=130u8).collect();
    let pass = upload(&image, 128);
    assert_eq!(pass.len(), 4);
    assert_eq!(pass[3].command, vec![0x64, 0x00, 0x02, 0x46, 129, 130, 0x20]);
    let pass = upload(&[7], 128);
    assert_eq!(pass.len(), 2);
    assert_eq!(pass[1].command, vec![0x64, 0x00, 0x01, 0x46, 7, 0x20]);
}

#[test]
fn verify_walks_the_image_as_upload_does() {
    let image: Vec<u8> = (0..200usize).map(|i| (255 - i) as u8).collect();
    let pass = verify(&image, 64);
    assert_eq!(pass.len(), 8);
    for k in 0..4usize {
        let end = std::cmp::min(64 * (k + 1), 200);
        assert_eq!(pass[2 * k], load_address((32 * k) as u16));
        assert_eq!(pass[2 * k + 1], verify_page(&image[64 * k..end]));
    }
    assert_eq!(pass[7].command, vec![0x74, 0x00, 0x08, 0x46, 0x20]);
    assert!(upload(&[], 64).is_empty());
    assert!(verify(&[], 64).is_empty());
}

#[test]
fn script_holds_every_step_in_order() {
    let signature = [0x1e, 0x95, 0x0f];
    let image = [1u8, 2, 3, 4, 5];
    let with_verify = program_firmware(&signature, 4, &image, true);
    let expected = vec![
        sync(),
        verify_signature(&signature),
        set_options(),
        enter_programming_mode(),
        load_address(0),
        load_page(&[1, 2, 3, 4]),
        load_address(2),
        load_page(&[5]),
        load_address(0),
        verify_page(&[1, 2, 3, 4]),
        load_address(2),
        verify_page(&[5]),
        exit_programming_mode(),
    ];
    assert_eq!(with_verify, expected);
    let without = program_firmware(&signature, 4, &image, false);
    assert_eq!(without[..8], expected[..8]);
    assert_eq!(without[8], exit_programming_mode());
    assert_eq!(without.len(), 9);
}

#[test]
fn response_is_held_against_its_first_bytes() {
    let exchange = verify_page(&[1, 2, 3]);
    assert_eq!(exchange.verify_response(&[0x14, 1, 2, 3, 0x10]), Ok(()));
    assert_eq!(exchange.verify_response(&[0x14, 1, 2, 3, 0x10, 0x14, 0x10]), Ok(()));
    assert_eq!(
        exchange.verify_response(&[0x14, 1, 2, 3]),
        Err(AvrError::ProgrammerError(
            "unexpected response: expected 14 01 02 03 10, received 14 01 02 03".to_string()
        ))
    );
    assert_eq!(
        exchange.verify_response(&[0x14, 1, 2, 3, 0x11, 0xaa]),
        Err(AvrError::ProgrammerError(
            "unexpected response: expected 14 01 02 03 10, received 14 01 02 03 11".to_string()
        ))
    );
    assert_eq!(
        sync().verify_response(&[]),
        Err(AvrError::ProgrammerError("unexpected response: expected 14 10, received ".to_string()))
    );
    assert_eq!(
        verify_signature(&[0x1e, 0x95, 0x0f]).verify_response(&[0x14, 0x1e, 0x98, 0x01, 0x10]),
        Err(AvrError::ProgrammerError(
            "wrong device: expected 14 1e 95 0f 10, received 14 1e 98 01 10".to_string()
        ))
    );
}

#[test]
fn page_count_rounds_up() {
    assert_eq!(count_pages(0, 128), 0);
    assert_eq!(count_pages(1, 128), 1);
    assert_eq!(count_pages(128, 128), 1);
    assert_eq!(count_pages(129, 128), 2);
    assert_eq!(count_pages(300, 128), 3);
    assert_eq!(count_pages(MAX_IMAGE_BYTES, 2), 0x1_0000);
    assert_eq!(count_pages(usize::MAX, 1), usize::MAX);
    assert_eq!(count_pages(usize::MAX, u16::MAX), usize::MAX / 65535);
}

#[test]
fn page_ends_a_page_further_or_at_the_end() {
    assert_eq!(end_of_page(300, 128, 0), 128);
    assert_eq!(end_of_page(300, 128, 128), 256);
    assert_eq!(end_of_page(300, 128, 256), 300);
    assert_eq!(end_of_page(256, 128, 128), 256);
    assert_eq!(end_of_page(5, 128, 5), 5);
    assert_eq!(end_of_page(usize::MAX, 2, usize::MAX - 1), usize::MAX);
}
