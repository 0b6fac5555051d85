//! The board catalog and the search for a board's port.

use avrman::boards::{protocol_for_mcu, serial_port_from_product_id, PortInfo};
use avrman::error::AvrError;
use avrman::interface::{ComPortParams, DeviceInterfaceType};
use avrman::protocols::stk500v1::Stk500v1Params;
use avrman::protocols::stk500v2::Stk500v2Params;
use avrman::{Microcontroller, Programmer, ProtocolType};

fn port(name: &str, pid: Option<u16>) -> PortInfo {
    PortInfo { port_name: name.to_string(), usb_product_id: pid }
}

fn serial(port: Option<&str>, baud: Option<u32>) -> Option<DeviceInterfaceType> {
    Some(DeviceInterfaceType::VirtualComPort(ComPortParams { port: port.map(|p| p.to_string()), baud }))
}

const NO_MATCH: &str = "no serial port matches the product ids of the board; try naming the port";

#[test]
fn first_matching_usb_port_is_chosen() {
    let ports = Ok(vec![
        port("/dev/ttyS0", None),
        port("/dev/ttyACM0", Some(0x1234)),
        port("/dev/ttyUSB1", Some(0xea60)),
        port("/dev/ttyUSB0", Some(0x0043)),
    ]);
    let ids = vec![0x0043, 0x7523, 0x0001, 0xea60, 0x6015];
    assert_eq!(serial_port_from_product_id(&ids, &ports), Ok("/dev/ttyUSB1".to_string()));
    assert_eq!(serial_port_from_product_id(&vec![0x0043], &ports), Ok("/dev/ttyUSB0".to_string()));
    assert_eq!(serial_port_from_product_id(&vec![0x1234, 0x0043], &ports), Ok("/dev/ttyACM0".to_string()));
}

#[test]
fn no_matching_port_is_a_configuration_error() {
    let ports = Ok(vec![port("/dev/ttyS0", None), port("/dev/ttyACM0", Some(0x1234))]);
    assert_eq!(
        serial_port_from_product_id(&vec![0x0043], &ports),
        Err(AvrError::ConfigurationError(NO_MATCH.to_string()))
    );
    assert_eq!(
        serial_port_from_product_id(&vec![0x0043], &Ok(Vec::new())),
        Err(AvrError::ConfigurationError(NO_MATCH.to_string()))
    );
    assert_eq!(
        serial_port_from_product_id(&Vec::new(), &ports),
        Err(AvrError::ConfigurationError(NO_MATCH.to_string()))
    );
}

#[test]
fn ports_that_cannot_be_listed_are_a_configuration_error() {
    assert_eq!(
        serial_port_from_product_id(&vec![0x0043], &Err("permission denied".to_string())),
        Err(AvrError::ConfigurationError("could not list the serial ports: permission denied".to_string()))
    );
    assert_eq!(
        protocol_for_mcu(Microcontroller::ArduinoUno, None, &Err("no udev".to_string())),
        Err(AvrError::ConfigurationError("could not list the serial ports: no udev".to_string()))
    );
    assert!(matches!(
        Programmer::new(Microcontroller::ArduinoNano, &Err("no udev".to_string())),
        Err(AvrError::ConfigurationError(_))
    ));
}

#[test]
fn uno_and_atmega328p_share_their_parameters() {
    let ports = Ok(vec![port("COM7", Some(0x7523))]);
    for mcu in [Microcontroller::ArduinoUno, Microcontroller::Atmega328p] {
        assert_eq!(
            protocol_for_mcu(mcu, None, &ports),
            Ok(ProtocolType::Stk500v1(Stk500v1Params {
                port: "COM7".to_string(),
                baud: 115200,
                device_signature: vec![0x1e, 0x95, 0x0f],
                page_size: 128,
                num_pages: 256,
                product_id: vec![0x0043, 0x7523, 0x0001, 0xea60, 0x6015],
            }))
        );
    }
}

#[test]
fn nano_listens_at_57600() {
    let ports = Ok(vec![port("COM1", Some(0x0043)), port("COM2", Some(0x6001))]);
    assert_eq!(
        protocol_for_mcu(Microcontroller::ArduinoNano, None, &ports),
        Ok(ProtocolType::Stk500v1(Stk500v1Params {
            port: "COM2".to_string(),
            baud: 57600,
            device_signature: vec![0x1e, 0x95, 0x0f],
            page_size: 128,
            num_pages: 256,
            product_id: vec![0x6001, 0x7523],
        }))
    );
}

#[test]
fn mega_speaks_the_second_protocol() {
    let ports = Ok(vec![port("COM2", Some(0x6001))]);
    let protocol = protocol_for_mcu(Microcontroller::ArduinoMega, None, &ports);
    assert_eq!(
        protocol,
        Ok(ProtocolType::Stk500v2(Stk500v2Params {
            port: "COM2".to_string(),
            baud: 115200,
            device_signature: vec![0x1e, 0x98, 0x01],
            page_size: 256,
            product_id: vec![0x6001, 0x7523],
        }))
    );
    assert_eq!(
        Programmer::from_protocol(protocol.unwrap()).err(),
        Some(AvrError::ConfigurationError("STK500v2 is not supported".to_string()))
    );
    assert_eq!(
        Programmer::new(Microcontroller::ArduinoMega, &ports).err(),
        Some(AvrError::ConfigurationError("STK500v2 is not supported".to_string()))
    );
}

#[test]
fn named_port_and_speed_are_taken_as_given() {
    let unlisted = Err("never asked".to_string());
    let protocol = protocol_for_mcu(Microcontroller::ArduinoUno, serial(Some("/dev/ttyX"), Some(9600)), &unlisted);
    match protocol {
        Ok(ProtocolType::Stk500v1(params)) => {
            assert_eq!(params.port, "/dev/ttyX");
            assert_eq!(params.baud, 9600);
            assert_eq!(params.page_size, 128);
        }
        other => panic!("unexpected answer {:?}", other),
    }
    let protocol = protocol_for_mcu(Microcontroller::ArduinoNano, serial(Some("/dev/ttyX"), None), &unlisted);
    match protocol {
        Ok(ProtocolType::Stk500v1(params)) => {
            assert_eq!(params.port, "/dev/ttyX");
            assert_eq!(params.baud, 57600);
        }
        other => panic!("unexpected answer {:?}", other),
    }
}

#[test]
fn speed_alone_still_needs_the_port_to_be_found() {
    let ports = Ok(vec![port("COM9", Some(0x6015))]);
    let protocol = protocol_for_mcu(Microcontroller::ArduinoUno, serial(None, Some(19200)), &ports);
    match protocol {
        Ok(ProtocolType::Stk500v1(params)) => {
            assert_eq!(params.port, "COM9");
            assert_eq!(params.baud, 19200);
        }
        other => panic!("unexpected answer {:?}", other),
    }
    assert_eq!(
        protocol_for_mcu(Microcontroller::ArduinoUno, serial(None, Some(19200)), &Ok(Vec::new())),
        Err(AvrError::ConfigurationError(NO_MATCH.to_string()))
    );
}

#[test]
fn programmer_starts_verifying_and_without_progress_bar() {
    let ports = Ok(vec![port("COM9", Some(0x6015))]);
    let mut programmer = Programmer::new(Microcontroller::Atmega328p, &ports).unwrap();
    assert!(programmer.verifies());
    assert!(!programmer.shows_progress());
    assert_eq!(programmer.params().port, "COM9");
    assert_eq!(programmer.params().baud, 115200);
    programmer.progress_bar(true);
    assert!(programmer.shows_progress());
    assert!(programmer.verifies());
    programmer.verify_after_programming(false);
    assert!(!programmer.verifies());
    assert!(programmer.shows_progress());
    programmer.progress_bar(false);
    programmer.verify_after_programming(true);
    assert!(programmer.verifies());
    assert!(!programmer.shows_progress());

    let programmer = Programmer::from_mcu_and_interface(
        Microcontroller::ArduinoNano,
        DeviceInterfaceType::VirtualComPort(ComPortParams { port: None, baud: None }),
        &Ok(vec![port("COM1", Some(0x7523))]),
    )
    .unwrap();
    assert_eq!(programmer.params().port, "COM1");
    assert_eq!(programmer.params().baud, 57600);
}
