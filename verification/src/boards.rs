//! The board catalog: which protocol a board speaks, and with which parameters.

use crate::error::{result_view, AvrError, AvrErrorView, AvrResult};
use crate::interface::DeviceInterfaceType;
use crate::protocols::stk500v1::{Stk500v1Params, Stk500v1ParamsView};
use crate::protocols::stk500v2::{Stk500v2Params, Stk500v2ParamsView};
use crate::{ProtocolType, ProtocolView};
use vstd::prelude::*;
use vstd::string::*;

verus! {

/// The boards and chips that the programmer knows.
#[derive(Debug, Clone, Copy, PartialEq, Eq)]
pub enum Microcontroller {
    /// An ATmega328P behind a serial port.
    ArduinoUno,
    /// The same as the Arduino Uno.
    Atmega328p,
    /// Arduino Nano.
    ArduinoNano,
    /// Arduino Mega.
    ArduinoMega,
}

/// A serial port that the system lists: its name and, where it is a USB port, the
/// product id of the adapter.
#[derive(Debug, Clone, PartialEq, Eq)]
pub struct PortInfo {
    pub port_name: String,
    pub usb_product_id: Option<u16>,
}

impl Microcontroller {
    /// The speed at which the board's bootloader listens.
    pub open spec fn default_baud(self) -> u32 {
        match self {
            Microcontroller::ArduinoNano => 57600,
            _ => 115200,
        }
    }

    /// The signature of the board's chip.
    pub open spec fn signature(self) -> Seq<u8> {
        match self {
            Microcontroller::ArduinoMega => seq![0x1eu8, 0x98u8, 0x01u8],
            _ => seq![0x1eu8, 0x95u8, 0x0fu8],
        }
    }

    /// The size of a flash page of the board's chip.
    pub open spec fn page_size(self) -> u16 {
        match self {
            Microcontroller::ArduinoMega => 256,
            _ => 128,
        }
    }

    /// The USB product ids under which the board's serial adapter may appear.
    pub open spec fn product_ids(self) -> Seq<u16> {
        match self {
            Microcontroller::ArduinoUno | Microcontroller::Atmega328p => seq![
                0x0043u16,
                0x7523u16,
                0x0001u16,
                0xea60u16,
                0x6015u16,
            ],
            _ => seq![0x6001u16, 0x7523u16],
        }
    }

    /// The protocol and parameters of the board when it is reached over `port` at
    /// `baud`.
    pub open spec fn protocol(self, port: Seq<char>, baud: u32) -> ProtocolView {
        match self {
            Microcontroller::ArduinoMega => ProtocolView::Stk500v2(
                Stk500v2ParamsView {
                    port,
                    baud,
                    device_signature: self.signature(),
                    page_size: self.page_size(),
                    product_id: self.product_ids(),
                },
            ),
            _ => ProtocolView::Stk500v1(
                Stk500v1ParamsView {
                    port,
                    baud,
                    device_signature: self.signature(),
                    page_size: self.page_size(),
                    num_pages: 256,
                    product_id: self.product_ids(),
                },
            ),
        }
    }
}

/// The port is a USB port whose product id is one of `product_ids`.
pub open spec fn port_matches(port: PortInfo, product_ids: Seq<u16>) -> bool {
    port.usb_product_id matches Some(pid) && product_ids.contains(pid)
}

/// The name of the first listed port that matches, if any does.
pub open spec fn matching_port(ports: Seq<PortInfo>, product_ids: Seq<u16>) -> Option<Seq<char>>
    decreases ports.len(),
{
    if ports.len() == 0 {
        None
    } else {
        match matching_port(ports.drop_last(), product_ids) {
            Some(name) => Some(name),
            None => if port_matches(ports.last(), product_ids) {
                Some(ports.last().port_name@)
            } else {
                None
            },
        }
    }
}

/// What the search for a board's port comes to: the first listed port that matches one
/// of the product ids, and a configuration error where the ports could not be listed or
/// none of them matches.
pub open spec fn spec_serial_port_from_product_id(
    product_ids: Seq<u16>,
    ports: Result<Vec<PortInfo>, String>,
) -> Result<Seq<char>, AvrErrorView> {
    match ports {
        Err(reason) => Err(AvrErrorView::ConfigurationError("could not list the serial ports: "@ + reason@)),
        Ok(listed) => match matching_port(listed@, product_ids) {
            Some(name) => Ok(name),
            None => Err(
                AvrErrorView::ConfigurationError(
                    "no serial port matches the product ids of the board; try naming the port"@,
                ),
            ),
        },
    }
}

/// The port that a caller asked for, if any.
pub open spec fn requested_port(interface_type: Option<DeviceInterfaceType>) -> Option<Seq<char>> {
    match interface_type {
        Some(DeviceInterfaceType::VirtualComPort(params)) => match params.port {
            Some(port) => Some(port@),
            None => None,
        },
        None => None,
    }
}

/// The speed that a caller asked for, if any.
pub open spec fn requested_baud(interface_type: Option<DeviceInterfaceType>) -> Option<u32> {
    match interface_type {
        Some(DeviceInterfaceType::VirtualComPort(params)) => params.baud,
        None => None,
    }
}

/// What the catalog answers: the board's protocol on the port asked for, or else on the
/// port found by product id, at the speed asked for, or else at the board's own. The
/// ports are searched only where none was asked for; a failed search is the answer then.
pub open spec fn spec_protocol_for_mcu(
    mcu: Microcontroller,
    interface_type: Option<DeviceInterfaceType>,
    ports: Result<Vec<PortInfo>, String>,
) -> Result<ProtocolView, AvrErrorView> {
    let baud = match requested_baud(interface_type) {
        Some(baud) => baud,
        None => mcu.default_baud(),
    };
    match requested_port(interface_type) {
        Some(port) => Ok(mcu.protocol(port, baud)),
        None => match spec_serial_port_from_product_id(mcu.product_ids(), ports) {
            Ok(port) => Ok(mcu.protocol(port, baud)),
            Err(error) => Err(error),
        },
    }
}

/// Once a port has matched, it stays the answer however many more ports are listed.
proof fn lemma_matching_port_stays(ports: Seq<PortInfo>, product_ids: Seq<u16>, n: int)
    requires
        0 <= n <= ports.len(),
        matching_port(ports.take(n), product_ids) is Some,
    ensures
        matching_port(ports, product_ids) == matching_port(ports.take(n), product_ids),
    decreases ports.len() - n,
{
    if n < ports.len() {
        assert(ports.take(n + 1).drop_last() == ports.take(n));
        lemma_matching_port_stays(ports, product_ids, n + 1);
    } else {
        assert(ports.take(n) == ports);
    }
}

/// Tells whether `pid` is one of `product_ids`.
fn is_listed(product_ids: &Vec<u16>, pid: u16) -> (yes: bool)
    ensures
        yes == product_ids@.contains(pid),
{
    let mut i: usize = 0;
    while i < product_ids.len()
        invariant
            i <= product_ids.len(),
            forall|j: int| 0 <= j < i ==> product_ids@[j] != pid,
        decreases product_ids.len() - i,
    {
        if product_ids[i] == pid {
            return true;
        }
        i += 1;
    }
    false
}

/// Finds the port of a board among the ports that the system lists: the first USB port
/// whose product id is one of `product_ids`.
pub fn serial_port_from_product_id(product_ids: &Vec<u16>, ports: &Result<Vec<PortInfo>, String>) -> (found:
    AvrResult<String>)
    ensures
        result_view(found) == spec_serial_port_from_product_id(product_ids@, *ports),
{
    match ports {
        Err(reason) => Err(
            AvrError::ConfigurationError(
                String::from_str("could not list the serial ports: ").concat(reason.as_str()),
            ),
        ),
        Ok(listed) => {
            let mut i: usize = 0;
            while i < listed.len()
                invariant
                    i <= listed.len(),
                    *ports == Ok::<Vec<PortInfo>, String>(*listed),
                    matching_port(listed@.take(i as int), product_ids@) is None,
                decreases listed.len() - i,
            {
                let matches = match listed[i].usb_product_id {
                    Some(pid) => is_listed(product_ids, pid),
                    None => false,
                };
                assert(listed@.take(i + 1).drop_last() == listed@.take(i as int));
                if matches {
                    proof {
                        assert(matching_port(listed@.take(i + 1), product_ids@) == Some(
                            listed@[i as int].port_name@,
                        ));
                        lemma_matching_port_stays(listed@, product_ids@, i + 1);
                    }
                    return Ok(listed[i].port_name.clone());
                }
                i += 1;
            }
            assert(listed@.take(listed.len() as int) == listed@);
            Err(
                AvrError::ConfigurationError(
                    String::from_str("no serial port matches the product ids of the board; try naming the port"),
                ),
            )
        },
    }
}

/// The signature of the board's chip.
fn signature_of(mcu: Microcontroller) -> (signature: Vec<u8>)
    ensures
        signature@ == mcu.signature(),
{
    let mut signature: Vec<u8> = Vec::new();
    signature.push(0x1e);
    match mcu {
        Microcontroller::ArduinoMega => {
            signature.push(0x98);
            signature.push(0x01);
        },
        _ => {
            signature.push(0x95);
            signature.push(0x0f);
        },
    }
    signature
}

/// The USB product ids under which the board's serial adapter may appear.
fn product_ids_of(mcu: Microcontroller) -> (product_id: Vec<u16>)
    ensures
        product_id@ == mcu.product_ids(),
{
    let mut product_id: Vec<u16> = Vec::new();
    match mcu {
        Microcontroller::ArduinoUno | Microcontroller::Atmega328p => {
            product_id.push(0x0043);
            product_id.push(0x7523);
            product_id.push(0x0001);
            product_id.push(0xea60);
            product_id.push(0x6015);
        },
        _ => {
            product_id.push(0x6001);
            product_id.push(0x7523);
        },
    }
    product_id
}

/// Works out the protocol and all its parameters for a board. What `interface_type`
/// names is taken as given; a port that it leaves open is looked for among `ports`, and
/// a speed that it leaves open is the board's own.
pub fn protocol_for_mcu(
    mcu: Microcontroller,
    interface_type: Option<DeviceInterfaceType>,
    ports: &Result<Vec<PortInfo>, String>,
) -> (protocol: AvrResult<ProtocolType>)
    ensures
        result_view(protocol) == spec_protocol_for_mcu(mcu, interface_type, *ports),
{
    let default_baud_rate: u32 = match mcu {
        Microcontroller::ArduinoNano => 57600,
        _ => 115200,
    };
    let page_size: u16 = match mcu {
        Microcontroller::ArduinoMega => 256,
        _ => 128,
    };
    let product_id = product_ids_of(mcu);
    let (asked_port, asked_baud) = match interface_type {
        Some(DeviceInterfaceType::VirtualComPort(params)) => (params.port, params.baud),
        None => (None, None),
    };
    let baud = match asked_baud {
        Some(baud) => baud,
        None => default_baud_rate,
    };
    let port = match asked_port {
        Some(port) => port,
        None => match serial_port_from_product_id(&product_id, ports) {
            Ok(port) => port,
            Err(error) => {
                return Err(error);
            },
        },
    };
    let device_signature = signature_of(mcu);
    match mcu {
        Microcontroller::ArduinoMega => Ok(
            ProtocolType::Stk500v2(Stk500v2Params { port, baud, device_signature, page_size, product_id }),
        ),
        _ => Ok(
            ProtocolType::Stk500v1(
                Stk500v1Params { port, baud, device_signature, page_size, num_pages: 256, product_id },
            ),
        ),
    }
}

} // verus!
