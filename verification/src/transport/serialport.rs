//! The framed transport over a serial port.
//!
//! A read of the port yields whatever has arrived: often nothing, sometimes a whole
//! response, sometimes a piece of one. A reader hands on every chunk that holds bytes,
//! in the order of arrival. The transport joins chunks until it holds as many bytes as
//! the protocol expects, and then hands out all it holds. It may hold more than was
//! expected where a chunk reached past the end of the response.

use crate::interface::serialport::{BaudRate, ComPort, SerialPortDevice};
use crate::constants::SERIAL_TIMEOUT_MS;
use crate::util::append_bytes;
use vstd::prelude::*;

verus! {

/// The chunks as byte sequences.
pub open spec fn chunk_views(chunks: Seq<Vec<u8>>) -> Seq<Seq<u8>> {
    chunks.map_values(|chunk: Vec<u8>| chunk@)
}

/// The chunks joined into one byte string, first chunk first.
pub open spec fn joined(chunks: Seq<Seq<u8>>) -> Seq<u8>
    decreases chunks.len(),
{
    if chunks.len() == 0 {
        Seq::empty()
    } else {
        joined(chunks.drop_last()) + chunks.last()
    }
}

/// What has been gathered once the first `count` chunks of `queue` are joined to
/// `held`.
pub open spec fn gathered(held: Seq<u8>, queue: Seq<Vec<u8>>, count: int) -> Seq<u8> {
    held + joined(chunk_views(queue).take(count))
}

/// The framed transport: the link's configuration and the bytes gathered so far for the
/// response that is awaited.
#[derive(Debug, Clone, PartialEq, Eq)]
pub struct SerialPortTransport {
    device: SerialPortDevice,
    received: Vec<u8>,
}

impl View for SerialPortTransport {
    type V = Seq<u8>;

    /// The bytes gathered so far.
    closed spec fn view(&self) -> Seq<u8> {
        self.received@
    }
}

impl SerialPortTransport {
    /// The link that the transport runs over.
    pub closed spec fn spec_device(&self) -> SerialPortDevice {
        self.device
    }

    /// A transport over the port `port` at `baud`, with nothing gathered yet.
    pub fn new(port: ComPort, baud: BaudRate) -> (transport: SerialPortTransport)
        ensures
            transport@ == Seq::<u8>::empty(),
            transport.spec_device().spec_port() == port@,
            transport.spec_device().spec_baud() == baud,
            transport.spec_device().spec_timeout_ms() == SERIAL_TIMEOUT_MS,
            !transport.spec_device().spec_dtr_on_open(),
    {
        SerialPortTransport { device: SerialPortDevice::new(port, baud), received: Vec::new() }
    }

    /// The link that the transport runs over.
    pub fn device(&self) -> (device: &SerialPortDevice)
        ensures
            *device == self.spec_device(),
    {
        &self.device
    }

    /// The number of bytes gathered so far.
    pub fn held(&self) -> (n: usize)
        ensures
            n == self@.len(),
    {
        self.received.len()
    }

    /// Whether the reader hands a chunk on: it does where the chunk holds any bytes.
    pub fn forwards(chunk: &[u8]) -> (yes: bool)
        ensures
            yes == (chunk@.len() > 0),
    {
        chunk.len() > 0
    }

    /// Takes chunks from the front of `queue`, joining them to what is held, until at
    /// least `expected_bytes` bytes are held. The result says how many chunks were taken
    /// and, once enough is held, hands out all of it; the transport then holds nothing.
    /// Where the queue runs out first, every chunk is taken and kept, and the result holds
    /// no response yet.
    pub fn receive(&mut self, queue: &Vec<Vec<u8>>, expected_bytes: usize) -> (outcome: (usize, Option<Vec<u8>>))
        ensures
            outcome.0 <= queue@.len(),
            final(self).spec_device() == old(self).spec_device(),
            forall|count: int|
                0 <= count < outcome.0 ==> (#[trigger] gathered(old(self)@, queue@, count)).len() < expected_bytes,
            match outcome.1 {
                Some(response) => {
                    &&& response@ == gathered(old(self)@, queue@, outcome.0 as int)
                    &&& response@.len() >= expected_bytes
                    &&& final(self)@ == Seq::<u8>::empty()
                },
                None => {
                    &&& outcome.0 == queue@.len()
                    &&& final(self)@ == gathered(old(self)@, queue@, outcome.0 as int)
                    &&& final(self)@.len() < expected_bytes
                },
            },
    {
        let mut taken: usize = 0;
        while self.received.len() < expected_bytes && taken < queue.len()
            invariant
                taken <= queue@.len(),
                self.spec_device() == old(self).spec_device(),
                self@ == gathered(old(self)@, queue@, taken as int),
                forall|count: int|
                    0 <= count < taken ==> (#[trigger] gathered(old(self)@, queue@, count)).len() < expected_bytes,
            decreases queue@.len() - taken,
        {
            append_bytes(&mut self.received, queue[taken].as_slice());
            assert(chunk_views(queue@).take(taken + 1).drop_last() == chunk_views(queue@).take(taken as int));
            taken += 1;
        }
        if self.received.len() >= expected_bytes {
            let mut response: Vec<u8> = Vec::new();
            std::mem::swap(&mut response, &mut self.received);
            (taken, Some(response))
        } else {
            (taken, None)
        }
    }
}

} // verus!
