//! Timing and size constants of the serial link.

use vstd::prelude::*;

verus! {

/// How long one read of the serial port may wait for bytes, in milliseconds.
pub const SERIAL_TIMEOUT_MS: u64 = 1;

/// How long the reader worker rests between two reads, in microseconds.
pub const TRANSPORT_THREAD_SLEEP_MICROS: u64 = 1000;

/// The most bytes that one read asks for.
pub const MAX_RESPONSE_SIZE: usize = 1024;

/// How long DTR and RTS are held low to reset the chip, in microseconds.
pub const RESET_DTR_RTS_LOW_MICROS: u64 = 100;

/// How long the bootloader is given to come up after a reset, in milliseconds.
pub const POST_RESET_BOOTUP_DELAY_MS: u64 = 250;

/// How long the sync may take in all before the run is given up, in milliseconds.
pub const SYNC_DEADLINE_MS: u64 = 10_000;

/// How long a whole run may take before it is given up, in milliseconds.
pub const PROGRAM_DEADLINE_MS: u64 = 30_000;

} // verus!
