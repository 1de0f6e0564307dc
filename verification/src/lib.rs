//! Driver core for the PMS 7003 particulate-matter sensor: the frames of its serial protocol
//! and the reader that finds them in a stream of bytes.

use vstd::prelude::*;

pub mod driver;
pub mod frame;
pub mod read_fsm;
pub mod read_laws;
pub mod wire;

pub use driver::{check_response, read_outcome, Command, Response};
pub use frame::{create_command, OutputFrame};
pub use read_fsm::{ReadStateMachine, ReadStatus, State};

verus! {

/// First byte of the magic header that opens every frame.
pub const MN1: u8 = 0x42;

/// Second byte of the magic header that opens every frame.
pub const MN2: u8 = 0x4D;

/// Everything that can go wrong while talking to the sensor.
#[derive(Debug)]
pub enum Error {
    /// The transport refused a byte of a command.
    SendFailed,
    /// The reader gave up before a whole frame had arrived.
    ReadFailed,
    /// A telemetry frame arrived whole but its checksum does not match.
    ChecksumError,
    /// The sensor answered a command with something else than the expected acknowledgement.
    IncorrectResponse,
    /// The sensor did not answer a command at all.
    NoResponse,
}

} // verus!
