//! The rules of the conversation with the sensor: which command an operation sends, which
//! acknowledgement it waits for, and what a read amounts to.

use crate::frame::{command_frame, create_command, CMD_FRAME_SIZE};
use crate::read_fsm::ReadStatus;
use crate::Error;
use vstd::prelude::*;

verus! {

/// Length of an acknowledgement.
pub const RESPONSE_FRAME_SIZE: usize = 8;

/// The bytes of an acknowledgement.
pub type Response = [u8; RESPONSE_FRAME_SIZE];

/// What the sensor answers when it has switched to passive mode.
pub const PASSIVE_MODE_RESPONSE: Response = [0x42, 0x42, 0x00, 0x04, 0xE1, 0x00, 0x01, 0x74];

/// What the sensor answers when it has switched to active mode.
pub const ACTIVE_MODE_RESPONSE: Response = [0x42, 0x42, 0x00, 0x04, 0xE1, 0x01, 0x01, 0x75];

/// What the sensor answers before it goes to sleep.
pub const SLEEP_RESPONSE: Response = [0x42, 0x42, 0x00, 0x04, 0xE4, 0x00, 0x01, 0x77];

/// What the sensor can be told.
#[derive(Clone, Copy, Debug)]
pub enum Command {
    /// Stop measuring until woken.
    Sleep,
    /// Resume measuring.
    Wake,
    /// Report air quality on request only.
    Passive,
    /// Report air quality continuously.
    Active,
    /// Report air quality once; for passive mode.
    Request,
}

impl Command {
    /// The opcode that stands for this command on the wire.
    pub open spec fn opcode(self) -> u8 {
        match self {
            Command::Sleep => 0xE4,
            Command::Wake => 0xE4,
            Command::Passive => 0xE1,
            Command::Active => 0xE1,
            Command::Request => 0xE2,
        }
    }

    /// The data word that goes with the opcode.
    pub open spec fn data(self) -> u16 {
        match self {
            Command::Sleep => 0,
            Command::Wake => 1,
            Command::Passive => 0,
            Command::Active => 1,
            Command::Request => 0,
        }
    }

    /// The acknowledgement that the sensor owes for this command, if it owes one.
    pub open spec fn acknowledgement(self) -> Option<Response> {
        match self {
            Command::Sleep => Some(SLEEP_RESPONSE),
            Command::Wake => None,
            Command::Passive => Some(PASSIVE_MODE_RESPONSE),
            Command::Active => Some(ACTIVE_MODE_RESPONSE),
            Command::Request => None,
        }
    }

    /// The frame to send for this command.
    pub fn frame(self) -> (frame: [u8; CMD_FRAME_SIZE])
        ensures
            frame@ == command_frame(self.opcode(), self.data()),
    {
        match self {
            Command::Sleep => create_command(0xe4, 0),
            Command::Wake => create_command(0xe4, 1),
            Command::Passive => create_command(0xe1, 0),
            Command::Active => create_command(0xe1, 1),
            Command::Request => create_command(0xe2, 0),
        }
    }

    /// The acknowledgement to wait for once the command is sent; `None` where the sensor
    /// sends none and the command is done as soon as it is sent.
    pub fn expected_response(self) -> (expected: Option<Response>)
        ensures
            expected == self.acknowledgement(),
    {
        match self {
            Command::Sleep => Some(SLEEP_RESPONSE),
            Command::Wake => None,
            Command::Passive => Some(PASSIVE_MODE_RESPONSE),
            Command::Active => Some(ACTIVE_MODE_RESPONSE),
            Command::Request => None,
        }
    }
}

/// Holds what the sensor answered against the acknowledgement that was expected: the answer
/// passes only if it is the same, byte for byte.
pub fn check_response(received: &Response, expected: &Response) -> (r: Result<(), Error>)
    ensures
        r is Ok <==> received@ == expected@,
        r is Err ==> r->Err_0 == Error::IncorrectResponse,
{
    let mut i: usize = 0;
    while i < RESPONSE_FRAME_SIZE
        invariant
            i <= RESPONSE_FRAME_SIZE,
            forall|k: int| 0 <= k < i ==> received@[k] == expected@[k],
        decreases RESPONSE_FRAME_SIZE - i,
    {
        if received[i] != expected[i] {
            return Err(Error::IncorrectResponse);
        }
        i = i + 1;
    }
    assert(received@ =~= expected@);
    Ok(())
}

/// What a read amounts to at the status it has reached: nothing yet while it is in progress,
/// success once the frame is complete, and a failed read once the reader has given up.
pub fn read_outcome(status: ReadStatus) -> (r: Option<Result<(), Error>>)
    ensures
        status is InProgress <==> r is None,
        status is Finished <==> r == Some(Ok::<(), Error>(())),
        status is Failed <==> r == Some(Err::<(), Error>(Error::ReadFailed)),
{
    match status {
        ReadStatus::InProgress => None,
        ReadStatus::Finished => Some(Ok(())),
        ReadStatus::Failed => Some(Err(Error::ReadFailed)),
    }
}

} // verus!
