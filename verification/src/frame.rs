//! The frames of the wire format: commands sent to the sensor and telemetry read from it.

use crate::wire::{
    be_u16, checksum, checksum_matches, gread_u16_be, gread_u8, gwrite_u16_be, gwrite_u8,
    high_byte, lemma_byte_sum_bound, low_byte, sum_bytes,
};
use crate::{Error, MN1, MN2};
use vstd::prelude::*;

verus! {

/// Length of a command frame.
pub const CMD_FRAME_SIZE: usize = 7;

/// Length of a telemetry frame.
pub const OUTPUT_FRAME_SIZE: usize = 32;

/// Length of the checksum that closes command and telemetry frames.
pub const CHECKSUM_SIZE: usize = 2;

/// The bytes of a command before its checksum: the magic header, the opcode and the data
/// word, high byte first.
pub open spec fn command_body(cmd: u8, data: u16) -> Seq<u8> {
    seq![MN1, MN2, cmd, high_byte(data), low_byte(data)]
}

/// The command frame for opcode `cmd` with argument `data`: the body followed by the checksum
/// of the body, high byte first.
pub open spec fn command_frame(cmd: u8, data: u16) -> Seq<u8> {
    let body = command_body(cmd, data);
    body.push(high_byte(checksum(body))).push(low_byte(checksum(body)))
}

/// Builds the frame that carries opcode `cmd` and argument `data` to the sensor.
pub fn create_command(cmd: u8, data: u16) -> (frame: [u8; CMD_FRAME_SIZE])
    ensures
        frame@ == command_frame(cmd, data),
{
    let mut buffer = [0u8; CMD_FRAME_SIZE];
    let mut offset: usize = 0;

    gwrite_u8(&mut buffer, MN1, &mut offset).unwrap();
    gwrite_u8(&mut buffer, MN2, &mut offset).unwrap();
    gwrite_u8(&mut buffer, cmd, &mut offset).unwrap();
    gwrite_u16_be(&mut buffer, data, &mut offset).unwrap();

    let sum: usize = sum_bytes(&buffer, CMD_FRAME_SIZE - CHECKSUM_SIZE);
    proof {
        assert(buffer@.take(5) == command_body(cmd, data));
        lemma_byte_sum_bound(command_body(cmd, data));
    }
    gwrite_u16_be(&mut buffer, sum as u16, &mut offset).unwrap();

    buffer
}

/// A command frame ends in the checksum of the five bytes before it.
pub proof fn lemma_command_checksum(cmd: u8, data: u16)
    ensures
        command_frame(cmd, data).len() == CMD_FRAME_SIZE,
        command_frame(cmd, data).take(5) == command_body(cmd, data),
        checksum_matches(command_frame(cmd, data)),
{
    let frame = command_frame(cmd, data);
    let sum = checksum(command_body(cmd, data));
    assert(frame.take(5) == command_body(cmd, data));
    assert(be_u16(high_byte(sum), low_byte(sum)) == sum);
}

/// Contains data reported by the sensor
#[derive(Debug)]
pub struct OutputFrame {
    pub start1: u8,
    pub start2: u8,
    pub frame_length: u16,
    pub pm1_0: u16,
    pub pm2_5: u16,
    pub pm10: u16,
    pub pm1_0_atm: u16,
    pub pm2_5_atm: u16,
    pub pm10_atm: u16,
    pub beyond_0_3: u16,
    pub beyond_0_5: u16,
    pub beyond_1_0: u16,
    pub beyond_2_5: u16,
    pub beyond_5_0: u16,
    pub beyond_10_0: u16,
    pub reserved: u16,
    pub check: u16,
}

impl OutputFrame {
    /// The record in which every field is zero.
    pub open spec fn zeroed() -> OutputFrame {
        OutputFrame {
            start1: 0,
            start2: 0,
            frame_length: 0,
            pm1_0: 0,
            pm2_5: 0,
            pm10: 0,
            pm1_0_atm: 0,
            pm2_5_atm: 0,
            pm10_atm: 0,
            beyond_0_3: 0,
            beyond_0_5: 0,
            beyond_1_0: 0,
            beyond_2_5: 0,
            beyond_5_0: 0,
            beyond_10_0: 0,
            reserved: 0,
            check: 0,
        }
    }
}

impl Default for OutputFrame {
    fn default() -> (frame: Self)
        ensures
            frame == OutputFrame::zeroed(),
    {
        OutputFrame {
            start1: 0,
            start2: 0,
            frame_length: 0,
            pm1_0: 0,
            pm2_5: 0,
            pm10: 0,
            pm1_0_atm: 0,
            pm2_5_atm: 0,
            pm10_atm: 0,
            beyond_0_3: 0,
            beyond_0_5: 0,
            beyond_1_0: 0,
            beyond_2_5: 0,
            beyond_5_0: 0,
            beyond_10_0: 0,
            reserved: 0,
            check: 0,
        }
    }
}

impl OutputFrame {
    /// The record that the bytes of a telemetry frame spell out: two single bytes, then
    /// fifteen 16-bit fields, each high byte first.
    pub open spec fn decode(bytes: Seq<u8>) -> OutputFrame {
        OutputFrame {
            start1: bytes[0],
            start2: bytes[1],
            frame_length: be_u16(bytes[2], bytes[3]),
            pm1_0: be_u16(bytes[4], bytes[5]),
            pm2_5: be_u16(bytes[6], bytes[7]),
            pm10: be_u16(bytes[8], bytes[9]),
            pm1_0_atm: be_u16(bytes[10], bytes[11]),
            pm2_5_atm: be_u16(bytes[12], bytes[13]),
            pm10_atm: be_u16(bytes[14], bytes[15]),
            beyond_0_3: be_u16(bytes[16], bytes[17]),
            beyond_0_5: be_u16(bytes[18], bytes[19]),
            beyond_1_0: be_u16(bytes[20], bytes[21]),
            beyond_2_5: be_u16(bytes[22], bytes[23]),
            beyond_5_0: be_u16(bytes[24], bytes[25]),
            beyond_10_0: be_u16(bytes[26], bytes[27]),
            reserved: be_u16(bytes[28], bytes[29]),
            check: be_u16(bytes[30], bytes[31]),
        }
    }

    /// Decodes a telemetry frame. The frame is accepted exactly when its last two bytes hold
    /// the checksum of the thirty bytes before them; a frame that fails the test is rejected
    /// as a whole.
    pub fn from_buffer(buffer: &[u8; OUTPUT_FRAME_SIZE]) -> (r: Result<Self, Error>)
        ensures
            r is Ok <==> checksum_matches(buffer@),
            r is Ok ==> r->Ok_0 == OutputFrame::decode(buffer@),
            r is Err ==> r->Err_0 == Error::ChecksumError,
    {
        let sum: usize = sum_bytes(buffer, OUTPUT_FRAME_SIZE - CHECKSUM_SIZE);
        proof {
            lemma_byte_sum_bound(buffer@.take(30));
        }

        let mut frame = OutputFrame::default();
        let mut offset: usize = 0;

        frame.start1 = gread_u8(buffer, &mut offset).unwrap();
        frame.start2 = gread_u8(buffer, &mut offset).unwrap();
        frame.frame_length = gread_u16_be(buffer, &mut offset).unwrap();
        frame.pm1_0 = gread_u16_be(buffer, &mut offset).unwrap();
        frame.pm2_5 = gread_u16_be(buffer, &mut offset).unwrap();
        frame.pm10 = gread_u16_be(buffer, &mut offset).unwrap();
        frame.pm1_0_atm = gread_u16_be(buffer, &mut offset).unwrap();
        frame.pm2_5_atm = gread_u16_be(buffer, &mut offset).unwrap();
        frame.pm10_atm = gread_u16_be(buffer, &mut offset).unwrap();
        frame.beyond_0_3 = gread_u16_be(buffer, &mut offset).unwrap();
        frame.beyond_0_5 = gread_u16_be(buffer, &mut offset).unwrap();
        frame.beyond_1_0 = gread_u16_be(buffer, &mut offset).unwrap();
        frame.beyond_2_5 = gread_u16_be(buffer, &mut offset).unwrap();
        frame.beyond_5_0 = gread_u16_be(buffer, &mut offset).unwrap();
        frame.beyond_10_0 = gread_u16_be(buffer, &mut offset).unwrap();
        frame.reserved = gread_u16_be(buffer, &mut offset).unwrap();
        frame.check = gread_u16_be(buffer, &mut offset).unwrap();

        if sum != frame.check as usize {
            return Err(Error::ChecksumError);
        }
        Ok(frame)
    }
}

} // verus!
