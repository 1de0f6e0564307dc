use pms_7003::frame::{CHECKSUM_SIZE, CMD_FRAME_SIZE, OUTPUT_FRAME_SIZE};
use pms_7003::{create_command, Error, OutputFrame};

const STATUS: [u8; 32] = [
    0x42, 0x4d, 0x0, 0x1c, 0x0, 0x5, 0x0, 0x7, 0x0, 0x7, 0x0, 0x5, 0x0, 0x7, 0x0, 0x7, 0x0, 0x0,
    0x0, 0x0, 0x0, 0x0, 0x0, 0x0, 0x0, 0x0, 0x0, 0x0, 0x97, 0x0, 0x1, 0x68,
];

fn sum_of(bytes: &[u8]) -> u16 {
    let mut sum: u32 = 0;
    for byte in bytes {
        sum += u32::from(*byte);
    }
    (sum % 0x1_0000) as u16
}

#[test]
fn frame_sizes() {
    assert_eq!(CMD_FRAME_SIZE, 7);
    assert_eq!(OUTPUT_FRAME_SIZE, 32);
    assert_eq!(CHECKSUM_SIZE, 2);
}

#[test]
fn request_command_bytes() {
    assert_eq!(create_command(0xe2, 0), [0x42, 0x4D, 0xE2, 0x00, 0x00, 0x01, 0x71]);
}

#[test]
fn mode_command_bytes() {
    assert_eq!(create_command(0xe1, 0), [0x42, 0x4D, 0xE1, 0x00, 0x00, 0x01, 0x70]);
    assert_eq!(create_command(0xe1, 1), [0x42, 0x4D, 0xE1, 0x00, 0x01, 0x01, 0x71]);
}

#[test]
fn sleep_and_wake_command_bytes() {
    assert_eq!(create_command(0xe4, 0), [0x42, 0x4D, 0xE4, 0x00, 0x00, 0x01, 0x73]);
    assert_eq!(create_command(0xe4, 1), [0x42, 0x4D, 0xE4, 0x00, 0x01, 0x01, 0x74]);
}

#[test]
fn command_data_is_big_endian() {
    assert_eq!(create_command(0x00, 0x1234), [0x42, 0x4D, 0x00, 0x12, 0x34, 0x00, 0xD5]);
    assert_eq!(create_command(0x00, 0xFF00), [0x42, 0x4D, 0x00, 0xFF, 0x00, 0x01, 0x8E]);
    assert_eq!(create_command(0x00, 0x00FF), [0x42, 0x4D, 0x00, 0x00, 0xFF, 0x01, 0x8E]);
}

#[test]
fn largest_command() {
    assert_eq!(create_command(0xFF, 0xFFFF), [0x42, 0x4D, 0xFF, 0xFF, 0xFF, 0x03, 0x8C]);
}

#[test]
fn command_checksum_is_the_sum_of_the_first_five_bytes() {
    for cmd in 0..=255u8 {
        for data in [0u16, 1, 2, 0x00FF, 0x0100, 0x1234, 0x7FFF, 0x8000, 0xFFFE, 0xFFFF] {
            let frame = create_command(cmd, data);
            assert_eq!(frame[0], 0x42);
            assert_eq!(frame[1], 0x4D);
            assert_eq!(frame[2], cmd);
            assert_eq!(u16::from_be_bytes([frame[3], frame[4]]), data);
            assert_eq!(u16::from_be_bytes([frame[5], frame[6]]), sum_of(&frame[..5]));
        }
    }
}

#[test]
fn telemetry_frame_with_matching_checksum_is_decoded() {
    assert_eq!(sum_of(&STATUS[..30]), 0x0168);
    let frame = OutputFrame::from_buffer(&STATUS).unwrap();
    assert_eq!(frame.start1, 0x42);
    assert_eq!(frame.start2, 0x4D);
    assert_eq!(frame.frame_length, 28);
    assert_eq!(frame.pm1_0, 5);
    assert_eq!(frame.pm2_5, 7);
    assert_eq!(frame.pm10, 7);
    assert_eq!(frame.pm1_0_atm, 5);
    assert_eq!(frame.pm2_5_atm, 7);
    assert_eq!(frame.pm10_atm, 7);
    assert_eq!(frame.beyond_0_3, 0);
    assert_eq!(frame.beyond_0_5, 0);
    assert_eq!(frame.beyond_1_0, 0);
    assert_eq!(frame.beyond_2_5, 0);
    assert_eq!(frame.beyond_5_0, 0);
    assert_eq!(frame.beyond_10_0, 0);
    assert_eq!(frame.reserved, 0x9700);
    assert_eq!(frame.check, 0x0168);
}

#[test]
fn telemetry_frame_with_one_corrupted_byte_is_rejected() {
    for at in 0..32 {
        let mut buffer = STATUS;
        buffer[at] ^= 0x01;
        assert!(matches!(
            OutputFrame::from_buffer(&buffer),
            Err(Error::ChecksumError)
        ));
    }
}

#[test]
fn every_field_is_read_from_its_own_offset_high_byte_first() {
    let mut buffer = [0u8; 32];
    for (i, byte) in buffer.iter_mut().enumerate().take(30) {
        *byte = (i as u8) + 1;
    }
    let sum = sum_of(&buffer[..30]);
    assert_eq!(sum, 465);
    buffer[30] = 0x01;
    buffer[31] = 0xD1;
    let frame = OutputFrame::from_buffer(&buffer).unwrap();
    assert_eq!(frame.start1, 0x01);
    assert_eq!(frame.start2, 0x02);
    assert_eq!(frame.frame_length, 0x0304);
    assert_eq!(frame.pm1_0, 0x0506);
    assert_eq!(frame.pm2_5, 0x0708);
    assert_eq!(frame.pm10, 0x090A);
    assert_eq!(frame.pm1_0_atm, 0x0B0C);
    assert_eq!(frame.pm2_5_atm, 0x0D0E);
    assert_eq!(frame.pm10_atm, 0x0F10);
    assert_eq!(frame.beyond_0_3, 0x1112);
    assert_eq!(frame.beyond_0_5, 0x1314);
    assert_eq!(frame.beyond_1_0, 0x1516);
    assert_eq!(frame.beyond_2_5, 0x1718);
    assert_eq!(frame.beyond_5_0, 0x191A);
    assert_eq!(frame.beyond_10_0, 0x1B1C);
    assert_eq!(frame.reserved, 0x1D1E);
    assert_eq!(frame.check, 0x01D1);
}

#[test]
fn checksum_bytes_in_the_wrong_order_are_rejected() {
    let mut buffer = STATUS;
    buffer[30] = 0x68;
    buffer[31] = 0x01;
    assert!(matches!(
        OutputFrame::from_buffer(&buffer),
        Err(Error::ChecksumError)
    ));
}

#[test]
fn empty_and_full_frames() {
    let zeros = [0u8; 32];
    let frame = OutputFrame::from_buffer(&zeros).unwrap();
    assert_eq!(frame.start1, 0);
    assert_eq!(frame.check, 0);

    let mut ones = [0xFFu8; 32];
    // Thirty times 255 is 7650.
    ones[30] = 0x1D;
    ones[31] = 0xE2;
    let frame = OutputFrame::from_buffer(&ones).unwrap();
    assert_eq!(frame.start1, 0xFF);
    assert_eq!(frame.pm10, 0xFFFF);
    assert_eq!(frame.check, 7650);
    ones[31] = 0xE3;
    assert!(matches!(
        OutputFrame::from_buffer(&ones),
        Err(Error::ChecksumError)
    ));
}

#[test]
fn telemetry_is_accepted_exactly_when_the_checksum_matches() {
    let mut seed: u32 = 0x1234_5678;
    for round in 0..2000 {
        let mut buffer = [0u8; 32];
        for byte in buffer.iter_mut() {
            seed = seed.wrapping_mul(1_664_525).wrapping_add(1_013_904_223);
            *byte = (seed >> 24) as u8;
        }
        if round % 2 == 0 {
            let sum = sum_of(&buffer[..30]).to_be_bytes();
            buffer[30] = sum[0];
            buffer[31] = sum[1];
        }
        let expected = sum_of(&buffer[..30]) == u16::from_be_bytes([buffer[30], buffer[31]]);
        match OutputFrame::from_buffer(&buffer) {
            Ok(frame) => {
                assert!(expected);
                assert_eq!(frame.start1, buffer[0]);
                assert_eq!(frame.pm1_0, u16::from_be_bytes([buffer[4], buffer[5]]));
                assert_eq!(frame.check, sum_of(&buffer[..30]));
            }
            Err(error) => {
                assert!(!expected);
                assert!(matches!(error, Error::ChecksumError));
            }
        }
    }
}

#[test]
fn default_frame_is_all_zero() {
    let frame = OutputFrame::default();
    assert_eq!(frame.start1, 0);
    assert_eq!(frame.start2, 0);
    assert_eq!(frame.frame_length, 0);
    assert_eq!(frame.pm1_0, 0);
    assert_eq!(frame.pm2_5, 0);
    assert_eq!(frame.pm10, 0);
    assert_eq!(frame.pm1_0_atm, 0);
    assert_eq!(frame.pm2_5_atm, 0);
    assert_eq!(frame.pm10_atm, 0);
    assert_eq!(frame.beyond_0_3, 0);
    assert_eq!(frame.beyond_0_5, 0);
    assert_eq!(frame.beyond_1_0, 0);
    assert_eq!(frame.beyond_2_5, 0);
    assert_eq!(frame.beyond_5_0, 0);
    assert_eq!(frame.beyond_10_0, 0);
    assert_eq!(frame.reserved, 0);
    assert_eq!(frame.check, 0);
}
