use rocketry_control::fram::{decode_u32, read_u32_command, write_u32_command};
use rocketry_control::sensors::{
    ak09915_data_ready, ak09915_decode, bmp390_raw24, gps_bytes_to_read, gps_time_of_day,
    icm42688_check_id, icm42688_decode, Ak09915Error, Icm42688Error,
};

#[test]
fn fram_frames_use_eighteen_bit_addresses() {
    assert_eq!(read_u32_command(0x3_1234), vec![0x03, 0x03, 0x12, 0x34]);
    assert_eq!(read_u32_command(0x7_0000), vec![0x03, 0x03, 0x00, 0x00]);
    assert_eq!(
        write_u32_command(100, 0x0102_0304),
        vec![0x02, 0x00, 0x00, 100, 0x01, 0x02, 0x03, 0x04]
    );
    assert_eq!(decode_u32([0x01, 0x02, 0x03, 0x04]), 0x0102_0304);
}

#[test]
fn magnetometer_status_and_samples() {
    assert!(ak09915_data_ready(0x01));
    assert!(!ak09915_data_ready(0x02));
    let ok: Result<(i16, i16, i16), Ak09915Error<()>> =
        ak09915_decode([0x34, 0x12, 0xFF, 0xFF, 0x00, 0x80, 0, 0x00]);
    assert_eq!(ok, Ok((0x1234, -1, i16::MIN)));
    let over: Result<(i16, i16, i16), Ak09915Error<()>> = ak09915_decode([0, 0, 0, 0, 0, 0, 0, 0x0C]);
    assert_eq!(over, Err(Ak09915Error::MagneticSensorOverflow));
    let inv: Result<(i16, i16, i16), Ak09915Error<()>> = ak09915_decode([0, 0, 0, 0, 0, 0, 0, 0x04]);
    assert_eq!(inv, Err(Ak09915Error::InvalidData));
}

#[test]
fn imu_identity_and_samples() {
    assert_eq!(icm42688_check_id::<()>(0x47), Ok(()));
    assert_eq!(icm42688_check_id::<()>(0x12), Err(Icm42688Error::InvalidDeviceId(0x12)));
    let raw = icm42688_decode([0x08, 0x00, 0xF8, 0x00, 0, 1, 0x80, 0, 0x7F, 0xFF, 0xFF, 0xFE]);
    assert_eq!(raw, [2048, -2048, 1, i16::MIN, i16::MAX, -2]);
}

#[test]
fn gps_read_sizes_and_time() {
    assert_eq!(gps_bytes_to_read(0, 0, 255), 0);
    assert_eq!(gps_bytes_to_read(0xFF, 0xFF, 255), 0);
    assert_eq!(gps_bytes_to_read(0, 40, 255), 40);
    assert_eq!(gps_bytes_to_read(0x01, 0x00, 255), 255);
    assert_eq!(gps_bytes_to_read(0, 200, 64), 64);
    assert_eq!(gps_time_of_day(13, 5, 9), 13 * 3600 + 5 * 60 + 9);
}

#[test]
fn barometer_samples_are_24_bit_little_endian() {
    assert_eq!(bmp390_raw24(0x56, 0x34, 0x12), 0x12_3456);
}
