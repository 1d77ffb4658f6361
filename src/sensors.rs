use vstd::prelude::*;
use crate::bytes::{i16_from_bytes, i16_of, u16_from_be};

verus! {

/// Expected identity register of the ICM-42688-P.
pub const ICM42688_WHO_AM_I: u8 = 0x47;

/// Largest number of GPS bytes fetched in one transfer.
pub const GPS_MAX_READ_BYTES: usize = 255;

/// Magnetometer status bit: a sample is ready.
pub const AK09915_ST1_DRDY: u8 = 0x01;

/// Magnetometer status bit: the magnetic sensor overflowed.
pub const AK09915_ST2_HOFL: u8 = 0x08;

/// Magnetometer status bit: the data is invalid.
pub const AK09915_ST2_INV: u8 = 0x04;

/// Failures of the AK09915 magnetometer.
#[derive(Debug, Clone, Copy, PartialEq, Eq)]
pub enum Ak09915Error<E> {
    I2c(E),
    MagneticSensorOverflow,
    InvalidData,
}

/// Failures of the ICM-42688-P IMU.
#[derive(Debug, Clone, Copy, PartialEq, Eq)]
pub enum Icm42688Error<E> {
    I2c(E),
    InvalidDeviceId(u8),
}

/// Failures of the GPS receiver.
#[derive(Debug, Clone, Copy, PartialEq, Eq, Structural)]
pub enum GpsError {
    I2cError,
    ParseError,
    NoData,
    InvalidData,
}

/// Whether bit `mask` (a power of two) is set in `b`.
pub open spec fn bit_set(b: u8, mask: u8) -> bool {
    (b / mask) % 2 == 1
}

/// Whether the magnetometer has a new sample, from status register 1.
pub fn ak09915_data_ready(st1: u8) -> (r: bool)
    ensures
        r == bit_set(st1, AK09915_ST1_DRDY),
{
    st1 % 2 == 1
}

/// The three raw field counts (x, y, z) of the eight bytes read from HXL to ST2, or the
/// error that the status byte ST2 reports; overflow is checked first.
pub fn ak09915_decode<E>(data: [u8; 8]) -> (r: Result<(i16, i16, i16), Ak09915Error<E>>)
    ensures
        bit_set(data@[7], AK09915_ST2_HOFL) ==> r == Err::<(i16, i16, i16), Ak09915Error<E>>(
            Ak09915Error::MagneticSensorOverflow,
        ),
        !bit_set(data@[7], AK09915_ST2_HOFL) && bit_set(data@[7], AK09915_ST2_INV) ==> r == Err::<
            (i16, i16, i16),
            Ak09915Error<E>,
        >(Ak09915Error::InvalidData),
        !bit_set(data@[7], AK09915_ST2_HOFL) && !bit_set(data@[7], AK09915_ST2_INV) ==> r
            == Ok::<(i16, i16, i16), Ak09915Error<E>>(
            (
                i16_of(data@[1], data@[0]) as i16,
                i16_of(data@[3], data@[2]) as i16,
                i16_of(data@[5], data@[4]) as i16,
            ),
        ),
{
    let st2 = data[7];
    if (st2 / 8) % 2 == 1 {
        return Err(Ak09915Error::MagneticSensorOverflow);
    }
    if (st2 / 4) % 2 == 1 {
        return Err(Ak09915Error::InvalidData);
    }
    Ok(
        (
            i16_from_bytes(data[1], data[0]),
            i16_from_bytes(data[3], data[2]),
            i16_from_bytes(data[5], data[4]),
        ),
    )
}

/// Checks the IMU's identity register.
pub fn icm42688_check_id<E>(who_am_i: u8) -> (r: Result<(), Icm42688Error<E>>)
    ensures
        who_am_i == ICM42688_WHO_AM_I <==> r is Ok,
        who_am_i != ICM42688_WHO_AM_I ==> r == Err::<(), Icm42688Error<E>>(
            Icm42688Error::InvalidDeviceId(who_am_i),
        ),
{
    if who_am_i != ICM42688_WHO_AM_I {
        Err(Icm42688Error::InvalidDeviceId(who_am_i))
    } else {
        Ok(())
    }
}

/// The six raw counts (accel x, y, z, gyro x, y, z) of the twelve big-endian bytes read
/// from ACCEL_DATA_X1.
pub fn icm42688_decode(data: [u8; 12]) -> (r: [i16; 6])
    ensures
        forall|i: int| 0 <= i < 6 ==> #[trigger] r@[i] == i16_of(data@[2 * i], data@[2 * i + 1]),
{
    let r = [
        i16_from_bytes(data[0], data[1]),
        i16_from_bytes(data[2], data[3]),
        i16_from_bytes(data[4], data[5]),
        i16_from_bytes(data[6], data[7]),
        i16_from_bytes(data[8], data[9]),
        i16_from_bytes(data[10], data[11]),
    ];
    assert(forall|i: int| 0 <= i < 6 ==> #[trigger] r@[i] == i16_of(data@[2 * i], data@[2 * i + 1]))
        by {
        assert(r@[0] == i16_of(data@[0], data@[1]));
        assert(r@[1] == i16_of(data@[2], data@[3]));
        assert(r@[2] == i16_of(data@[4], data@[5]));
        assert(r@[3] == i16_of(data@[6], data@[7]));
        assert(r@[4] == i16_of(data@[8], data@[9]));
        assert(r@[5] == i16_of(data@[10], data@[11]));
    }
    r
}

/// How many GPS bytes to fetch, from the big-endian count of bytes waiting: none when the
/// count is 0 or 0xFFFF (no data), else the count capped by `GPS_MAX_READ_BYTES` and the
/// buffer.
pub fn gps_bytes_to_read(avail_hi: u8, avail_lo: u8, buffer_len: usize) -> (r: usize)
    ensures
        ({
            let a = avail_hi * 256 + avail_lo;
            if a == 0 || a == 0xFFFF {
                r == 0
            } else {
                &&& r <= a && r <= GPS_MAX_READ_BYTES && r <= buffer_len
                &&& (r == a || r == GPS_MAX_READ_BYTES || r == buffer_len)
            }
        }),
{
    let available = u16_from_be(avail_hi, avail_lo) as usize;
    if available == 0 || available == 0xFFFF {
        return 0;
    }
    let mut n = available;
    if n > GPS_MAX_READ_BYTES {
        n = GPS_MAX_READ_BYTES;
    }
    if n > buffer_len {
        n = buffer_len;
    }
    n
}

/// Seconds since midnight of a GPS time of day.
pub fn gps_time_of_day(hour: u8, min: u8, sec: u8) -> (r: u32)
    ensures
        r == hour * 3600 + min * 60 + sec,
{
    (hour as u32) * 3600 + (min as u32) * 60 + (sec as u32)
}

/// A 24-bit little-endian sample of the BMP390 (pressure or temperature).
pub fn bmp390_raw24(b0: u8, b1: u8, b2: u8) -> (r: u32)
    ensures
        r == b2 * 65536 + b1 * 256 + b0,
{
    (b2 as u32) * 65536 + (b1 as u32) * 256 + (b0 as u32)
}

} // verus!
