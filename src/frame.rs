use vstd::prelude::*;

use crate::error::FlowerError;

verus! {

/// Number of bytes a real-time frame must hold to be decoded.
pub const FRAME_LEN: usize = 10;

/// One decoded real-time measurement.
///
/// The device reports temperature as an integer number of tenths of a degree
/// Celsius; `temperature_decicelsius / 10` is the temperature in degrees.
#[derive(Clone, Copy, Debug, PartialEq, Eq, Structural)]
pub struct SensorReading {
    pub temperature_decicelsius: u8,
    pub illuminance_lux: i32,
    pub moisture_percent: u8,
    pub conductivity_microsiemens_cm: u16,
}

/// The unsigned little-endian value of two bytes.
pub open spec fn le_u16(b0: u8, b1: u8) -> int {
    b0 as int + 256 * (b1 as int)
}

/// The unsigned little-endian value of four bytes.
pub open spec fn le_u32(b0: u8, b1: u8, b2: u8, b3: u8) -> int {
    b0 as int + 256 * (b1 as int) + 65536 * (b2 as int) + 16777216 * (b3 as int)
}

/// The two's-complement little-endian value of four bytes.
pub open spec fn le_i32(b0: u8, b1: u8, b2: u8, b3: u8) -> int {
    let u = le_u32(b0, b1, b2, b3);
    if u >= 0x8000_0000 {
        u - 0x1_0000_0000
    } else {
        u
    }
}

/// The reading a frame of at least `FRAME_LEN` bytes stands for: byte 0 is the
/// temperature, bytes 3..=6 the illuminance, byte 7 the moisture and bytes
/// 8..=9 the conductivity. Bytes 1 and 2 are not read.
pub open spec fn reading_of(f: Seq<u8>) -> SensorReading
    recommends
        f.len() >= FRAME_LEN,
{
    SensorReading {
        temperature_decicelsius: f[0],
        illuminance_lux: le_i32(f[3], f[4], f[5], f[6]) as i32,
        moisture_percent: f[7],
        conductivity_microsiemens_cm: le_u16(f[8], f[9]) as u16,
    }
}

/// What decoding a frame gives: a reading, or `MalformedFrame` when the
/// frame is shorter than `FRAME_LEN`.
pub open spec fn decode_spec(f: Seq<u8>) -> Result<SensorReading, FlowerError> {
    if f.len() < FRAME_LEN {
        Err(FlowerError::MalformedFrame)
    } else {
        Ok(reading_of(f))
    }
}

/// Reads two bytes as an unsigned little-endian integer.
pub fn u16_from_le(b0: u8, b1: u8) -> (r: u16)
    ensures
        r as int == le_u16(b0, b1),
{
    (b0 as u16) + (b1 as u16) * 256
}

/// Reads four bytes as a signed little-endian integer.
pub fn i32_from_le(b0: u8, b1: u8, b2: u8, b3: u8) -> (r: i32)
    ensures
        r as int == le_i32(b0, b1, b2, b3),
{
    let u: i64 = (b0 as i64) + (b1 as i64) * 256 + (b2 as i64) * 65536 + (b3 as i64) * 16777216;
    if u >= 0x8000_0000 {
        (u - 0x1_0000_0000) as i32
    } else {
        u as i32
    }
}

/// Decodes one real-time notification frame. Frames shorter than
/// `FRAME_LEN` bytes are rejected whole; bytes past the tenth are ignored.
pub fn decode_frame(frame: &[u8]) -> (r: Result<SensorReading, FlowerError>)
    ensures
        r == decode_spec(frame@),
        frame@.len() < FRAME_LEN <==> r == Err::<SensorReading, FlowerError>(
            FlowerError::MalformedFrame,
        ),
{
    if frame.len() < FRAME_LEN {
        return Err(FlowerError::MalformedFrame);
    }
    let lux = i32_from_le(frame[3], frame[4], frame[5], frame[6]);
    let conductivity = u16_from_le(frame[8], frame[9]);
    Ok(SensorReading {
        temperature_decicelsius: frame[0],
        illuminance_lux: lux,
        moisture_percent: frame[7],
        conductivity_microsiemens_cm: conductivity,
    })
}

/// Decoding depends on the frame's bytes alone: two frames with the same
/// bytes, of at least `FRAME_LEN` bytes, decode to the same reading.
pub proof fn lemma_decode_deterministic(a: Seq<u8>, b: Seq<u8>)
    requires
        a.len() >= FRAME_LEN,
        a == b,
    ensures
        decode_spec(a) is Ok,
        decode_spec(a) == decode_spec(b),
{
}

/// A frame shorter than `FRAME_LEN` bytes gives no reading.
pub proof fn lemma_short_frame_rejected(f: Seq<u8>)
    requires
        f.len() < FRAME_LEN,
    ensures
        decode_spec(f) == Err::<SensorReading, FlowerError>(FlowerError::MalformedFrame),
        !(decode_spec(f) is Ok),
{
}

} // verus!
