//! Decoding of the raw output registers.
//!
//! The sensor presents each quantity as a group of consecutive registers,
//! least significant byte at the lowest address. Temperature is a signed
//! 16-bit value in hundredths of a degree Celsius. Pressure is a 24-bit
//! value in steps of 1/4096 hPa; the datasheet calls it signed, but no
//! pressure the sensor can measure reaches the sign bit, so it is read as
//! unsigned here.

use vstd::prelude::*;

verus! {

/// Temperature and pressure of one measurement, as the sensor counts them.
#[derive(Clone, Copy, Debug, PartialEq, Eq)]
pub struct Measurement {
    /// Hundredths of a degree Celsius.
    pub temperature: i16,
    /// Steps of 1/4096 hPa.
    pub pressure: u32,
}

/// The value of a two-byte temperature group: the little-endian number the
/// bytes spell, read in two's complement.
pub open spec fn temperature_of(raw: Seq<u8>) -> int
    recommends
        raw.len() == 2,
{
    let unsigned = raw[0] + 256 * raw[1];
    if unsigned < 32768 {
        unsigned
    } else {
        unsigned - 65536
    }
}

/// The two-byte group that holds a temperature.
pub open spec fn temperature_bytes(temperature: int) -> Seq<u8>
    recommends
        -32768 <= temperature < 32768,
{
    let unsigned = if temperature < 0 {
        temperature + 65536
    } else {
        temperature
    };
    seq![(unsigned % 256) as u8, (unsigned / 256) as u8]
}

/// The value of a three-byte pressure group: the little-endian number the
/// bytes spell.
pub open spec fn pressure_of(raw: Seq<u8>) -> int
    recommends
        raw.len() == 3,
{
    raw[0] + 256 * raw[1] + 65536 * raw[2]
}

/// `cast::i16` on a byte. Every byte fits in an `i16`, so the conversion
/// keeps the value.
#[verifier::external_body]
fn widen_i16(byte: u8) -> (wide: i16)
    ensures
        wide == byte,
{
    cast::i16(byte)
}

/// `cast::u32` on a byte. Every byte fits in a `u32`, so the conversion
/// keeps the value.
#[verifier::external_body]
fn widen_u32(byte: u8) -> (wide: u32)
    ensures
        wide == byte,
{
    cast::u32(byte)
}

/// Decodes the temperature output group, `TEMP_OUT_L` first.
pub fn decode_temperature(raw: [u8; 2]) -> (temperature: i16)
    ensures
        temperature == temperature_of(raw@),
{
    let low: i16 = widen_i16(raw[0]);
    let high: i16 = widen_i16(raw[1]);
    if high < 128 {
        low + 256 * high
    } else {
        low + 256 * (high - 256)
    }
}

/// Decodes the pressure output group, `PRESSURE_OUT_XL` first.
pub fn decode_pressure(raw: [u8; 3]) -> (pressure: u32)
    ensures
        pressure == pressure_of(raw@),
{
    let low: u32 = widen_u32(raw[0]);
    let middle: u32 = widen_u32(raw[1]);
    let high: u32 = widen_u32(raw[2]);
    low + 256 * middle + 65536 * high
}

/// Every two-byte group decodes to a temperature an `i16` can hold, and
/// the group that holds that temperature is the group it was decoded from:
/// no two groups decode to the same temperature.
pub proof fn lemma_temperature_round_trip(raw: Seq<u8>)
    requires
        raw.len() == 2,
    ensures
        -32768 <= temperature_of(raw) < 32768,
        temperature_bytes(temperature_of(raw)) == raw,
{
    assert(temperature_bytes(temperature_of(raw)) =~= raw);
}

/// Every temperature an `i16` can hold is what the group that holds it
/// decodes to: decoding reaches every value.
pub proof fn lemma_temperature_onto(temperature: int)
    requires
        -32768 <= temperature < 32768,
    ensures
        temperature_bytes(temperature).len() == 2,
        temperature_of(temperature_bytes(temperature)) == temperature,
{
}

/// A pressure never reaches the sign bit of the field that holds it: it is
/// at least 0 and below 2^24.
pub proof fn lemma_pressure_range(raw: Seq<u8>)
    requires
        raw.len() == 3,
    ensures
        0 <= pressure_of(raw) < 0x100_0000,
{
}

} // verus!
