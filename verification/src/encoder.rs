//! The broadcast payload encoder.
//!
//! Every broadcast carries the same fixed eight-byte layout:
//! manufacturer id (two bytes), payload version (one byte), sequence
//! counter (one byte), supply voltage (two bytes, big-endian signed), and
//! temperature (two bytes, big-endian signed). The layout and byte order
//! never change between broadcasts, so a passive listener can decode a
//! payload without any per-packet metadata, and no two distinct input
//! triples produce the same payload.

use vstd::prelude::*;

verus! {

/// Manufacturer id carried in the first two payload bytes.
pub const MANUFACTURER_ID: u16 = 0xffff;

/// Version of the payload layout, carried in the third byte.
pub const PAYLOAD_VERSION: u8 = 0x01;

/// Number of bytes in every broadcast payload.
pub const PAYLOAD_LEN: usize = 8;

/// The two's-complement bit pattern of a signed 16-bit value, as the
/// nonnegative integer a big-endian byte pair spells.
pub open spec fn sign_bits(value: i16) -> int {
    if value >= 0 {
        value as int
    } else {
        value + 0x10000
    }
}

/// The high byte of a signed 16-bit value in big-endian order.
pub open spec fn be_high(value: i16) -> u8 {
    (sign_bits(value) / 256) as u8
}

/// The low byte of a signed 16-bit value in big-endian order.
pub open spec fn be_low(value: i16) -> u8 {
    (sign_bits(value) % 256) as u8
}

/// The broadcast payload for one iteration's readings: the fixed layout
/// described at the module level.
pub open spec fn payload_bytes(sequence: u8, voltage: i16, temperature: i16) -> Seq<u8> {
    seq![
        (MANUFACTURER_ID / 256) as u8,
        (MANUFACTURER_ID % 256) as u8,
        PAYLOAD_VERSION,
        sequence,
        be_high(voltage),
        be_low(voltage),
        be_high(temperature),
        be_low(temperature),
    ]
}

/// Splits a signed 16-bit value into its big-endian byte pair.
fn split_be(value: i16) -> (bytes: (u8, u8))
    ensures
        bytes.0 == be_high(value),
        bytes.1 == be_low(value),
{
    let bits: u32 = if value >= 0 {
        value as u32
    } else {
        (value as i32 + 0x10000) as u32
    };
    ((bits / 256) as u8, (bits % 256) as u8)
}

/// Builds the broadcast payload for one iteration's readings.
pub fn encode(sequence: u8, voltage: i16, temperature: i16) -> (payload: Vec<u8>)
    ensures
        payload@ == payload_bytes(sequence, voltage, temperature),
        payload@.len() == PAYLOAD_LEN,
{
    let mut payload: Vec<u8> = Vec::new();
    payload.push((MANUFACTURER_ID / 256) as u8);
    payload.push((MANUFACTURER_ID % 256) as u8);
    payload.push(PAYLOAD_VERSION);
    payload.push(sequence);
    let (voltage_high, voltage_low) = split_be(voltage);
    payload.push(voltage_high);
    payload.push(voltage_low);
    let (temperature_high, temperature_low) = split_be(temperature);
    payload.push(temperature_high);
    payload.push(temperature_low);
    proof {
        assert(payload@ =~= payload_bytes(sequence, voltage, temperature));
    }
    payload
}

/// A big-endian byte pair pins down the signed value it was split from.
proof fn lemma_split_be_injective(a: i16, b: i16)
    requires
        be_high(a) == be_high(b),
        be_low(a) == be_low(b),
    ensures
        a == b,
{
    vstd::arithmetic::div_mod::lemma_fundamental_div_mod(sign_bits(a), 256);
    vstd::arithmetic::div_mod::lemma_fundamental_div_mod(sign_bits(b), 256);
}

/// The payload layout is injective: no two distinct (sequence, voltage,
/// temperature) triples produce the same payload, so a listener can
/// decode every broadcast unambiguously.
pub proof fn lemma_payload_injective(
    sequence_a: u8,
    voltage_a: i16,
    temperature_a: i16,
    sequence_b: u8,
    voltage_b: i16,
    temperature_b: i16,
)
    requires
        payload_bytes(sequence_a, voltage_a, temperature_a) == payload_bytes(
            sequence_b,
            voltage_b,
            temperature_b,
        ),
    ensures
        sequence_a == sequence_b,
        voltage_a == voltage_b,
        temperature_a == temperature_b,
{
    let pa = payload_bytes(sequence_a, voltage_a, temperature_a);
    let pb = payload_bytes(sequence_b, voltage_b, temperature_b);
    assert(pa[3] == pb[3] && pa[4] == pb[4] && pa[5] == pb[5] && pa[6] == pb[6] && pa[7]
        == pb[7]);
    lemma_split_be_injective(voltage_a, voltage_b);
    lemma_split_be_injective(temperature_a, temperature_b);
}

} // verus!
