//! The cyclic redundancy check that guards every frame.
//!
//! Frames carry a CRC16/MODBUS checksum over everything before the trailing
//! two bytes, encoded low byte first. The checksum itself comes from the
//! `crc16` crate; this module names its result and states how it is laid
//! out in a frame.

use vstd::prelude::*;

verus! {

/// The CRC16/MODBUS value of a byte sequence.
pub uninterp spec fn crc16_modbus(data: Seq<u8>) -> u16;

/// The two-byte encoding of the checksum of `data` as it appears at the end
/// of a frame: low byte first, then high byte.
pub open spec fn checksum_bytes(data: Seq<u8>) -> Seq<u8> {
    seq![(crc16_modbus(data) % 256) as u8, (crc16_modbus(data) / 256) as u8]
}

/// Relies on `crc16::State::<crc16::MODBUS>::calculate`: the CRC16/MODBUS
/// checksum of the bytes, a function of the bytes alone.
#[verifier::external_body]
pub(crate) fn crc16_modbus_of(data: &[u8]) -> (r: u16)
    ensures
        r == crc16_modbus(data@),
{
    crc16::State::<crc16::MODBUS>::calculate(data)
}

/// Compute the two checksum bytes that close a frame whose earlier bytes
/// are `data`.
pub fn checksum_of(data: &[u8]) -> (r: (u8, u8))
    ensures
        r.0 == checksum_bytes(data@)[0],
        r.1 == checksum_bytes(data@)[1],
{
    let c = crc16_modbus_of(data);
    ((c % 256) as u8, (c / 256) as u8)
}

} // verus!
