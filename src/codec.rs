use vstd::prelude::*;

verus! {

/// The unsigned 16-bit value of the little-endian pair `lo`, `hi`.
pub open spec fn u16_le(lo: u8, hi: u8) -> int {
    lo as int + 256 * (hi as int)
}

/// Whether bit `bit` (0 = least significant) of `data` is set.
pub open spec fn bit_is_set(data: u8, bit: u8) -> bool {
    (data >> bit) & 1u8 == 1u8
}

/// The two's-complement reading of a 16-bit pattern.
pub open spec fn as_signed16(raw: u16) -> int {
    if raw < 0x8000 {
        raw as int
    } else {
        raw as int - 0x10000
    }
}

/// Reads the little-endian unsigned 16-bit value at `offset`.
pub fn read_u16(data: &[u8], offset: usize) -> (r: u16)
    requires
        offset + 1 < data@.len(),
    ensures
        r == u16_le(data@[offset as int], data@[offset + 1]),
{
    let lo: u8 = data[offset];
    let hi: u8 = data[offset + 1];
    let r: u16 = (lo as u16) | ((hi as u16) << 8u16);
    assert((lo as u16) | ((hi as u16) << 8u16) == (lo as u16) + 256 * (hi as u16)) by (bit_vector);
    r
}

/// Tests bit `bit` (0 = least significant) of `data`.
pub fn check_bit(data: u8, bit: u8) -> (r: bool)
    requires
        bit < 8,
    ensures
        r == bit_is_set(data, bit),
{
    assert(((data & (1u8 << bit)) != 0u8) == ((data >> bit) & 1u8 == 1u8)) by (bit_vector)
        requires
            bit < 8u8,
    ;
    data & (1u8 << bit) != 0
}

/// Moves a stick axis from its centre-at-128 unsigned form to centre-at-0.
pub fn joystick_convert(raw: u8) -> (r: i16)
    ensures
        r == raw - 128,
        -128 <= r <= 127,
{
    raw as i16 - 128
}

/// Reinterprets a raw inertial-sensor reading as a signed 16-bit value.
pub fn imu_raw_to_signed(raw: u16) -> (r: i16)
    ensures
        r == as_signed16(raw),
{
    if raw < 0x8000 {
        raw as i16
    } else {
        (raw as i32 - 0x10000) as i16
    }
}

} // verus!
