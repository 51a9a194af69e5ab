use vstd::prelude::*;

verus! {

/// `v` reduced modulo 256: the value an 8-bit register holds after wrapping.
pub open spec fn wrap8(v: int) -> u8 {
    (v % 0x100) as u8
}

/// `v` reduced modulo 65536: the value PC or SP holds after wrapping.
pub open spec fn wrap16(v: int) -> u16 {
    (v % 0x1_0000) as u16
}

/// The 16-bit value of a register pair, high register first.
pub open spec fn pair(high: u8, low: u8) -> u16 {
    (high * 0x100 + low) as u16
}

/// The upper eight bits of a 16-bit value.
pub open spec fn high_byte(v: u16) -> u8 {
    (v / 0x100) as u8
}

/// The lower eight bits of a 16-bit value.
pub open spec fn low_byte(v: u16) -> u8 {
    (v % 0x100) as u8
}

/// A byte read as a two's-complement displacement, -128..=127.
pub open spec fn signed8(v: u8) -> int {
    if v < 0x80 {
        v as int
    } else {
        v - 0x100
    }
}

/// The address in the page `0xFF00..=0xFFFF` at the given offset.
pub open spec fn high_page(offset: u8) -> u16 {
    (0xFF00 + offset) as u16
}

/// An 8-bit value rotated left by one: bit 7 moves to bit 0.
pub open spec fn rotated_left(v: u8) -> u8 {
    wrap8(2 * v + v / 0x80)
}

/// Shifting the high byte up and or-ing the low byte in forms the pair value.
pub proof fn lemma_join(high: u8, low: u8)
    by (bit_vector)
    ensures
        ((high as u16) << 8) | (low as u16) == pair(high, low),
{
}

/// Masking and shifting a 16-bit value yields its two bytes.
pub proof fn lemma_split(v: u16)
    by (bit_vector)
    ensures
        v & 0x00FF == low_byte(v),
        (v & 0xFF00) >> 8 == high_byte(v),
{
}

/// Or-ing an offset into `0xFF00` addresses the high page.
pub proof fn lemma_high_page(offset: u8)
    by (bit_vector)
    ensures
        0xFF00u16 | (offset as u16) == high_page(offset),
{
}

/// Masking with `0x0F` yields the low nibble.
pub proof fn lemma_low_nibble(v: u8)
    by (bit_vector)
    ensures
        v & 0x0F == v % 16,
{
}

/// Reinterpreting a byte as `i8` yields its two's-complement value.
pub proof fn lemma_signed(v: u8)
    by (bit_vector)
    ensures
        (v as i8) == signed8(v),
{
}

/// Two shifts or-ed together rotate a byte; the bit that leaves is bit 7.
pub proof fn lemma_rotate(v: u8)
    by (bit_vector)
    ensures
        (v << 1) | (v >> 7) == rotated_left(v),
        (v >> 7 == 1) == (v >= 0x80),
        v >> 7 <= 1,
{
}

} // verus!
