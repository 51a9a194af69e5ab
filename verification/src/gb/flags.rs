use vstd::prelude::*;

verus! {

/// Zero flag: bit 7 of F.
pub const ZMASK: u8 = 0b1000_0000;

/// Subtract flag: bit 6 of F.
pub const NMASK: u8 = 0b0100_0000;

/// Half-carry flag: bit 5 of F.
pub const HMASK: u8 = 0b0010_0000;

/// Carry flag: bit 4 of F.
pub const CMASK: u8 = 0b0001_0000;

/// Whether the flag selected by `mask` is set in `f`.
pub open spec fn flag(f: u8, mask: u8) -> bool {
    f & mask != 0
}

/// `f` with the flag selected by `mask` set or cleared and every other bit kept.
pub open spec fn with_flag(f: u8, mask: u8, on: bool) -> u8 {
    if on {
        f | mask
    } else {
        f & !mask
    }
}

/// Whether Z is set in `f`.
pub open spec fn flag_z(f: u8) -> bool {
    flag(f, ZMASK)
}

/// Whether N is set in `f`.
pub open spec fn flag_n(f: u8) -> bool {
    flag(f, NMASK)
}

/// Whether H is set in `f`.
pub open spec fn flag_h(f: u8) -> bool {
    flag(f, HMASK)
}

/// Whether C is set in `f`.
pub open spec fn flag_c(f: u8) -> bool {
    flag(f, CMASK)
}

/// `f` with Z written and every other bit kept.
pub open spec fn with_z(f: u8, on: bool) -> u8 {
    with_flag(f, ZMASK, on)
}

/// `f` with N written and every other bit kept.
pub open spec fn with_n(f: u8, on: bool) -> u8 {
    with_flag(f, NMASK, on)
}

/// `f` with H written and every other bit kept.
pub open spec fn with_h(f: u8, on: bool) -> u8 {
    with_flag(f, HMASK, on)
}

/// `f` with C written and every other bit kept.
pub open spec fn with_c(f: u8, on: bool) -> u8 {
    with_flag(f, CMASK, on)
}

/// `f` with all four flags assigned and its low nibble kept.
pub open spec fn with_flags(f: u8, z: bool, n: bool, h: bool, c: bool) -> u8 {
    with_c(with_h(with_n(with_z(f, z), n), h), c)
}

/// Writing Z changes Z alone: the other three flags and the low nibble keep
/// their value bit for bit.
pub proof fn lemma_with_z(f: u8, on: bool)
    by (bit_vector)
    ensures
        flag_z(with_z(f, on)) == on,
        flag_n(with_z(f, on)) == flag_n(f),
        flag_h(with_z(f, on)) == flag_h(f),
        flag_c(with_z(f, on)) == flag_c(f),
        with_z(f, on) & 0x0F == f & 0x0F,
{
}

/// Writing N changes N alone.
pub proof fn lemma_with_n(f: u8, on: bool)
    by (bit_vector)
    ensures
        flag_z(with_n(f, on)) == flag_z(f),
        flag_n(with_n(f, on)) == on,
        flag_h(with_n(f, on)) == flag_h(f),
        flag_c(with_n(f, on)) == flag_c(f),
        with_n(f, on) & 0x0F == f & 0x0F,
{
}

/// Writing H changes H alone.
pub proof fn lemma_with_h(f: u8, on: bool)
    by (bit_vector)
    ensures
        flag_z(with_h(f, on)) == flag_z(f),
        flag_n(with_h(f, on)) == flag_n(f),
        flag_h(with_h(f, on)) == on,
        flag_c(with_h(f, on)) == flag_c(f),
        with_h(f, on) & 0x0F == f & 0x0F,
{
}

/// Writing C changes C alone.
pub proof fn lemma_with_c(f: u8, on: bool)
    by (bit_vector)
    ensures
        flag_z(with_c(f, on)) == flag_z(f),
        flag_n(with_c(f, on)) == flag_n(f),
        flag_h(with_c(f, on)) == flag_h(f),
        flag_c(with_c(f, on)) == on,
        with_c(f, on) & 0x0F == f & 0x0F,
{
}

/// After all four flags are assigned, each reads back as assigned and the
/// low nibble is the one `f` had.
pub proof fn lemma_with_flags(f: u8, z: bool, n: bool, h: bool, c: bool)
    by (bit_vector)
    ensures
        flag_z(with_flags(f, z, n, h, c)) == z,
        flag_n(with_flags(f, z, n, h, c)) == n,
        flag_h(with_flags(f, z, n, h, c)) == h,
        flag_c(with_flags(f, z, n, h, c)) == c,
        with_flags(f, z, n, h, c) & 0x0F == f & 0x0F,
{
}

} // verus!
