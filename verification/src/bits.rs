//! Small facts about byte masking and flag bits, shared across the crate.

use vstd::prelude::*;

verus! {

/// Range bounds of masked bytes.
pub proof fn lemma_u8_mask_range()
    by (bit_vector)
    ensures
        forall|x: u8| #[trigger] (x & 0x7f) <= 0x7f,
        forall|x: u8| #[trigger] (x & 0x3f) <= 0x3f,
        forall|x: u8| #[trigger] (x & 0x1f) <= 0x1f,
        forall|x: u8| #[trigger] (x & 0xf) <= 0xf,
        forall|x: u8| #[trigger] (x & 0x7) <= 0x7,
        forall|x: u8| #[trigger] (x & 0x3) <= 0x3,
        forall|x: u8| #[trigger] ((x & 0x70) >> 4) <= 0x7,
        forall|x: u8| #[trigger] ((x & 0xf0) >> 4) <= 0xf,
        forall|x: u8| #[trigger] ((x & 0x8) >> 3) <= 0x1,
{
}

/// The 11-bit frequency assembled from a register's low three bits stays
/// below 0x800 once the low byte is added.
pub proof fn lemma_freq_bound(v: u8)
    by (bit_vector)
    ensures
        (((v & 0x7) as u32) << 8) <= 0x700,
{
}

/// A right shift of a 32-bit value never grows it.
pub proof fn lemma_u32_shr_le(x: u32, s: u32)
    by (bit_vector)
    requires
        s < 32,
    ensures
        (x >> s) <= x,
{
}

/// Range bounds of masked 16-bit words.
pub proof fn lemma_u16_mask_range()
    by (bit_vector)
    ensures
        forall|x: u16| #[trigger] (x & 0xf) <= 0xf,
        forall|x: u16| #[trigger] (x & 0xff) <= 0xff,
        forall|x: u16| #[trigger] (x & 0xfff) <= 0xfff,
{
}

/// A sum of distinct flag-bit values has a clear low nibble, and each flag
/// can be read back from its bit.
pub proof fn lemma_flag_parts(zv: u8, nv: u8, hv: u8, cv: u8)
    by (bit_vector)
    requires
        zv == 0x80 || zv == 0,
        nv == 0x40 || nv == 0,
        hv == 0x20 || hv == 0,
        cv == 0x10 || cv == 0,
    ensures
        ((zv + nv + hv + cv) as u8) & 0x0f == 0,
        (((zv + nv + hv + cv) as u8) & 0x80 != 0) == (zv == 0x80),
        (((zv + nv + hv + cv) as u8) & 0x40 != 0) == (nv == 0x40),
        (((zv + nv + hv + cv) as u8) & 0x20 != 0) == (hv == 0x20),
        (((zv + nv + hv + cv) as u8) & 0x10 != 0) == (cv == 0x10),
{
}

/// Masking a byte to its high nibble clears the low nibble.
pub proof fn lemma_high_nibble_mask()
    by (bit_vector)
    ensures
        forall|x: u8| #[trigger] (x & 0xf0) & 0x0f == 0,
{
}

/// Setting or clearing one of the four high bits keeps the low nibble clear.
pub proof fn lemma_flag_set_clear(f: u8, k: u8)
    by (bit_vector)
    requires
        4 <= k < 8,
        f & 0x0f == 0,
    ensures
        (f | (1u8 << k)) & 0x0f == 0,
        (f & !(1u8 << k)) & 0x0f == 0,
{
}

/// The two's complement of a byte with its sign bit set fits in 7 bits.
pub proof fn lemma_negative_offset(x: u8)
    by (bit_vector)
    requires
        x & 0x80 != 0,
    ensures
        !x <= 0x7f,
{
}

/// In the register-to-register load block, only the HALT slot has both its
/// source and destination field equal to the memory operand.
pub proof fn lemma_ld_block_fields(op: u8)
    by (bit_vector)
    requires
        0x40 <= op < 0x80,
    ensures
        (op == 0x76) == ((op & 0x7) == 6 && ((op >> 3) & 0x7) == 6),
        ((op >> 3) & 0x7) < 8,
        (op & 0x7) < 8,
{
}

} // verus!
