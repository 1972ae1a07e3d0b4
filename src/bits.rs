use vstd::prelude::*;

verus! {

/// Ranges of the bit fields of a register byte.
pub proof fn lemma_byte_fields(v: u8)
    ensures
        (v >> 4) & 0x0F <= 15,
        (v >> 4) & 0x07 <= 7,
        (v >> 5) & 0x03 <= 3,
        (v >> 6) & 0x03 <= 3,
        v & 0x3F <= 63,
        v & 0x1F <= 31,
        v & 0x0F <= 15,
        v & 0x07 <= 7,
{
    assert((v >> 4) & 0x0F <= 15 && (v >> 4) & 0x07 <= 7 && (v >> 5) & 0x03 <= 3 && (v >> 6) & 0x03 <= 3 && v & 0x3F
        <= 63 && v & 0x1F <= 31 && v & 0x0F <= 15 && v & 0x07 <= 7) by (bit_vector);
}

/// Writing either frequency byte keeps an 11-bit frequency within 11 bits.
pub proof fn lemma_frequency_bytes(f: u16, v: u16)
    requires
        v < 256,
    ensures
        (f & 0x700) | v <= 0x7FF,
        (f & 0x00FF) | ((v & 0x07) << 8) <= 0x7FF,
{
    assert((f & 0x700) | v <= 0x7FF && (f & 0x00FF) | ((v & 0x07) << 8) <= 0x7FF) by (bit_vector)
        requires
            v < 256,
    ;
}

} // verus!
