use vstd::prelude::*;

verus! {

/// `x & 0x0f` is the low nibble of `x`.
pub proof fn lemma_low_nibble(x: u8)
    ensures
        (x & 0x0f) as int == x % 16,
{
    assert((x & 0x0f) == x % 16) by (bit_vector);
}

/// Bit 7 is set exactly when the byte is at least 0x80.
pub proof fn lemma_bit7(x: u8)
    ensures
        (x & 0x80 != 0) == (x >= 128),
        (x & 0x80 == 0x80) == (x >= 128),
{
    assert((x & 0x80 != 0) == (x >= 128) && (x & 0x80 == 0x80) == (x >= 128)) by (bit_vector);
}

/// Bit 6 of a byte.
pub proof fn lemma_bit6(x: u8)
    ensures
        (x & 0x40 != 0) == ((x / 64) % 2 == 1),
{
    assert((x & 0x40 != 0) == ((x / 64) % 2 == 1)) by (bit_vector);
}

/// The complement of a byte.
pub proof fn lemma_not_u8(x: u8)
    ensures
        (!x) as int == 255 - x,
{
    assert(!x == 255 - x) by (bit_vector);
}

/// The complement of a 16-bit value.
pub proof fn lemma_not_u16(x: u16)
    ensures
        (!x) as int == 65535 - x,
{
    assert(!x == 65535 - x) by (bit_vector);
}

/// The low byte of a 16-bit value, by cast and by mask.
pub proof fn lemma_low_byte(x: u16)
    ensures
        (x as u8) as int == x % 256,
        (x & 0xff) as int == x % 256,
{
    assert((x as u8) == x % 256 && (x & 0xff) == x % 256) by (bit_vector);
}

/// Shifting a byte left by one doubles it, dropping bit 7.
pub proof fn lemma_shift_left_u8(x: u8)
    ensures
        (x << 1u8) as int == (2 * x) % 256,
{
    assert((x << 1u8) == (2 * x) % 256) by (bit_vector);
}

/// Two 16-bit values have the same high byte exactly when they lie in the same page.
pub proof fn lemma_same_page(a: u16, b: u16)
    ensures
        (a & 0xff00 == b & 0xff00) == (a / 256 == b / 256),
{
    assert((a & 0xff00 == b & 0xff00) == (a / 256 == b / 256)) by (bit_vector);
}

/// The bit trick for signed overflow: the operands share a sign and the result's sign differs.
pub proof fn lemma_overflow_bits(a: u8, b: u8, r: u8)
    ensures
        ((!(a ^ b) & (a ^ r) & 0x80) != 0) == ((a >= 128) == (b >= 128) && (r >= 128) != (a
            >= 128)),
{
    assert(((!(a ^ b) & (a ^ r) & 0x80) != 0) == ((a >= 128) == (b >= 128) && (r >= 128) != (a
        >= 128))) by (bit_vector);
}

/// An address below 0x10002 cut to 16 bits.
pub proof fn lemma_address_to_u16(x: usize)
    ensures
        x < 65536 ==> (x as u16) as int == x,
        65536 <= x < 65538 ==> (x as u16) as int == x - 65536,
{
    assert(x < 65536 ==> (x as u16) == x) by (bit_vector);
    assert(65536 <= x < 65538 ==> (x as u16) == x - 65536) by (bit_vector);
}

} // verus!
