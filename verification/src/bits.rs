//! Bit fields of a 16-bit register word.
//!
//! Bit 15 is the most significant bit of the word, as in the data sheet. A
//! field is named by the position of its lowest bit and by its width.

use vstd::prelude::*;

verus! {

/// The word whose `width` lowest bits are set.
pub open spec fn low_mask(width: u8) -> u16 {
    if width >= 16 {
        0xffff
    } else {
        ((1u16 << width) - 1) as u16
    }
}

/// The field of `width` bits whose lowest bit is bit `shift` of `word`.
pub open spec fn field(word: u16, shift: u8, width: u8) -> u16 {
    (word >> shift) & low_mask(width)
}

/// `word` with that field replaced by the `width` lowest bits of `value`.
pub open spec fn with_field(word: u16, shift: u8, width: u8, value: u16) -> u16 {
    (word & !(low_mask(width) << shift)) | ((value & low_mask(width)) << shift)
}

/// A field of at most eight bits, as a byte.
pub open spec fn small_field(word: u16, shift: u8, width: u8) -> u8 {
    (field(word, shift, width) & 0xff) as u8
}

/// Whether bit `bit` of `word` is set.
pub open spec fn flag(word: u16, bit: u8) -> bool {
    word & (1u16 << bit) != 0
}

/// `word` with bit `bit` set to `value`.
pub open spec fn with_flag(word: u16, bit: u8, value: bool) -> u16 {
    if value {
        word | (1u16 << bit)
    } else {
        word & !(1u16 << bit)
    }
}

/// The word with low byte `lo` and high byte `hi`.
pub open spec fn word_of(lo: u8, hi: u8) -> u16 {
    (lo as u16) | ((hi as u16) << 8)
}

/// The low byte of `word`: the first on the bus.
pub open spec fn low_byte(word: u16) -> u8 {
    (word & 0xff) as u8
}

/// The high byte of `word`: the second on the bus.
pub open spec fn high_byte(word: u16) -> u8 {
    (word >> 8) as u8
}

/// Computes [`low_mask`].
pub fn mask(width: u8) -> (m: u16)
    ensures
        m == low_mask(width),
{
    if width >= 16 {
        0xffff
    } else {
        assert((1u16 << width) >= 1) by (bit_vector)
            requires
                width < 16,
        ;
        (1u16 << width) - 1
    }
}

/// Reads a field of a register word.
pub fn get_field(word: u16, shift: u8, width: u8) -> (value: u16)
    requires
        shift < 16,
    ensures
        value == field(word, shift, width),
{
    (word >> shift) & mask(width)
}

/// Reads a field of at most eight bits.
pub fn get_small_field(word: u16, shift: u8, width: u8) -> (value: u8)
    requires
        shift < 16,
    ensures
        value == small_field(word, shift, width),
{
    let wide: u16 = get_field(word, shift, width);
    assert(wide & 0xff < 256) by (bit_vector);
    (wide & 0xff) as u8
}

/// Replaces a field of a register word. Bits of `value` above the field's
/// width are dropped.
pub fn set_field(word: u16, shift: u8, width: u8, value: u16) -> (out: u16)
    requires
        shift < 16,
    ensures
        out == with_field(word, shift, width, value),
{
    let m: u16 = mask(width);
    (word & !(m << shift)) | ((value & m) << shift)
}

/// Reads one bit of a register word.
pub fn get_flag(word: u16, bit: u8) -> (value: bool)
    requires
        bit < 16,
    ensures
        value == flag(word, bit),
{
    word & (1u16 << bit) != 0
}

/// Sets or clears one bit of a register word.
pub fn set_flag(word: u16, bit: u8, value: bool) -> (out: u16)
    requires
        bit < 16,
    ensures
        out == with_flag(word, bit, value),
{
    if value {
        word | (1u16 << bit)
    } else {
        word & !(1u16 << bit)
    }
}

/// Joins the two bytes of a register, low byte first, into its word.
pub fn join(lo: u8, hi: u8) -> (word: u16)
    ensures
        word == word_of(lo, hi),
{
    (lo as u16) | ((hi as u16) << 8)
}

/// Splits a register word into its two bytes, low byte first.
pub fn split(word: u16) -> (bytes: (u8, u8))
    ensures
        bytes.0 == low_byte(word),
        bytes.1 == high_byte(word),
{
    assert(word & 0xff < 256) by (bit_vector);
    assert(word >> 8 < 256) by (bit_vector);
    ((word & 0xff) as u8, (word >> 8) as u8)
}

/// As numbers: the word is the low byte plus 256 times the high byte.
pub proof fn lemma_word_is_bytes(lo: u8, hi: u8, word: u16)
    ensures
        word_of(lo, hi) == lo + 256 * hi,
        low_byte(word) == word % 256,
        high_byte(word) == word / 256,
{
    assert((lo as u16) | ((hi as u16) << 8) == lo as u16 + 256 * (hi as u16)) by (bit_vector);
    assert((word & 0xff) as u8 == word % 256) by (bit_vector);
    assert((word >> 8) as u8 == word / 256) by (bit_vector);
}

/// As numbers: a field is the word divided by two to the power of the
/// field's position, modulo two to the power of its width.
pub proof fn lemma_field_is_digits(word: u16, shift: u8, width: u8)
    requires
        shift < 16,
        width < 16,
    ensures
        field(word, shift, width) == (word / (1u16 << shift)) % (1u16 << width),
        flag(word, shift) == ((word / (1u16 << shift)) % 2 == 1),
{
    assert((word >> shift) & (((1u16 << width) - 1) as u16) == (word / (1u16 << shift)) % (1u16
        << width)) by (bit_vector)
        requires
            shift < 16,
            width < 16,
    ;
    assert((word & (1u16 << shift) != 0) == ((word / (1u16 << shift)) % 2 == 1)) by (bit_vector)
        requires
            shift < 16,
    ;
}

/// Splitting a word and joining the bytes gives the word back.
pub proof fn lemma_join_split(word: u16)
    ensures
        word_of(low_byte(word), high_byte(word)) == word,
{
    assert(((word & 0xff) as u8 as u16) | (((word >> 8) as u8 as u16) << 8) == word)
        by (bit_vector);
}

/// Joining two bytes and splitting the word gives the bytes back.
pub proof fn lemma_split_join(lo: u8, hi: u8)
    ensures
        low_byte(word_of(lo, hi)) == lo,
        high_byte(word_of(lo, hi)) == hi,
{
    assert((((lo as u16) | ((hi as u16) << 8)) & 0xff) as u8 == lo) by (bit_vector);
    assert((((lo as u16) | ((hi as u16) << 8)) >> 8) as u8 == hi) by (bit_vector);
}

/// A bit that was set or cleared reads as it was written, and every other
/// bit reads as before.
pub proof fn lemma_flag_with_flag(word: u16, written: u8, value: bool, read: u8)
    requires
        written < 16,
        read < 16,
    ensures
        flag(with_flag(word, written, value), read) == if read == written {
            value
        } else {
            flag(word, read)
        },
{
    assert((word | (1u16 << written)) & (1u16 << written) != 0) by (bit_vector)
        requires
            written < 16,
    ;
    assert((word & !(1u16 << written)) & (1u16 << written) == 0) by (bit_vector)
        requires
            written < 16,
    ;
    if read != written {
        assert(((word | (1u16 << written)) & (1u16 << read) != 0) == (word & (1u16 << read)
            != 0)) by (bit_vector)
            requires
                written < 16,
                read < 16,
                read != written,
        ;
        assert(((word & !(1u16 << written)) & (1u16 << read) != 0) == (word & (1u16 << read)
            != 0)) by (bit_vector)
            requires
                written < 16,
                read < 16,
                read != written,
        ;
    }
}

/// A field that was replaced reads as the low bits of what was written.
pub proof fn lemma_field_with_field(word: u16, shift: u8, width: u8, value: u16)
    requires
        shift + width <= 16,
    ensures
        field(with_field(word, shift, width, value), shift, width) == value & low_mask(width),
{
    let m = low_mask(width);
    assert((((word & !(m << shift)) | ((value & m) << shift)) >> shift) & m == value & m)
        by (bit_vector)
        requires
            shift + width <= 16,
            m == if width >= 16 {
                0xffffu16
            } else {
                ((1u16 << width) - 1) as u16
            },
    ;
}

/// Replacing a field leaves every bit outside it as it was.
pub proof fn lemma_flag_with_field(word: u16, shift: u8, width: u8, value: u16, read: u8)
    requires
        shift + width <= 16,
        read < shift || shift + width <= read < 16,
    ensures
        flag(with_field(word, shift, width, value), read) == flag(word, read),
{
    let m = low_mask(width);
    assert((((word & !(m << shift)) | ((value & m) << shift)) & (1u16 << read) != 0) == (word
        & (1u16 << read) != 0)) by (bit_vector)
        requires
            shift + width <= 16,
            read < shift || shift + width <= read < 16,
            m == if width >= 16 {
                0xffffu16
            } else {
                ((1u16 << width) - 1) as u16
            },
    ;
}

} // verus!
