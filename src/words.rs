//! Register-word encoding of 16-bit signed and 32-bit values.
//!
//! A 32-bit value occupies two consecutive registers, the high half at the
//! lower address. Signed values travel as their two's-complement bit pattern.
use vstd::prelude::*;

verus! {

/// Two's-complement bit pattern of a signed 32-bit value.
pub open spec fn i32_bits(v: i32) -> u32 {
    if v >= 0 {
        v as u32
    } else {
        (v as int + 0x1_0000_0000) as u32
    }
}

/// The signed 32-bit value whose two's-complement bit pattern is `b`.
pub open spec fn i32_of_bits(b: u32) -> i32 {
    if b < 0x8000_0000 {
        b as i32
    } else {
        (b as int - 0x1_0000_0000) as i32
    }
}

/// Two's-complement bit pattern of a signed 16-bit value.
pub open spec fn i16_bits(v: i16) -> u16 {
    if v >= 0 {
        v as u16
    } else {
        (v as int + 0x1_0000) as u16
    }
}

/// The signed 16-bit value whose two's-complement bit pattern is `w`.
pub open spec fn i16_of_bits(w: u16) -> i16 {
    if w < 0x8000 {
        w as i16
    } else {
        (w as int - 0x1_0000) as i16
    }
}

/// High register of a 32-bit value.
pub open spec fn high_word(v: u32) -> u16 {
    (v / 0x1_0000) as u16
}

/// Low register of a 32-bit value.
pub open spec fn low_word(v: u32) -> u16 {
    (v % 0x1_0000) as u16
}

/// The 32-bit value held by a (high, low) register pair.
pub open spec fn join_words(high: u16, low: u16) -> u32 {
    (high as int * 0x1_0000 + low as int) as u32
}

/// Split a 32-bit value into its (high, low) register pair.
pub fn split_u32(value: u32) -> (r: (u16, u16))
    ensures
        r.0 == high_word(value),
        r.1 == low_word(value),
        r.0 as int * 0x1_0000 + r.1 as int == value as int,
{
    let high = (value / 0x1_0000) as u16;
    let low = (value % 0x1_0000) as u16;
    (high, low)
}

/// Combine a (high, low) register pair into a 32-bit value.
pub fn join_u32(high: u16, low: u16) -> (r: u32)
    ensures
        r == join_words(high, low),
        r as int == high as int * 0x1_0000 + low as int,
{
    proof {
        assert(high as int * 0x1_0000 + low as int <= 0xFFFF * 0x1_0000 + 0xFFFF);
    }
    (high as u32) * 0x1_0000 + (low as u32)
}

/// Reinterpret a signed 32-bit value as its unsigned bit pattern.
pub fn i32_to_bits(value: i32) -> (r: u32)
    ensures
        r == i32_bits(value),
{
    if value >= 0 {
        value as u32
    } else {
        (value as i64 + 0x1_0000_0000) as u32
    }
}

/// Reinterpret an unsigned 32-bit pattern as a signed value.
pub fn i32_from_bits(bits: u32) -> (r: i32)
    ensures
        r == i32_of_bits(bits),
{
    if bits < 0x8000_0000 {
        bits as i32
    } else {
        (bits as i64 - 0x1_0000_0000) as i32
    }
}

/// Reinterpret a signed 16-bit value as the raw register word.
pub fn i16_to_raw(value: i16) -> (r: u16)
    ensures
        r == i16_bits(value),
{
    if value >= 0 {
        value as u16
    } else {
        (value as i32 + 0x1_0000) as u16
    }
}

/// Reinterpret a raw register word as a signed 16-bit value.
pub fn i16_from_raw(word: u16) -> (r: i16)
    ensures
        r == i16_of_bits(word),
{
    if word < 0x8000 {
        word as i16
    } else {
        (word as i32 - 0x1_0000) as i16
    }
}

/// Splitting a 32-bit value into registers and joining them gives it back.
pub proof fn lemma_u32_round_trip(v: u32)
    ensures
        join_words(high_word(v), low_word(v)) == v,
{
    assert(v as int == (v as int / 0x1_0000) * 0x1_0000 + v as int % 0x1_0000) by (nonlinear_arith);
}

/// Joining a register pair and splitting the result gives the pair back.
pub proof fn lemma_words_round_trip(high: u16, low: u16)
    ensures
        high_word(join_words(high, low)) == high,
        low_word(join_words(high, low)) == low,
{
    let v = high as int * 0x1_0000 + low as int;
    assert(v / 0x1_0000 == high as int && v % 0x1_0000 == low as int) by (nonlinear_arith)
        requires
            v == high as int * 0x1_0000 + low as int,
            0 <= low < 0x1_0000,
            0 <= high < 0x1_0000,
    ;
}

/// Every signed 32-bit value survives encoding into two registers and
/// decoding back: its bit pattern is split high word first, and the joined
/// pattern is read back as a signed value.
pub proof fn lemma_i32_round_trip(v: i32)
    ensures
        i32_of_bits(join_words(high_word(i32_bits(v)), low_word(i32_bits(v)))) == v,
        i32_of_bits(i32_bits(v)) == v,
{
    lemma_u32_round_trip(i32_bits(v));
}

/// Every 32-bit pattern decodes to the signed value that encodes back to it.
pub proof fn lemma_i32_bits_round_trip(b: u32)
    ensures
        i32_bits(i32_of_bits(b)) == b,
{
}

/// Every signed 16-bit value survives the trip through a raw register word,
/// and every raw word survives the trip through a signed value.
pub proof fn lemma_i16_round_trip(v: i16, w: u16)
    ensures
        i16_of_bits(i16_bits(v)) == v,
        i16_bits(i16_of_bits(w)) == w,
{
}

} // verus!
