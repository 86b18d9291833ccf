//! Sensor words: 16-bit two's complement values sent high byte first.

use vstd::prelude::*;

verus! {

/// The signed value of the big-endian 16-bit word `hi`, `lo`.
pub open spec fn be_word(hi: u8, lo: u8) -> int {
    if hi < 128 {
        hi * 256 + lo
    } else {
        hi * 256 + lo - 65536
    }
}

/// The word that starts at byte `2 * i` of `bytes`.
pub open spec fn word_at(bytes: Seq<u8>, i: int) -> int {
    be_word(bytes[2 * i], bytes[2 * i + 1])
}

/// Combines two bytes, high byte first, into a signed 16-bit value.
pub fn word_from_be_bytes(hi: u8, lo: u8) -> (w: i16)
    ensures
        w as int == be_word(hi, lo),
{
    let v: i32 = (hi as i32) * 256 + (lo as i32);
    if v >= 32768 {
        (v - 65536) as i16
    } else {
        v as i16
    }
}

/// Decodes the value of one register pair.
pub fn decode_word(bytes: &[u8; 2]) -> (w: i16)
    ensures
        w as int == word_at(bytes@, 0),
{
    word_from_be_bytes(bytes[0], bytes[1])
}

/// Decodes three consecutive words, such as the X, Y and Z values of one
/// sensor.
pub fn decode_triplet(bytes: &[u8; 6]) -> (t: (i16, i16, i16))
    ensures
        t.0 as int == word_at(bytes@, 0),
        t.1 as int == word_at(bytes@, 1),
        t.2 as int == word_at(bytes@, 2),
{
    let word1 = word_from_be_bytes(bytes[0], bytes[1]);
    let word2 = word_from_be_bytes(bytes[2], bytes[3]);
    let word3 = word_from_be_bytes(bytes[4], bytes[5]);
    (word1, word2, word3)
}

} // verus!
