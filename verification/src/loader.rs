//! Decoding of a binary program image: a sequence of little-endian 16-bit
//! words, loaded verbatim into memory from address 0. An image of more
//! than 32768 words is rejected rather than allowed to overflow memory; a
//! trailing odd byte is ignored.

use vstd::prelude::*;

verus! {

/// Cell value of two adjacent image bytes, least-significant byte first.
pub open spec fn le_word(lo: u8, hi: u8) -> u16 {
    (lo + 256 * hi) as u16
}

/// Relies on byteorder::LittleEndian::read_u16: the unsigned 16-bit value
/// of the first two bytes of the slice, least-significant byte first. It
/// panics on a slice shorter than two bytes, which the precondition rules
/// out.
#[verifier::external_body]
fn read_le_word(bytes: &Vec<u8>, i: usize) -> (r: u16)
    requires
        i + 2 <= bytes@.len(),
    ensures
        r == le_word(bytes@[i as int], bytes@[i as int + 1]),
{
    <byteorder::LittleEndian as byteorder::ByteOrder>::read_u16(&bytes[i..i + 2])
}

/// Decodes a program image into cell words: consecutive little-endian
/// byte pairs, in order, a trailing odd byte ignored. Yields nothing
/// exactly when the image holds more than 32768 words, which could not
/// fit in memory.
pub fn decode_image(bytes: &Vec<u8>) -> (r: Option<Vec<u16>>)
    ensures
        r is Some <==> bytes@.len() / 2 <= 32768,
        r matches Some(words) ==> words@.len() == bytes@.len() / 2,
        r matches Some(words) ==> forall|i: int|
            0 <= i < words@.len() ==> words@[i] == le_word(bytes@[2 * i], bytes@[2 * i + 1]),
{
    let n = bytes.len() / 2;
    if n > 32768 {
        return None;
    }
    proof {
        assert(bytes@.len() / 2 * 2 <= bytes@.len()) by (nonlinear_arith);
    }
    let mut words: Vec<u16> = Vec::new();
    let mut i: usize = 0;
    while i < n
        invariant
            i <= n,
            n == bytes@.len() / 2,
            n <= 32768,
            n * 2 <= bytes@.len(),
            words@.len() == i,
            forall|j: int| 0 <= j < i ==> words@[j] == le_word(bytes@[2 * j], bytes@[2 * j + 1]),
        decreases n - i,
    {
        let w = read_le_word(bytes, 2 * i);
        words.push(w);
        i += 1;
    }
    Some(words)
}

} // verus!
