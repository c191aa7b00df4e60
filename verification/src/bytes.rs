//! Packing bytes into 32-bit words and back.
//!
//! Byte ordering on the bus is big-endian: the first byte of a group of four
//! becomes the high byte of the word.

use vstd::prelude::*;

verus! {

/// The word that four bytes pack to, big-endian.
pub open spec fn spec_word_of(b0: u8, b1: u8, b2: u8, b3: u8) -> u32 {
    (b0 * 0x100_0000 + b1 * 0x1_0000 + b2 * 0x100 + b3) as u32
}

/// Byte `k` (0 = high) of a word.
pub open spec fn spec_byte_of(w: u32, k: int) -> u8 {
    if k == 0 {
        (w / 0x100_0000) as u8
    } else if k == 1 {
        ((w / 0x1_0000) % 0x100) as u8
    } else if k == 2 {
        ((w / 0x100) % 0x100) as u8
    } else {
        (w % 0x100) as u8
    }
}

/// Packing four bytes and taking the word apart again are inverses.
pub proof fn lemma_word_bytes_roundtrip(b0: u8, b1: u8, b2: u8, b3: u8)
    ensures
        spec_byte_of(spec_word_of(b0, b1, b2, b3), 0) == b0,
        spec_byte_of(spec_word_of(b0, b1, b2, b3), 1) == b1,
        spec_byte_of(spec_word_of(b0, b1, b2, b3), 2) == b2,
        spec_byte_of(spec_word_of(b0, b1, b2, b3), 3) == b3,
{
    let w = b0 * 0x100_0000 + b1 * 0x1_0000 + b2 * 0x100 + b3;
    assert(w / 0x100_0000 == b0) by (nonlinear_arith)
        requires w == b0 * 0x100_0000 + b1 * 0x1_0000 + b2 * 0x100 + b3 && b1 < 0x100 && b2 < 0x100 && b3 < 0x100;
    assert((w / 0x1_0000) % 0x100 == b1) by (nonlinear_arith)
        requires w == b0 * 0x100_0000 + b1 * 0x1_0000 + b2 * 0x100 + b3 && b1 < 0x100 && b2 < 0x100 && b3 < 0x100;
    assert((w / 0x100) % 0x100 == b2) by (nonlinear_arith)
        requires w == b0 * 0x100_0000 + b1 * 0x1_0000 + b2 * 0x100 + b3 && b1 < 0x100 && b2 < 0x100 && b3 < 0x100;
    assert(w % 0x100 == b3) by (nonlinear_arith)
        requires w == b0 * 0x100_0000 + b1 * 0x1_0000 + b2 * 0x100 + b3 && b2 < 0x100 && b3 < 0x100;
}

/// A word is the packing of its own four bytes.
pub proof fn lemma_bytes_word_roundtrip(w: u32)
    ensures
        spec_word_of(spec_byte_of(w, 0), spec_byte_of(w, 1), spec_byte_of(w, 2), spec_byte_of(w, 3)) == w,
{
    assert(
        (w / 0x100_0000) * 0x100_0000 + ((w / 0x1_0000) % 0x100) * 0x1_0000 + ((w / 0x100) % 0x100) * 0x100 + w % 0x100
        == w
    ) by (nonlinear_arith);
}

/// Pack four bytes into a word, big-endian.
pub fn word_of(b0: u8, b1: u8, b2: u8, b3: u8) -> (w: u32)
    ensures
        w == spec_word_of(b0, b1, b2, b3),
{
    b0 as u32 * 0x100_0000 + b1 as u32 * 0x1_0000 + b2 as u32 * 0x100 + b3 as u32
}

/// Take a word apart into its four bytes, big-endian.
pub fn bytes_of(w: u32) -> (b: (u8, u8, u8, u8))
    ensures
        b.0 == spec_byte_of(w, 0),
        b.1 == spec_byte_of(w, 1),
        b.2 == spec_byte_of(w, 2),
        b.3 == spec_byte_of(w, 3),
{
    (
        (w / 0x100_0000) as u8,
        ((w / 0x1_0000) % 0x100) as u8,
        ((w / 0x100) % 0x100) as u8,
        (w % 0x100) as u8,
    )
}

/// The word stream a byte stream converts to: each complete group of four
/// bytes packs big-endian; a trailing partial group is padded with zero bytes
/// at its end.
pub open spec fn spec_words_of_bytes(b: Seq<u8>) -> Seq<u32> {
    Seq::new(
        ((b.len() + 3) / 4) as nat,
        |i: int| spec_word_of(
            if 4 * i < b.len() { b[4 * i] } else { 0 },
            if 4 * i + 1 < b.len() { b[4 * i + 1] } else { 0 },
            if 4 * i + 2 < b.len() { b[4 * i + 2] } else { 0 },
            if 4 * i + 3 < b.len() { b[4 * i + 3] } else { 0 },
        ),
    )
}

/// The byte stream a word stream expands to, big-endian.
pub open spec fn spec_bytes_of_words(w: Seq<u32>) -> Seq<u8> {
    Seq::new(4 * w.len(), |i: int| spec_byte_of(w[i / 4], i % 4))
}

/// Convert a list of bytes to a list of words. Each group of four bytes packs
/// big-endian into one word; a trailing group of fewer than four bytes is
/// padded with zeroes at its end.
pub fn bytes_to_words(bytes: &Vec<u8>) -> (words: Vec<u32>)
    ensures
        words@ == spec_words_of_bytes(bytes@),
{
    let n = bytes.len();
    let total: usize = n / 4 + if n % 4 != 0 { 1 } else { 0 };
    proof {
        assert(total == (n + 3) / 4);
    }
    let mut words: Vec<u32> = Vec::new();
    let mut i: usize = 0;
    while i < total
        invariant
            n == bytes@.len(),
            total == (n + 3) / 4,
            i <= total,
            words@.len() == i,
            forall|j: int| 0 <= j < i ==> words@[j] == spec_words_of_bytes(bytes@)[j],
        decreases total - i,
    {
        let b0 = if 4 * i < n { bytes[4 * i] } else { 0 };
        let b1 = if 4 * i + 1 < n { bytes[4 * i + 1] } else { 0 };
        let b2 = if 4 * i + 2 < n { bytes[4 * i + 2] } else { 0 };
        let b3 = if 4 * i + 3 < n { bytes[4 * i + 3] } else { 0 };
        words.push(word_of(b0, b1, b2, b3));
        i = i + 1;
    }
    proof {
        assert(words@ =~= spec_words_of_bytes(bytes@));
    }
    words
}

/// Convert a list of words to a list of bytes, big-endian.
pub fn words_to_bytes(words: &Vec<u32>) -> (bytes: Vec<u8>)
    ensures
        bytes@ == spec_bytes_of_words(words@),
{
    let mut bytes: Vec<u8> = Vec::new();
    let mut i: usize = 0;
    while i < words.len()
        invariant
            i <= words@.len(),
            bytes@.len() == 4 * i,
            forall|j: int| 0 <= j < 4 * i ==> bytes@[j] == spec_bytes_of_words(words@)[j],
        decreases words@.len() - i,
    {
        let (b0, b1, b2, b3) = bytes_of(words[i]);
        bytes.push(b0);
        bytes.push(b1);
        bytes.push(b2);
        bytes.push(b3);
        i = i + 1;
    }
    proof {
        assert(bytes@ =~= spec_bytes_of_words(words@));
    }
    bytes
}

/// Round-trip law: converting a word stream to bytes and back yields the same
/// word stream.
pub proof fn lemma_bytes_to_words_roundtrip(w: Seq<u32>)
    ensures
        spec_words_of_bytes(spec_bytes_of_words(w)) == w,
{
    let b = spec_bytes_of_words(w);
    assert forall|i: int| 0 <= i < w.len() implies spec_words_of_bytes(b)[i] == w[i] by {
        assert(b[4 * i] == spec_byte_of(w[i], 0));
        assert(b[4 * i + 1] == spec_byte_of(w[i], 1));
        assert(b[4 * i + 2] == spec_byte_of(w[i], 2));
        assert(b[4 * i + 3] == spec_byte_of(w[i], 3));
        lemma_bytes_word_roundtrip(w[i]);
    }
    assert(spec_words_of_bytes(b) =~= w);
}

} // verus!
