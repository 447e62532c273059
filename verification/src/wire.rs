//! The byte form of GPU buffers.
//!
//! Every record that the kernel reads is a run of 32-bit words. A buffer is
//! written as those words in order, each as four bytes, least significant
//! first. Nothing depends on how the host lays out a struct in memory.

use vstd::prelude::*;

verus! {

/// Byte `k` (0 to 3) of a word in little-endian order.
pub open spec fn le_byte(w: u32, k: int) -> u8 {
    if k == 0 {
        (w % 256) as u8
    } else if k == 1 {
        ((w / 0x100) % 256) as u8
    } else if k == 2 {
        ((w / 0x1_0000) % 256) as u8
    } else {
        (w / 0x100_0000) as u8
    }
}

/// The bytes of a run of words: four per word, least significant first.
pub open spec fn le_bytes(words: Seq<u32>) -> Seq<u8> {
    Seq::new(4 * words.len(), |i: int| le_byte(words[i / 4], i % 4))
}

/// The word that four little-endian bytes spell.
pub open spec fn le_word(b0: u8, b1: u8, b2: u8, b3: u8) -> int {
    b0 + 0x100 * b1 + 0x1_0000 * b2 + 0x100_0000 * b3
}

/// The words that a run of bytes spells; bytes beyond the last full word are
/// ignored.
pub open spec fn le_words(bytes: Seq<u8>) -> Seq<int> {
    Seq::new(
        (bytes.len() / 4) as nat,
        |i: int| le_word(bytes[4 * i], bytes[4 * i + 1], bytes[4 * i + 2], bytes[4 * i + 3]),
    )
}

/// Appends the four bytes of `w` to `out`.
pub fn push_word(out: &mut Vec<u8>, w: u32)
    ensures
        final(out)@ == old(out)@ + le_bytes(seq![w]),
{
    out.push((w % 256) as u8);
    out.push(((w / 0x100) % 256) as u8);
    out.push(((w / 0x1_0000) % 256) as u8);
    out.push((w / 0x100_0000) as u8);
    assert(out@ =~= old(out)@ + le_bytes(seq![w]));
}

/// Serialises a run of words.
pub fn words_to_bytes(words: &Vec<u32>) -> (bytes: Vec<u8>)
    ensures
        bytes@ == le_bytes(words@),
{
    let mut bytes: Vec<u8> = Vec::new();
    let mut i: usize = 0;
    while i < words.len()
        invariant
            i <= words.len(),
            bytes@ == le_bytes(words@.take(i as int)),
        decreases words.len() - i,
    {
        let w: u32 = words[i];
        push_word(&mut bytes, w);
        proof {
            lemma_le_bytes_concat(words@.take(i as int), seq![w]);
            assert(words@.take(i as int) + seq![w] =~= words@.take(i + 1));
        }
        i += 1;
    }
    assert(words@.take(i as int) =~= words@);
    bytes
}

/// Serialising a concatenation gives the concatenation of the parts.
pub proof fn lemma_le_bytes_concat(a: Seq<u32>, b: Seq<u32>)
    ensures
        le_bytes(a + b) == le_bytes(a) + le_bytes(b),
{
    assert(le_bytes(a + b) =~= le_bytes(a) + le_bytes(b));
}

/// The byte form has four bytes per word, and reading it back gives the words
/// again: the serialisation loses nothing.
pub proof fn lemma_le_bytes_round_trip(words: Seq<u32>)
    ensures
        le_bytes(words).len() == 4 * words.len(),
        le_words(le_bytes(words)).len() == words.len(),
        forall|i: int| 0 <= i < words.len() ==> #[trigger] le_words(le_bytes(words))[i] == words[i],
{
    let bytes = le_bytes(words);
    assert forall|i: int| 0 <= i < words.len() implies #[trigger] le_words(bytes)[i]
        == words[i] by {
        let w = words[i];
        assert((4 * i) / 4 == i && (4 * i) % 4 == 0);
        assert((4 * i + 1) / 4 == i && (4 * i + 1) % 4 == 1);
        assert((4 * i + 2) / 4 == i && (4 * i + 2) % 4 == 2);
        assert((4 * i + 3) / 4 == i && (4 * i + 3) % 4 == 3);
        assert(bytes[4 * i] == le_byte(w, 0));
        assert(bytes[4 * i + 1] == le_byte(w, 1));
        assert(bytes[4 * i + 2] == le_byte(w, 2));
        assert(bytes[4 * i + 3] == le_byte(w, 3));
    }
}

} // verus!
