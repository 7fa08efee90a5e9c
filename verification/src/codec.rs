//! Little-endian word codec for the fixed-size binary messages exchanged
//! over the host channel.
//!
//! The convention observed at the channel boundary is a flat sequence of
//! 32-bit values, each laid out as four little-endian bytes: 16 bytes carry
//! a four-value color tuple, 64 bytes a sixteen-value transform matrix. The
//! values are bit patterns of the host's 32-bit floating-point numbers;
//! this codec moves the patterns unchanged, so a decoded message is exactly
//! what the sender encoded.

use vstd::prelude::*;

verus! {

/// The four little-endian bytes of one 32-bit word, lowest byte first.
pub open spec fn le_word_bytes(word: u32) -> Seq<u8> {
    seq![
        (word & 0xff) as u8,
        ((word >> 8) & 0xff) as u8,
        ((word >> 16) & 0xff) as u8,
        ((word >> 24) & 0xff) as u8,
    ]
}

/// The 32-bit word whose little-endian bytes are `b0` through `b3`.
pub open spec fn word_of_le_bytes(b0: u8, b1: u8, b2: u8, b3: u8) -> u32 {
    (b0 as u32) | ((b1 as u32) << 8) | ((b2 as u32) << 16) | ((b3 as u32) << 24)
}

/// The byte sequence encoding the given words, four bytes per word.
pub open spec fn le_encoded_words(words: Seq<u32>) -> Seq<u8>
    decreases words.len(),
{
    if words.len() == 0 {
        Seq::empty()
    } else {
        le_word_bytes(words.first()) + le_encoded_words(words.drop_first())
    }
}

/// The words read out of a byte sequence, four bytes at a time.
pub open spec fn le_decoded_words(bytes: Seq<u8>) -> Seq<u32>
    decreases bytes.len(),
{
    if bytes.len() < 4 {
        Seq::empty()
    } else {
        seq![word_of_le_bytes(bytes[0], bytes[1], bytes[2], bytes[3])] + le_decoded_words(
            bytes.skip(4),
        )
    }
}

/// Reading back the four little-endian bytes of a word yields that word.
pub proof fn lemma_word_le_roundtrip(word: u32)
    ensures
        word_of_le_bytes(
            (word & 0xff) as u8,
            ((word >> 8) & 0xff) as u8,
            ((word >> 16) & 0xff) as u8,
            ((word >> 24) & 0xff) as u8,
        ) == word,
{
    assert((((word & 0xff) as u8) as u32) | (((((word >> 8) & 0xff) as u8) as u32) << 8) | ((((
    (word >> 16) & 0xff) as u8) as u32) << 16) | (((((word >> 24) & 0xff) as u8) as u32) << 24)
        == word) by (bit_vector);
}

/// The encoding of the words with one more word at the back is the encoding
/// of the words followed by that word's bytes.
pub proof fn lemma_le_encoded_words_push(words: Seq<u32>, word: u32)
    ensures
        le_encoded_words(words.push(word)) =~= le_encoded_words(words) + le_word_bytes(word),
    decreases words.len(),
{
    if words.len() == 0 {
        assert(words.push(word).first() == word);
        assert(words.push(word).drop_first() =~= Seq::<u32>::empty());
        assert(le_encoded_words(words.push(word).drop_first()) == Seq::<u8>::empty());
        assert(le_encoded_words(words.push(word)) == le_word_bytes(word) + Seq::<u8>::empty());
        assert(le_word_bytes(word) + Seq::<u8>::empty() =~= Seq::<u8>::empty() + le_word_bytes(
            word,
        ));
    } else {
        assert(words.push(word).first() == words.first());
        assert(words.push(word).drop_first() =~= words.drop_first().push(word));
        lemma_le_encoded_words_push(words.drop_first(), word);
        assert(le_encoded_words(words.push(word)) == le_word_bytes(words.first()) + (
        le_encoded_words(words.drop_first()) + le_word_bytes(word)));
        assert(le_word_bytes(words.first()) + (le_encoded_words(words.drop_first())
            + le_word_bytes(word)) =~= (le_word_bytes(words.first()) + le_encoded_words(
            words.drop_first(),
        )) + le_word_bytes(word));
    }
}

/// An encoding holds four bytes per word.
pub proof fn lemma_le_encoded_words_len(words: Seq<u32>)
    ensures
        le_encoded_words(words).len() == 4 * words.len(),
    decreases words.len(),
{
    if words.len() > 0 {
        lemma_le_encoded_words_len(words.drop_first());
    }
}

/// Decoding an encoded word sequence yields the sequence the sender
/// encoded, word for word.
pub proof fn lemma_words_le_roundtrip(words: Seq<u32>)
    ensures
        le_decoded_words(le_encoded_words(words)) =~= words,
    decreases words.len(),
{
    if words.len() > 0 {
        let encoded = le_encoded_words(words);
        lemma_le_encoded_words_len(words);
        lemma_word_le_roundtrip(words.first());
        assert(encoded.skip(4) =~= le_encoded_words(words.drop_first()));
        lemma_words_le_roundtrip(words.drop_first());
    }
}

/// Encodes the words as bytes, four little-endian bytes per word.
pub fn encode_words(words: &Vec<u32>) -> (bytes: Vec<u8>)
    ensures
        bytes@ == le_encoded_words(words@),
        bytes@.len() == 4 * words@.len(),
{
    let mut bytes: Vec<u8> = Vec::new();
    let mut i: usize = 0;
    while i < words.len()
        invariant
            i <= words.len(),
            bytes@ =~= le_encoded_words(words@.subrange(0, i as int)),
            bytes@.len() == 4 * i,
        decreases words.len() - i,
    {
        let word = words[i];
        bytes.push((word & 0xff) as u8);
        bytes.push(((word >> 8) & 0xff) as u8);
        bytes.push(((word >> 16) & 0xff) as u8);
        bytes.push(((word >> 24) & 0xff) as u8);
        proof {
            lemma_le_encoded_words_push(words@.subrange(0, i as int), words@[i as int]);
            assert(words@.subrange(0, i + 1) =~= words@.subrange(0, i as int).push(
                words@[i as int],
            ));
        }
        i += 1;
    }
    proof {
        assert(words@.subrange(0, words@.len() as int) =~= words@);
    }
    bytes
}

/// Decodes bytes into words, four little-endian bytes per word, or reports
/// that the length is not a whole number of words.
pub fn decode_words(bytes: &Vec<u8>) -> (words: Option<Vec<u32>>)
    ensures
        bytes@.len() % 4 == 0 ==> (words matches Some(decoded) && decoded@ == le_decoded_words(
            bytes@,
        )),
        bytes@.len() % 4 != 0 ==> words is None,
{
    if bytes.len() % 4 != 0 {
        return None;
    }
    let mut decoded: Vec<u32> = Vec::new();
    let mut i: usize = 0;
    proof {
        assert(bytes@.skip(0) =~= bytes@);
        assert(decoded@ + le_decoded_words(bytes@) =~= le_decoded_words(bytes@));
    }
    while i < bytes.len()
        invariant
            i <= bytes@.len(),
            i % 4 == 0,
            bytes@.len() % 4 == 0,
            le_decoded_words(bytes@) =~= decoded@ + le_decoded_words(bytes@.skip(i as int)),
        decreases bytes@.len() - i,
    {
        let word = (bytes[i] as u32) | ((bytes[i + 1] as u32) << 8) | ((bytes[i + 2] as u32)
            << 16) | ((bytes[i + 3] as u32) << 24);
        proof {
            let rest = bytes@.skip(i as int);
            assert(rest.len() >= 4);
            assert(rest[0] == bytes@[i as int]);
            assert(rest[1] == bytes@[i + 1]);
            assert(rest[2] == bytes@[i + 2]);
            assert(rest[3] == bytes@[i + 3]);
            assert(rest.skip(4) =~= bytes@.skip(i + 4));
            assert(decoded@.push(word) + le_decoded_words(bytes@.skip(i + 4)) =~= decoded@
                + le_decoded_words(bytes@.skip(i as int)));
        }
        decoded.push(word);
        i += 4;
    }
    proof {
        assert(le_decoded_words(bytes@.skip(bytes@.len() as int)) =~= Seq::<u32>::empty());
        assert(decoded@ =~= le_decoded_words(bytes@));
    }
    Some(decoded)
}

/// The four 32-bit values of a 16-byte color message, in channel order.
///
/// Each field holds the bit pattern of one of the host's floating-point
/// color components.
#[derive(Debug, Clone, Copy, PartialEq, Eq, Structural)]
pub struct ColorMessage {
    /// Bit pattern of the red component.
    pub r_bits: u32,
    /// Bit pattern of the green component.
    pub g_bits: u32,
    /// Bit pattern of the blue component.
    pub b_bits: u32,
    /// Bit pattern of the alpha component.
    pub a_bits: u32,
}

impl ColorMessage {
    /// The four words of the message, in the order they go on the wire.
    pub open spec fn words(&self) -> Seq<u32> {
        seq![self.r_bits, self.g_bits, self.b_bits, self.a_bits]
    }
}

/// Encodes a color message as its 16-byte channel form.
pub fn encode_color(message: &ColorMessage) -> (bytes: Vec<u8>)
    ensures
        bytes@ == le_encoded_words(message.words()),
        bytes@.len() == 16,
{
    let mut words: Vec<u32> = Vec::new();
    words.push(message.r_bits);
    words.push(message.g_bits);
    words.push(message.b_bits);
    words.push(message.a_bits);
    proof {
        assert(words@ =~= message.words());
    }
    encode_words(&words)
}

/// Decodes a 16-byte channel message into its color tuple, or reports that
/// the length is not that of a color message.
pub fn decode_color(bytes: &Vec<u8>) -> (message: Option<ColorMessage>)
    ensures
        bytes@.len() == 16 ==> (message matches Some(color) && color.words() == le_decoded_words(
            bytes@,
        )),
        bytes@.len() != 16 ==> message is None,
{
    if bytes.len() != 16 {
        return None;
    }
    let decoded = match decode_words(bytes) {
        Some(decoded) => decoded,
        None => {
            return None;
        },
    };
    proof {
        lemma_le_decoded_words_len(bytes@);
    }
    let color = ColorMessage {
        r_bits: decoded[0],
        g_bits: decoded[1],
        b_bits: decoded[2],
        a_bits: decoded[3],
    };
    proof {
        assert(color.words() =~= le_decoded_words(bytes@));
    }
    Some(color)
}

/// A whole number of words decodes to a quarter as many words as bytes.
pub proof fn lemma_le_decoded_words_len(bytes: Seq<u8>)
    requires
        bytes.len() % 4 == 0,
    ensures
        le_decoded_words(bytes).len() == bytes.len() / 4,
    decreases bytes.len(),
{
    if bytes.len() >= 4 {
        lemma_le_decoded_words_len(bytes.skip(4));
    }
}

} // verus!
