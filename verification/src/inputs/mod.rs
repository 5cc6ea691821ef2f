use vstd::prelude::*;

pub mod bh1750;
pub mod bus;
pub mod joy_featherwing;
pub mod pins;
pub mod registers;
pub mod shared;

verus! {

/// What can go wrong while talking to a peripheral.
#[derive(Clone, Copy, Debug, PartialEq, Eq, Structural)]
pub enum InputError {
    /// A read failed, or returned another number of bytes than was asked for.
    ReadErr,
    /// A write was not acknowledged.
    WriteErr,
    /// The peripheral did not answer, or did not identify itself as expected.
    HwNotFound,
}

/// The register word that travels as the four bytes `b0 b1 b2 b3`: the most
/// significant byte goes first on the wire.
pub open spec fn word_of(b0: u8, b1: u8, b2: u8, b3: u8) -> u32 {
    ((b0 as u32) << 24) | ((b1 as u32) << 16) | ((b2 as u32) << 8) | (b3 as u32)
}

/// Byte `k` of `word` on the wire, `k` counted from the byte sent first.
pub open spec fn byte_of(word: u32, k: int) -> u8 {
    if k == 0 {
        (word >> 24) as u8
    } else if k == 1 {
        ((word >> 16) & 0xff) as u8
    } else if k == 2 {
        ((word >> 8) & 0xff) as u8
    } else {
        (word & 0xff) as u8
    }
}

/// The words held by a run of bytes, four bytes to a word. Bytes left over
/// after the last full word belong to no word.
pub open spec fn words_of(bytes: Seq<u8>) -> Seq<u32> {
    Seq::new(
        (bytes.len() / 4) as nat,
        |i: int| word_of(bytes[4 * i], bytes[4 * i + 1], bytes[4 * i + 2], bytes[4 * i + 3]),
    )
}

/// The bytes of a run of words, in wire order.
pub open spec fn bytes_of(words: Seq<u32>) -> Seq<u8> {
    Seq::new(4 * words.len(), |i: int| byte_of(words[i / 4], i % 4))
}

/// Reads one register word from its four wire bytes.
pub fn decode_word(bytes: &[u8; 4]) -> (word: u32)
    ensures
        word == word_of(bytes[0], bytes[1], bytes[2], bytes[3]),
{
    let b0: u32 = bytes[0] as u32;
    let b1: u32 = bytes[1] as u32;
    let b2: u32 = bytes[2] as u32;
    let b3: u32 = bytes[3] as u32;
    (b0 << 24) | (b1 << 16) | (b2 << 8) | b3
}

/// Lays one register word out as its four wire bytes.
pub fn encode_word(word: u32) -> (bytes: [u8; 4])
    ensures
        forall|k: int| 0 <= k < 4 ==> bytes[k] == byte_of(word, k),
{
    assert(word >> 24 < 256) by (bit_vector);
    assert((word >> 16) & 0xff < 256) by (bit_vector);
    assert((word >> 8) & 0xff < 256) by (bit_vector);
    assert(word & 0xff < 256) by (bit_vector);
    let b0: u8 = (word >> 24) as u8;
    let b1: u8 = ((word >> 16) & 0xff) as u8;
    let b2: u8 = ((word >> 8) & 0xff) as u8;
    let b3: u8 = (word & 0xff) as u8;
    [b0, b1, b2, b3]
}

/// Lays a run of words out as bytes, four to a word.
pub fn u32_to_u8s(arr: &[u32]) -> (bytes: Vec<u8>)
    ensures
        bytes@ == bytes_of(arr@),
{
    let mut bytes: Vec<u8> = Vec::new();
    let mut i: usize = 0;
    while i < arr.len()
        invariant
            i <= arr.len(),
            bytes@.len() == 4 * i,
            forall|j: int| 0 <= j < 4 * i ==> bytes@[j] == byte_of(arr@[j / 4], j % 4),
        decreases arr.len() - i,
    {
        let ghost before = bytes@;
        let quad = encode_word(arr[i]);
        bytes.push(quad[0]);
        bytes.push(quad[1]);
        bytes.push(quad[2]);
        bytes.push(quad[3]);
        assert forall|j: int| 0 <= j < 4 * (i + 1) implies bytes@[j] == byte_of(
            arr@[j / 4],
            j % 4,
        ) by {
            if j < 4 * i {
                assert(bytes@[j] == before[j]);
            } else {
                assert(j / 4 == i as int);
                assert(bytes@[j] == quad[j - 4 * i]);
            }
        }
        i += 1;
    }
    assert(bytes@ =~= bytes_of(arr@));
    bytes
}

/// Reads a run of bytes as words, four bytes to a word; up to three bytes
/// at the end that fill no word are passed over.
pub fn u8s_to_u32(arr: &[u8]) -> (words: Vec<u32>)
    ensures
        words@ == words_of(arr@),
{
    let mut words: Vec<u32> = Vec::new();
    let count: usize = arr.len() / 4;
    let mut i: usize = 0;
    while i < count
        invariant
            count == arr.len() / 4,
            i <= count,
            words@.len() == i,
            forall|j: int|
                0 <= j < i ==> words@[j] == word_of(
                    arr@[4 * j],
                    arr@[4 * j + 1],
                    arr@[4 * j + 2],
                    arr@[4 * j + 3],
                ),
        decreases count - i,
    {
        let at: usize = 4 * i;
        let quad: [u8; 4] = [arr[at], arr[at + 1], arr[at + 2], arr[at + 3]];
        words.push(decode_word(&quad));
        i += 1;
    }
    assert(words@ =~= words_of(arr@));
    words
}

/// A word that is laid out as bytes and read back is the same word.
pub proof fn lemma_decode_encode(word: u32)
    ensures
        word_of(byte_of(word, 0), byte_of(word, 1), byte_of(word, 2), byte_of(word, 3)) == word,
{
    assert(((((word >> 24) as u8) as u32) << 24) | (((((word >> 16) & 0xff) as u8) as u32) << 16)
        | (((((word >> 8) & 0xff) as u8) as u32) << 8) | (((word & 0xff) as u8) as u32) == word)
        by (bit_vector);
}

/// Four bytes that are read as a word and laid out again are the same four
/// bytes, in the same order.
pub proof fn lemma_encode_decode(b0: u8, b1: u8, b2: u8, b3: u8)
    ensures
        byte_of(word_of(b0, b1, b2, b3), 0) == b0,
        byte_of(word_of(b0, b1, b2, b3), 1) == b1,
        byte_of(word_of(b0, b1, b2, b3), 2) == b2,
        byte_of(word_of(b0, b1, b2, b3), 3) == b3,
{
    let w = word_of(b0, b1, b2, b3);
    assert(w == ((b0 as u32) << 24) | ((b1 as u32) << 16) | ((b2 as u32) << 8) | (b3 as u32));
    assert((w >> 24) as u8 == b0) by (bit_vector)
        requires
            w == ((b0 as u32) << 24) | ((b1 as u32) << 16) | ((b2 as u32) << 8) | (b3 as u32),
    ;
    assert(((w >> 16) & 0xff) as u8 == b1) by (bit_vector)
        requires
            w == ((b0 as u32) << 24) | ((b1 as u32) << 16) | ((b2 as u32) << 8) | (b3 as u32),
    ;
    assert(((w >> 8) & 0xff) as u8 == b2) by (bit_vector)
        requires
            w == ((b0 as u32) << 24) | ((b1 as u32) << 16) | ((b2 as u32) << 8) | (b3 as u32),
    ;
    assert((w & 0xff) as u8 == b3) by (bit_vector)
        requires
            w == ((b0 as u32) << 24) | ((b1 as u32) << 16) | ((b2 as u32) << 8) | (b3 as u32),
    ;
}

/// Words that are laid out as bytes and read back are the same words.
pub proof fn lemma_words_round_trip(words: Seq<u32>)
    ensures
        words_of(bytes_of(words)) == words,
{
    let bytes = bytes_of(words);
    assert(bytes.len() / 4 == words.len());
    assert forall|i: int| 0 <= i < words.len() implies words_of(bytes)[i] == words[i] by {
        assert((4 * i) / 4 == i && (4 * i) % 4 == 0);
        assert((4 * i + 1) / 4 == i && (4 * i + 1) % 4 == 1);
        assert((4 * i + 2) / 4 == i && (4 * i + 2) % 4 == 2);
        assert((4 * i + 3) / 4 == i && (4 * i + 3) % 4 == 3);
        lemma_decode_encode(words[i]);
    }
    assert(words_of(bytes) =~= words);
}

/// Bytes that are read as words and laid out again are the same bytes, as
/// far as they filled whole words: all of them where their number is a
/// multiple of four.
pub proof fn lemma_bytes_round_trip(bytes: Seq<u8>)
    ensures
        bytes_of(words_of(bytes)) == bytes.subrange(0, 4 * (bytes.len() as int / 4)),
        bytes.len() % 4 == 0 ==> bytes_of(words_of(bytes)) == bytes,
{
    let words = words_of(bytes);
    let whole = bytes.subrange(0, 4 * (bytes.len() as int / 4));
    assert forall|j: int| 0 <= j < 4 * words.len() implies bytes_of(words)[j] == whole[j] by {
        let i = j / 4;
        lemma_encode_decode(bytes[4 * i], bytes[4 * i + 1], bytes[4 * i + 2], bytes[4 * i + 3]);
        assert(j == 4 * i + j % 4);
    }
    assert(bytes_of(words) =~= whole);
    if bytes.len() % 4 == 0 {
        assert(whole =~= bytes);
    }
}

} // verus!
