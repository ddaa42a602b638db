//! Host-side representation of the array that travels to and from the device.
//!
//! Elements are 32-bit words (the bit patterns of 4-byte floating-point
//! values). On the wire an array is the plain concatenation of its elements in
//! the byte order of the executing hardware: no header, no length prefix, no
//! padding.

use vstd::arithmetic::div_mod::lemma_fundamental_div_mod_converse;
use vstd::endian::endianness;
use vstd::endian::Endian;
use vstd::prelude::*;

verus! {

/// Width of one array element in bytes.
pub const WORD_BYTES: u64 = 4;

/// The four bytes of `word`, least significant first.
pub open spec fn word_le_bytes(word: u32) -> Seq<u8> {
    seq![
        (word % 256) as u8,
        (word / 256 % 256) as u8,
        (word / 65536 % 256) as u8,
        (word / 16777216) as u8,
    ]
}

/// The word whose bytes, least significant first, are `bytes`.
pub open spec fn word_from_le_bytes(bytes: Seq<u8>) -> u32
    recommends
        bytes.len() == 4,
{
    (bytes[0] + 256 * bytes[1] + 65536 * bytes[2] + 16777216 * bytes[3]) as u32
}

/// The in-memory bytes of one word on the executing hardware.
pub open spec fn word_bytes(word: u32) -> Seq<u8> {
    match endianness() {
        Endian::Little => word_le_bytes(word),
        Endian::Big => word_le_bytes(word).reverse(),
    }
}

/// The word that four in-memory bytes stand for on the executing hardware.
pub open spec fn bytes_word(bytes: Seq<u8>) -> u32
    recommends
        bytes.len() == 4,
{
    match endianness() {
        Endian::Little => word_from_le_bytes(bytes),
        Endian::Big => word_from_le_bytes(bytes.reverse()),
    }
}

/// Byte image of an array: byte `i` is byte `i % 4` of element `i / 4`.
pub open spec fn spec_encode(words: Seq<u32>) -> Seq<u8> {
    Seq::new(4 * words.len(), |i: int| word_bytes(words[i / 4])[i % 4])
}

/// Array read from a byte image: element `i` is made of bytes `4 * i .. 4 * i + 4`.
/// Trailing bytes that do not fill an element are ignored.
pub open spec fn spec_decode(bytes: Seq<u8>) -> Seq<u32> {
    Seq::new(bytes.len() / 4, |i: int| bytes_word(bytes.subrange(4 * i, 4 * i + 4)))
}

/// Byte size of an array of `count` elements.
pub open spec fn spec_byte_size(count: nat) -> nat {
    4 * count
}

/// One word survives the trip through its bytes, in either byte order.
pub proof fn lemma_word_round_trip(word: u32)
    ensures
        word_bytes(word).len() == 4,
        bytes_word(word_bytes(word)) == word,
{
    let le = word_le_bytes(word);
    assert(word_from_le_bytes(le) == word);
    assert(le.reverse().reverse() =~= le);
}

/// The digits of a number written in base 256 are its successive remainders.
proof fn lemma_le_digits(b0: int, b1: int, b2: int, b3: int)
    requires
        0 <= b0 < 256,
        0 <= b1 < 256,
        0 <= b2 < 256,
        0 <= b3 < 256,
    ensures
        ({
            let w = b0 + 256 * b1 + 65536 * b2 + 16777216 * b3;
            &&& 0 <= w <= u32::MAX
            &&& w % 256 == b0
            &&& w / 256 % 256 == b1
            &&& w / 65536 % 256 == b2
            &&& w / 16777216 == b3
        }),
{
    let w = b0 + 256 * b1 + 65536 * b2 + 16777216 * b3;
    lemma_fundamental_div_mod_converse(w, 256, b1 + 256 * b2 + 65536 * b3, b0);
    lemma_fundamental_div_mod_converse(b1 + 256 * b2 + 65536 * b3, 256, b2 + 256 * b3, b1);
    lemma_fundamental_div_mod_converse(w, 65536, b2 + 256 * b3, b0 + 256 * b1);
    lemma_fundamental_div_mod_converse(b2 + 256 * b3, 256, b3, b2);
    lemma_fundamental_div_mod_converse(w, 16777216, b3, b0 + 256 * b1 + 65536 * b2);
}

/// Four bytes survive the trip through the word they stand for.
pub proof fn lemma_bytes_round_trip(bytes: Seq<u8>)
    requires
        bytes.len() == 4,
    ensures
        word_bytes(bytes_word(bytes)) == bytes,
{
    lemma_le_digits(bytes[0] as int, bytes[1] as int, bytes[2] as int, bytes[3] as int);
    assert(word_le_bytes(word_from_le_bytes(bytes)) =~= bytes);
    let rev = bytes.reverse();
    lemma_le_digits(rev[0] as int, rev[1] as int, rev[2] as int, rev[3] as int);
    assert(word_le_bytes(word_from_le_bytes(rev)) =~= rev);
    assert(rev.reverse() =~= bytes);
}

/// Decoding the byte image of an array gives the array back, element for
/// element.
pub proof fn lemma_decode_encode(words: Seq<u32>)
    ensures
        spec_encode(words).len() == spec_byte_size(words.len()),
        spec_decode(spec_encode(words)) == words,
{
    let bytes = spec_encode(words);
    assert forall|i: int| 0 <= i < words.len() implies #[trigger] spec_decode(bytes)[i]
        == words[i] by {
        lemma_word_round_trip(words[i]);
        assert(bytes.subrange(4 * i, 4 * i + 4) =~= word_bytes(words[i]));
    }
    assert(spec_decode(bytes) =~= words);
}

/// Encoding what a whole number of elements decodes to gives the same bytes
/// back.
pub proof fn lemma_encode_decode(bytes: Seq<u8>)
    requires
        bytes.len() % 4 == 0,
    ensures
        spec_decode(bytes).len() * 4 == bytes.len(),
        spec_encode(spec_decode(bytes)) == bytes,
{
    let words = spec_decode(bytes);
    assert forall|i: int| 0 <= i < bytes.len() implies #[trigger] spec_encode(words)[i]
        == bytes[i] by {
        let chunk = bytes.subrange(4 * (i / 4), 4 * (i / 4) + 4);
        lemma_bytes_round_trip(chunk);
        assert(chunk[i % 4] == bytes[i]);
    }
    assert(spec_encode(words) =~= bytes);
}

/// A byte image that is all zero decodes to an array that is all zero.
pub proof fn lemma_decode_zeros(bytes: Seq<u8>)
    requires
        forall|i: int| 0 <= i < bytes.len() ==> bytes[i] == 0,
    ensures
        forall|i: int| 0 <= i < spec_decode(bytes).len() ==> spec_decode(bytes)[i] == 0,
{
    assert forall|i: int| 0 <= i < spec_decode(bytes).len() implies spec_decode(bytes)[i]
        == 0 by {
        let chunk = bytes.subrange(4 * i, 4 * i + 4);
        assert(chunk[0] == 0 && chunk[1] == 0 && chunk[2] == 0 && chunk[3] == 0);
        assert(chunk.reverse()[0] == 0 && chunk.reverse()[1] == 0 && chunk.reverse()[2] == 0
            && chunk.reverse()[3] == 0);
    }
}

/// Calls `bytemuck::cast_slice::<u32, u8>`, which reinterprets the memory of
/// the slice as bytes without copying or reordering, and copies the bytes out.
/// Trusted: the result is the elements' in-memory bytes, one element after the
/// other. The cast cannot fail in this direction, since bytes need no
/// alignment and every element is exactly four of them.
#[verifier::external_body]
fn cast_words_to_bytes(words: &[u32]) -> (bytes: Vec<u8>)
    ensures
        bytes@ == spec_encode(words@),
{
    bytemuck::cast_slice::<u32, u8>(words).to_vec()
}

/// Calls `bytemuck::pod_collect_to_vec::<u8, u32>`, which copies the bytes
/// into freshly allocated words and so works for any alignment of the source.
/// Trusted: for a whole number of elements the result is the array whose
/// in-memory bytes are the given ones.
#[verifier::external_body]
fn collect_bytes_to_words(bytes: &[u8]) -> (words: Vec<u32>)
    requires
        bytes@.len() % 4 == 0,
    ensures
        words@ == spec_decode(bytes@),
{
    bytemuck::pod_collect_to_vec::<u8, u32>(bytes)
}

/// Byte size of an array of `count` elements, `None` where it does not fit
/// in 64 bits.
pub fn byte_size(count: usize) -> (size: Option<u64>)
    ensures
        size == if spec_byte_size(count as nat) <= u64::MAX {
            Some(spec_byte_size(count as nat) as u64)
        } else {
            None
        },
{
    let count: u64 = count as u64;
    if count <= u64::MAX / WORD_BYTES {
        Some(count * WORD_BYTES)
    } else {
        None
    }
}

/// Lays an array out as the bytes that are uploaded to the device.
pub fn encode_words(words: &[u32]) -> (bytes: Vec<u8>)
    ensures
        bytes@ == spec_encode(words@),
        bytes@.len() == spec_byte_size(words@.len()),
{
    cast_words_to_bytes(words)
}

/// Reads an array from bytes that came back from the device. Succeeds exactly
/// when the bytes make up a whole number of elements.
pub fn decode_words(bytes: &[u8]) -> (words: Option<Vec<u32>>)
    ensures
        match words {
            Some(w) => bytes@.len() % 4 == 0 && w@ == spec_decode(bytes@),
            None => bytes@.len() % 4 != 0,
        },
{
    if bytes.len() % 4 == 0 {
        Some(collect_bytes_to_words(bytes))
    } else {
        None
    }
}

} // verus!
