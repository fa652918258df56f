use vstd::prelude::*;
use vstd::utf8::encode_utf8;

verus! {

/// The BLAKE2b hash with 256-bit output of a byte string.
pub uninterp spec fn blake2b_256(input: Seq<u8>) -> Seq<u8>;

/// A text can be encoded when its UTF-8 form has a length that fits in 32 bits.
pub open spec fn encodable(text: Seq<char>) -> bool {
    encode_utf8(text).len() <= u32::MAX
}

/// SCALE compact encoding of a length below 2^32.
///
/// The two low bits of the first byte select the mode: one byte for lengths
/// below 2^6, two for lengths below 2^14, four for lengths below 2^30, each
/// holding the length shifted left by two in little-endian order; otherwise
/// the byte 3 followed by the length as four little-endian bytes.
pub open spec fn compact_length(n: nat) -> Seq<u8>
    recommends
        n <= u32::MAX,
{
    if n < 0x40 {
        seq![(4 * n) as u8]
    } else if n < 0x4000 {
        seq![((4 * n + 1) % 0x100) as u8, ((4 * n + 1) / 0x100) as u8]
    } else if n < 0x4000_0000 {
        little_endian_32(4 * n + 2)
    } else {
        seq![3u8] + little_endian_32(n)
    }
}

/// The four little-endian bytes of a number below 2^32.
pub open spec fn little_endian_32(n: nat) -> Seq<u8>
    recommends
        n <= u32::MAX,
{
    seq![
        (n % 0x100) as u8,
        (n / 0x100 % 0x100) as u8,
        (n / 0x1_0000 % 0x100) as u8,
        (n / 0x100_0000 % 0x100) as u8,
    ]
}

/// SCALE encoding of a text: the compact length of its UTF-8 form, then that form.
pub open spec fn scale_text(text: Seq<char>) -> Seq<u8> {
    compact_length(encode_utf8(text).len()) + encode_utf8(text)
}

/// The digest under which an answer is stored and against which attempts are graded.
pub open spec fn answer_digest(text: Seq<char>) -> Seq<u8> {
    blake2b_256(scale_text(text))
}

/// Calls `parity_scale_codec::Encode::encode` on a `String`.
///
/// Trusted: the codec writes the byte length of the text as a compact `u32`
/// followed by the text's UTF-8 bytes. It panics on a text of more than
/// `u32::MAX` bytes, which the precondition excludes.
#[verifier::external_body]
fn scale_encode(text: &String) -> (bytes: Vec<u8>)
    requires
        encodable(text@),
    ensures
        bytes@ == scale_text(text@),
{
    parity_scale_codec::Encode::encode(text)
}

/// Calls `ink::env::hash::CryptoHash::hash` for `ink::env::hash::Blake2x256`.
///
/// Trusted: the output is BLAKE2b-256 of the input, a function of the input
/// bytes alone.
#[verifier::external_body]
fn blake2x256(input: &Vec<u8>) -> (output: [u8; 32])
    ensures
        output@ == blake2b_256(input@),
{
    let mut output = <<ink::env::hash::Blake2x256 as ink::env::hash::HashOutput>::Type as Default>::default();
    <ink::env::hash::Blake2x256 as ink::env::hash::CryptoHash>::hash(input, &mut output);
    output
}

/// Whether `text` can be encoded, and so hashed.
pub fn is_encodable(text: &String) -> (fits: bool)
    ensures
        fits == encodable(text@),
{
    text.as_str().as_bytes().len() <= 0xffff_ffff
}

/// Hashes a text: BLAKE2b-256 over its SCALE encoding.
pub fn hash(text: &String) -> (digest: [u8; 32])
    requires
        encodable(text@),
    ensures
        digest@ == answer_digest(text@),
{
    let encoded = scale_encode(text);
    blake2x256(&encoded)
}

/// A character takes at most four bytes in UTF-8, so a text of up to 2^30 - 1
/// characters can be encoded.
pub proof fn lemma_short_text_is_encodable(text: Seq<char>)
    ensures
        encode_utf8(text).len() <= 4 * text.len(),
        text.len() < 0x4000_0000 ==> encodable(text),
    decreases text.len(),
{
    if text.len() > 0 {
        lemma_short_text_is_encodable(text.drop_first());
    }
}

/// Hashing is deterministic: two digests of one text are equal.
pub proof fn lemma_hash_is_deterministic(text: Seq<char>, first: [u8; 32], second: [u8; 32])
    requires
        first@ == answer_digest(text),
        second@ == answer_digest(text),
    ensures
        first@ == second@,
        first == second,
{
    assert(first =~= second);
}

} // verus!
