//! Standard base64 through the `base64` crate, and the byte-per-character
//! rendering of decoded bytes as text.
use vstd::prelude::*;
use base64::Engine;

verus! {

#[verifier::external_type_specification]
#[verifier::external_body]
pub struct ExDecodeError(base64::DecodeError);

/// The standard padded base64 text of `b`.
pub uninterp spec fn base64_of(b: Seq<u8>) -> Seq<char>;

/// Largest input that the base64 encoder takes on every target: its output,
/// a third longer, must fit in an allocation of at most `isize::MAX` bytes.
pub const MAX_ENCODE_LEN: usize = 0x3fff_ffff;

/// The outcome `r` of decoding the text `s`: it succeeds with `b` exactly
/// when `s` is the canonical padded encoding of `b`.
pub open spec fn base64_decode_post<E>(s: Seq<char>, r: Result<Seq<u8>, E>) -> bool {
    forall|b: Seq<u8>| #[trigger] base64_of(b) == s <==> (r is Ok && r->Ok_0 == b)
}

/// The decoded view of a decoder's result.
pub open spec fn bytes_view<E>(r: Result<Vec<u8>, E>) -> Result<Seq<u8>, ()> {
    match r {
        Ok(v) => Ok(v@),
        Err(_) => Err(()),
    }
}

/// Relies on `base64::engine::general_purpose::STANDARD.encode`: the
/// standard alphabet, padded to a multiple of four characters.
#[verifier::external_body]
fn base64_encode_std(b: &[u8]) -> (r: String)
    requires
        b@.len() <= MAX_ENCODE_LEN,
    ensures
        r@ == base64_of(b@),
        r@.len() == (b@.len() + 2) / 3 * 4,
{
    base64::engine::general_purpose::STANDARD.encode(b)
}

/// Relies on `base64::engine::general_purpose::STANDARD.decode`, which
/// requires canonical padding and rejects non-zero trailing bits, so that it
/// accepts exactly the texts that the encoder produces.
#[verifier::external_body]
fn base64_decode_std(s: &str) -> (r: Result<Vec<u8>, base64::DecodeError>)
    ensures
        base64_decode_post(s@, bytes_view(r)),
{
    base64::engine::general_purpose::STANDARD.decode(s)
}

/// Encodes `b` as standard padded base64.
pub fn encode_base64(b: &[u8]) -> (r: String)
    requires
        b@.len() <= MAX_ENCODE_LEN,
    ensures
        r@ == base64_of(b@),
{
    base64_encode_std(b)
}

/// Decodes standard padded base64; the error is the decoder's message.
pub fn decode_base64(s: &str) -> (r: Result<Vec<u8>, String>)
    ensures
        base64_decode_post(s@, bytes_view(r)),
{
    match base64_decode_std(s) {
        Ok(v) => Ok(v),
        Err(e) => Err(e.to_string()),
    }
}

/// Decoding the encoding of any byte sequence gives that sequence back.
pub proof fn lemma_base64_round_trip<E>(b: Seq<u8>, text: Seq<char>, decoded: Result<Seq<u8>, E>)
    requires
        text == base64_of(b),
        base64_decode_post(text, decoded),
    ensures
        decoded == Ok::<Seq<u8>, E>(b),
{
    assert(base64_of(b) == text);
}

/// The text with one character per byte, each byte read as the code point
/// of the same value.
pub open spec fn text_of_bytes(b: Seq<u8>) -> Seq<char> {
    b.map_values(|x: u8| x as char)
}

/// Renders each byte as the character with the same code point, so that any
/// byte sequence has a text form and the bytes can be read back from it.
pub fn bytes_as_text(b: &[u8]) -> (r: String)
    ensures
        r@ == text_of_bytes(b@),
{
    let mut out = String::new();
    let mut i: usize = 0;
    while i < b.len()
        invariant
            i <= b@.len(),
            out@ == text_of_bytes(b@.subrange(0, i as int)),
        decreases b@.len() - i,
    {
        let c = b[i] as char;
        push_char(&mut out, c);
        proof {
            assert(b@.subrange(0, i + 1) == b@.subrange(0, i as int).push(b@[i as int]));
        }
        i = i + 1;
    }
    assert(b@.subrange(0, b@.len() as int) == b@);
    out
}

/// Relies on `String::push`, which appends one character.
#[verifier::external_body]
fn push_char(s: &mut String, c: char)
    ensures
        final(s)@ == old(s)@.push(c),
{
    s.push(c);
}

} // verus!
