//! Digests and their spelling.
use vstd::prelude::*;

verus! {

/// What SHA-256 makes of some bytes.
pub uninterp spec fn sha256_of(bytes: Seq<u8>) -> Seq<u8>;

/// `sha2::Sha256::digest` computes SHA-256, thirty-two bytes that depend on
/// the input alone. Which bytes these are is left unsaid.
#[verifier::external_body]
pub(crate) fn sha256(bytes: &[u8]) -> (digest: [u8; 32])
    ensures
        digest@ == sha256_of(bytes@),
{
    <sha2::Sha256 as sha2::Digest>::digest(bytes).into()
}

/// What BLAKE3 in its key derivation mode makes of a context and some bytes.
pub uninterp spec fn blake3_derived(context: Seq<char>, bytes: Seq<u8>) -> Seq<u8>;

/// A `blake3::Hasher` that was made by `new_derive_key`, updated once and
/// finalized computes BLAKE3 in its key derivation mode, thirty-two bytes that
/// depend on the context and the input alone. Which bytes these are is left
/// unsaid.
#[verifier::external_body]
pub(crate) fn derived_digest(context: &str, bytes: &[u8]) -> (digest: [u8; 32])
    ensures
        digest@ == blake3_derived(context@, bytes@),
{
    let mut hasher = blake3::Hasher::new_derive_key(context);
    hasher.update(bytes);
    *hasher.finalize().as_bytes()
}

/// A hexadecimal digit.
pub open spec fn hex_digit(value: int) -> char {
    if value < 10 {
        (48 + value) as char
    } else {
        (87 + value) as char
    }
}

/// Bytes spelled with two lower-case hexadecimal digits each.
pub open spec fn hex_text(bytes: Seq<u8>) -> Seq<char> {
    Seq::new(
        2 * bytes.len(),
        |i: int|
            hex_digit(
                if i % 2 == 0 {
                    bytes[i / 2] as int / 16
                } else {
                    bytes[i / 2] as int % 16
                },
            ),
    )
}

/// Whether a text is made of lower-case hexadecimal digits.
pub open spec fn is_hex(text: Seq<char>) -> bool {
    forall|i: int|
        0 <= i < text.len() ==> '0' <= #[trigger] text[i] <= '9' || 'a' <= text[i] <= 'f'
}

/// Bytes are spelled in lower-case hexadecimal digits, two for each.
pub proof fn bytes_are_spelled_in_hexadecimal(bytes: Seq<u8>)
    ensures
        is_hex(hex_text(bytes)),
        hex_text(bytes).len() == 2 * bytes.len(),
{
}

/// `hex::encode` spells each byte with two lower-case hexadecimal digits, the
/// higher half first.
#[verifier::external_body]
pub(crate) fn hex(bytes: &[u8]) -> (text: String)
    requires
        2 * bytes@.len() <= isize::MAX,
    ensures
        text@ == hex_text(bytes@),
{
    hex::encode(bytes)
}

/// The spelling of the first bytes of a text's SHA-256.
pub open spec fn short_digest_text(text: Seq<char>, len: int) -> Seq<char> {
    hex_text(sha256_of(vstd::utf8::encode_utf8(text)).take(len))
}

/// The spelling of the first bytes of a text's SHA-256.
pub fn short_digest(text: &str, len: usize) -> (spelled: String)
    requires
        len <= 32,
    ensures
        spelled@ == short_digest_text(text@, len as int),
        spelled@.len() == 2 * len,
        is_hex(spelled@),
{
    let digest = sha256(text.as_bytes());
    let mut first: Vec<u8> = Vec::new();
    let mut i: usize = 0;
    while i < len
        invariant
            i <= len <= 32,
            digest@.len() == 32,
            first@ == digest@.take(i as int),
        decreases len - i,
    {
        first.push(digest[i]);
        assert(first@ =~= digest@.take(i + 1));
        i = i + 1;
    }
    proof {
        bytes_are_spelled_in_hexadecimal(first@);
    }
    hex(first.as_slice())
}

/// `getrandom::fill` fills a buffer with random bytes, or fails. Nothing is
/// said of the bytes.
#[verifier::external_body]
fn random_bytes() -> (bytes: Result<[u8; 16], ()>) {
    let mut bytes = [0u8; 16];
    getrandom::fill(&mut bytes).map(|()| bytes).map_err(|_| ())
}

/// A runtime instance that was drawn from these bytes.
pub fn runtime_instance(bytes: &[u8; 16]) -> (instance: String)
    ensures
        instance@ == hex_text(bytes@),
{
    hex(bytes.as_slice())
}

/// Draws a fresh runtime instance: thirty-two hexadecimal digits. None where
/// the system has no random bytes.
pub fn new_runtime_instance() -> (instance: Option<String>)
    ensures
        exists|drawn: Result<[u8; 16], ()>| #[trigger]
            may_be_drawn(drawn) && crate::text::opt_text(instance) == drawn_text(drawn),
{
    let drawn = drawn_by(random_bytes);
    assert(may_be_drawn(drawn));
    drawn_instance(drawn)
}

/// Whether a call of [`random_bytes`] may give this.
pub closed spec fn may_be_drawn(drawn: Result<[u8; 16], ()>) -> bool {
    call_ensures(random_bytes, (), drawn)
}

/// Draws once by way of `draw`.
fn drawn_by<F: Fn() -> Result<[u8; 16], ()>>(draw: F) -> (drawn: Result<[u8; 16], ()>)
    requires
        call_requires(draw, ()),
    ensures
        call_ensures(draw, (), drawn),
{
    draw()
}

/// The runtime instance of a draw: the spelling of its bytes, and none exactly
/// where the draw failed.
pub open spec fn drawn_text(drawn: Result<[u8; 16], ()>) -> Option<Seq<char>> {
    match drawn {
        Ok(bytes) => Some(hex_text(bytes@)),
        Err(_) => None,
    }
}

/// The runtime instance of a draw: the spelling of its bytes, and none exactly
/// where the draw failed.
pub fn drawn_instance(drawn: Result<[u8; 16], ()>) -> (instance: Option<String>)
    ensures
        crate::text::opt_text(instance) == drawn_text(drawn),
{
    match drawn {
        Ok(bytes) => Some(runtime_instance(&bytes)),
        Err(_) => None,
    }
}

} // verus!
