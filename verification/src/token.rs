//! Session tokens: 256 random bits in URL-safe base64 without padding.

use vstd::prelude::*;

verus! {

/// Number of random bytes in a session token.
pub const TOKEN_BYTES: usize = 32;

/// Number of characters of an encoded session token.
pub const TOKEN_CHARS: usize = 43;

/// The URL-safe base64 encoding of `bytes` without padding, as the `base64`
/// crate's `URL_SAFE_NO_PAD` engine produces it.
pub uninterp spec fn url_safe_no_pad(bytes: Seq<u8>) -> Seq<char>;

/// Length of the unpadded base64 encoding of `n` bytes: four characters for
/// each full group of three bytes, two or three for what is left.
pub open spec fn encoded_length(n: nat) -> nat {
    (n / 3) * 4 + if n % 3 == 0 {
        0nat
    } else if n % 3 == 1 {
        2nat
    } else {
        3nat
    }
}

/// Whether `token` is the encoding of some `TOKEN_BYTES` bytes.
pub open spec fn is_session_token(token: Seq<char>) -> bool {
    &&& token.len() == TOKEN_CHARS
    &&& exists|bytes: Seq<u8>| bytes.len() == TOKEN_BYTES && token == #[trigger] url_safe_no_pad(bytes)
}

/// `rand::rng().fill_bytes`: overwrites the buffer with bytes from the
/// thread-local cryptographically secure generator. Nothing is known of them.
/// `rand::rng` panics in a thread whose generator the operating system gives
/// no seed.
#[verifier::external_body]
fn fill_random(buffer: &mut [u8; TOKEN_BYTES]) {
    rand::RngCore::fill_bytes(&mut rand::rng(), buffer)
}

/// `URL_SAFE_NO_PAD.encode` of the `base64` crate. The output has the length
/// that the crate's `encoded_len` computes for unpadded output; the call
/// panics when that length does not fit in `usize`.
#[verifier::external_body]
fn encode_url_safe_no_pad(bytes: &[u8]) -> (text: String)
    requires
        encoded_length(bytes@.len()) <= usize::MAX,
    ensures
        text@ == url_safe_no_pad(bytes@),
        text@.len() == encoded_length(bytes@.len()),
{
    base64::Engine::encode(&base64::engine::general_purpose::URL_SAFE_NO_PAD, bytes)
}

/// The session token that the bytes make: their URL-safe base64 encoding
/// without padding, forty-three characters long.
pub fn session_token(bytes: &[u8; TOKEN_BYTES]) -> (token: String)
    ensures
        token@ == url_safe_no_pad(bytes@),
        token@.len() == TOKEN_CHARS,
        is_session_token(token@),
{
    encode_url_safe_no_pad(bytes.as_slice())
}

/// Draws a new session token from the secure random source.
pub fn generate_session_id() -> (token: String)
    ensures
        is_session_token(token@),
{
    let mut bytes = [0u8; TOKEN_BYTES];
    fill_random(&mut bytes);
    session_token(&bytes)
}

} // verus!
