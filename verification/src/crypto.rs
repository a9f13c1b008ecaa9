//! Random values for nonces. The bytes come from the random generator of
//! the `ring` crate, their text from the `base64` crate.

use vstd::prelude::*;

verus! {

/// How many random bytes a nonce is made of.
pub const NONCE_BYTES: usize = 32;

/// The text that the URL-safe base64 alphabet without padding gives for
/// the bytes.
pub uninterp spec fn base64_url(bytes: Seq<u8>) -> Seq<char>;

/// Whether a text is the URL-safe base64 text of 32 bytes.
pub open spec fn is_random_32(text: Seq<char>) -> bool {
    exists|bytes: Seq<u8>| bytes.len() == NONCE_BYTES && text == #[trigger] base64_url(bytes)
}

/// `ring::rand::SecureRandom::fill` of a `ring::rand::SystemRandom` on a
/// buffer of 32 bytes. Nothing is said of the bytes but their number; the
/// generator may fail.
#[verifier::external_body]
pub(crate) fn random_32() -> (r: Option<Vec<u8>>)
    ensures
        r matches Some(bytes) ==> bytes@.len() == NONCE_BYTES,
{
    let mut buffer = [0u8; 32];
    match ring::rand::SecureRandom::fill(&ring::rand::SystemRandom::new(), &mut buffer) {
        Ok(_) => Some(buffer.to_vec()),
        Err(_) => None,
    }
}

/// `base64::Engine::encode` of the engine `URL_SAFE_NO_PAD`.
#[verifier::external_body]
pub(crate) fn base64_url_no_pad(bytes: &Vec<u8>) -> (r: String)
    ensures
        r@ == base64_url(bytes@),
{
    base64::Engine::encode(&base64::engine::general_purpose::URL_SAFE_NO_PAD, bytes)
}

/// A fresh random value: 32 random bytes as URL-safe base64 text. Nothing
/// where the random generator fails.
pub fn secure_random_32() -> (r: Option<String>)
    ensures
        r matches Some(text) ==> is_random_32(text@),
{
    random_text(random_32())
}

/// The text of what the random generator gave: the URL-safe base64 text of
/// the bytes, without padding; nothing where the generator gave nothing.
pub fn random_text(bytes: Option<Vec<u8>>) -> (r: Option<String>)
    ensures
        r is Some <==> bytes is Some,
        r matches Some(text) ==> text@ == base64_url(bytes->0@),
{
    match bytes {
        Some(bytes) => Some(base64_url_no_pad(&bytes)),
        None => None,
    }
}

} // verus!
