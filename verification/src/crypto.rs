//! Decoding and decryption of webhook payloads, done by the `base64`, `aes`
//! and `cbc` crates.

use vstd::prelude::*;
use vstd::utf8::{decode_utf8, valid_utf8};
use base64::Engine;
use aes::cipher::{BlockDecryptMut, KeyIvInit};

verus! {

/// The bytes that `text` encodes in standard base64 with padding. `None`
/// where `text` is not such an encoding.
pub uninterp spec fn base64_decoded(text: Seq<char>) -> Option<Seq<u8>>;

/// The plaintext of `ciphertext` under AES-256 in CBC mode with PKCS#7
/// padding, for a key of 32 and an initialization vector of 16 bytes. `None`
/// where the ciphertext is not a whole number of blocks or the padding is
/// malformed.
pub uninterp spec fn aes256_cbc_plaintext(key: Seq<u8>, iv: Seq<u8>, ciphertext: Seq<u8>) -> Option<
    Seq<u8>,
>;

/// The bytes of an optional byte vector.
pub open spec fn optional_bytes(bytes: Option<Vec<u8>>) -> Option<Seq<u8>> {
    match bytes {
        Some(b) => Some(b@),
        None => None,
    }
}

/// Trusted: `Engine::decode` of `base64::engine::general_purpose::STANDARD`.
/// What it returns depends on the text alone, so the outcome has a name; its
/// error is dropped.
#[verifier::external_body]
pub(crate) fn base64_decode(text: &str) -> (bytes: Option<Vec<u8>>)
    ensures
        optional_bytes(bytes) == base64_decoded(text@),
{
    base64::engine::general_purpose::STANDARD.decode(text).ok()
}

/// Trusted: `KeyIvInit::new_from_slices` of `cbc::Decryptor<aes::Aes256>`,
/// then `BlockDecryptMut::decrypt_padded_mut` with `Pkcs7` on a copy of the
/// ciphertext. The first fails only on a key that is not 32 or a vector that
/// is not 16 bytes long, which the `requires` leaves out; the second fails
/// on a bad length or padding, which comes back as `None`.
#[verifier::external_body]
pub(crate) fn aes256_cbc_decrypt(key: &[u8], iv: &[u8], ciphertext: &[u8]) -> (plain: Option<
    Vec<u8>,
>)
    requires
        key@.len() == 32,
        iv@.len() == 16,
    ensures
        optional_bytes(plain) == aes256_cbc_plaintext(key@, iv@, ciphertext@),
{
    let cipher = cbc::Decryptor::<aes::Aes256>::new_from_slices(key, iv).ok()?;
    let mut buffer = ciphertext.to_vec();
    let plain = cipher.decrypt_padded_mut::<cbc::cipher::block_padding::Pkcs7>(&mut buffer).ok()?;
    Some(plain.to_vec())
}

/// Trusted: `String::from_utf8`. std documents that it succeeds exactly on
/// valid UTF-8 and then holds the characters that the bytes encode.
#[verifier::external_body]
pub(crate) fn string_from_utf8(bytes: Vec<u8>) -> (text: Option<String>)
    ensures
        text is Some <==> valid_utf8(bytes@),
        text matches Some(t) ==> t@ == decode_utf8(bytes@),
{
    String::from_utf8(bytes).ok()
}

} // verus!
