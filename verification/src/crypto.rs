//! The cryptographic and decoding primitives the cookie logic calls. Each
//! function here hands its work to an outside crate or to `std`; its contract
//! is what that code's source or documentation states.
use vstd::prelude::*;
use vstd::utf8::{decode_utf8, valid_utf8};

use aes::cipher::{BlockDecryptMut, KeyIvInit};
use aes_gcm::aead::{Aead, KeyInit};
use base64::Engine;

verus! {

/// The key PBKDF2 with HMAC-SHA1 derives from `password` and `salt` in
/// `rounds` rounds, `len` bytes long.
pub uninterp spec fn pbkdf2_hmac_sha1_key(password: Seq<u8>, salt: Seq<u8>, rounds: u32, len: usize) -> Seq<u8>;

/// What AES-128 in CBC mode with PKCS#7 padding decrypts `ciphertext` to
/// under `key` and `iv`; `None` when the input is not whole blocks or the
/// padding is malformed.
pub uninterp spec fn aes128_cbc_pkcs7_plaintext(key: Seq<u8>, iv: Seq<u8>, ciphertext: Seq<u8>) -> Option<Seq<u8>>;

/// What AES-256-GCM decrypts `ciphertext` (with its 16-byte tag at the end)
/// to under `key` and `nonce`; `None` when authentication fails.
pub uninterp spec fn aes256_gcm_plaintext(key: Seq<u8>, nonce: Seq<u8>, ciphertext: Seq<u8>) -> Option<Seq<u8>>;

/// The bytes that standard, padded base64 `input` encodes; `None` when it
/// is not valid base64.
pub uninterp spec fn base64_standard_bytes(input: Seq<char>) -> Option<Seq<u8>>;

/// The string at `.outer.inner` of the JSON document `text`; `None` when the
/// text is not JSON or the value there is missing or not a string.
pub uninterp spec fn json_nested_string(text: Seq<char>, outer: Seq<char>, inner: Seq<char>) -> Option<Seq<char>>;

/// The text `String::from_utf8_lossy` makes of `bytes`, with U+FFFD in place
/// of each invalid sequence.
pub uninterp spec fn utf8_lossy_text(bytes: Seq<u8>) -> Seq<char>;

/// How `std` describes why `bytes` is not UTF-8 (the `Display` of its error).
pub uninterp spec fn utf8_error_text(bytes: Seq<u8>) -> Seq<char>;

/// `pbkdf2::pbkdf2_hmac::<sha1::Sha1>` into a buffer of `len` bytes: the
/// buffer holds the derived key. HMAC accepts every key length, so it does
/// not fail.
#[verifier::external_body]
pub(crate) fn pbkdf2_hmac_sha1(password: &[u8], salt: &[u8], rounds: u32, len: usize) -> (key: Vec<u8>)
    ensures
        key@ == pbkdf2_hmac_sha1_key(password@, salt@, rounds, len),
        key@.len() == len,
{
    let mut key = vec![0u8; len];
    pbkdf2::pbkdf2_hmac::<sha1::Sha1>(password, salt, rounds, &mut key);
    key
}

/// `cbc::Decryptor::<aes::Aes128>::decrypt_padded_mut::<Pkcs7>`: the
/// plaintext, or the `Display` text of `block_padding::UnpadError`, which is
/// always "Unpad Error". Key and IV must be 16 bytes (the conversion into
/// fixed-size arrays panics otherwise).
#[verifier::external_body]
pub(crate) fn aes128_cbc_pkcs7_decrypt(key: &[u8], iv: &[u8], ciphertext: &[u8]) -> (r: Result<Vec<u8>, String>)
    requires
        key@.len() == 16,
        iv@.len() == 16,
    ensures
        match r {
            Ok(p) => aes128_cbc_pkcs7_plaintext(key@, iv@, ciphertext@) == Some(p@),
            Err(m) => aes128_cbc_pkcs7_plaintext(key@, iv@, ciphertext@) is None && m@
                == "Unpad Error"@,
        },
{
    let mut buf = ciphertext.to_vec();
    let dec = cbc::Decryptor::<aes::Aes128>::new(
        aes::cipher::generic_array::GenericArray::from_slice(key),
        aes::cipher::generic_array::GenericArray::from_slice(iv),
    );
    dec.decrypt_padded_mut::<aes::cipher::block_padding::Pkcs7>(&mut buf).map(|p| p.to_vec()).map_err(
        |e| e.to_string(),
    )
}

/// Why AES-256-GCM decryption failed, with the `Display` text of the
/// outside error.
pub(crate) enum GcmFailure {
    /// `KeyInit::new_from_slice` refused the key (`InvalidLength`).
    Key(String),
    /// `Aead::decrypt` failed (`aead::Error`).
    Aead(String),
}

/// `aes_gcm::Aes256Gcm::new_from_slice` and then `decrypt`. The key is
/// refused unless it is 32 bytes, with the text "Invalid Length" of
/// `crypto_common::InvalidLength`; decryption fails with the text
/// "aead::Error" of `aead::Error`. The nonce must be 12 bytes
/// (`Nonce::from_slice` panics otherwise).
#[verifier::external_body]
pub(crate) fn aes256_gcm_decrypt(key: &[u8], nonce: &[u8], ciphertext: &[u8]) -> (r: Result<Vec<u8>, GcmFailure>)
    requires
        nonce@.len() == 12,
    ensures
        r matches Ok(p) ==> aes256_gcm_plaintext(key@, nonce@, ciphertext@) == Some(p@),
        r matches Err(GcmFailure::Aead(m)) ==> aes256_gcm_plaintext(key@, nonce@, ciphertext@) is None
            && m@ == "aead::Error"@,
        match r {
            Err(GcmFailure::Key(m)) => key@.len() != 32 && m@ == "Invalid Length"@,
            _ => key@.len() == 32,
        },
{
    let cipher = aes_gcm::Aes256Gcm::new_from_slice(key).map_err(|e| GcmFailure::Key(e.to_string()))?;
    cipher.decrypt(aes_gcm::Nonce::from_slice(nonce), ciphertext).map_err(|e| GcmFailure::Aead(e.to_string()))
}

/// `base64::engine::general_purpose::STANDARD.decode`.
#[verifier::external_body]
pub(crate) fn base64_decode(input: &str) -> (r: Option<Vec<u8>>)
    ensures
        match r {
            Some(b) => base64_standard_bytes(input@) == Some(b@),
            None => base64_standard_bytes(input@) is None,
        },
{
    base64::engine::general_purpose::STANDARD.decode(input).ok()
}

/// `serde_json::from_str::<serde_json::Value>` followed by indexing with
/// `outer` and then `inner` and `Value::as_str`.
#[verifier::external_body]
pub(crate) fn json_string_at(text: &str, outer: &str, inner: &str) -> (r: Option<String>)
    ensures
        match r {
            Some(s) => json_nested_string(text@, outer@, inner@) == Some(s@),
            None => json_nested_string(text@, outer@, inner@) is None,
        },
{
    let v: serde_json::Value = serde_json::from_str(text).ok()?;
    v[outer][inner].as_str().map(|s| s.to_string())
}

/// `String::from_utf8`: the decoded text exactly when `bytes` is valid UTF-8,
/// otherwise the `Display` text of the error.
#[verifier::external_body]
pub(crate) fn utf8_string(bytes: Vec<u8>) -> (r: Result<String, String>)
    ensures
        match r {
            Ok(s) => valid_utf8(bytes@) && s@ == decode_utf8(bytes@),
            Err(m) => !valid_utf8(bytes@) && m@ == utf8_error_text(bytes@),
        },
{
    String::from_utf8(bytes).map_err(|e| e.to_string())
}

/// `String::from_utf8_lossy`: valid UTF-8 decodes unchanged.
#[verifier::external_body]
pub(crate) fn utf8_lossy(bytes: &[u8]) -> (r: String)
    ensures
        r@ == utf8_lossy_text(bytes@),
        valid_utf8(bytes@) ==> r@ == decode_utf8(bytes@),
{
    String::from_utf8_lossy(bytes).into_owned()
}

} // verus!
