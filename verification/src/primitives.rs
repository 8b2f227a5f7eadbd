//! Bindings to the cryptographic primitives this vault is built on:
//! Argon2id key derivation, AES-256-GCM sealing and opening, base64 coding
//! of binary fields, salt handling, and the random generators for salts
//! and nonces.
//!
//! Each executable function here wraps exactly one call into an outside
//! crate (or into `std`, for UTF-8 decoding); its contract states what the
//! wrapped function is documented to do, over the uninterpreted names
//! below where the result has no short description.
use vstd::prelude::*;

use aes_gcm::aead::{Aead, Generate, KeyInit};
use aes_gcm::Aes256Gcm;
use argon2::password_hash::phc::{Salt, SaltString};
use base64::engine::general_purpose;
use base64::Engine;

verus! {

/// Length in bytes of every derived key (a 256-bit AES key).
pub const KEY_LEN: usize = 32;

/// Length in bytes of an AES-GCM nonce.
pub const NONCE_LEN: usize = 12;

/// Longest plaintext AES-GCM will seal: 2^36 - 32 bytes.
pub const AEAD_PLAINTEXT_MAX: u64 = 68719476704;

/// The key that Argon2id with this crate's fixed parameters derives from a
/// passphrase and a salt. Uninterpreted: the library relies only on the
/// derivation being a function of these two arguments.
pub uninterp spec fn argon2_key_of(passphrase: Seq<u8>, salt: Seq<u8>) -> Seq<u8>;

/// The bytes a B64 salt string decodes to, or `None` where the string is
/// not a validly encoded salt.
pub uninterp spec fn salt_bytes_of(salt_text: Seq<char>) -> Option<Seq<u8>>;

/// The ciphertext-with-tag AES-256-GCM produces for a key, a nonce and a
/// plaintext.
pub uninterp spec fn aead_seal(key: Seq<u8>, nonce: Seq<u8>, plaintext: Seq<u8>) -> Seq<u8>;

/// The plaintext AES-256-GCM opens a ciphertext-with-tag to, or `None`
/// where the tag does not verify under the key and nonce.
pub uninterp spec fn aead_open(key: Seq<u8>, nonce: Seq<u8>, ciphertext: Seq<u8>) -> Option<
    Seq<u8>,
>;

/// The standard, padded base64 encoding of a byte string.
pub uninterp spec fn b64_of(bytes: Seq<u8>) -> Seq<char>;

/// The bytes a text decodes to under standard, padded base64, or `None`
/// where the text is not a valid encoding.
pub uninterp spec fn b64_decode_of(text: Seq<char>) -> Option<Seq<u8>>;

/// Characters of the base64 standard alphabet (no padding).
pub open spec fn is_b64_char(c: char) -> bool {
    ('A' <= c && c <= 'Z') || ('a' <= c && c <= 'z') || ('0' <= c && c <= '9') || c == '+' || c
        == '/'
}

/// Characters that may stand in a field of the envelope text: the base64
/// alphabet and its padding character.
pub open spec fn is_field_char(c: char) -> bool {
    is_b64_char(c) || c == '='
}

/// All characters of a text are base64-alphabet characters.
pub open spec fn all_b64_chars(s: Seq<char>) -> bool {
    forall|i: int| 0 <= i < s.len() ==> is_b64_char(#[trigger] s[i])
}

/// All characters of a text may stand in an envelope field.
pub open spec fn all_field_chars(s: Seq<char>) -> bool {
    forall|i: int| 0 <= i < s.len() ==> is_field_char(#[trigger] s[i])
}

/// Relies on `argon2::Argon2::hash_password_into` with the crate's default
/// parameters (Argon2id v19): fills the output from the passphrase and the
/// salt bytes alone; errs only when its working memory cannot be obtained,
/// given a salt of admissible length.
#[verifier::external_body]
pub(crate) fn argon2_derive(passphrase: &[u8], salt: &[u8]) -> (r: Option<Vec<u8>>)
    requires
        8 <= salt@.len() <= 48,
    ensures
        r is Some ==> r.unwrap()@ == argon2_key_of(passphrase@, salt@),
        r is Some ==> r.unwrap()@.len() == KEY_LEN,
{
    let mut out = [0u8; 32];
    match argon2::Argon2::default().hash_password_into(passphrase, salt, &mut out) {
        Ok(()) => Some(out.to_vec()),
        Err(_) => None,
    }
}

/// Relies on `phc::Salt::from_b64`: succeeds exactly on a B64 salt string
/// (standard base64 alphabet, unpadded, 11 to 64 characters) and returns
/// the decoded bytes, which number 8 to 48.
#[verifier::external_body]
pub(crate) fn parse_salt(salt_text: &str) -> (r: Option<Vec<u8>>)
    ensures
        r is Some <==> salt_bytes_of(salt_text@) is Some,
        r is Some ==> r.unwrap()@ == salt_bytes_of(salt_text@).unwrap(),
        r is Some ==> 8 <= r.unwrap()@.len() <= 48,
        r is Some ==> all_b64_chars(salt_text@) && 11 <= salt_text@.len() <= 64,
{
    match Salt::from_b64(salt_text) {
        Ok(salt) => Some(salt.as_ref().to_vec()),
        Err(_) => None,
    }
}

/// Relies on `phc::SaltString::generate`: yields the B64 encoding (22
/// characters of the standard base64 alphabet) of 16 fresh random bytes,
/// as the pair of the encoding and the bytes; such a string always decodes
/// back to exactly those bytes.
#[verifier::external_body]
pub(crate) fn generate_salt() -> (r: (String, Vec<u8>))
    ensures
        salt_bytes_of(r.0@) == Some(r.1@),
        r.1@.len() == 16,
        all_b64_chars(r.0@),
        r.0@.len() == 22,
{
    let salt_string = SaltString::generate();
    let salt = Salt::from(&salt_string);
    let text: &str = &salt_string;
    (text.to_owned(), salt.as_ref().to_vec())
}

/// Relies on `crypto_common::Generate::generate` for the AES-GCM nonce
/// type: 12 fresh random bytes from the system's secure generator.
#[verifier::external_body]
pub(crate) fn generate_nonce() -> (r: Vec<u8>)
    ensures
        r@.len() == NONCE_LEN,
{
    let nonce = aes_gcm::aead::Nonce::<Aes256Gcm>::generate();
    nonce.to_vec()
}

/// Relies on `aes_gcm::aead::Aead::encrypt` on `Aes256Gcm`: seals the
/// plaintext under the key and nonce into ciphertext-plus-tag, failing
/// exactly when the plaintext exceeds the cipher's length bound; the same
/// cipher opens the sealed bytes back to the plaintext.
#[verifier::external_body]
pub(crate) fn aes_gcm_encrypt(key: &[u8], nonce: &[u8], plaintext: &[u8]) -> (r: Option<Vec<u8>>)
    requires
        key@.len() == KEY_LEN,
        nonce@.len() == NONCE_LEN,
    ensures
        r is Some <==> plaintext@.len() <= AEAD_PLAINTEXT_MAX,
        r is Some ==> r.unwrap()@ == aead_seal(key@, nonce@, plaintext@),
        r is Some ==> aead_open(key@, nonce@, r.unwrap()@) == Some(plaintext@),
        r is Some ==> r.unwrap()@.len() == plaintext@.len() + 16,
{
    let cipher = Aes256Gcm::new_from_slice(key).ok()?;
    let nonce_arr = aes_gcm::aead::Nonce::<Aes256Gcm>::try_from(nonce).ok()?;
    cipher.encrypt(&nonce_arr, plaintext).ok()
}

/// Relies on `aes_gcm::aead::Aead::decrypt` on `Aes256Gcm`: opens a
/// sealed byte string deterministically, succeeding exactly when the
/// bytes are authentic under the key and nonce.
#[verifier::external_body]
pub(crate) fn aes_gcm_decrypt(key: &[u8], nonce: &[u8], ciphertext: &[u8]) -> (r: Option<Vec<u8>>)
    requires
        key@.len() == KEY_LEN,
        nonce@.len() == NONCE_LEN,
    ensures
        r is Some <==> aead_open(key@, nonce@, ciphertext@) is Some,
        r is Some ==> r.unwrap()@ == aead_open(key@, nonce@, ciphertext@).unwrap(),
{
    let cipher = Aes256Gcm::new_from_slice(key).ok()?;
    let nonce_arr = aes_gcm::aead::Nonce::<Aes256Gcm>::try_from(nonce).ok()?;
    cipher.decrypt(&nonce_arr, ciphertext).ok()
}

/// Relies on `base64::Engine::encode` with the standard padded engine: a
/// pure function of the input bytes, over the base64 alphabet plus
/// padding, whose output the matching decoder maps back to the input.
#[verifier::external_body]
pub(crate) fn b64_encode(bytes: &[u8]) -> (r: String)
    ensures
        r@ == b64_of(bytes@),
        b64_decode_of(r@) == Some(bytes@),
        all_field_chars(r@),
{
    general_purpose::STANDARD.encode(bytes)
}

/// Relies on `base64::Engine::decode` with the standard padded engine: a
/// pure function of the input text, succeeding exactly on valid padded
/// encodings.
#[verifier::external_body]
pub(crate) fn b64_decode(text: &str) -> (r: Option<Vec<u8>>)
    ensures
        r is Some <==> b64_decode_of(text@) is Some,
        r is Some ==> r.unwrap()@ == b64_decode_of(text@).unwrap(),
{
    general_purpose::STANDARD.decode(text).ok()
}

/// Relies on `alloc::string::String::from_utf8`: succeeds exactly on valid
/// UTF-8 and decodes it to the character sequence the bytes encode.
#[verifier::external_body]
pub(crate) fn string_from_utf8(bytes: Vec<u8>) -> (r: Option<String>)
    ensures
        r is Some <==> vstd::utf8::valid_utf8(bytes@),
        r is Some ==> r.unwrap()@ == vstd::utf8::decode_utf8(bytes@),
{
    String::from_utf8(bytes).ok()
}

} // verus!
