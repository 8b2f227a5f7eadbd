//! Key derivation and the authenticated envelope codec.
//!
//! `derive_key` turns a passphrase and a salt into a 256-bit key;
//! `encrypt_with_key` seals a payload into envelope text under a key and
//! records the salt the key came from; `decrypt_with_key` opens envelope
//! text back to the payload, rejecting malformed envelopes, failed
//! authentication and non-text plaintexts. `encrypt` and `decrypt` are the
//! passphrase-level pair on top of them.
use vstd::prelude::*;

use crate::envelope::{
    all_field_chars_exec, emit_envelope, lemma_envelope_text_round_trip, parse_envelope,
    parse_envelope_text, EncryptedData,
};
use crate::primitives::{
    aead_open, aes_gcm_decrypt, aes_gcm_encrypt, all_b64_chars, all_field_chars, argon2_derive,
    argon2_key_of, b64_decode, b64_decode_of, b64_encode, generate_nonce, generate_salt,
    parse_salt, salt_bytes_of, string_from_utf8, AEAD_PLAINTEXT_MAX, KEY_LEN, NONCE_LEN,
};
use crate::VaultError;

verus! {

use vstd::utf8::{decode_utf8, encode_utf8, encode_utf8_decode_utf8, encode_utf8_valid_utf8, valid_utf8};

/// The key Argon2id derives from a passphrase and a salt string, once the
/// salt string is known to decode.
pub open spec fn derived_key_of(password: Seq<char>, salt_text: Seq<char>) -> Seq<u8> {
    argon2_key_of(encode_utf8(password), salt_bytes_of(salt_text).unwrap())
}

/// A payload the cipher can seal: its UTF-8 form stays under the AES-GCM
/// plaintext bound.
pub open spec fn encryptable(data: Seq<char>) -> bool {
    encode_utf8(data).len() <= AEAD_PLAINTEXT_MAX
}

/// What decrypting envelope text under a key yields: the payload, or the
/// exact error. `InvalidEnvelope` covers a malformed text and malformed
/// base64 fields; `AuthenticationFailed` a tag that does not verify (a
/// wrong key, or tampered bytes); `DecodedTextInvalid` a plaintext that is
/// not UTF-8.
pub open spec fn decrypt_spec(s: Seq<char>, key: Seq<u8>) -> Result<Seq<char>, VaultError> {
    match parse_envelope_text(s) {
        Option::None => Err(VaultError::InvalidEnvelope),
        Option::Some(env) => match b64_decode_of(env.nonce) {
            Option::None => Err(VaultError::InvalidEnvelope),
            Option::Some(nonce) => if nonce.len() != NONCE_LEN {
                Err(VaultError::InvalidEnvelope)
            } else {
                match b64_decode_of(env.ciphertext) {
                    Option::None => Err(VaultError::InvalidEnvelope),
                    Option::Some(ct) => match aead_open(key, nonce, ct) {
                        Option::None => Err(VaultError::AuthenticationFailed),
                        Option::Some(pt) => if valid_utf8(pt) {
                            Ok(decode_utf8(pt))
                        } else {
                            Err(VaultError::DecodedTextInvalid)
                        },
                    },
                }
            },
        },
    }
}

/// Key derivation is deterministic: any two keys derived from the same
/// passphrase and the same salt string are byte-for-byte equal. This is
/// what lets a later open re-derive the key that sealed the vault.
pub proof fn lemma_derive_key_deterministic(
    password: Seq<char>,
    salt_text: Seq<char>,
    key1: Seq<u8>,
    key2: Seq<u8>,
)
    requires
        key1 == derived_key_of(password, salt_text),
        key2 == derived_key_of(password, salt_text),
    ensures
        key1 == key2,
{
}

/// A returned text result, seen as the sequences it carries.
pub open spec fn text_result(r: Result<String, VaultError>) -> Result<Seq<char>, VaultError> {
    match r {
        Ok(s) => Ok(s@),
        Err(e) => Err(e),
    }
}

/// Derive a 256-bit key from the passphrase and a salt. With `None` a
/// fresh random salt is generated; with `Some` the given salt string must
/// decode, else `InvalidSalt`. Returns the key together with the salt
/// string that future derivations must reuse to reach the same key.
pub fn derive_key(password: &str, salt_str: Option<&str>) -> (r: Result<
    (Vec<u8>, String),
    VaultError,
>)
    ensures
        r is Ok ==> salt_bytes_of(r.unwrap().1@) is Some,
        r is Ok ==> r.unwrap().0@ == derived_key_of(password@, r.unwrap().1@),
        r is Ok ==> r.unwrap().0@.len() == KEY_LEN,
        r is Ok ==> all_b64_chars(r.unwrap().1@),
        r is Ok && salt_str is Some ==> r.unwrap().1@ == salt_str.unwrap()@,
        r == Err::<(Vec<u8>, String), _>(VaultError::InvalidSalt) <==> (salt_str is Some
            && salt_bytes_of(salt_str.unwrap()@) is None),
        r is Err ==> (r.unwrap_err() == VaultError::InvalidSalt || r.unwrap_err()
            == VaultError::DerivationFailed),
{
    let (salt_text, salt_bytes): (String, Vec<u8>) = match salt_str {
        Some(s) => {
            match parse_salt(s) {
                Some(bytes) => (s.to_owned(), bytes),
                None => {
                    return Err(VaultError::InvalidSalt);
                },
            }
        },
        None => generate_salt(),
    };
    let pwd = password.as_bytes();
    match argon2_derive(pwd, salt_bytes.as_slice()) {
        Some(key) => Ok((key, salt_text)),
        None => Err(VaultError::DerivationFailed),
    }
}

/// Seal a payload under an already-derived key, recording the salt string
/// that key was derived with: the envelope must carry exactly that salt,
/// or a later open could never re-derive the key. A fresh random nonce is
/// drawn on every call. The returned envelope text decrypts back to the
/// payload under the same key.
pub fn encrypt_with_key(data: &str, key: &Vec<u8>, salt: &str) -> (r: Result<String, VaultError>)
    requires
        key@.len() == KEY_LEN,
    ensures
        r is Ok <==> (all_field_chars(salt@) && encryptable(data@)),
        !all_field_chars(salt@) ==> r == Err::<String, _>(VaultError::InvalidSalt),
        all_field_chars(salt@) && !encryptable(data@) ==> r == Err::<String, _>(
            VaultError::InvalidEnvelope,
        ),
        r is Ok ==> decrypt_spec(r.unwrap()@, key@) == Ok::<Seq<char>, VaultError>(data@),
        r is Ok ==> parse_envelope_text(r.unwrap()@) is Some && parse_envelope_text(
            r.unwrap()@,
        ).unwrap().salt == salt@,
{
    if !all_field_chars_exec(salt) {
        return Err(VaultError::InvalidSalt);
    }
    let nonce = generate_nonce();
    let pt = data.as_bytes();
    match aes_gcm_encrypt(key.as_slice(), nonce.as_slice(), pt) {
        None => Err(VaultError::InvalidEnvelope),
        Some(ct) => {
            let env = EncryptedData {
                ciphertext: b64_encode(ct.as_slice()),
                nonce: b64_encode(nonce.as_slice()),
                salt: salt.to_owned(),
            };
            let text = emit_envelope(&env);
            proof {
                lemma_envelope_text_round_trip(env@);
                encode_utf8_valid_utf8(data@);
                encode_utf8_decode_utf8(data@);
            }
            Ok(text)
        },
    }
}

/// Open envelope text under an already-derived key. The result is exactly
/// what the decryption model yields: the payload, or the error naming what
/// failed first.
pub fn decrypt_with_key(data: &str, key: &Vec<u8>) -> (r: Result<String, VaultError>)
    requires
        key@.len() == KEY_LEN,
    ensures
        text_result(r) == decrypt_spec(data@, key@),
{
    let env = match parse_envelope(data) {
        Ok(e) => e,
        Err(e) => {
            return Err(e);
        },
    };
    let nonce = match b64_decode(env.nonce.as_str()) {
        Some(n) => n,
        None => {
            return Err(VaultError::InvalidEnvelope);
        },
    };
    if nonce.len() != NONCE_LEN {
        return Err(VaultError::InvalidEnvelope);
    }
    let ct = match b64_decode(env.ciphertext.as_str()) {
        Some(c) => c,
        None => {
            return Err(VaultError::InvalidEnvelope);
        },
    };
    let pt = match aes_gcm_decrypt(key.as_slice(), nonce.as_slice(), ct.as_slice()) {
        Some(p) => p,
        None => {
            return Err(VaultError::AuthenticationFailed);
        },
    };
    match string_from_utf8(pt) {
        Some(s) => Ok(s),
        None => Err(VaultError::DecodedTextInvalid),
    }
}

/// Seal a payload under a fresh random salt derived from the passphrase
/// alone: the envelope then carries everything a later `decrypt` with the
/// same passphrase needs.
pub fn encrypt(data: &str, password: &str) -> (r: Result<String, VaultError>)
    ensures
        r is Ok ==> encryptable(data@),
        r is Ok ==> parse_envelope_text(r.unwrap()@) is Some,
        r is Ok ==> salt_bytes_of(parse_envelope_text(r.unwrap()@).unwrap().salt) is Some,
        r is Ok ==> decrypt_spec(
            r.unwrap()@,
            derived_key_of(password@, parse_envelope_text(r.unwrap()@).unwrap().salt),
        ) == Ok::<Seq<char>, VaultError>(data@),
        r is Err ==> (r.unwrap_err() == VaultError::DerivationFailed || r.unwrap_err()
            == VaultError::InvalidEnvelope),
{
    let (key, salt) = match derive_key(password, None) {
        Ok(p) => p,
        Err(e) => {
            return Err(e);
        },
    };
    encrypt_with_key(data, &key, salt.as_str())
}

/// Open envelope text with the passphrase alone: the salt is read from the
/// envelope, the key re-derived from it, and the envelope opened under
/// that key.
pub fn decrypt(data: &str, password: &str) -> (r: Result<String, VaultError>)
    ensures
        parse_envelope_text(data@) is None ==> r == Err::<String, _>(VaultError::InvalidEnvelope),
        parse_envelope_text(data@) is Some && salt_bytes_of(
            parse_envelope_text(data@).unwrap().salt,
        ) is None ==> r == Err::<String, _>(VaultError::InvalidSalt),
        r is Ok ==> parse_envelope_text(data@) is Some && salt_bytes_of(
            parse_envelope_text(data@).unwrap().salt,
        ) is Some,
        parse_envelope_text(data@) is Some && salt_bytes_of(
            parse_envelope_text(data@).unwrap().salt,
        ) is Some && r != Err::<String, _>(VaultError::DerivationFailed) ==> text_result(r)
            == decrypt_spec(
            data@,
            derived_key_of(password@, parse_envelope_text(data@).unwrap().salt),
        ),
{
    let env = match parse_envelope(data) {
        Ok(e) => e,
        Err(e) => {
            return Err(e);
        },
    };
    let (key, _salt) = match derive_key(password, Some(env.salt.as_str())) {
        Ok(p) => p,
        Err(e) => {
            return Err(e);
        },
    };
    decrypt_with_key(data, &key)
}

} // verus!
