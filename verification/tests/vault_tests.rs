use vault_core::crypto::{decrypt, decrypt_with_key, derive_key, encrypt, encrypt_with_key};
use vault_core::envelope::{emit_envelope, parse_envelope, EncryptedData};
use vault_core::session::Session;
use vault_core::vault::{
    initialize_vault, load_vault, login, logout, open_vault, save_vault,
};
use vault_core::{default_auto_lock_minutes, VaultError};

#[test]
fn encrypt_decrypt_round_trip() {
    let (key, salt) = derive_key("round-trip-pass", None).unwrap();
    let envelope = encrypt_with_key("hello vault", &key, &salt).unwrap();
    let back = decrypt_with_key(&envelope, &key).unwrap();
    assert_eq!(back, "hello vault");
}

#[test]
fn encrypt_decrypt_round_trip_non_ascii() {
    let (key, salt) = derive_key("unicode-pass", None).unwrap();
    let payload = "p\u{00e4}ssw\u{00f6}rter \u{2713} \u{1f511}";
    let envelope = encrypt_with_key(payload, &key, &salt).unwrap();
    let back = decrypt_with_key(&envelope, &key).unwrap();
    assert_eq!(back, payload);
}

#[test]
fn derive_key_is_deterministic() {
    let (key1, salt) = derive_key("some passphrase", None).unwrap();
    let (key2, salt2) = derive_key("some passphrase", Some(&salt)).unwrap();
    assert_eq!(key1, key2);
    assert_eq!(salt, salt2);
    let (key3, _) = derive_key("some passphrase", Some(&salt)).unwrap();
    assert_eq!(key2, key3);
}

#[test]
fn derive_key_is_salt_sensitive() {
    let (key1, salt1) = derive_key("same passphrase", None).unwrap();
    let (key2, salt2) = derive_key("same passphrase", None).unwrap();
    assert_ne!(salt1, salt2);
    assert_ne!(key1, key2);
}

#[test]
fn derive_key_rejects_malformed_salt() {
    assert_eq!(
        derive_key("pw", Some("ab")).unwrap_err(),
        VaultError::InvalidSalt
    );
    assert_eq!(
        derive_key("pw", Some("!!not base64 at all!!")).unwrap_err(),
        VaultError::InvalidSalt
    );
}

#[test]
fn wrong_passphrase_is_rejected_and_vault_stays_locked() {
    let mut owner = Session::new();
    let stored = initialize_vault(&mut owner, "correct-horse").unwrap();

    let mut intruder = Session::new();
    let outcome = open_vault(&mut intruder, &stored, "wrong-passphrase");
    assert_eq!(outcome.unwrap_err(), VaultError::AuthenticationFailed);
    assert_eq!(
        save_vault(&intruder, "x").unwrap_err(),
        VaultError::NotLoggedIn
    );
    assert_eq!(
        load_vault(&intruder, Some(&stored)).unwrap_err(),
        VaultError::NotLoggedIn
    );
}

#[test]
fn tampered_ciphertext_is_rejected() {
    let mut session = Session::new();
    let stored = initialize_vault(&mut session, "correct-horse").unwrap();

    let env = parse_envelope(&stored).unwrap();
    let mut chars: Vec<char> = env.ciphertext.chars().collect();
    let flipped = if chars[0] == 'A' { 'B' } else { 'A' };
    chars[0] = flipped;
    let tampered = EncryptedData {
        ciphertext: chars.into_iter().collect(),
        nonce: env.nonce,
        salt: env.salt,
    };
    let tampered_text = emit_envelope(&tampered);
    assert_ne!(tampered_text, stored);

    let mut reader = Session::new();
    let outcome = open_vault(&mut reader, &tampered_text, "correct-horse");
    assert_eq!(outcome.unwrap_err(), VaultError::AuthenticationFailed);
}

#[test]
fn save_then_load_returns_the_payload_unchanged() {
    let mut session = Session::new();
    initialize_vault(&mut session, "idempotence-pass").unwrap();

    let payload = "[\"a\",\"b\"]";
    let stored = save_vault(&session, payload).unwrap();
    assert_eq!(load_vault(&session, Some(&stored)).unwrap(), payload);

    let stored_again = save_vault(&session, payload).unwrap();
    assert_eq!(load_vault(&session, Some(&stored_again)).unwrap(), payload);
}

#[test]
fn logout_gates_save_and_load_until_next_login() {
    let mut session = Session::new();
    let stored = initialize_vault(&mut session, "gate-pass").unwrap();
    assert!(save_vault(&session, "[]").is_ok());

    logout(&mut session);
    assert_eq!(save_vault(&session, "[]").unwrap_err(), VaultError::NotLoggedIn);
    assert_eq!(
        load_vault(&session, Some(&stored)).unwrap_err(),
        VaultError::NotLoggedIn
    );

    login(&mut session, Some(&stored), "gate-pass").unwrap();
    assert!(save_vault(&session, "[]").is_ok());
    assert_eq!(load_vault(&session, Some(&stored)).unwrap(), "[]");
}

#[test]
fn never_saved_vault_loads_as_empty_collection() {
    let mut session = Session::new();
    login(&mut session, None, "first-run-pass").unwrap();
    assert_eq!(load_vault(&session, None).unwrap(), "[]");
}

#[test]
fn open_after_first_run_login_and_save() {
    let mut session = Session::new();
    login(&mut session, None, "first-run-pass").unwrap();
    let stored = save_vault(&session, "[\"entry\"]").unwrap();

    let mut later = Session::new();
    open_vault(&mut later, &stored, "first-run-pass").unwrap();
    assert_eq!(load_vault(&later, Some(&stored)).unwrap(), "[\"entry\"]");
}

#[test]
fn open_rejects_malformed_envelopes() {
    let mut session = Session::new();
    assert_eq!(
        open_vault(&mut session, "not an envelope", "pw").unwrap_err(),
        VaultError::InvalidEnvelope
    );
    assert_eq!(
        open_vault(&mut session, "{\"ciphertext\":\"AA==\"}", "pw").unwrap_err(),
        VaultError::InvalidEnvelope
    );
}

#[test]
fn legacy_encrypt_decrypt_round_trip() {
    let sealed = encrypt("secret note", "legacy-pass").unwrap();
    assert_eq!(decrypt(&sealed, "legacy-pass").unwrap(), "secret note");
    assert_eq!(
        decrypt(&sealed, "other-pass").unwrap_err(),
        VaultError::AuthenticationFailed
    );
}

#[test]
fn error_messages_are_stable() {
    assert_eq!(VaultError::NotLoggedIn.message(), "not logged in");
    assert_eq!(
        VaultError::AuthenticationFailed.message(),
        "incorrect passphrase or corrupted file"
    );
    assert_eq!(VaultError::NotInitialized.message(), "not initialized");
}

#[test]
fn auto_lock_default_is_five_minutes() {
    assert_eq!(default_auto_lock_minutes(), 5);
}
