use base64::Engine;
use vault_core::crypto::{decrypt_with_key, derive_key};
use vault_core::envelope::{emit_envelope, parse_envelope, EncryptedData};
use vault_core::VaultError;

#[test]
fn envelope_text_has_the_exact_fixed_form() {
    let env = EncryptedData {
        ciphertext: "Y2lwaGVy".to_string(),
        nonce: "bm9uY2UwMDAwMDA==".to_string(),
        salt: "c2FsdHNhbHRzYWx0c2FsdA".to_string(),
    };
    let text = emit_envelope(&env);
    assert_eq!(
        text,
        "{\"ciphertext\":\"Y2lwaGVy\",\"nonce\":\"bm9uY2UwMDAwMDA==\",\"salt\":\"c2FsdHNhbHRzYWx0c2FsdA\"}"
    );
}

#[test]
fn envelope_parses_back_to_the_same_fields() {
    let env = EncryptedData {
        ciphertext: "QUJD".to_string(),
        nonce: "Tk9OQ0U=".to_string(),
        salt: "U0FMVFNBTFQ".to_string(),
    };
    let text = emit_envelope(&env);
    let parsed = parse_envelope(&text).unwrap();
    assert_eq!(parsed.ciphertext, "QUJD");
    assert_eq!(parsed.nonce, "Tk9OQ0U=");
    assert_eq!(parsed.salt, "U0FMVFNBTFQ");
}

#[test]
fn envelope_with_empty_fields_round_trips() {
    let env = EncryptedData {
        ciphertext: String::new(),
        nonce: String::new(),
        salt: String::new(),
    };
    let text = emit_envelope(&env);
    assert_eq!(text, "{\"ciphertext\":\"\",\"nonce\":\"\",\"salt\":\"\"}");
    let parsed = parse_envelope(&text).unwrap();
    assert_eq!(parsed.ciphertext, "");
    assert_eq!(parsed.nonce, "");
    assert_eq!(parsed.salt, "");
}

#[test]
fn envelope_rejects_deviations_from_the_form() {
    for bad in [
        "",
        "{}",
        "[]",
        "{\"ciphertext\":\"AA\",\"nonce\":\"BB\"}",
        "{\"nonce\":\"BB\",\"ciphertext\":\"AA\",\"salt\":\"CC\"}",
        "{\"ciphertext\":\"AA\",\"nonce\":\"BB\",\"salt\":\"CC\"} ",
        "{\"ciphertext\": \"AA\",\"nonce\":\"BB\",\"salt\":\"CC\"}",
        "{\"ciphertext\":\"A A\",\"nonce\":\"BB\",\"salt\":\"CC\"}",
    ] {
        assert_eq!(
            parse_envelope(bad).unwrap_err(),
            VaultError::InvalidEnvelope,
            "accepted: {bad:?}"
        );
    }
}

#[test]
fn decrypt_rejects_undecodable_base64_fields() {
    let (key, salt) = derive_key("codec-pass", None).unwrap();
    let env = EncryptedData {
        ciphertext: "AAAA".to_string(),
        nonce: "A".to_string(),
        salt,
    };
    let text = emit_envelope(&env);
    assert_eq!(
        decrypt_with_key(&text, &key).unwrap_err(),
        VaultError::InvalidEnvelope
    );
}

#[test]
fn decrypt_rejects_a_nonce_of_the_wrong_length() {
    let (key, salt) = derive_key("codec-pass", None).unwrap();
    let env = EncryptedData {
        ciphertext: "AAAAAAAAAAAAAAAAAAAAAA==".to_string(),
        nonce: "QUJD".to_string(),
        salt,
    };
    let text = emit_envelope(&env);
    assert_eq!(
        decrypt_with_key(&text, &key).unwrap_err(),
        VaultError::InvalidEnvelope
    );
}

#[test]
fn decrypt_rejects_an_envelope_from_a_foreign_key() {
    let (key_a, salt_a) = derive_key("first-pass", None).unwrap();
    let (key_b, _) = derive_key("second-pass", None).unwrap();
    let sealed = vault_core::crypto::encrypt_with_key("payload", &key_a, &salt_a).unwrap();
    assert_eq!(
        decrypt_with_key(&sealed, &key_b).unwrap_err(),
        VaultError::AuthenticationFailed
    );
}

#[test]
fn sealed_envelope_fields_have_the_expected_shapes() {
    let (key, salt) = derive_key("shape-pass", None).unwrap();
    assert_eq!(salt.len(), 22);

    let payload = "0123456789";
    let sealed = vault_core::crypto::encrypt_with_key(payload, &key, &salt).unwrap();
    let env = parse_envelope(&sealed).unwrap();
    assert_eq!(env.salt, salt);

    let nonce = base64::engine::general_purpose::STANDARD
        .decode(&env.nonce)
        .unwrap();
    assert_eq!(nonce.len(), 12);

    let ciphertext = base64::engine::general_purpose::STANDARD
        .decode(&env.ciphertext)
        .unwrap();
    assert_eq!(ciphertext.len(), payload.len() + 16);
    assert_ne!(&ciphertext[..payload.len()], payload.as_bytes());
}
