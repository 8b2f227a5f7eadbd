//! The vault lifecycle: initialize, open, login, save, load and logout,
//! as decisions over plain values. The caller performs the file reads and
//! writes around these functions: stored envelope text comes in as an
//! argument, envelope text to persist goes out as a result.
use vstd::prelude::*;

use crate::crypto::{
    decrypt_spec, decrypt_with_key, derive_key, derived_key_of, encrypt_with_key, encryptable,
    text_result,
};
use crate::envelope::parse_envelope_text;
use crate::primitives::salt_bytes_of;
use crate::session::Session;
use crate::VaultError;

verus! {

use vstd::utf8::{is_ascii_chars, is_ascii_chars_encode_utf8};

/// The payload of a vault that has never been saved to: an empty
/// collection.
pub open spec fn empty_payload() -> Seq<char> {
    "[]"@
}

/// What a successful or failed open leaves behind: on any failure the
/// session is untouched (the vault stays locked); opening succeeds exactly
/// when the stored text parses as an envelope, its salt decodes, the key
/// derives, and the envelope opens under the derived key, and then the
/// session holds that key and that salt.
pub open spec fn open_outcome(
    pre: Session,
    post: Session,
    stored: Seq<char>,
    password: Seq<char>,
    r: Result<(), VaultError>,
) -> bool {
    &&& (r is Err ==> post == pre)
    &&& (parse_envelope_text(stored) is None ==> r == Err::<(), _>(VaultError::InvalidEnvelope))
    &&& (parse_envelope_text(stored) is Some ==> {
        let env = parse_envelope_text(stored).unwrap();
        &&& (salt_bytes_of(env.salt) is None ==> r == Err::<(), _>(VaultError::InvalidSalt))
        &&& (salt_bytes_of(env.salt) is Some ==> {
            let k = derived_key_of(password, env.salt);
            &&& (r is Ok ==> decrypt_spec(stored, k) is Ok)
            &&& (r is Ok ==> post.is_unlocked() && post.key_view() == k && post.salt_view()
                == env.salt)
            &&& (r is Err ==> r.unwrap_err() == VaultError::DerivationFailed || Err::<
                Seq<char>,
                _,
            >(r.unwrap_err()) == decrypt_spec(stored, k))
        })
    })
}

/// What loading yields once the session state is fixed: `NotLoggedIn`
/// while locked; the empty-collection placeholder when no vault file
/// exists yet; otherwise exactly what decryption under the session key
/// yields.
pub open spec fn load_spec(stored: Option<Seq<char>>, unlocked: bool, key: Seq<u8>) -> Result<
    Seq<char>,
    VaultError,
> {
    if !unlocked {
        Err(VaultError::NotLoggedIn)
    } else {
        match stored {
            Option::None => Ok(empty_payload()),
            Option::Some(s) => decrypt_spec(s, key),
        }
    }
}

/// Create a new vault: derive a key from the passphrase under a fresh
/// random salt, seal the empty payload, unlock the session, and hand back
/// the envelope text to persist. The caller writes that text to the vault
/// path; if the write fails it locks the session again and reports
/// `PathWriteFailed`.
pub fn initialize_vault(session: &mut Session, master_password: &str) -> (r: Result<
    String,
    VaultError,
>)
    ensures
        r is Err ==> *final(session) == *old(session) && r.unwrap_err()
            == VaultError::DerivationFailed,
        r is Ok ==> final(session).is_unlocked(),
        r is Ok ==> salt_bytes_of(final(session).salt_view()) is Some && final(session).key_view()
            == derived_key_of(master_password@, final(session).salt_view()),
        r is Ok ==> parse_envelope_text(r.unwrap()@) is Some && parse_envelope_text(
            r.unwrap()@,
        ).unwrap().salt == final(session).salt_view(),
        r is Ok ==> decrypt_spec(r.unwrap()@, final(session).key_view()) == Ok::<
            Seq<char>,
            VaultError,
        >(empty_payload()),
{
    let (key, salt) = match derive_key(master_password, None) {
        Ok(p) => p,
        Err(e) => {
            return Err(e);
        },
    };
    proof {
        lemma_empty_payload_encryptable();
    }
    let text = match encrypt_with_key("[]", &key, salt.as_str()) {
        Ok(t) => t,
        Err(e) => {
            return Err(e);
        },
    };
    session.set(key, salt);
    Ok(text)
}

/// Unlock an existing vault: read the salt out of the stored envelope,
/// re-derive the key from the passphrase and that salt, and prove the
/// passphrase by opening the envelope. On success the session holds the
/// derived key and the envelope's salt; on any failure the session is
/// untouched.
pub fn open_vault(session: &mut Session, stored: &str, master_password: &str) -> (r: Result<
    (),
    VaultError,
>)
    ensures
        open_outcome(*old(session), *final(session), stored@, master_password@, r),
{
    let env = match crate::envelope::parse_envelope(stored) {
        Ok(e) => e,
        Err(e) => {
            return Err(e);
        },
    };
    let (key, _salt) = match derive_key(master_password, Some(env.salt.as_str())) {
        Ok(p) => p,
        Err(e) => {
            return Err(e);
        },
    };
    match decrypt_with_key(stored, &key) {
        Ok(_verified) => {
            session.set(key, env.salt);
            Ok(())
        },
        Err(e) => Err(e),
    }
}

/// Log in: when a stored envelope exists this is exactly an open; when
/// none exists yet (a first run before any save) it falls back to deriving
/// a fresh key and holding it without writing anything — it never
/// overwrites an existing vault.
pub fn login(session: &mut Session, stored: Option<&str>, master_password: &str) -> (r: Result<
    (),
    VaultError,
>)
    ensures
        stored is Some ==> open_outcome(
            *old(session),
            *final(session),
            stored.unwrap()@,
            master_password@,
            r,
        ),
        stored is None && r is Err ==> *final(session) == *old(session) && r.unwrap_err()
            == VaultError::DerivationFailed,
        stored is None && r is Ok ==> final(session).is_unlocked() && salt_bytes_of(
            final(session).salt_view(),
        ) is Some && final(session).key_view() == derived_key_of(
            master_password@,
            final(session).salt_view(),
        ),
{
    match stored {
        Some(text) => open_vault(session, text, master_password),
        None => {
            let (key, salt) = match derive_key(master_password, None) {
                Ok(p) => p,
                Err(e) => {
                    return Err(e);
                },
            };
            session.set(key, salt);
            Ok(())
        },
    }
}

/// Seal a payload with the session's key, reusing the session's salt:
/// the salt stored in the resulting envelope must be the one the key was
/// derived from, or the file could never again be opened with the correct
/// passphrase. Fails with `NotLoggedIn` while locked. The caller persists
/// the returned envelope text.
pub fn save_vault(session: &Session, data: &str) -> (r: Result<String, VaultError>)
    ensures
        !session.is_unlocked() ==> r == Err::<String, _>(VaultError::NotLoggedIn),
        session.is_unlocked() ==> (r is Ok <==> encryptable(data@)),
        session.is_unlocked() && !encryptable(data@) ==> r == Err::<String, _>(
            VaultError::InvalidEnvelope,
        ),
        r is Ok ==> decrypt_spec(r.unwrap()@, session.key_view()) == Ok::<Seq<char>, VaultError>(
            data@,
        ),
        r is Ok ==> parse_envelope_text(r.unwrap()@) is Some && parse_envelope_text(
            r.unwrap()@,
        ).unwrap().salt == session.salt_view(),
{
    let pair = match session.get() {
        Ok(p) => p,
        Err(e) => {
            return Err(e);
        },
    };
    encrypt_with_key(data, &pair.0, pair.1.as_str())
}

/// Read the vault back through the session's key. Fails with
/// `NotLoggedIn` while locked; a vault that was configured but never
/// saved to (no stored text) loads as the empty-collection placeholder.
pub fn load_vault(session: &Session, stored: Option<&str>) -> (r: Result<String, VaultError>)
    ensures
        text_result(r) == load_spec(
            match stored {
                Option::Some(s) => Option::Some(s@),
                Option::None => Option::None,
            },
            session.is_unlocked(),
            session.key_view(),
        ),
{
    let pair = match session.get() {
        Ok(p) => p,
        Err(e) => {
            return Err(e);
        },
    };
    match stored {
        None => {
            let empty: String = "[]".to_owned();
            Ok(empty)
        },
        Some(text) => decrypt_with_key(text, &pair.0),
    }
}

/// Lock the vault: drop the session key unconditionally. Until a later
/// initialize, open or login succeeds, save and load report `NotLoggedIn`.
pub fn logout(session: &mut Session)
    ensures
        !final(session).is_unlocked(),
{
    session.clear();
}

/// The empty payload is two ASCII characters, so its UTF-8 form is two
/// bytes: far inside the cipher's plaintext bound.
proof fn lemma_empty_payload_encryptable()
    ensures
        encryptable(empty_payload()),
{
    reveal_strlit("[]");
    assert(is_ascii_chars(empty_payload()));
    is_ascii_chars_encode_utf8(empty_payload());
}

/// Saving a payload and loading the result back through the same unlocked
/// session yields the payload unchanged.
pub proof fn lemma_save_then_load(envelope: Seq<char>, key: Seq<u8>, data: Seq<char>)
    requires
        decrypt_spec(envelope, key) == Ok::<Seq<char>, VaultError>(data),
    ensures
        load_spec(Some(envelope), true, key) == Ok::<Seq<char>, VaultError>(data),
{
}

/// While the session is locked, loading fails with `NotLoggedIn`,
/// whatever is stored and whatever key is asked about.
pub proof fn lemma_lock_gating(stored: Option<Seq<char>>, key: Seq<u8>)
    ensures
        load_spec(stored, false, key) == Err::<Seq<char>, VaultError>(VaultError::NotLoggedIn),
{
}

} // verus!

