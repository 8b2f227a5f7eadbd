//! The in-memory session: at most one (derived key, salt) pair, present
//! exactly while the vault is unlocked. The pair is created by a
//! successful initialize, open or login, read by save and load, and
//! destroyed by logout. The surrounding application owns one session per
//! process and serializes access to it.
use vstd::prelude::*;

use crate::primitives::{all_field_chars, KEY_LEN};
use crate::VaultError;

verus! {

/// Holds the unlocked state: `None` while locked, otherwise the derived
/// key and the salt string it was derived from.
pub struct Session {
    key: Option<(Vec<u8>, String)>,
}

impl Session {
    /// Any key held is a 256-bit key whose salt can stand in an envelope
    /// field.
    #[verifier::type_invariant]
    closed spec fn inv(self) -> bool {
        self.key is Some ==> (self.key.unwrap().0@.len() == KEY_LEN && all_field_chars(
            self.key.unwrap().1@,
        ))
    }

    /// Whether a key is currently held: the vault is unlocked.
    pub closed spec fn is_unlocked(&self) -> bool {
        self.key is Some
    }

    /// The held key's bytes (meaningful only while unlocked).
    pub closed spec fn key_view(&self) -> Seq<u8> {
        self.key.unwrap().0@
    }

    /// The held salt string (meaningful only while unlocked).
    pub closed spec fn salt_view(&self) -> Seq<char> {
        self.key.unwrap().1@
    }

    /// A fresh session: locked.
    pub fn new() -> (s: Session)
        ensures
            !s.is_unlocked(),
    {
        Session { key: None }
    }

    /// Replace the current session with the given key and the salt it was
    /// derived from; always succeeds.
    pub fn set(&mut self, key: Vec<u8>, salt: String)
        requires
            key@.len() == KEY_LEN,
            all_field_chars(salt@),
        ensures
            final(self).is_unlocked(),
            final(self).key_view() == key@,
            final(self).salt_view() == salt@,
    {
        self.key = Some((key, salt));
    }

    /// Drop the current session; always succeeds, also when already
    /// locked.
    pub fn clear(&mut self)
        ensures
            !final(self).is_unlocked(),
    {
        self.key = None;
    }

    /// Read the current key and salt, or `NotLoggedIn` while locked.
    pub fn get(&self) -> (r: Result<&(Vec<u8>, String), VaultError>)
        ensures
            r is Ok <==> self.is_unlocked(),
            r is Err ==> r.unwrap_err() == VaultError::NotLoggedIn,
            r is Ok ==> r.unwrap().0@ == self.key_view() && r.unwrap().1@ == self.salt_view(),
            r is Ok ==> r.unwrap().0@.len() == KEY_LEN && all_field_chars(r.unwrap().1@),
    {
        proof {
            use_type_invariant(self);
        }
        match self.key.as_ref() {
            Some(pair) => Ok(pair),
            None => Err(VaultError::NotLoggedIn),
        }
    }
}

} // verus!
