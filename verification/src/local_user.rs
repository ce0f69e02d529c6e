//! Local account credential handling: registration and password change.
//!
//! Hashing is bcrypt's business; everything around it — which fields a
//! registration stores, what a password change touches — is verified.
//! The persistence calls themselves stay with the caller.

use crate::FederationError;
use vstd::prelude::*;

verus! {

/// A local account row, reduced to what credential handling touches.
#[derive(Debug, PartialEq, Eq)]
pub struct LocalUser {
    pub id: u64,
    pub email: Option<String>,
    pub password_encrypted: String,
    pub validator_time: i64,
}

/// The form a registration submits.  `password_encrypted` holds the
/// plain password on the way in and the bcrypt hash on the way out.
#[derive(Debug, PartialEq, Eq)]
pub struct LocalUserForm {
    pub email: Option<String>,
    pub password_encrypted: String,
}

/// The shape of a credential this module stores: a bcrypt hash string at
/// the default cost — the `$2b$12$` marker, then a 22-character salt and
/// a 31-character digest, 60 characters in all.  The submitted password
/// is never of record: only a string of this shape is.
pub open spec fn is_bcrypt_credential(s: Seq<char>) -> bool {
    s.len() == 60 && s.subrange(0, 7) == seq!['$', '2', 'b', '$', '1', '2', '$']
}

/// Relies on bcrypt::hash at bcrypt::DEFAULT_COST: the salt is drawn at
/// random, so nothing relates the result to the input beyond its shape —
/// the `2b` format at cost 12 is a 60-character `$2b$12$`-prefixed
/// string (7 marker characters, a 22-character unpadded-base64 salt, a
/// 31-character unpadded-base64 digest).  `None` carries a hashing fault
/// through.
#[verifier::external_body]
fn hash_password(password: &String) -> (r: Option<String>)
    ensures
        r matches Some(h) ==> is_bcrypt_credential(h@),
{
    bcrypt::hash(password.as_str(), bcrypt::DEFAULT_COST).ok()
}

impl LocalUser {
    /// Prepares a registration: the stored form carries the bcrypt hash
    /// in place of the password — a credential of the hash's shape, so a
    /// form that kept the submitted password could not come back — and
    /// every other field unchanged.  A hashing fault is a local fault,
    /// reported as such.
    pub fn register(form: LocalUserForm) -> (r: Result<LocalUserForm, FederationError>)
        ensures
            match r {
                Ok(f) => f.email == form.email && is_bcrypt_credential(f.password_encrypted@),
                Err(e) => e == FederationError::StorageFailure,
            },
    {
        match hash_password(&form.password_encrypted) {
            Some(h) => Ok(LocalUserForm { email: form.email, password_encrypted: h }),
            None => Err(FederationError::StorageFailure),
        }
    }

    /// Changes a password: the account keeps its identity and email, the
    /// stored credential becomes the bcrypt hash of the new password —
    /// of the hash's shape, never the submitted plaintext — and the
    /// validation clock is reset to `now`.
    pub fn update_password(self, new_password: &String, now: i64) -> (r: Result<
        LocalUser,
        FederationError,
    >)
        ensures
            match r {
                Ok(u) => u.id == self.id && u.email == self.email && u.validator_time == now
                    && is_bcrypt_credential(u.password_encrypted@),
                Err(e) => e == FederationError::StorageFailure,
            },
    {
        match hash_password(new_password) {
            Some(h) => Ok(
                LocalUser {
                    id: self.id,
                    email: self.email,
                    password_encrypted: h,
                    validator_time: now,
                },
            ),
            None => Err(FederationError::StorageFailure),
        }
    }
}

} // verus!
