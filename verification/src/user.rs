//! The account model and its companion records.

use vstd::prelude::*;
use crate::email::{lower_of, trim_of};

verus! {

/// Why creating an account failed.
#[derive(Clone, Copy, Debug, PartialEq, Eq, Structural)]
pub enum UserError {
    /// The password digest could not be computed.
    HashError,
}

/// bcrypt's error type, carried opaquely through the hashing wrapper.
#[verifier::external_type_specification]
#[verifier::external_body]
pub struct ExBcryptError(bcrypt::BcryptError);

/// A registered account holder.
pub struct User {
    pub email: String,
    pub password: String,
    pub is_verified: Option<bool>,
    pub created_at: Option<u64>,
    pub updated_at: Option<u64>,
}

/// Relies on bcrypt's `hash`: a salted digest of the password under the
/// default cost. The salt is drawn fresh from the operating system, so
/// nothing ties the digest to the password beyond what bcrypt computes.
#[verifier::external_body]
fn hash_password(password: &str) -> (r: Result<String, bcrypt::BcryptError>) {
    bcrypt::hash(password, bcrypt::DEFAULT_COST)
}

impl User {
    /// Assemble an unverified account from an already computed password
    /// digest: the address is trimmed and lower-cased, and both
    /// timestamps are stamped `now`.
    pub fn with_hash(email: &str, password_hash: String, now: u64) -> (u: User)
        ensures
            u.email@ == lower_of(trim_of(email@)),
            u.password == password_hash,
            u.is_verified == Some(false),
            u.created_at == Some(now),
            u.updated_at == Some(now),
    {
        let trimmed_email = crate::email::trimmed(email);
        let normalized = crate::email::lowercase(trimmed_email.as_str());
        User {
            email: normalized,
            password: password_hash,
            is_verified: Some(false),
            created_at: Some(now),
            updated_at: Some(now),
        }
    }

    /// Create an account at instant `now`: hash the password, then
    /// assemble the record around the digest.
    pub fn new(email: String, password: String, now: u64) -> (r: Result<User, UserError>)
        ensures
            match r {
                Ok(u) => {
                    &&& u.email@ == lower_of(trim_of(email@))
                    &&& u.is_verified == Some(false)
                    &&& u.created_at == Some(now)
                    &&& u.updated_at == Some(now)
                },
                Err(e) => e == UserError::HashError,
            },
    {
        let hashed = match hash_password(password.as_str()) {
            Ok(h) => h,
            Err(_) => {
                return Err(UserError::HashError);
            },
        };
        Ok(User::with_hash(email.as_str(), hashed, now))
    }
}

/// Access roles an account may hold.
pub enum RoleType {
    Admin,
    User,
}

/// Actions a role may allow on a resource.
pub enum PermissionType {
    View,
    Edit,
    Delete,
}

/// A named role with the permissions it grants.
pub struct Role {
    pub name: RoleType,
    pub permissions: Vec<PermissionType>,
    pub created_at: Option<u64>,
    pub updated_at: Option<u64>,
}

/// An organization owned by an account; the owner is carried as the
/// textual form of its record id.
pub struct Organization {
    pub name: String,
    pub description: String,
    pub owner_id: String,
    pub created_at: Option<u64>,
    pub updated_at: Option<u64>,
}

/// Request body of the password-reset flow.
pub struct ForgotPassword {
    pub email: String,
    pub password: String,
    pub uuid: String,
    pub is_used: bool,
    pub created_at: Option<u64>,
    pub expired_at: Option<u64>,
}

/// Request body asking for a fresh code.
pub struct ResendOtp {
    pub email: String,
}

} // verus!
