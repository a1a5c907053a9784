//! Credentials: password hashing and verification, session tokens and the
//! role check. Nothing here touches the store.

use crate::ident::Id;
use crate::models::Role;
use vstd::prelude::*;

verus! {

/// A failure of the credential functions. A wrong password is none of these:
/// it is the plain answer `false`.
#[derive(Debug, Clone, Copy, PartialEq, Eq, Structural)]
pub enum AuthError {
    /// The hashing algorithm itself failed.
    HashingFailed,
    /// The stored value is not a well-formed password hash.
    VerificationFailed,
}

impl AuthError {
    /// The message of the error.
    pub open spec fn message(self) -> Seq<char> {
        match self {
            AuthError::HashingFailed => "Password hashing failed"@,
            AuthError::VerificationFailed => "Password verification failed"@,
        }
    }

    /// Writes the message of the error.
    pub fn to_string(&self) -> (text: String)
        ensures
            text@ == self.message(),
    {
        match self {
            AuthError::HashingFailed => "Password hashing failed".to_owned(),
            AuthError::VerificationFailed => "Password verification failed".to_owned(),
        }
    }
}

/// The longest password, in characters, of which every one is short enough
/// for Argon2: the algorithm takes up to `0xffff_ffff` bytes, and a character
/// has at most four.
pub const MAX_PASSWORD_CHARS: usize = 0x3fff_ffff;

/// What Argon2 makes of a stored hash and a password: `None` where
/// `password_hash::PasswordHash::new` rejects the stored text, else whether
/// `verify_password` of `argon2::Argon2::default()` accepts the password for
/// the hash.
pub uninterp spec fn argon2_check(stored_hash: Seq<char>, password: Seq<char>) -> Option<bool>;

/// Calls `password_hash::SaltString::generate` on the operating system's
/// random source and `hash_password` of `argon2::Argon2::default()`, and hands
/// out the hash as text; `None` where the algorithm reports an error.
///
/// The salt is random, so the text differs from call to call. Whatever text
/// comes out, Argon2 accepts the same password for it: verification computes
/// the hash again from the salt and the parameters that the text carries.
/// With the default parameters and a generated salt the algorithm reports an
/// error for one thing only, a password of more than `0xffff_ffff` bytes, so
/// a password of at most `MAX_PASSWORD_CHARS` characters always has a hash.
/// The random source panics when the operating system gives no bytes.
#[verifier::external_body]
fn argon2_hash(password: &str) -> (hash: Option<String>)
    ensures
        hash matches Some(h) ==> argon2_check(h@, password@) == Some(true),
        password@.len() <= MAX_PASSWORD_CHARS ==> hash is Some,
{
    let salt = argon2::password_hash::SaltString::generate(&mut rand_core::OsRng);
    let hasher = argon2::Argon2::default();
    match argon2::PasswordHasher::hash_password(&hasher, password.as_bytes(), &salt) {
        Ok(hash) => Some(hash.to_string()),
        Err(_) => None,
    }
}

/// Calls `password_hash::PasswordHash::new` on the stored text and, where that
/// gives a hash, `verify_password` of `argon2::Argon2::default()`.
#[verifier::external_body]
fn argon2_verify(stored_hash: &str, password: &str) -> (outcome: Option<bool>)
    ensures
        outcome == argon2_check(stored_hash@, password@),
{
    let verifier = argon2::Argon2::default();
    match argon2::PasswordHash::new(stored_hash) {
        Ok(parsed) => Some(
            argon2::PasswordVerifier::verify_password(&verifier, password.as_bytes(), &parsed)
                .is_ok(),
        ),
        Err(_) => None,
    }
}

/// What verifying a password against a stored hash gives: whether it matches,
/// or `VerificationFailed` where the stored text is no hash at all.
pub open spec fn verification(stored_hash: Seq<char>, password: Seq<char>) -> Result<
    bool,
    AuthError,
> {
    match argon2_check(stored_hash, password) {
        Some(matches) => Ok(matches),
        None => Err(AuthError::VerificationFailed),
    }
}

/// What `hash_password` returns for each outcome of the algorithm: the hash
/// where there is one, `HashingFailed` where there is none.
pub fn hashing_outcome(hash: Option<String>) -> (res: Result<String, AuthError>)
    ensures
        res == match hash {
            Some(h) => Ok::<String, AuthError>(h),
            None => Err(AuthError::HashingFailed),
        },
{
    match hash {
        Some(h) => Ok(h),
        None => Err(AuthError::HashingFailed),
    }
}

/// What `verify_password` returns for each outcome of the algorithm: the
/// answer where the stored text was a hash, `VerificationFailed` where not.
pub fn verification_outcome(outcome: Option<bool>) -> (res: Result<bool, AuthError>)
    ensures
        res == match outcome {
            Some(matches) => Ok::<bool, AuthError>(matches),
            None => Err(AuthError::VerificationFailed),
        },
{
    match outcome {
        Some(matches) => Ok(matches),
        None => Err(AuthError::VerificationFailed),
    }
}

/// Hashes a password with Argon2 under a freshly drawn salt.
///
/// Hashing does not fail on what the password holds: every password of at
/// most `MAX_PASSWORD_CHARS` characters, the empty one too, gets a hash.
/// Every hash that comes out verifies against the same password. The one
/// error is `HashingFailed`, and it comes only when the algorithm fails.
pub fn hash_password(password: &str) -> (res: Result<String, AuthError>)
    ensures
        password@.len() <= MAX_PASSWORD_CHARS ==> res is Ok,
        res matches Ok(hash) ==> verification(hash@, password@) == Ok::<bool, AuthError>(true),
        res matches Err(e) ==> e == AuthError::HashingFailed,
{
    hashing_outcome(argon2_hash(password))
}

/// Verifies a password against a stored hash.
///
/// A wrong password gives `Ok(false)`. The one error is `VerificationFailed`,
/// and it comes exactly when the stored text is not a well-formed hash.
pub fn verify_password(stored_hash: &str, password: &str) -> (res: Result<bool, AuthError>)
    ensures
        res == verification(stored_hash@, password@),
{
    verification_outcome(argon2_verify(stored_hash, password))
}

/// Draws a new session token.
pub fn generate_session_token() -> (token: Id)
    ensures
        token.is_random(),
{
    Id::generate()
}

/// Tells whether a role is the administrator's.
pub fn is_admin(role: &Role) -> (b: bool)
    ensures
        b == (*role == Role::Admin),
{
    matches!(role, Role::Admin)
}

} // verus!
