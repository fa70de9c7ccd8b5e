//! Credential checks at the HTTP edge: password hashing and verification,
//! and the decisions of signing up and logging in.

use argon2::password_hash::rand_core::OsRng;
use argon2::password_hash::{PasswordHash, PasswordHasher, PasswordVerifier, SaltString};
use argon2::Argon2;
use vstd::prelude::*;

use crate::models::{NewUser, UserAthorizeDTO};
use crate::snowflake::{GeneratorError, SnowflakeGenerator};
use crate::UserID;

verus! {

/// Whether Argon2 (default parameters) accepts `password` against the PHC
/// hash string `hash`. A hash string that does not parse accepts nothing.
pub uninterp spec fn argon2_accepts(password: Seq<char>, hash: Seq<char>) -> bool;

/// Relies on `argon2::PasswordHash::new` and `Argon2::verify_password`: the
/// outcome depends on the password and the hash string alone.
#[verifier::external_body]
fn argon2_verify(password: &str, hash: &str) -> (r: bool)
    ensures
        r == argon2_accepts(password@, hash@),
{
    match PasswordHash::new(hash) {
        Ok(parsed) => Argon2::default().verify_password(password.as_bytes(), &parsed).is_ok(),
        Err(_) => false,
    }
}

/// Relies on `Argon2::hash_password` with a random salt from `OsRng`: a hash
/// string, when one is made, that Argon2 accepts the password against.
#[verifier::external_body]
fn argon2_hash(password: &str) -> (r: Option<String>)
    ensures
        r matches Some(h) ==> argon2_accepts(password@, h@),
{
    let salt = SaltString::generate(&mut OsRng);
    match Argon2::default().hash_password(password.as_bytes(), &salt) {
        Ok(h) => Some(h.to_string()),
        Err(_) => None,
    }
}

/// A salted hash of `password`, which `verify_password` accepts it against.
pub fn generate_password_hash(password: String) -> (r: Option<String>)
    ensures
        r matches Some(h) ==> argon2_accepts(password@, h@),
{
    argon2_hash(password.as_str())
}

/// Whether `request_password` matches the stored hash.
pub fn verify_password(request_password: String, database_password_hash: String) -> (r: bool)
    ensures
        r == argon2_accepts(request_password@, database_password_hash@),
{
    argon2_verify(request_password.as_str(), database_password_hash.as_str())
}

/// A sign-up request.
#[derive(Debug, Clone, PartialEq, Eq)]
pub struct SignupForm {
    pub username: String,
    pub name: String,
    pub password: String,
}

/// A login request.
#[derive(Debug, Clone, PartialEq, Eq)]
pub struct LoginForm {
    pub username: String,
    pub password: String,
}

/// The ticket named in a query string.
#[derive(Debug, Clone, PartialEq, Eq)]
pub struct TicketQuery {
    pub ticket: String,
}

/// A session token handed to a client.
#[derive(Debug, Clone, PartialEq, Eq)]
pub struct JWTResponse {
    pub token: String,
}

/// A client-visible error text.
#[derive(Debug, Clone, PartialEq, Eq)]
pub struct ErrorResponse {
    pub error: String,
}

/// Why a login was refused.
#[derive(Debug, Clone, Copy, PartialEq, Eq, Structural)]
pub enum LoginError {
    /// No user has the given username.
    UnknownUser,
    /// The password does not match.
    WrongPassword,
}

/// Decides a login, given what the user directory found for the username.
pub fn check_login(form: &LoginForm, found: Option<UserAthorizeDTO>) -> (r: Result<
    UserID,
    LoginError,
>)
    ensures
        found is None ==> r == Err::<UserID, LoginError>(LoginError::UnknownUser),
        found matches Some(dto) ==> r == (if argon2_accepts(form.password@, dto.hashed_password@) {
            Ok::<UserID, LoginError>(dto.id)
        } else {
            Err(LoginError::WrongPassword)
        }),
{
    match found {
        None => Err(LoginError::UnknownUser),
        Some(dto) => {
            if verify_password(form.password.clone(), dto.hashed_password) {
                Ok(dto.id)
            } else {
                Err(LoginError::WrongPassword)
            }
        },
    }
}

/// Why a sign-up could not be prepared.
#[derive(Debug, Clone, Copy, PartialEq, Eq, Structural)]
pub enum SignupError {
    /// No fresh identity could be generated.
    IdentityUnavailable(GeneratorError),
    /// The password could not be hashed.
    HashingFailed,
}

/// The user record for a sign-up under identity `id` with password hash
/// `hashed_password`: the form's names, no status or bio yet.
pub fn new_user_from_signup(id: UserID, form: SignupForm, hashed_password: String) -> (r: NewUser)
    ensures
        r.id == id,
        r.username == form.username,
        r.name == form.name,
        r.hashed_password == hashed_password,
        r.status is None,
        r.bio is None,
{
    NewUser { id, username: form.username, name: form.name, hashed_password, status: None, bio: None }
}

/// The user record for a sign-up: a fresh identity, the form's names, and a
/// hash of its password; no status or bio yet.
pub fn prepare_signup(generator: &mut SnowflakeGenerator, form: SignupForm) -> (r: Result<
    NewUser,
    SignupError,
>)
    requires
        old(generator).wf(),
    ensures
        final(generator).wf(),
        final(generator).machine() == old(generator).machine(),
        r matches Ok(u) ==> {
            &&& final(generator).issued() == old(generator).issued().push(u.id)
            &&& 0 <= u.id
            &&& forall|i: int|
                0 <= i < old(generator).issued().len() ==> #[trigger] old(generator).issued()[i]
                    < u.id
            &&& u.username == form.username
            &&& u.name == form.name
            &&& argon2_accepts(form.password@, u.hashed_password@)
            &&& u.status is None
            &&& u.bio is None
        },
        r matches Err(SignupError::HashingFailed) ==> final(generator).issued().len() == old(
            generator,
        ).issued().len() + 1,
        r matches Err(SignupError::IdentityUnavailable(_)) ==> final(generator).issued() == old(
            generator,
        ).issued(),
{
    let id = match generator.generate_id() {
        Ok(id) => id,
        Err(e) => return Err(SignupError::IdentityUnavailable(e)),
    };
    let hashed_password = match generate_password_hash(form.password.clone()) {
        Some(h) => h,
        None => return Err(SignupError::HashingFailed),
    };
    Ok(new_user_from_signup(id, form, hashed_password))
}

} // verus!
