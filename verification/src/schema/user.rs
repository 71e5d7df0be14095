//! Users: registration with a salted Argon2 password hash, and login.
use vstd::prelude::*;

use rand::Rng;

use super::session::{IpAddress, Session};
use crate::error::{ErrorSource, ErrorView, ServerError};
use crate::status::Status;

verus! {

/// A registered user.
pub struct User {
    pub username: String,
    pub email: String,
    password: String,
}

/// The mathematical value of a `User`.
pub struct UserView {
    pub username: Seq<char>,
    pub email: Seq<char>,
    pub password_hash: Seq<char>,
}

impl View for User {
    type V = UserView;

    closed spec fn view(&self) -> UserView {
        UserView { username: self.username@, email: self.email@, password_hash: self.password@ }
    }
}

/// The Argon2 encoded hash that `argon2::hash_encoded` makes of a password
/// with a salt under the default configuration, when it succeeds.
pub uninterp spec fn argon2_encoded(password: Seq<char>, salt: Seq<u8>) -> Option<Seq<char>>;

/// Whether `argon2::verify_encoded` finds that a password matches an encoded
/// hash, when it can tell.
pub uninterp spec fn argon2_matches(encoded: Seq<char>, password: Seq<char>) -> Option<bool>;

/// Whether `encoded` is an Argon2 hash of `password` under some salt.
pub open spec fn argon2_hashes_to(password: Seq<char>, encoded: Seq<char>) -> bool {
    exists|salt: Seq<u8>| argon2_encoded(password, salt) == Some(encoded)
}

#[verifier::external_type_specification]
#[verifier::external_body]
pub struct ExArgon2Error(argon2::Error);

/// The number of random bytes in a password salt.
pub const SALT_LENGTH: usize = 32;

/// `n` random bytes.
///
/// Fills `n` bytes with `rand::thread_rng()` through `Rng::fill`; only the
/// length is stated, the bytes being chance.
#[verifier::external_body]
fn random_salt(n: usize) -> (salt: Vec<u8>)
    ensures
        salt@.len() == n,
{
    let mut salt = vec![0u8; n];
    rand::thread_rng().fill(&mut salt[..]);
    salt
}

/// Hashes a password.
///
/// Calls `argon2::hash_encoded(password.as_bytes(), salt, &Config::default())`;
/// the contract names its result `argon2_encoded`. Under the default
/// configuration the call fails only for a salt of fewer than 8 or more than
/// `u32::MAX` bytes, or a password of more than `u32::MAX` bytes; the
/// contract states success where the password has at most a quarter of that
/// many characters (each takes at most four bytes).
#[verifier::external_body]
fn hash_encoded(password: &str, salt: &Vec<u8>) -> (r: Result<String, argon2::Error>)
    ensures
        match r {
            Ok(h) => argon2_encoded(password@, salt@) == Some(h@),
            Err(_) => argon2_encoded(password@, salt@) is None,
        },
        8 <= salt@.len() <= 0xFFFF_FFFF && password@.len() <= 0x3FFF_FFFF ==> r is Ok,
{
    argon2::hash_encoded(password.as_bytes(), salt.as_slice(), &argon2::Config::default())
}

/// Checks a password against an encoded hash.
///
/// Calls `argon2::verify_encoded(encoded, password.as_bytes())`; the
/// contract names its result `argon2_matches` and states the documented fact
/// that a hash made by `argon2::hash_encoded` from a password verifies
/// against that password.
#[verifier::external_body]
fn verify_encoded(encoded: &str, password: &str) -> (r: Result<bool, argon2::Error>)
    ensures
        match r {
            Ok(b) => argon2_matches(encoded@, password@) == Some(b) && (argon2_hashes_to(
                password@,
                encoded@,
            ) ==> b),
            Err(_) => argon2_matches(encoded@, password@) is None && !argon2_hashes_to(
                password@,
                encoded@,
            ),
        },
{
    argon2::verify_encoded(encoded, password.as_bytes())
}

/// How an Argon2 failure displays and debug-prints.
///
/// Formats the `argon2::Error` with `Display` and `Debug`; nothing is stated.
#[verifier::external_body]
fn argon2_error_source(e: &argon2::Error) -> ErrorSource {
    ErrorSource { display: format!("{}", e), debug: format!("{:?}", e) }
}

/// The error reported for a failed hashing step: 500 "Hashing error".
pub open spec fn hashing_failed(e: ErrorView) -> bool {
    e.code == 500 && e.message == Some("Hashing error"@) && e.source is Some
}

/// The view of the error `user_not_found` reports: the lookup failure,
/// as 401 "User not found".
pub open spec fn user_not_found(e: ErrorView) -> ErrorView {
    ErrorView { code: 401, message: Some("User not found"@), ..e }
}

impl User {
    /// A user as the database holds it, with its stored password hash.
    pub fn from_stored(username: String, email: String, password_hash: String) -> (u: User)
        ensures
            u@ == (UserView {
                username: username@,
                email: email@,
                password_hash: password_hash@,
            }),
    {
        User { username, email, password: password_hash }
    }

    /// The stored password hash, to be written to the database.
    pub fn stored_hash(&self) -> (h: &str)
        ensures
            h@ == self@.password_hash,
    {
        self.password.as_str()
    }

    /// A new user whose password is stored as an Argon2 hash with a fresh
    /// random salt; a hashing failure is reported as 500 "Hashing error",
    /// which cannot happen to a password of at most `0x3FFF_FFFF` characters.
    pub fn register(username: String, email: String, password: String) -> (r: Result<
        User,
        ServerError,
    >)
        ensures
            match r {
                Ok(u) => u@.username == username@ && u@.email == email@ && exists|salt: Seq<u8>|
                    salt.len() == SALT_LENGTH && argon2_encoded(password@, salt) == Some(u@.password_hash),
                Err(e) => hashing_failed(e@) && exists|salt: Seq<u8>|
                    salt.len() == SALT_LENGTH && argon2_encoded(password@, salt) is None,
            },
            password@.len() <= 0x3FFF_FFFF ==> r is Ok,
    {
        let salt = random_salt(SALT_LENGTH);
        match hash_encoded(password.as_str(), &salt) {
            Ok(hash) => Ok(User { username, email, password: hash }),
            Err(e) => Err(hash_failure(&e)),
        }
    }

    /// Login of `username` with `password` from `source`, given what the
    /// database returned for that name: a new session when the password
    /// matches the stored hash; 401 "User not found" when the lookup failed,
    /// 401 "Invalid credentials" when the password does not match, and 500
    /// "Hashing error" when the hash cannot be checked. A password whose hash
    /// is the one stored is always accepted.
    pub fn login(
        fetched: Result<User, ServerError>,
        username: &str,
        password: &str,
        source: IpAddress,
    ) -> (r: Result<Session, ServerError>)
        ensures
            match fetched {
                Err(e) => r matches Err(x) && x@ == user_not_found(e@),
                Ok(u) => match argon2_matches(u@.password_hash, password@) {
                    Some(true) => r matches Ok(s) && s.creator@ == username@ && s.source == source,
                    Some(false) => r matches Err(x) && x@ == (ErrorView {
                        code: 401,
                        source: None,
                        message: Some("Invalid credentials"@),
                    }),
                    None => r matches Err(x) && hashing_failed(x@),
                },
            },
            fetched matches Ok(u) ==> (argon2_hashes_to(password@, u@.password_hash) ==> r is Ok),
    {
        let user = match fetched {
            Ok(u) => u,
            Err(e) => {
                proof {
                    reveal_strlit("User not found");
                }
                return Err(
                    ServerError::builder_from(e).message("User not found").code(
                        Status::unauthorized(),
                    ).build(),
                );
            },
        };
        match verify_encoded(user.password.as_str(), password) {
            Ok(true) => Ok(Session::create(username, source)),
            Ok(false) => {
                proof {
                    reveal_strlit("Invalid credentials");
                }
                Err(
                    ServerError::builder().message("Invalid credentials").code(
                        Status::unauthorized(),
                    ).build(),
                )
            },
            Err(e) => Err(hash_failure(&e)),
        }
    }
}

/// The error for an Argon2 failure.
fn hash_failure(e: &argon2::Error) -> (r: ServerError)
    ensures
        hashing_failed(r@),
{
    ServerError::from_hash_error(argon2_error_source(e))
}

} // verus!
