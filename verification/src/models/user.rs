//! User account model.
//!
//! Provides [`User`] for persistence, [`CreateUserRequest`] / [`LogInRequest`]
//! for incoming JSON payloads, and [`LogInResponse`] for the authentication
//! token returned to the client.
use vstd::prelude::*;
use vstd::string::StringExecFns;

use crate::{
    error::AppError,
    models::new_id,
    providers::{
        bcrypt_error_text, bcrypt_hash, bcrypt_verify, bcrypt_verify_outcome, has_bcrypt_cost,
        is_hyphenated_uuid,
        is_lower_hex_char, random_bytes,
    },
};

verus! {

/// The bcrypt cost factor used for password hashes.
pub const HASH_COST: u32 = 10;

/// The number of random bytes in a session secret.
pub const SECRET_BYTES: usize = 32;

/// The lowercase hexadecimal digit for `n` (`0 <= n < 16`).
pub open spec fn hex_char(n: int) -> char {
    if n < 10 {
        ((n + 48) as u8) as char
    } else {
        ((n + 87) as u8) as char
    }
}

/// The lowercase hexadecimal text of `bytes`, two digits per byte, most
/// significant digit first (what `format!("{:02x}", b)` gives for each byte).
pub open spec fn hex_text(bytes: Seq<u8>) -> Seq<char>
    decreases bytes.len(),
{
    if bytes.len() == 0 {
        seq![]
    } else {
        hex_text(bytes.drop_last()) + seq![
            hex_char(bytes.last() as int / 16),
            hex_char(bytes.last() as int % 16),
        ]
    }
}

/// A session secret: the hexadecimal text of 32 random bytes.
pub open spec fn is_secret_text(s: Seq<char>) -> bool {
    exists|bytes: Seq<u8>| bytes.len() == SECRET_BYTES && hex_text(bytes) == s
}

/// The hexadecimal text of `n` bytes has `2 * n` characters, each a lowercase
/// hexadecimal digit.
pub proof fn lemma_hex_text_shape(bytes: Seq<u8>)
    ensures
        hex_text(bytes).len() == 2 * bytes.len(),
        forall|i: int| 0 <= i < hex_text(bytes).len() ==> is_lower_hex_char(#[trigger] hex_text(bytes)[i]),
    decreases bytes.len(),
{
    if bytes.len() > 0 {
        lemma_hex_text_shape(bytes.drop_last());
        let prefix = hex_text(bytes.drop_last());
        let hi = bytes.last() as int / 16;
        let lo = bytes.last() as int % 16;
        assert(is_lower_hex_char(hex_char(hi))) by {
            assert(0 <= hi < 16);
        }
        assert(is_lower_hex_char(hex_char(lo))) by {
            assert(0 <= lo < 16);
        }
        assert forall|i: int| 0 <= i < hex_text(bytes).len() implies is_lower_hex_char(
            #[trigger] hex_text(bytes)[i],
        ) by {
            if i < prefix.len() {
                assert(hex_text(bytes)[i] == prefix[i]);
            }
        }
    }
}

/// Session secrets are 64 lowercase hexadecimal characters.
pub proof fn lemma_secret_shape(s: Seq<char>)
    requires
        is_secret_text(s),
    ensures
        s.len() == 64,
        forall|i: int| 0 <= i < s.len() ==> is_lower_hex_char(#[trigger] s[i]),
{
    let bytes = choose|bytes: Seq<u8>| bytes.len() == SECRET_BYTES && hex_text(bytes) == s;
    lemma_hex_text_shape(bytes);
}

fn hex_digit_str(n: u8) -> (r: &'static str)
    requires
        n < 16,
    ensures
        r@ == seq![hex_char(n as int)],
{
    proof {
        reveal_strlit("0");
        reveal_strlit("1");
        reveal_strlit("2");
        reveal_strlit("3");
        reveal_strlit("4");
        reveal_strlit("5");
        reveal_strlit("6");
        reveal_strlit("7");
        reveal_strlit("8");
        reveal_strlit("9");
        reveal_strlit("a");
        reveal_strlit("b");
        reveal_strlit("c");
        reveal_strlit("d");
        reveal_strlit("e");
        reveal_strlit("f");
    }
    match n {
        0 => "0",
        1 => "1",
        2 => "2",
        3 => "3",
        4 => "4",
        5 => "5",
        6 => "6",
        7 => "7",
        8 => "8",
        9 => "9",
        10 => "a",
        11 => "b",
        12 => "c",
        13 => "d",
        14 => "e",
        _ => "f",
    }
}

/// The lowercase hexadecimal text of `bytes`.
pub fn hex_lower(bytes: &Vec<u8>) -> (r: String)
    ensures
        r@ == hex_text(bytes@),
{
    let mut s = String::new();
    let mut i: usize = 0;
    while i < bytes.len()
        invariant
            0 <= i <= bytes.len(),
            s@ == hex_text(bytes@.take(i as int)),
        decreases bytes.len() - i,
    {
        let b = bytes[i];
        s.append(hex_digit_str(b / 16));
        s.append(hex_digit_str(b % 16));
        proof {
            assert(bytes@.take(i + 1).drop_last() =~= bytes@.take(i as int));
        }
        i = i + 1;
    }
    proof {
        assert(bytes@.take(bytes.len() as int) =~= bytes@);
    }
    s
}

/// A fresh session secret: 32 random bytes as lowercase hexadecimal text.
pub fn new_secret() -> (r: String)
    ensures
        is_secret_text(r@),
{
    let bytes = random_bytes(SECRET_BYTES);
    hex_lower(&bytes)
}

/// A registered user account stored in the database.
#[derive(Debug, Clone)]
pub struct User {
    /// Unique user identifier (UUID v7).
    pub id: String,
    /// Human-readable username chosen at registration.
    pub username: String,
    /// bcrypt hash of the user's password.
    pub password_hash: String,
    /// Randomly-generated session secret. Rotated on every successful login.
    /// Clients include this value in the `Authorization` header as
    /// `<user_id>:<secret>`.
    pub secret: String,
    /// IDs of all characters owned by this user.
    pub characters: Vec<String>,
}

/// The message of the error returned when hashing a new password fails.
pub open spec fn hashing_failed_message() -> Seq<char> {
    "ERROR HASHING PASSWORD"@
}

/// `u` is an account just registered as `username` with the given password:
/// its hash verifies that password and was made at [`HASH_COST`], it has a
/// fresh secret and identifier, and no characters yet.
pub open spec fn is_new_user(u: User, username: String, password: Seq<char>) -> bool {
    &&& u.username == username
    &&& bcrypt_verify_outcome(password, u.password_hash@) == Some(true)
    &&& has_bcrypt_cost(u.password_hash@, HASH_COST as int)
    &&& is_secret_text(u.secret@)
    &&& is_hyphenated_uuid(u.id@)
    &&& u.characters@.len() == 0
}

/// `after` is `before` with a freshly generated session secret.
pub open spec fn is_secret_rotation(before: User, after: User) -> bool {
    &&& is_secret_text(after.secret@)
    &&& after.id == before.id
    &&& after.username == before.username
    &&& after.password_hash == before.password_hash
    &&& after.characters@ == before.characters@
}

impl User {
    /// Create a new user, hashing the provided password with bcrypt.
    ///
    /// A fresh random 32-byte session secret is generated at creation time.
    ///
    /// # Errors
    ///
    /// Returns [`AppError::Internal`] if bcrypt fails to hash the password.
    pub fn new(username: String, password: String) -> (r: Result<Self, AppError>)
        ensures
            match r {
                Ok(u) => is_new_user(u, username, password@),
                Err(e) => e matches AppError::Internal(m) && m@ == hashing_failed_message(),
            },
    {
        let hashed = bcrypt_hash(password.as_str(), HASH_COST);
        Self::from_hash(username, hashed)
    }

    /// The account registered as `username` once its password was hashed:
    /// with the hash, a new account with a fresh secret and identifier and no
    /// characters; without one, the internal error that hashing failed.
    pub fn from_hash(username: String, hashed: Result<String, bcrypt::BcryptError>) -> (r: Result<
        Self,
        AppError,
    >)
        ensures
            match hashed {
                Ok(h) => r matches Ok(u) && {
                    &&& u.password_hash == h
                    &&& u.username == username
                    &&& is_secret_text(u.secret@)
                    &&& is_hyphenated_uuid(u.id@)
                    &&& u.characters@.len() == 0
                },
                Err(_) => r matches Err(AppError::Internal(m)) && m@ == hashing_failed_message(),
            },
    {
        let password_hash = match hashed {
            Ok(h) => h,
            Err(_) => {
                return Err(AppError::Internal(String::from_str("ERROR HASHING PASSWORD")));
            },
        };
        let secret = new_secret();
        Ok(User { id: new_id(), username, password_hash, secret, characters: Vec::new() })
    }

    /// Rotate the session secret, invalidating any existing client tokens.
    ///
    /// Called after a successful login so that each session gets a unique
    /// secret.
    pub fn generate_secret(&mut self)
        ensures
            is_secret_rotation(*old(self), *final(self)),
    {
        self.secret = new_secret();
    }

    /// Verify a plain-text password against the stored bcrypt hash.
    ///
    /// Returns `Ok(true)` if the password matches, `Ok(false)` otherwise.
    ///
    /// # Errors
    ///
    /// Returns [`AppError::Internal`] if bcrypt encounters an unexpected error
    /// during verification.
    pub fn check_password(&self, password: String) -> (r: Result<bool, AppError>)
        ensures
            match r {
                Ok(b) => bcrypt_verify_outcome(password@, self.password_hash@) == Some(b),
                Err(e) => e is Internal && bcrypt_verify_outcome(password@, self.password_hash@)
                    is None,
            },
    {
        match bcrypt_verify(password.as_str(), self.password_hash.as_str()) {
            Ok(b) => Ok(b),
            Err(e) => Err(AppError::Internal(bcrypt_error_text(&e))),
        }
    }
}

/// Helper projection used by queries that only need the username.
#[derive(Debug, Clone)]
pub struct UsernameOnly {
    pub username: String,
}

/// Request body for the `POST /create_user` endpoint.
#[derive(Debug, Clone)]
pub struct CreateUserRequest {
    /// Desired username. Must be unique across all registered accounts.
    pub username: String,
    /// Plain-text password. Hashed server-side before storage.
    pub password: String,
}

/// Request body for the `POST /login` endpoint.
#[derive(Debug, Clone)]
pub struct LogInRequest {
    /// Username of the account to authenticate.
    pub username: String,
    /// Plain-text password to verify.
    pub password: String,
}

/// Response body returned after a successful login or account creation.
///
/// Clients should store both values and pass them as
/// `Authorization: <user_id>:<secret>` on authenticated requests.
#[derive(Debug, Clone)]
pub struct LogInResponse {
    /// The authenticated user's unique ID.
    pub user_id: String,
    /// Freshly-generated session secret.
    pub secret: String,
}

} // verus!
