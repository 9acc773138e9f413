//! Account registration and login.
//!
//! `POST /create_user` registers a new account unless the username is taken;
//! `POST /login` checks the password and rotates the session secret.
use vstd::prelude::*;

use crate::{
    error::AppError,
    models::user::{
        hashing_failed_message, is_new_user, is_secret_rotation, CreateUserRequest, LogInRequest, LogInResponse, User,
    },
    providers::bcrypt_verify_outcome,
    routes::concat3,
};

verus! {

/// The message of the error answering a registration under a taken username.
pub open spec fn username_taken_message(username: Seq<char>) -> Seq<char> {
    "Username, "@ + username + ", is already taken."@
}

/// The message of the error answering a login under an unknown username.
pub open spec fn unknown_username_message(username: Seq<char>) -> Seq<char> {
    "User, "@ + username + ", Does not exist."@
}

/// Whether `usernames` holds `name`.
pub open spec fn has_username(usernames: Seq<String>, name: Seq<char>) -> bool {
    exists|i: int| 0 <= i < usernames.len() && #[trigger] usernames[i]@ == name
}

/// Whether `usernames` holds `name`.
pub fn contains_username(usernames: &Vec<String>, name: &String) -> (r: bool)
    ensures
        r == has_username(usernames@, name@),
{
    let mut i: usize = 0;
    while i < usernames.len()
        invariant
            0 <= i <= usernames.len(),
            forall|j: int| 0 <= j < i ==> #[trigger] usernames@[j]@ != name@,
        decreases usernames.len() - i,
    {
        if usernames[i] == *name {
            return true;
        }
        i = i + 1;
    }
    false
}

/// Register a new user account, given the usernames of all existing accounts.
///
/// # Errors
///
/// - [`AppError::BadRequest`] if the requested username is already taken.
/// - [`AppError::Internal`] if bcrypt fails to hash the password.
pub fn register_user(existing_users: &Vec<String>, request: CreateUserRequest) -> (r: Result<
    User,
    AppError,
>)
    ensures
        has_username(existing_users@, request.username@) ==> (r matches Err(AppError::BadRequest(m))
            && m@ == username_taken_message(request.username@)),
        !has_username(existing_users@, request.username@) ==> match r {
            Ok(u) => is_new_user(u, request.username, request.password@),
            Err(e) => e matches AppError::Internal(m) && m@ == hashing_failed_message(),
        },
{
    if contains_username(existing_users, &request.username) {
        Err(
            AppError::BadRequest(
                concat3("Username, ", request.username.as_str(), ", is already taken."),
            ),
        )
    } else {
        User::new(request.username, request.password)
    }
}

/// How a login attempt ends.
pub enum LoginOutcome {
    /// No account has the username.
    UnknownUser,
    /// The password matches: the login succeeds.
    Accepted,
    /// The password does not match.
    Rejected,
    /// bcrypt could not check the password.
    CheckFailed,
}

/// How a login with `password` ends for the account `user` (if any).
pub open spec fn login_outcome(user: Option<User>, password: Seq<char>) -> LoginOutcome {
    match user {
        None => LoginOutcome::UnknownUser,
        Some(u) => match bcrypt_verify_outcome(password, u.password_hash@) {
            Some(true) => LoginOutcome::Accepted,
            Some(false) => LoginOutcome::Rejected,
            None => LoginOutcome::CheckFailed,
        },
    }
}

/// Decide a login for `user` from the result of checking the password:
/// accept it with a fresh session secret, reject it as unauthorized, or pass
/// the checker's error on.
pub fn login_decision(user: User, check: Result<bool, AppError>) -> (r: Result<User, AppError>)
    ensures
        match check {
            Ok(true) => r matches Ok(u) && is_secret_rotation(user, u),
            Ok(false) => r == Err::<User, AppError>(AppError::Unauthorized),
            Err(e) => r == Err::<User, AppError>(e),
        },
{
    match check {
        Ok(true) => {
            let mut user = user;
            user.generate_secret();
            Ok(user)
        },
        Ok(false) => Err(AppError::Unauthorized),
        Err(e) => Err(e),
    }
}

/// Authenticate with a username and password, given the account found under
/// the username (if any). On success the session secret is rotated; the
/// caller stores the returned account.
///
/// # Errors
///
/// - [`AppError::NotFound`] if no account exists with the given username.
/// - [`AppError::Unauthorized`] if the password does not match.
/// - [`AppError::Internal`] if bcrypt cannot check the password.
pub fn login_user(user: Option<User>, request: LogInRequest) -> (r: Result<User, AppError>)
    ensures
        match login_outcome(user, request.password@) {
            LoginOutcome::UnknownUser => r matches Err(AppError::NotFound(m)) && m@
                == unknown_username_message(request.username@),
            LoginOutcome::Accepted => r matches Ok(u) && is_secret_rotation(user->0, u),
            LoginOutcome::Rejected => r == Err::<User, AppError>(AppError::Unauthorized),
            LoginOutcome::CheckFailed => r matches Err(AppError::Internal(_)),
        },
{
    let user = match user {
        Some(u) => u,
        None => {
            return Err(
                AppError::NotFound(
                    concat3("User, ", request.username.as_str(), ", Does not exist."),
                ),
            );
        },
    };
    let check = user.check_password(request.password);
    login_decision(user, check)
}

/// The credentials returned to the client for `user`.
pub fn log_in_response(user: &User) -> (r: LogInResponse)
    ensures
        r.user_id == user.id,
        r.secret == user.secret,
{
    LogInResponse { user_id: user.id.clone(), secret: user.secret.clone() }
}

/// An account registered with a password accepts that password at login.
pub proof fn lemma_registered_password_logs_in(u: User, username: String, password: Seq<char>)
    requires
        is_new_user(u, username, password),
    ensures
        login_outcome(Some(u), password) == LoginOutcome::Accepted,
{
}

} // verus!
