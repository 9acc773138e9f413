//! Authentication of protected routes.
//!
//! Protected requests carry the header
//!
//! ```text
//! Authorization: <user_id>:<secret>
//! ```
//!
//! where `<user_id>` is the UUID of the authenticated user and `<secret>` is
//! the session secret returned by `/login` or `/create_user`. The header is
//! split at its first `:`; the secret may itself contain `:`.
use vstd::prelude::*;
use vstd::string::{StrSliceExecFns, StringExecFns};

use crate::{error::AppError, routes::concat3};

verus! {

/// `s` split at its first `:` into the text before it and the text after it;
/// `None` if `s` holds no `:`.
pub open spec fn split_at_first_colon(s: Seq<char>) -> Option<(Seq<char>, Seq<char>)>
    decreases s.len(),
{
    if s.len() == 0 {
        None
    } else if s[0] == ':' {
        Some((seq![], s.drop_first()))
    } else {
        match split_at_first_colon(s.drop_first()) {
            Some((before, after)) => Some((seq![s[0]] + before, after)),
            None => None,
        }
    }
}

/// Splitting at a `:` that no earlier `:` precedes gives the text before and
/// after it.
pub proof fn lemma_split_at(s: Seq<char>, i: int)
    requires
        0 <= i < s.len(),
        s[i] == ':',
        forall|j: int| 0 <= j < i ==> s[j] != ':',
    ensures
        split_at_first_colon(s) == Some((s.take(i), s.skip(i + 1))),
    decreases i,
{
    if i > 0 {
        lemma_split_at(s.drop_first(), i - 1);
        assert(seq![s[0]] + s.drop_first().take(i - 1) =~= s.take(i));
        assert(s.drop_first().skip(i) =~= s.skip(i + 1));
    } else {
        assert(s.take(0) =~= seq![]);
        assert(s.drop_first() =~= s.skip(1));
    }
}

/// Without a `:` there is nothing to split.
pub proof fn lemma_split_none(s: Seq<char>)
    requires
        forall|j: int| 0 <= j < s.len() ==> s[j] != ':',
    ensures
        split_at_first_colon(s) is None,
    decreases s.len(),
{
    if s.len() > 0 {
        lemma_split_none(s.drop_first());
    }
}

/// A header built as `<user_id>:<secret>`, from a user ID without `:`, splits
/// back into that user ID and secret.
pub proof fn lemma_authorization_round_trip(user_id: Seq<char>, secret: Seq<char>)
    requires
        forall|j: int| 0 <= j < user_id.len() ==> user_id[j] != ':',
    ensures
        split_at_first_colon(user_id + seq![':'] + secret) == Some((user_id, secret)),
{
    let s = user_id + seq![':'] + secret;
    lemma_split_at(s, user_id.len() as int);
    assert(s.take(user_id.len() as int) =~= user_id);
    assert(s.skip(user_id.len() + 1int) =~= secret);
}

/// Read the credentials of an `Authorization` header: the user ID before the
/// first `:` and the secret after it.
///
/// # Errors
///
/// - [`AppError::Unauthorized`] if the header is missing (or not visible
///   ASCII text) or holds no `:`.
pub fn parse_authorization(header: Option<&str>) -> (r: Result<(String, String), AppError>)
    ensures
        match header {
            Some(h) => match split_at_first_colon(h@) {
                Some(parts) => r is Ok && r->Ok_0.0@ == parts.0 && r->Ok_0.1@ == parts.1,
                None => r == Err::<(String, String), AppError>(AppError::Unauthorized),
            },
            None => r == Err::<(String, String), AppError>(AppError::Unauthorized),
        },
{
    let auth = match header {
        Some(h) => h,
        None => {
            return Err(AppError::Unauthorized);
        },
    };
    let n = auth.unicode_len();
    let mut i: usize = 0;
    while i < n
        invariant
            header == Some(auth),
            n == auth@.len(),
            0 <= i <= n,
            forall|j: int| 0 <= j < i ==> auth@[j] != ':',
        decreases n - i,
    {
        if auth.get_char(i) == ':' {
            proof {
                lemma_split_at(auth@, i as int);
                assert(auth@.take(i as int) =~= auth@.subrange(0, i as int));
                assert(auth@.skip(i + 1) =~= auth@.subrange(i + 1, n as int));
            }
            let id = String::from_str(auth.substring_char(0, i));
            let secret = String::from_str(auth.substring_char(i + 1, n));
            return Ok((id, secret));
        }
        i = i + 1;
    }
    proof {
        lemma_split_none(auth@);
    }
    Err(AppError::Unauthorized)
}

/// The message of the error answering credentials of an unknown user.
pub open spec fn unknown_credentials_message(user_id: Seq<char>) -> Seq<char> {
    "Username '"@ + user_id + "' not found"@
}

/// Check the secret of a request against the secret stored for its user (if
/// the user exists).
///
/// # Errors
///
/// - [`AppError::NotFound`] if no user exists with the supplied ID.
/// - [`AppError::Unauthorized`] if the secret does not match the stored value.
pub fn check_secret(stored_secret: Option<String>, user_id: &String, secret: &String) -> (r: Result<
    (),
    AppError,
>)
    ensures
        match stored_secret {
            None => r matches Err(AppError::NotFound(m)) && m@ == unknown_credentials_message(
                user_id@,
            ),
            Some(s) => if s@ == secret@ {
                r == Ok::<(), AppError>(())
            } else {
                r == Err::<(), AppError>(AppError::Unauthorized)
            },
        },
{
    let db_secret = match stored_secret {
        Some(s) => s,
        None => {
            return Err(AppError::NotFound(concat3("Username '", user_id.as_str(), "' not found")));
        },
    };
    // Validate the secret matches; reject with 401 if it doesn't
    if db_secret != *secret {
        return Err(AppError::Unauthorized);
    }
    Ok(())
}

} // verus!
