//! Authentication of a login request: Basic credentials from the
//! `Authorization` header, checked against the stored password hash.
use vstd::prelude::*;
use vstd::utf8::{decode_utf8, valid_utf8};
use crate::base64_text::{decode_standard, standard_base64_decoded};
use crate::password::{phc_verdict, usable_password, verify_password_hash, DUMMY_HASH};
use crate::text::utf8_string;
use crate::user::{hash_of_password, User};

verus! {

/// Why a request was not authenticated.
#[derive(Clone, Debug)]
pub enum AuthenticationError {
    /// A fault below the authentication logic (store, hash format), with its
    /// description for the server log.
    UnexpectedError(String),
    /// The `Authorization` header is missing or is no well-formed Basic header.
    InvalidHeaders,
    /// No account has this username, or the password does not match.
    InvalidCredentials,
    /// The request carries no valid bearer token.
    Unauthorized,
}

/// A username and password taken from a Basic header.
pub struct Credentials {
    pub username: String,
    pub password: String,
}

/// `Basic ` followed by a space: the scheme this extractor accepts.
pub open spec fn basic_prefix() -> Seq<char> {
    seq!['B', 'a', 's', 'i', 'c', ' ']
}

/// The text that a Basic header carries, once decoded: `None` when the
/// scheme is not `Basic`, the rest is not standard Base64, or the decoded
/// bytes are not UTF-8.
pub open spec fn basic_payload(header: Seq<char>) -> Option<Seq<char>> {
    if header.len() >= 6 && header.subrange(0, 6) == basic_prefix() {
        match standard_base64_decoded(header.subrange(6, header.len() as int)) {
            Some(b) => if valid_utf8(b) {
                Some(decode_utf8(b))
            } else {
                None
            },
            None => None,
        }
    } else {
        None
    }
}

/// Whether `text` is `username:password` split at its first colon.
pub open spec fn split_at_first_colon(text: Seq<char>, username: Seq<char>, password: Seq<char>) -> bool {
    &&& text == username + seq![':'] + password
    &&& !username.contains(':')
}

/// Reads Basic credentials from the value of the `Authorization` header
/// (`None` when the header is absent or is not text).
pub fn extract_from_headers(authorization: Option<&str>) -> (r: Result<Credentials, AuthenticationError>)
    ensures
        r is Ok <==> (authorization matches Some(h) && basic_payload(h@) matches Some(t) && t.contains(':')),
        r matches Ok(c) ==> (authorization matches Some(h) && basic_payload(h@) matches Some(t)
            && split_at_first_colon(t, c.username@, c.password@)),
        r matches Err(e) ==> e is InvalidHeaders,
{
    let h = match authorization {
        Some(h) => h,
        None => return Err(AuthenticationError::InvalidHeaders),
    };
    let n = h.unicode_len();
    if n < 6 || h.get_char(0) != 'B' || h.get_char(1) != 'a' || h.get_char(2) != 's' || h.get_char(3) != 'i'
        || h.get_char(4) != 'c' || h.get_char(5) != ' ' {
        proof {
            if n >= 6 && h@.subrange(0, 6) == basic_prefix() {
                assert(h@[0] == h@.subrange(0, 6)[0]);
                assert(h@[1] == h@.subrange(0, 6)[1]);
                assert(h@[2] == h@.subrange(0, 6)[2]);
                assert(h@[3] == h@.subrange(0, 6)[3]);
                assert(h@[4] == h@.subrange(0, 6)[4]);
                assert(h@[5] == h@.subrange(0, 6)[5]);
            }
        }
        return Err(AuthenticationError::InvalidHeaders);
    }
    assert(h@.subrange(0, 6) =~= basic_prefix());
    let rest = h.substring_char(6, n);
    let bytes = match decode_standard(rest) {
        Some(b) => b,
        None => return Err(AuthenticationError::InvalidHeaders),
    };
    let text = match utf8_string(bytes) {
        Some(t) => t,
        None => return Err(AuthenticationError::InvalidHeaders),
    };
    let t = text.as_str();
    let m = t.unicode_len();
    let mut i: usize = 0;
    while i < m && t.get_char(i) != ':'
        invariant
            i <= m,
            m == t@.len(),
            forall|k: int| 0 <= k < i ==> t@[k] != ':',
        decreases m - i,
    {
        i = i + 1;
    }
    if i == m {
        return Err(AuthenticationError::InvalidHeaders);
    }
    let username = t.substring_char(0, i).to_owned();
    let password = t.substring_char(i + 1, m).to_owned();
    proof {
        assert(t@ =~= username@ + seq![':'] + password@);
        assert(t@.contains(':')) by {
            assert(t@[i as int] == ':');
        }
        assert(!username@.contains(':')) by {
            assert forall|k: int| 0 <= k < username@.len() implies username@[k] != ':' by {
                assert(username@[k] == t@[k]);
            }
        }
    }
    Ok(Credentials { username, password })
}

/// What authenticating `password` against the looked-up account gives. An
/// unknown username is rejected like a wrong password.
pub open spec fn validation_outcome(stored: Result<Option<User>, String>, password: Seq<char>) -> Option<Result<User, AuthenticationError>> {
    match stored {
        Err(msg) => Some(Err(AuthenticationError::UnexpectedError(msg))),
        Ok(None) => Some(Err(AuthenticationError::InvalidCredentials)),
        Ok(Some(user)) => match phc_verdict(user.password@, password) {
            Some(true) => Some(Ok(user)),
            Some(false) => Some(Err(AuthenticationError::InvalidCredentials)),
            None => None,
        },
    }
}

/// Authenticates `credentials` against the result of looking their username
/// up (`Ok(None)` when no account has it; `Err` with a description when the
/// store failed). A hash is checked whether or not the account exists, the
/// fixed dummy hash standing in for a missing one, so that the two failures
/// cost the same work.
pub fn validate_credentials(credentials: Credentials, stored: Result<Option<User>, String>) -> (r: Result<User, AuthenticationError>)
    ensures
        validation_outcome(stored, credentials.password@) matches Some(o) ==> r == o,
        validation_outcome(stored, credentials.password@) is None ==> r matches Err(AuthenticationError::UnexpectedError(_)),
{
    let found = match stored {
        Err(msg) => return Err(AuthenticationError::UnexpectedError(msg)),
        Ok(found) => found,
    };
    let verdict = match &found {
        Some(user) => verify_password_hash(user.password.as_str(), credentials.password.as_str()),
        None => verify_password_hash(DUMMY_HASH, credentials.password.as_str()),
    };
    match found {
        None => Err(AuthenticationError::InvalidCredentials),
        Some(user) => match verdict {
            Some(true) => Ok(user),
            Some(false) => Err(AuthenticationError::InvalidCredentials),
            None => Err(AuthenticationError::UnexpectedError("Failed to parse hash in PHC string format.".to_owned())),
        },
    }
}

/// A password that an account was registered with authenticates it, and the
/// account handed back is the stored one, identifier included.
pub proof fn lemma_registered_password_accepted(user: User, password: Seq<char>)
    requires
        hash_of_password(user.password@, password),
    ensures
        validation_outcome(Ok(Some(user)), password) == Some(Ok::<User, AuthenticationError>(user)),
{
}

/// Against a hash that registration wrote, any password Argon2 takes is
/// either accepted, handing back the stored account, or refused with
/// `InvalidCredentials`: never a fault.
pub proof fn lemma_registered_hash_never_faults(user: User, password: Seq<char>, candidate: Seq<char>)
    requires
        hash_of_password(user.password@, password),
        usable_password(candidate),
    ensures
        validation_outcome(Ok(Some(user)), candidate) == Some(Ok::<User, AuthenticationError>(user))
            || validation_outcome(Ok(Some(user)), candidate) == Some(
            Err::<User, AuthenticationError>(AuthenticationError::InvalidCredentials),
        ),
{
    assert(phc_verdict(user.password@, candidate) is Some);
}

/// A password that a registered hash does not accept fails with
/// `InvalidCredentials`, exactly as any password for an unknown username
/// does.
pub proof fn lemma_wrong_password_like_unknown_user(user: User, password: Seq<char>, wrong: Seq<char>, any: Seq<char>)
    requires
        hash_of_password(user.password@, password),
        usable_password(wrong),
        phc_verdict(user.password@, wrong) != Some(true),
    ensures
        validation_outcome(Ok(Some(user)), wrong) == Some(
            Err::<User, AuthenticationError>(AuthenticationError::InvalidCredentials),
        ),
        validation_outcome(Ok(None), any) == validation_outcome(Ok(Some(user)), wrong),
{
    assert(phc_verdict(user.password@, wrong) is Some);
}

/// A text splits at its first colon in one way only.
pub proof fn lemma_first_colon_split_unique(text: Seq<char>, u1: Seq<char>, p1: Seq<char>, u2: Seq<char>, p2: Seq<char>)
    requires
        split_at_first_colon(text, u1, p1),
        split_at_first_colon(text, u2, p2),
    ensures
        u1 == u2 && p1 == p2,
{
    let a = u1.len() as int;
    let b = u2.len() as int;
    if a < b {
        assert(text[a] == ':');
        assert(text[a] == u2[a]);
        assert(u2.contains(':'));
    } else if b < a {
        assert(text[b] == ':');
        assert(text[b] == u1[b]);
        assert(u1.contains(':'));
    }
    assert(u1 =~= text.subrange(0, a));
    assert(u2 =~= text.subrange(0, b));
    assert(p1 =~= text.subrange(a + 1, text.len() as int));
    assert(p2 =~= text.subrange(b + 1, text.len() as int));
}

/// A Basic header that carries a registered username and the password it
/// was registered with logs that account in: extraction yields exactly that
/// username and password, and validation hands back the stored account.
pub proof fn lemma_basic_login_accepted(header: Seq<char>, user: User, password: Seq<char>)
    requires
        basic_payload(header) == Some(user.username@ + seq![':'] + password),
        !user.username@.contains(':'),
        hash_of_password(user.password@, password),
    ensures
        forall|u: Seq<char>, p: Seq<char>|
            #[trigger] split_at_first_colon(basic_payload(header)->0, u, p) ==> u == user.username@ && p == password,
        validation_outcome(Ok(Some(user)), password) == Some(Ok::<User, AuthenticationError>(user)),
{
    let text = basic_payload(header)->0;
    assert(split_at_first_colon(text, user.username@, password));
    assert forall|u: Seq<char>, p: Seq<char>| #[trigger] split_at_first_colon(text, u, p) implies u == user.username@
        && p == password by {
        lemma_first_colon_split_unique(text, u, p, user.username@, password);
    }
}

} // verus!
