//! Accounts: who may log in, and with which password hash.
use vstd::prelude::*;
use crate::password::{
    argon2id_phc, extends, hash_password, hash_password_with_salt, phc_prefix, phc_verdict, usable_password,
    usable_salt, M_COST,
    P_COST, T_COST,
};
use crate::jwt::now_seconds;
use crate::text::{lower_ascii, to_ascii_lowercase};

verus! {

/// `16` to the power `e`.
pub open spec fn pow16(e: nat) -> nat
    decreases e,
{
    if e == 0 {
        1
    } else {
        16 * pow16((e - 1) as nat)
    }
}

/// The lower-case hex digit of a value below sixteen.
pub open spec fn hex_digit(v: nat) -> char {
    if v < 10 {
        ((48 + v) as u8) as char
    } else {
        ((87 + v) as u8) as char
    }
}

/// The `k`-th of the 32 hex digits of `id`, most significant first.
pub open spec fn nibble(id: u128, k: int) -> nat {
    ((id as nat) / pow16((31 - k) as nat)) % 16
}

/// Which hex digit stands at position `i` of the hyphenated text.
pub open spec fn digit_index(i: int) -> int {
    if i < 8 {
        i
    } else if i < 13 {
        i - 1
    } else if i < 18 {
        i - 2
    } else if i < 23 {
        i - 3
    } else {
        i - 4
    }
}

/// The hyphenated, lower-case text of an account identifier: its 32 hex
/// digits in groups of 8, 4, 4, 4 and 12, joined by hyphens.
pub open spec fn uuid_string(id: u128) -> Seq<char> {
    Seq::new(
        36,
        |i: int|
            if i == 8 || i == 13 || i == 18 || i == 23 {
                '-'
            } else {
                hex_digit(nibble(id, digit_index(i)))
            },
    )
}

/// The identifier that a UUID text denotes, if it is one.
pub uninterp spec fn uuid_parsed(text: Seq<char>) -> Option<u128>;

/// A character of the hyphenated lower-case UUID text.
pub open spec fn uuid_char(c: char) -> bool {
    ('0' <= c <= '9') || ('a' <= c <= 'f') || c == '-'
}

/// The text of an identifier is made of hex digits and hyphens.
pub proof fn lemma_uuid_string_chars(id: u128)
    ensures
        uuid_string(id).len() == 36,
        forall|i: int| 0 <= i < 36 ==> uuid_char(#[trigger] uuid_string(id)[i]),
{
    assert forall|i: int| 0 <= i < 36 implies uuid_char(#[trigger] uuid_string(id)[i]) by {
        if !(i == 8 || i == 13 || i == 18 || i == 23) {
            let v = nibble(id, digit_index(i));
            assert(v < 16);
        }
    }
}

/// Relies on `Uuid::from_u128` and uuid's `Display` (`LowerHex` of the
/// hyphenated form), which `Uuid::parse_str` reads back.
#[verifier::external_body]
pub(crate) fn uuid_text(id: u128) -> (r: String)
    ensures
        r@ == uuid_string(id),
        uuid_parsed(r@) == Some(id),
{
    uuid::Uuid::from_u128(id).to_string()
}

/// Relies on `Uuid::parse_str` and `Uuid::as_u128`.
#[verifier::external_body]
pub(crate) fn parse_uuid(text: &str) -> (r: Option<u128>)
    ensures
        r == uuid_parsed(text@),
{
    uuid::Uuid::parse_str(text).ok().map(|u| u.as_u128())
}

/// Relies on `Uuid::new_v4`: a random identifier, nothing more.
#[verifier::external_body]
pub(crate) fn random_uuid() -> (r: u128) {
    uuid::Uuid::new_v4().as_u128()
}

/// A registered account. It has no `Debug`, so that its hash stays out of logs.
#[derive(Clone)]
pub struct User {
    /// Unique identifier, assigned at creation.
    pub id: u128,
    /// Unique, lower-case login name.
    pub username: String,
    /// PHC string of the password; never the password itself.
    pub password: String,
    /// Address for password-reset mail.
    pub email: Option<String>,
}

/// The Unicode lower-case form of a text.
pub uninterp spec fn lowercase_of(s: Seq<char>) -> Seq<char>;

/// Relies on `str::to_lowercase`: the result depends on the characters alone.
#[verifier::external_body]
fn lowercase(s: &str) -> (r: String)
    ensures
        r@ == lowercase_of(s@),
{
    s.to_lowercase()
}

/// Whether `hash` is a PHC string that this service writes for `password`:
/// the Argon2id hash at the production costs under some salt, which accepts
/// `password` and gives a verdict for every password Argon2 takes.
pub open spec fn hash_of_password(hash: Seq<char>, password: Seq<char>) -> bool {
    &&& phc_verdict(hash, password) == Some(true)
    &&& exists|salt: Seq<char>| hash == #[trigger] argon2id_phc(password, salt, M_COST, T_COST, P_COST)
    &&& exists|salt: Seq<char>| extends(hash, #[trigger] phc_prefix(salt, M_COST, T_COST, P_COST))
    &&& forall|q: Seq<char>| usable_password(q) ==> #[trigger] phc_verdict(hash, q) is Some
}

impl User {
    /// Replaces the stored hash with one made from `new_password` under a
    /// fresh salt; the account keeps its identity. This succeeds for every
    /// password that Argon2 takes; otherwise nothing changes.
    pub fn change_password(&mut self, new_password: &str) -> (ok: bool)
        ensures
            ok <==> usable_password(new_password@),
            final(self).id == old(self).id,
            final(self).username@ == old(self).username@,
            final(self).email == old(self).email,
            ok ==> hash_of_password(final(self).password@, new_password@),
            !ok ==> final(self).password@ == old(self).password@,
    {
        match hash_password(new_password) {
            Some(h) => {
                self.password = h;
                true
            },
            None => false,
        }
    }

    /// Replaces the stored hash with the hash of `new_password` under `salt`.
    /// This succeeds exactly when Argon2 takes the salt and the password;
    /// otherwise nothing changes.
    pub fn change_password_with_salt(&mut self, new_password: &str, salt: &str) -> (ok: bool)
        ensures
            ok <==> usable_salt(salt@) && usable_password(new_password@),
            final(self).id == old(self).id,
            final(self).username@ == old(self).username@,
            final(self).email == old(self).email,
            ok ==> final(self).password@ == argon2id_phc(new_password@, salt@, M_COST, T_COST, P_COST),
            ok ==> phc_verdict(final(self).password@, new_password@) == Some(true),
            !ok ==> final(self).password@ == old(self).password@,
    {
        match hash_password_with_salt(new_password, salt) {
            Some(h) => {
                self.password = h;
                true
            },
            None => false,
        }
    }
}

/// A user to be registered: the password is still in clear, and is hashed
/// when the account record is made.
pub struct NewUser {
    pub id: u128,
    pub username: String,
    pub password: String,
    pub email: Option<String>,
}

impl NewUser {
    /// A user with a random identifier, a random username and a random
    /// password (each the text of a random UUID), and no email.
    pub fn default() -> (r: NewUser)
        ensures
            r.username@.len() == 36,
            r.password@.len() == 36,
            r.email is None,
    {
        let id = random_uuid();
        let username = uuid_text(random_uuid());
        let password = uuid_text(random_uuid());
        NewUser { id, username, password, email: None }
    }

    /// A user with a fresh random identifier; the username is folded to
    /// ASCII lower case.
    pub fn new(username: String, password: String, email: Option<String>) -> (r: NewUser)
        ensures
            r.username@ == lower_ascii(username@),
            r.password@ == password@,
            r.email == email,
    {
        let id = random_uuid();
        let username = to_ascii_lowercase(username.as_str());
        NewUser { id, username, password, email }
    }

    /// The account record that registering this user stores: same identifier
    /// and email, the username in lower case, and the password hashed under a
    /// fresh salt. It is made for every password that Argon2 takes.
    pub fn into_user(self) -> (r: Option<User>)
        ensures
            r is Some <==> usable_password(self.password@),
            r matches Some(u) ==> {
                &&& u.id == self.id
                &&& u.username@ == lowercase_of(self.username@)
                &&& hash_of_password(u.password@, self.password@)
                &&& u.email == self.email
            },
    {
        let hash = match hash_password(self.password.as_str()) {
            Some(h) => h,
            None => return None,
        };
        let username = lowercase(self.username.as_str());
        Some(User { id: self.id, username, password: hash, email: self.email })
    }

    /// The account record that registering this user stores, with the
    /// password hashed under `salt`. It is made exactly when Argon2 takes the
    /// salt and the password.
    pub fn into_user_with_salt(self, salt: &str) -> (r: Option<User>)
        ensures
            r is Some <==> usable_salt(salt@) && usable_password(self.password@),
            r matches Some(u) ==> {
                &&& u.id == self.id
                &&& u.username@ == lowercase_of(self.username@)
                &&& u.password@ == argon2id_phc(self.password@, salt@, M_COST, T_COST, P_COST)
                &&& phc_verdict(u.password@, self.password@) == Some(true)
                &&& u.email == self.email
            },
    {
        let hash = match hash_password_with_salt(self.password.as_str(), salt) {
            Some(h) => h,
            None => return None,
        };
        let username = lowercase(self.username.as_str());
        Some(User { id: self.id, username, password: hash, email: self.email })
    }
}

/// A password-reset request: binds a reset link to an account without a
/// login.
pub struct NewForgottenPasswordRequest {
    pub id: u128,
    pub account_id: u128,
    /// When it was made, in seconds since the epoch.
    pub created_at: i64,
}

impl NewForgottenPasswordRequest {
    /// A request with random identifiers, made now.
    pub fn default() -> (r: NewForgottenPasswordRequest)
        ensures
            r.created_at >= 0,
    {
        NewForgottenPasswordRequest { id: random_uuid(), account_id: random_uuid(), created_at: now_seconds() }
    }

    /// A request for the account `account_id`, with a fresh random
    /// identifier, made now.
    pub fn new(account_id: u128) -> (r: NewForgottenPasswordRequest)
        ensures
            r.account_id == account_id,
            r.created_at >= 0,
    {
        NewForgottenPasswordRequest { id: random_uuid(), account_id, created_at: now_seconds() }
    }
}

} // verus!
