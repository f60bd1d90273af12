//! Salted, memory-hard password hashes in the self-describing PHC string
//! format, computed and checked with Argon2.
use vstd::prelude::*;
use vstd::utf8::encode_utf8;

verus! {

/// Memory cost, in KiB, of every hash this service writes.
pub const M_COST: u32 = 15000;

/// Number of passes of every hash this service writes.
pub const T_COST: u32 = 2;

/// Degree of parallelism of every hash this service writes.
pub const P_COST: u32 = 1;

/// The hash checked when a username is unknown, so that an unknown name costs
/// as much work as a wrong password.
pub const DUMMY_HASH: &'static str = "$argon2id$v=19$m=15000,t=2,p=1$gZiV/M1gPc22ElAH/Jh1Hw$CWOrkoo7oJBQ/iyh7uJ0LO2aLEfrHwTWllSAxT0zRno";

/// The PHC string that Argon2id (version 0x13) gives for a password, a salt
/// and cost parameters.
pub uninterp spec fn argon2id_phc(password: Seq<char>, salt: Seq<char>, m_cost: u32, t_cost: u32, p_cost: u32) -> Seq<char>;

/// What checking a password against a PHC string gives: `None` when the
/// string does not parse, else whether the password matches it.
pub uninterp spec fn phc_verdict(hash: Seq<char>, password: Seq<char>) -> Option<bool>;

/// The bytes that a PHC salt string stands for (its B64 decoding), or `None`
/// when the string is no valid salt.
pub uninterp spec fn phc_salt_bytes(salt: Seq<char>) -> Option<Seq<u8>>;

/// The decimal text of a number, without leading zeros.
pub open spec fn decimal_text(n: nat) -> Seq<char>
    decreases n,
{
    if n < 10 {
        seq![((48 + n) as u8) as char]
    } else {
        decimal_text(n / 10).push(((48 + n % 10) as u8) as char)
    }
}

/// The start of the PHC string of an Argon2id (version 0x13) hash with these
/// costs and salt: everything before the encoded digest.
pub open spec fn phc_prefix(salt: Seq<char>, m_cost: u32, t_cost: u32, p_cost: u32) -> Seq<char> {
    "$argon2id$v=19$m="@ + decimal_text(m_cost as nat) + ",t="@ + decimal_text(t_cost as nat) + ",p="@
        + decimal_text(p_cost as nat) + "$"@ + salt + "$"@
}

/// Whether `hash` starts with `prefix` and has more after it.
pub open spec fn extends(hash: Seq<char>, prefix: Seq<char>) -> bool {
    hash.len() > prefix.len() && hash.subrange(0, prefix.len() as int) == prefix
}

/// Costs that argon2's `ParamsBuilder` accepts.
pub open spec fn valid_costs(m_cost: u32, t_cost: u32, p_cost: u32) -> bool {
    &&& 8 <= m_cost <= 0x0FFFFFFF
    &&& 1 <= t_cost
    &&& 1 <= p_cost <= 0xFFFFFF
    &&& m_cost >= 8 * p_cost
}

/// A salt that Argon2 hashes with: valid PHC B64 of at least 8 bytes.
pub open spec fn usable_salt(salt: Seq<char>) -> bool {
    phc_salt_bytes(salt) matches Some(b) && b.len() >= 8
}

/// A password that Argon2 takes: at most `u32::MAX` bytes of UTF-8.
pub open spec fn usable_password(password: Seq<char>) -> bool {
    encode_utf8(password).len() <= u32::MAX
}

/// Relies on argon2's `Params::new`, `Argon2::new` and
/// `PasswordHasher::hash_password`: Argon2id, version 0x13, with the given
/// costs, written as a PHC string. `Params::new` fails only outside the
/// bounds of `ParamsBuilder`; `hash_password` fails only on a salt that
/// `Salt::new` and `b64_decode` refuse or that decodes to fewer than
/// `MIN_SALT_LEN` (8) bytes, and on a password longer than `MAX_PWD_LEN`.
/// `PasswordHash`'s `Display` writes `$argon2id$v=19$m=..,t=..,p=..$`, the
/// salt as given, `$` and the digest. `PasswordVerifier::verify_password`
/// re-hashes with the algorithm, version, costs and salt that the string
/// holds, so the string accepts the password it was made from, and gives a
/// verdict, not an error, for every password Argon2 takes.
#[verifier::external_body]
fn argon2id_hash(password: &str, salt: &str, m_cost: u32, t_cost: u32, p_cost: u32) -> (r: Option<String>)
    ensures
        r matches Some(h) ==> h@ == argon2id_phc(password@, salt@, m_cost, t_cost, p_cost)
            && phc_verdict(h@, password@) == Some(true),
        r is Some ==> extends(r->0@, phc_prefix(salt@, m_cost, t_cost, p_cost)),
        r is Some ==> forall|q: Seq<char>| usable_password(q) ==> #[trigger] phc_verdict(r->0@, q) is Some,
        r is Some <==> (valid_costs(m_cost, t_cost, p_cost) && usable_salt(salt@) && usable_password(password@)),
{
    let params = argon2::Params::new(m_cost, t_cost, p_cost, None).ok()?;
    let hasher = argon2::Argon2::new(argon2::Algorithm::Argon2id, argon2::Version::V0x13, params);
    argon2::PasswordHasher::hash_password(&hasher, password.as_bytes(), salt).ok().map(|h| h.to_string())
}

/// Relies on `PasswordHash::new`, which parses a PHC string, and on
/// `PasswordVerifier::verify_password` of `Argon2`, which re-hashes the
/// candidate with what the string holds and compares in constant time. A
/// mismatch is `Error::Password`; every other error comes from the string
/// (its syntax, algorithm, version, costs or salt) or from a password longer
/// than Argon2 takes, so for passwords it takes, whether there is a verdict
/// does not depend on the password.
#[verifier::external_body]
fn argon2_verify(hash: &str, password: &str) -> (r: Option<bool>)
    ensures
        r == phc_verdict(hash@, password@),
        forall|q: Seq<char>|
            usable_password(q) && usable_password(password@) ==> (#[trigger] phc_verdict(hash@, q) is None <==> r is None),
{
    let parsed = argon2::PasswordHash::new(hash).ok()?;
    match argon2::PasswordVerifier::verify_password(&argon2::Argon2::default(), password.as_bytes(), &parsed) {
        Ok(()) => Some(true),
        Err(argon2::password_hash::Error::Password) => Some(false),
        Err(_) => None,
    }
}

/// Relies on `SaltString::generate` with rand's thread-local generator, a
/// cryptographically secure one: the B64 text of 16 fresh random bytes.
#[verifier::external_body]
fn fresh_salt() -> (r: String)
    ensures
        phc_salt_bytes(r@) is Some,
        phc_salt_bytes(r@)->0.len() == 16,
{
    argon2::password_hash::SaltString::generate(&mut rand::thread_rng()).as_str().to_string()
}

/// What checking `password` against the stored `hash` gives.
pub fn verify_password_hash(hash: &str, password: &str) -> (r: Option<bool>)
    ensures
        r == phc_verdict(hash@, password@),
        forall|q: Seq<char>|
            usable_password(q) && usable_password(password@) ==> (#[trigger] phc_verdict(hash@, q) is None <==> r is None),
{
    argon2_verify(hash, password)
}

/// The hash of `password` with the given salt, at the production costs.
/// `None` exactly when Argon2 refuses the salt or the password.
pub fn hash_password_with_salt(password: &str, salt: &str) -> (r: Option<String>)
    ensures
        r matches Some(h) ==> h@ == argon2id_phc(password@, salt@, M_COST, T_COST, P_COST),
        r matches Some(h) ==> phc_verdict(h@, password@) == Some(true),
        r is Some ==> extends(r->0@, phc_prefix(salt@, M_COST, T_COST, P_COST)),
        r is Some ==> forall|q: Seq<char>| usable_password(q) ==> #[trigger] phc_verdict(r->0@, q) is Some,
        r is Some <==> usable_salt(salt@) && usable_password(password@),
{
    argon2id_hash(password, salt, M_COST, T_COST, P_COST)
}

/// The hash of `password` with a fresh random salt, at the production costs.
/// It is made for every password that Argon2 takes.
pub fn hash_password(password: &str) -> (r: Option<String>)
    ensures
        r matches Some(h) ==> exists|salt: Seq<char>| h@ == argon2id_phc(password@, salt, M_COST, T_COST, P_COST),
        r matches Some(h) ==> phc_verdict(h@, password@) == Some(true),
        r is Some ==> exists|salt: Seq<char>| extends(r->0@, #[trigger] phc_prefix(salt, M_COST, T_COST, P_COST)),
        r is Some ==> forall|q: Seq<char>| usable_password(q) ==> #[trigger] phc_verdict(r->0@, q) is Some,
        r is Some <==> usable_password(password@),
{
    let salt = fresh_salt();
    hash_password_with_salt(password, salt.as_str())
}

} // verus!
