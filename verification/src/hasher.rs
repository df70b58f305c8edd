//! Hashing and checking of passwords with PBKDF2-HMAC-SHA256.
//!
//! A password is stored as a record in PHC string format, which names the
//! algorithm and holds its parameters, the salt and the digest.
use vstd::prelude::*;

use crate::err::{Error, ErrorView, InternalKind};

verus! {

/// What `Pbkdf2.hash_password` of the pbkdf2 crate makes of a password and a
/// salt: the record as text, or the text of the error it reports.
pub uninterp spec fn pbkdf2_record(password: Seq<u8>, salt: Seq<char>) -> Result<
    Seq<char>,
    Seq<char>,
>;

/// The text of the error with which `PasswordHash::new` of the
/// password-hash crate refuses a record, or `None` for a record that it
/// parses.
pub uninterp spec fn phc_refusal(record: Seq<char>) -> Option<Seq<char>>;

/// Whether `Pbkdf2.verify_password` finds that a record which parses was
/// made from the password.
pub uninterp spec fn pbkdf2_accepts(password: Seq<u8>, record: Seq<char>) -> bool;

/// What the check of a record comes to: the refusal of the record if it has
/// one, else whether the password was accepted.
pub open spec fn verdict_of(refusal: Option<Seq<char>>, accepted: bool) -> Result<
    bool,
    Seq<char>,
> {
    match refusal {
        Some(text) => Err(text),
        None => Ok(accepted),
    }
}

/// Whether `record` can be read and was made from `password`.
pub open spec fn accepts(record: Seq<char>, password: Seq<u8>) -> bool {
    phc_refusal(record) is None && pbkdf2_accepts(password, record)
}

/// The outcome of deriving a record, as contracts see it.
pub open spec fn record_text(r: Result<String, String>) -> Result<Seq<char>, Seq<char>> {
    match r {
        Ok(record) => Ok(record@),
        Err(text) => Err(text@),
    }
}

/// The outcome of checking a record, as contracts see it.
pub open spec fn verdict_text(r: Result<bool, String>) -> Result<bool, Seq<char>> {
    match r {
        Ok(accepted) => Ok(accepted),
        Err(text) => Err(text@),
    }
}

/// Calls `Pbkdf2.hash_password` with the crate's default parameters and
/// writes the hash out as a PHC string; an error is handed back as the text
/// it displays.
///
/// Believed of the pbkdf2 crate: the outcome depends on the password and the
/// salt alone, and, as its documentation shows, a record that it returns
/// parses again and is accepted for the same password.
#[verifier::external_body]
fn derive_record(password: &[u8], salt: &str) -> (r: Result<String, String>)
    ensures
        record_text(r) == pbkdf2_record(password@, salt@),
        r is Ok ==> phc_refusal(r->Ok_0@) is None,
        r is Ok ==> pbkdf2_accepts(password@, r->Ok_0@),
{
    match pbkdf2::password_hash::PasswordHasher::hash_password(&pbkdf2::Pbkdf2, password, salt) {
        Ok(hash) => Ok(hash.to_string()),
        Err(e) => Err(e.to_string()),
    }
}

/// Parses the record with `PasswordHash::new` and checks the password
/// against it with `Pbkdf2.verify_password`; a record that does not parse is
/// reported as the text that the error displays.
///
/// Believed of the two crates: whether and how a record is refused depends
/// on the record alone, and whether a record that parses is accepted depends
/// on the password and the record alone.
#[verifier::external_body]
fn check_record(password: &[u8], record: &str) -> (r: Result<bool, String>)
    ensures
        verdict_text(r) == verdict_of(phc_refusal(record@), pbkdf2_accepts(password@, record@)),
{
    match pbkdf2::password_hash::PasswordHash::new(record) {
        Ok(parsed) => Ok(
            pbkdf2::password_hash::PasswordVerifier::verify_password(
                &pbkdf2::Pbkdf2,
                password,
                &parsed,
            ).is_ok(),
        ),
        Err(e) => Err(e.to_string()),
    }
}

/// Whether hashing under `salt` succeeds, whatever the password.
pub open spec fn usable_salt(salt: Seq<char>) -> bool {
    forall|password: Seq<u8>| (#[trigger] pbkdf2_record(password, salt)) is Ok
}

/// Draws a salt with `SaltString::generate` from the operating system's
/// random number generator.
///
/// Believed of the password-hash and pbkdf2 crates: a generated salt is
/// sixteen bytes in unpadded Base64, which `Pbkdf2.hash_password` takes for
/// every password. Which salt comes back is left open.
#[verifier::external_body]
pub(crate) fn fresh_salt() -> (salt: String)
    ensures
        forall|password: Seq<u8>| (#[trigger] pbkdf2_record(password, salt@)) is Ok,
{
    pbkdf2::password_hash::SaltString::generate(&mut rand_core::OsRng).as_str().to_owned()
}

/// The failure with which a fault of the hasher is reported.
pub open spec fn crypto_failure(text: Seq<char>) -> ErrorView {
    ErrorView::InternalError { kind: InternalKind::CryptoError, message: text }
}

/// The record of `password` under `salt`, or the failure to make one.
pub open spec fn hashed(password: Seq<u8>, salt: Seq<char>) -> Result<Seq<char>, ErrorView> {
    match pbkdf2_record(password, salt) {
        Ok(record) => Ok(record),
        Err(text) => Err(crypto_failure(text)),
    }
}

/// Whether `record` was made from `password`, or the failure to read the
/// record. Whether a record can be read does not depend on the password.
pub open spec fn verified(password: Seq<u8>, record: Seq<char>) -> Result<bool, ErrorView> {
    match phc_refusal(record) {
        None => Ok(pbkdf2_accepts(password, record)),
        Some(text) => Err(crypto_failure(text)),
    }
}

/// Hashes a password under a salt.
///
/// The record is a function of the two arguments. A record that is returned
/// is accepted by [`verify`] for the same password, whatever the salt.
pub fn hash(password: &[u8], salt: &str) -> (r: Result<String, Error>)
    ensures
        match r {
            Ok(record) => hashed(password@, salt@) == Ok::<Seq<char>, ErrorView>(record@),
            Err(e) => hashed(password@, salt@) == Err::<Seq<char>, ErrorView>(e@),
        },
        r matches Ok(record) ==> verified(password@, record@) == Ok::<bool, ErrorView>(true),
{
    match derive_record(password, salt) {
        Ok(record) => Ok(record),
        Err(text) => Err(Error::internal(InternalKind::CryptoError, text)),
    }
}

/// Checks a password against a stored record.
///
/// A password that does not match gives `Ok(false)`; only a record that
/// cannot be read gives an error.
pub fn verify(password: &[u8], record: &str) -> (r: Result<bool, Error>)
    ensures
        match r {
            Ok(accepted) => verified(password@, record@) == Ok::<bool, ErrorView>(accepted),
            Err(e) => verified(password@, record@) == Err::<bool, ErrorView>(e@),
        },
{
    match check_record(password, record) {
        Ok(accepted) => Ok(accepted),
        Err(text) => Err(Error::internal(InternalKind::CryptoError, text)),
    }
}

} // verus!
