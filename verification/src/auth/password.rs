//! One-way hashing of secrets, and the check of a secret against a hash.

use crate::secret::Secret;
use argon2::password_hash::rand_core::OsRng;
use argon2::password_hash::rand_core::RngCore;
use argon2::password_hash::PasswordHash;
use argon2::password_hash::PasswordHasher;
use argon2::password_hash::PasswordVerifier;
use argon2::password_hash::Salt;
use argon2::password_hash::SaltString;
use argon2::Argon2;
use vstd::prelude::*;

verus! {

/// Why a secret could not be hashed.
#[derive(Debug)]
pub enum PasswordError {
    /// The hashing function itself reported a failure.
    Argon2Error,
}

/// The error type of the `password-hash` crate.
#[verifier::external_type_specification]
#[verifier::external_body]
pub struct ExPasswordHashError(argon2::password_hash::Error);

/// Whether Argon2 accepts `password` for the hash string `hash`: the string
/// parses as a PHC hash, and hashing the password again with the salt and
/// parameters written in it gives the output written in it. It is false
/// where the string does not parse and where Argon2 reports an error.
pub uninterp spec fn argon2_verifies(password: Seq<char>, hash: Seq<char>) -> bool;

/// The hash string that Argon2, with its default settings, writes for
/// `password` under the salt `salt`, given in the Base64 of PHC strings, or
/// nothing where it reports an error.
pub uninterp spec fn argon2_hashed(password: Seq<char>, salt: Seq<char>) -> Option<Seq<char>>;

/// Whether a password is longer than Argon2 takes: more than 4 GiB of
/// UTF-8.
pub open spec fn exceeds_argon2(password: Seq<char>) -> bool {
    vstd::utf8::encode_utf8(password).len() > 0xFFFF_FFFF
}

/// Whether `hash`, the hash string of `password` under `salt`, tells its
/// salt: no other salt gives the same string for that password.
pub open spec fn salt_written_in(password: Seq<char>, salt: Seq<char>, hash: Seq<char>) -> bool {
    forall|other: Seq<char>| #[trigger]
        argon2_hashed(password, other) == Some(hash) ==> other == salt
}

/// Draws a salt from the operating system. Calls `OsRng::try_fill_bytes`
/// for 16 bytes and `SaltString::encode_b64` to write them as text. The
/// salt differs from call to call, and the draw may fail, so nothing is
/// said of what comes back.
#[verifier::external_body]
fn draw_salt() -> Result<String, argon2::password_hash::Error> {
    let mut bytes = [0u8; Salt::RECOMMENDED_LENGTH];
    OsRng.try_fill_bytes(&mut bytes).map_err(|_| argon2::password_hash::Error::Crypto)?;
    Ok(SaltString::encode_b64(&bytes)?.as_str().to_owned())
}

/// Hashes a password under a given salt. Calls `Salt::from_b64` to read
/// the salt and `Argon2::hash_password` with the default settings, and
/// writes the result as a PHC string. The string is not empty, it holds
/// the salt as it was given, so that no other salt gives the same string,
/// and `Argon2::verify_password` accepts the same password for it. A
/// password of more than `MAX_PWD_LEN` bytes is refused.
#[verifier::external_body]
fn argon2_hash(password: &str, salt: &str) -> (hashed: Result<String, argon2::password_hash::Error>)
    ensures
        hashed matches Ok(hash) ==> argon2_hashed(password@, salt@) == Some(hash@),
        hashed is Err ==> argon2_hashed(password@, salt@) is None,
        hashed matches Ok(hash) ==> argon2_verifies(password@, hash@),
        hashed matches Ok(hash) ==> hash@.len() > 0,
        hashed matches Ok(hash) ==> salt_written_in(password@, salt@, hash@),
        exceeds_argon2(password@) ==> hashed is Err,
{
    let salt = Salt::from_b64(salt)?;
    Ok(Argon2::default().hash_password(password.as_bytes(), salt)?.to_string())
}

/// Checks a password against a hash string. Calls `PasswordHash::new` to
/// parse the string and `Argon2::verify_password` to compare, and hands
/// back what they report: `Ok` where the password is accepted, and the
/// error of either where it is not.
#[verifier::external_body]
fn argon2_verify(password: &str, hash: &str) -> (checked: Result<(), argon2::password_hash::Error>)
    ensures
        checked is Ok <==> argon2_verifies(password@, hash@),
{
    let parsed = PasswordHash::new(hash)?;
    Argon2::default().verify_password(password.as_bytes(), &parsed)
}

/// What hashing a secret under a given salt comes to: the hash string that
/// Argon2 writes, or the error where it writes none.
pub open spec fn hashed_with(password: Seq<char>, salt: Seq<char>, hashed: Result<
    String,
    PasswordError,
>) -> bool {
    match argon2_hashed(password, salt) {
        Some(text) => hashed matches Ok(hash) && hash@ == text,
        None => hashed matches Err(PasswordError::Argon2Error),
    }
}

/// Derives the memory-hard hash of the secret under the salt `salt`, given
/// in the Base64 of PHC strings.
///
/// The hash is the one that the secret and the salt determine. A salt that
/// cannot be read and a secret of more than 4 GiB give `Argon2Error`. A hash
/// that comes back is one that [`verify_password`] accepts the same secret
/// for.
pub fn hash_password_with_salt(password: Secret, salt: &str) -> (hashed: Result<
    String,
    PasswordError,
>)
    ensures
        hashed_with(password@, salt@, hashed),
        hashed matches Ok(hash) ==> argon2_verifies(password@, hash@),
        hashed matches Ok(hash) ==> hash@.len() > 0,
        hashed matches Ok(hash) ==> salt_written_in(password@, salt@, hash@),
        exceeds_argon2(password@) ==> hashed matches Err(PasswordError::Argon2Error),
{
    match argon2_hash(password.expose(), salt) {
        Ok(hash) => Ok(hash),
        Err(_) => Err(PasswordError::Argon2Error),
    }
}

/// Derives a salted, memory-hard hash of the secret.
///
/// Every call draws a fresh salt, so two calls on one secret give different
/// strings wherever the two salts differ. What comes back is what
/// [`hash_password_with_salt`] gives for the salt that was drawn, or
/// `Argon2Error` where none could be drawn.
/// Whatever string comes back, [`verify_password`] accepts the same secret
/// for it. A secret of more than 4 GiB is never hashed.
pub fn hash_password(password: Secret) -> (hashed: Result<String, PasswordError>)
    ensures
        hashed matches Ok(hash) ==> exists|salt: Seq<char>|
            #[trigger] argon2_hashed(password@, salt) == Some(hash@) && salt_written_in(
                password@,
                salt,
                hash@,
            ),
        hashed matches Ok(hash) ==> argon2_verifies(password@, hash@),
        hashed matches Ok(hash) ==> hash@.len() > 0,
        hashed matches Err(reason) ==> reason is Argon2Error,
        exceeds_argon2(password@) ==> hashed is Err,
{
    match draw_salt() {
        Ok(salt) => {
            let hashed = hash_password_with_salt(password, salt.as_str());
            proof {
                if hashed is Ok {
                    assert(argon2_hashed(password@, salt@) == Some(hashed.unwrap()@));
                }
            }
            hashed
        },
        Err(_) => Err(PasswordError::Argon2Error),
    }
}

/// Decides on what the check of a secret reported. Only a check that
/// reported no error accepts the secret: a malformed hash, a failure inside
/// the hashing function and a mismatch are all refusals.
pub fn fail_closed(checked: Result<(), argon2::password_hash::Error>) -> (accepted: bool)
    ensures
        accepted == checked is Ok,
{
    match checked {
        Ok(_) => true,
        Err(_) => false,
    }
}

/// Checks the secret against a stored hash.
///
/// Fails closed: a malformed hash, a failure inside the hashing function and
/// a mismatch all give `false`.
pub fn verify_password(password: Secret, hash: &str) -> (accepted: bool)
    ensures
        accepted == argon2_verifies(password@, hash@),
{
    fail_closed(argon2_verify(password.expose(), hash))
}

/// Two salts give two hash strings: where a secret is hashed under two
/// different salts, as two calls of [`hash_password`] do whenever their
/// draws differ, the hashes differ.
pub proof fn lemma_two_salts_two_hashes(
    password: Seq<char>,
    first_salt: Seq<char>,
    second_salt: Seq<char>,
    first: Seq<char>,
    second: Seq<char>,
)
    requires
        argon2_hashed(password, first_salt) == Some(first),
        argon2_hashed(password, second_salt) == Some(second),
        salt_written_in(password, first_salt, first),
        first_salt != second_salt,
    ensures
        first != second,
{
}

} // verus!
