use vstd::prelude::*;

use argon2::password_hash::rand_core::OsRng;
use argon2::password_hash::SaltString;
use argon2::{Argon2, PasswordHash, PasswordHasher, PasswordVerifier};

verus! {

/// Whether `argon2::PasswordHash::new` accepts `hash` as a PHC string.
pub uninterp spec fn phc_string_parses(hash: Seq<char>) -> bool;

/// Whether `Argon2::default().verify_password` accepts the UTF-8 bytes of
/// `password` against the parsed PHC string `hash`.
pub uninterp spec fn argon2_password_matches(password: Seq<char>, hash: Seq<char>) -> bool;

/// The PHC string that `Argon2::default().hash_password` gives for the UTF-8
/// bytes of `password` and the Base64 salt `salt`, or `None` when the salt is not
/// accepted (`SaltString::from_b64`) or hashing fails.
pub uninterp spec fn argon2_phc_hash(password: Seq<char>, salt: Seq<char>) -> Option<Seq<char>>;

/// A fresh random salt: `SaltString::generate(&mut OsRng)`, as its Base64 text.
///
/// The salt comes from the operating system's random source, so its value is
/// not stated; `generate` always encodes 16 random bytes in unpadded Base64,
/// which is 22 characters long. Such a salt is accepted by
/// `SaltString::from_b64` (length 4 to 64, Base64 characters) and decodes back
/// to its 16 bytes, at least the 8 Argon2 asks for; with the default parameters
/// `Argon2::hash_password` then fails only for a password of more than
/// `0xFFFF_FFFF` bytes (`verify_inputs`), which a password of at most
/// `0x3FFF_FFFF` characters cannot reach in UTF-8. So hashing any such password
/// with the drawn salt succeeds.
#[verifier::external_body]
pub(crate) fn generate_salt() -> (r: String)
    ensures
        r@.len() == 22,
        forall|password: Seq<char>| password.len() <= 0x3FFF_FFFF
            ==> (#[trigger] argon2_phc_hash(password, r@)) is Some,
{
    SaltString::generate(&mut OsRng).as_str().to_string()
}

/// Argon2 with default parameters (`Argon2::default().hash_password`) applied to
/// `password` and the Base64 salt `salt` (read with `SaltString::from_b64`); the
/// hash is returned as its PHC string.
///
/// The result is the named `argon2_phc_hash`. When it succeeds, the PHC string
/// parses again and verifies the same password: `verify_password` recomputes the
/// hash with the algorithm, version, parameters and salt written in the string
/// and compares the outputs.
#[verifier::external_body]
pub(crate) fn hash_password(password: &str, salt: &str) -> (r: Result<String, ()>)
    ensures
        (r is Err) == (argon2_phc_hash(password@, salt@) is None),
        r matches Ok(h) ==> {
            &&& argon2_phc_hash(password@, salt@) == Some(h@)
            &&& phc_string_parses(h@)
            &&& argon2_password_matches(password@, h@)
        },
{
    let salt = match SaltString::from_b64(salt) {
        Ok(s) => s,
        Err(_) => return Err(()),
    };
    match Argon2::default().hash_password(password.as_bytes(), &salt) {
        Ok(h) => Ok(h.to_string()),
        Err(_) => Err(()),
    }
}

/// Checks `password` against the PHC string `hash`: `PasswordHash::new(hash)`,
/// then `Argon2::default().verify_password`. `Err` when the string does not parse,
/// otherwise whether the password matches.
#[verifier::external_body]
pub(crate) fn verify_password(password: &str, hash: &str) -> (r: Result<bool, ()>)
    ensures
        (r is Err) == !phc_string_parses(hash@),
        r matches Ok(b) ==> b == argon2_password_matches(password@, hash@),
{
    match PasswordHash::new(hash) {
        Ok(parsed) => Ok(Argon2::default().verify_password(password.as_bytes(), &parsed).is_ok()),
        Err(_) => Err(()),
    }
}

} // verus!
