//! The password verifier: checks a plaintext password against a stored
//! hash produced by a memory-hard, salted hashing scheme.
//!
//! The stored hash is a self-describing encoded string; algorithm, version,
//! parameters and salt are read from the string itself, so verification
//! needs no global configuration. Its outcome is named by two
//! uninterpreted spec functions, and everything downstream of the call is
//! proved against those names.

use vstd::prelude::*;

use argon2::PasswordVerifier;

verus! {

/// Whether a stored hash string is usable by the verifier: it parses as a
/// self-describing encoded hash, and names a supported algorithm, version
/// and parameter set. Uninterpreted: it names the outcome of the hash
/// parsing that `verify` performs.
pub uninterp spec fn hash_wellformed(hash: Seq<char>) -> bool;

/// Whether a password matches a usable stored hash: hashing the password
/// with the salt and parameters encoded in the hash reproduces the digest
/// encoded there. Uninterpreted: it names the outcome of the verification
/// that `verify` performs, a function of its two arguments alone.
pub uninterp spec fn password_matches(password: Seq<u8>, hash: Seq<char>) -> bool;

/// How verification can fail. A malformed stored hash is a data-integrity
/// fault, never attributable to the user; a mismatch is attributable to
/// the user. Callers map the two to different outward signals.
#[derive(Clone, Copy, Debug, PartialEq, Eq, Structural)]
pub enum VerifyError {
    /// The stored hash could not be parsed or is otherwise unusable.
    HashMalformed,
    /// The hash is usable but the password does not match it.
    PasswordMismatch,
}

/// Relies on argon2's `Argon2::verify_password` taking a PHC-encoded hash
/// string: with no keying secret the outcome is a function of the password
/// bytes and the hash string alone. Its `PasswordInvalid` error is the
/// mismatch case (a password the scheme rejects outright, such as one
/// beyond the scheme's length cap, counts as not matching); every other
/// error arises from the stored hash string, including a memory cost this
/// process cannot satisfy.
#[verifier::external_body]
pub fn verify(plaintext: &[u8], stored_hash: &str) -> (r: Result<(), VerifyError>)
    ensures
        match r {
            Ok(()) => hash_wellformed(stored_hash@) && password_matches(plaintext@, stored_hash@),
            Err(VerifyError::PasswordMismatch) => hash_wellformed(stored_hash@)
                && !password_matches(plaintext@, stored_hash@),
            Err(VerifyError::HashMalformed) => !hash_wellformed(stored_hash@),
        },
{
    match argon2::Argon2::default().verify_password(plaintext, stored_hash) {
        Ok(()) => Ok(()),
        Err(argon2::password_hash::Error::PasswordInvalid) => Err(VerifyError::PasswordMismatch),
        Err(_) => Err(VerifyError::HashMalformed),
    }
}

} // verus!
