//! Password hashing and verification, through Argon2 with its default
//! parameters. The algorithm's output is a function of the password and
//! the salt alone, but takes pages to state, so it only gets names:
//! `argon2_encoded` for the encoded hash, `argon2_matches` for the
//! verification verdict, and `argon2_verifiable` for whether a stored
//! string can be verified at all. The contracts here say how they relate.

use vstd::prelude::*;
use crate::errors::ApiError;
use crate::errors::hash_error_view;
use crate::errors::verify_error_view;
use crate::fresh::random_salt;
use crate::model::User;

verus! {

/// The encoded hash that Argon2, under its default configuration, derives
/// from a password and a salt.
pub uninterp spec fn argon2_encoded(password: Seq<char>, salt: Seq<u8>) -> Seq<char>;

/// Whether Argon2 verification accepts `password` against the encoded
/// hash `encoded`.
pub uninterp spec fn argon2_matches(encoded: Seq<char>, password: Seq<char>) -> bool;

/// Whether Argon2 verification can process an encoded hash at all: the
/// string decodes and its embedded parameters pass validation. This is a
/// property of the encoded string alone; everything Argon2 itself encodes
/// has it.
pub uninterp spec fn argon2_verifiable(encoded: Seq<char>) -> bool;

/// Whether a string is an encoded hash that Argon2 could have produced
/// from some password and some salt of valid length.
pub open spec fn is_argon2_encoding(encoded: Seq<char>) -> bool {
    exists|p: Seq<char>, s: Seq<u8>| 8 <= s.len() <= 0xFFFF_FFFF && encoded == argon2_encoded(p, s)
}

/// Relies on `argon2::hash_encoded` with `Config::default()`: on success
/// the result is the encoded hash of exactly this password and salt, it
/// verifies against the same password, begins with `'$'`, and decodes
/// back, so later verification accepts it. The call
/// validates only lengths, so it succeeds with a salt of 8 to 2^32 - 1
/// bytes and a password of at most 2^30 - 1 characters (UTF-8 spends at
/// most four bytes per character, so the byte length stays in range).
#[verifier::external_body]
fn argon2_hash_encoded(password: &str, salt: &[u8]) -> (r: Result<String, ()>)
    ensures
        r is Ok ==> r->Ok_0@ == argon2_encoded(password@, salt@),
        r is Ok ==> argon2_matches(r->Ok_0@, password@),
        r is Ok ==> r->Ok_0@.len() > 0 && r->Ok_0@[0] == '$',
        r is Ok ==> argon2_verifiable(r->Ok_0@),
        8 <= salt@.len() <= 0xFFFF_FFFF && password@.len() <= 0x3FFF_FFFF ==> r is Ok,
{
    match argon2::hash_encoded(password.as_bytes(), salt, &argon2::Config::default()) {
        Ok(encoded) => Ok(encoded),
        Err(_) => Err(()),
    }
}

/// Relies on `argon2::verify_encoded`: reports whether the password
/// matches the encoded hash. It fails exactly when the encoded string
/// cannot be decoded or its embedded parameters are rejected — a fact of
/// the encoded string alone, named `argon2_verifiable` — so on anything
/// Argon2 itself encoded it succeeds, provided the candidate password is
/// at most 2^30 - 1 characters (UTF-8 spends at most four bytes per
/// character, keeping the byte length in range).
#[verifier::external_body]
fn argon2_verify_encoded(encoded: &str, password: &str) -> (r: Result<bool, ()>)
    ensures
        r is Ok ==> r->Ok_0 == argon2_matches(encoded@, password@),
        !argon2_verifiable(encoded@) ==> r is Err,
        argon2_verifiable(encoded@) && password@.len() <= 0x3FFF_FFFF ==> r is Ok,
        is_argon2_encoding(encoded@) && password@.len() <= 0x3FFF_FFFF ==> r is Ok,
{
    match argon2::verify_encoded(encoded, password.as_bytes()) {
        Ok(matched) => Ok(matched),
        Err(_) => Err(()),
    }
}

/// Hash a password under a freshly drawn 32-byte salt. The result, when
/// the call succeeds, is the Argon2 encoding of the given password under
/// that salt, and verifies against the given password.
pub(crate) fn hash_to_encoded(password: &str) -> (r: Result<String, ApiError>)
    ensures
        r is Ok ==> (exists|s: Seq<u8>|
            8 <= s.len() <= 0xFFFF_FFFF && r->Ok_0@ == argon2_encoded(password@, s)),
        r is Ok ==> argon2_matches(r->Ok_0@, password@),
        r is Ok ==> is_argon2_encoding(r->Ok_0@),
        r is Ok ==> argon2_verifiable(r->Ok_0@),
        r is Ok ==> r->Ok_0@.len() > 0 && r->Ok_0@[0] == '$',
        r is Err ==> r->Err_0@ == hash_error_view(),
        password@.len() <= 0x3FFF_FFFF ==> r is Ok,
{
    let salt = random_salt();
    match argon2_hash_encoded(password, salt.as_slice()) {
        Ok(encoded) => {
            proof {
                assert(8 <= salt@.len() <= 0xFFFF_FFFF && encoded@ == argon2_encoded(
                    password@,
                    salt@,
                ));
            }
            Ok(encoded)
        },
        Err(_) => Err(ApiError::hash_error()),
    }
}

impl User {
    /// Replace the plaintext password field with its Argon2 hash under a
    /// fresh salt; every other field is kept, and the hash differs from
    /// any plaintext that does not itself begin with `'$'`. With a
    /// password of fewer than 2^30 characters the call always succeeds.
    /// Hashing happens exactly once, at account creation, before the row
    /// is stored.
    pub fn hash_password(&mut self) -> (r: Result<(), ApiError>)
        ensures
            r is Ok ==> (exists|s: Seq<u8>|
                8 <= s.len() <= 0xFFFF_FFFF
                && final(self).password@ == argon2_encoded(old(self).password@, s)),
            r is Ok ==> argon2_matches(final(self).password@, old(self).password@),
            r is Ok ==> is_argon2_encoding(final(self).password@),
            r is Ok ==> argon2_verifiable(final(self).password@),
            r is Ok ==> final(self).password@.len() > 0 && final(self).password@[0] == '$',
            r is Ok && (old(self).password@.len() == 0 || old(self).password@[0] != '$')
                ==> final(self).password@ != old(self).password@,
            old(self).password@.len() <= 0x3FFF_FFFF ==> r is Ok,
            final(self).id == old(self).id,
            final(self).email == old(self).email,
            final(self).name == old(self).name,
            final(self).created_at == old(self).created_at,
            final(self).updated_at == old(self).updated_at,
            r is Err ==> *final(self) == *old(self) && r->Err_0@ == hash_error_view(),
    {
        let hashed = hash_to_encoded(self.password.as_str());
        match hashed {
            Ok(encoded) => {
                proof {
                    if old(self).password@.len() == 0 {
                        assert(encoded@.len() != old(self).password@.len());
                    } else if old(self).password@[0] != '$' {
                        assert(encoded@[0] != old(self).password@[0]);
                    }
                }
                self.password = encoded;
                Ok(())
            },
            Err(e) => Err(e),
        }
    }

    /// Check a candidate password against the stored (hashed) one. The
    /// verdict is exactly Argon2's — a mismatch is `Ok(false)`, never an
    /// error — and the call fails, with the 500 verification error, exactly
    /// when the stored field cannot be processed as an encoding at all.
    pub fn verify_password(&self, password: &str) -> (r: Result<bool, ApiError>)
        ensures
            r is Ok ==> r->Ok_0 == argon2_matches(self.password@, password@),
            argon2_verifiable(self.password@) && password@.len() <= 0x3FFF_FFFF ==> r is Ok,
            is_argon2_encoding(self.password@) && password@.len() <= 0x3FFF_FFFF ==> r is Ok,
            !argon2_verifiable(self.password@) ==> r is Err,
            r is Err ==> r->Err_0@ == verify_error_view(),
    {
        match argon2_verify_encoded(self.password.as_str(), password) {
            Ok(matched) => Ok(matched),
            Err(_) => Err(ApiError::verify_error()),
        }
    }
}

} // verus!
