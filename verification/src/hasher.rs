use crate::error::AppError;
use vstd::prelude::*;

verus! {

#[verifier::external_type_specification]
#[verifier::external_body]
pub struct ExPasswordHashError(argon2::password_hash::Error);

/// What Argon2 says of `password` against the stored text `stored`:
/// `Some(true)` where the hash recomputed from `password` is the one stored,
/// `Some(false)` where it is not (also where `stored` parses but holds no
/// salt or no hash), `None` where `stored` does not parse as a hash string or
/// names an algorithm, a version or parameters that Argon2 refuses.
pub uninterp spec fn argon2_verdict(password: Seq<char>, stored: Seq<char>) -> Option<bool>;

/// `Argon2::default().hash_password` of the argon2 crate, with a fresh random
/// salt from the operating system. The result is a self-describing hash
/// string; all that is claimed of it is that `password` verifies against it.
#[verifier::external_body]
fn argon2_hash(password: &str) -> (r: Result<String, argon2::password_hash::Error>)
    ensures
        r matches Ok(h) ==> argon2_verdict(password@, h@) == Some(true),
{
    let salt = argon2::password_hash::SaltString::generate(
        &mut argon2::password_hash::rand_core::OsRng,
    );
    let hash = argon2::PasswordHasher::hash_password(
        &argon2::Argon2::default(),
        password.as_bytes(),
        &salt,
    )?;
    Ok(hash.to_string())
}

/// `PasswordHash::new` and `Argon2::default().verify_password` of the argon2
/// crate: parses `stored` and recomputes the hash of `password` with the
/// parameters and salt found in it.
#[verifier::external_body]
fn argon2_verify(password: &str, stored: &str) -> (r: Option<bool>)
    ensures
        r == argon2_verdict(password@, stored@),
{
    let parsed = argon2::PasswordHash::new(stored).ok()?;
    let hasher = argon2::Argon2::default();
    match argon2::PasswordVerifier::verify_password(&hasher, password.as_bytes(), &parsed) {
        Ok(()) => Some(true),
        Err(argon2::password_hash::Error::Password) => Some(false),
        Err(_) => None,
    }
}

/// Hashes and verifies passwords. The server-wide pepper is appended to every
/// password before it is hashed.
#[derive(Clone)]
pub struct Hasher {
    pepper: String,
}

impl Hasher {
    pub closed spec fn pepper(&self) -> Seq<char> {
        self.pepper@
    }

    /// What verifying `plaintext` against `stored` gives under this pepper.
    pub open spec fn verdict(&self, plaintext: Seq<char>, stored: Seq<char>) -> Option<bool> {
        argon2_verdict(plaintext + self.pepper(), stored)
    }

    pub fn new(pepper: String) -> (h: Hasher)
        ensures
            h.pepper() == pepper@,
    {
        Hasher { pepper }
    }

    /// What [`Hasher::hash_password`] returns, given what the hashing call
    /// gave back.
    pub fn hashed(outcome: Result<String, argon2::password_hash::Error>) -> (r: Result<
        String,
        AppError,
    >)
        ensures
            match outcome {
                Ok(h) => r == Ok::<String, AppError>(h),
                Err(_) => r matches Err(AppError::Other(m)) && m@ == "Failed to hash password"@,
            },
    {
        match outcome {
            Ok(h) => Ok(h),
            Err(_) => Err(AppError::Other("Failed to hash password".to_owned())),
        }
    }

    /// Hashes `plaintext` with the pepper and a fresh salt. Every hash that
    /// comes back verifies against the same plaintext under the same pepper;
    /// the only failure is an internal one.
    pub fn hash_password(&self, plaintext: &str) -> (r: Result<String, AppError>)
        ensures
            r matches Ok(h) ==> self.verdict(plaintext@, h@) == Some(true),
            r matches Err(e) ==> e matches AppError::Other(m) && m@
                == "Failed to hash password"@,
    {
        let peppered = plaintext.to_owned().concat(self.pepper.as_str());
        Self::hashed(argon2_hash(peppered.as_str()))
    }

    /// Whether `plaintext` is the password behind `stored`. A mismatch is
    /// `Ok(false)`; only a stored hash that cannot be read is an error.
    pub fn verify_password(&self, plaintext: &str, stored: &str) -> (r: Result<bool, AppError>)
        ensures
            match self.verdict(plaintext@, stored@) {
                Some(b) => r == Ok::<bool, AppError>(b),
                None => r matches Err(AppError::Other(m)) && m@ == "Stored password hash is corrupt"@,
            },
    {
        let peppered = plaintext.to_owned().concat(self.pepper.as_str());
        match argon2_verify(peppered.as_str(), stored) {
            Some(b) => Ok(b),
            None => Err(AppError::Other("Stored password hash is corrupt".to_owned())),
        }
    }
}

} // verus!
