use crate::error::ErrorMessage;
use argon2::{PasswordHasher, PasswordVerifier};
use vstd::prelude::*;
use vstd::utf8::encode_utf8;

verus! {

/// Cap, in bytes, on the plaintext passwords this core accepts.
pub const MAX_PASSWORD_LENGTH: usize = 64;

/// Whether a string parses as a self-describing PHC hash record.
/// Names the result of phc's `PasswordHash::new`, which depends on the
/// string alone.
pub uninterp spec fn parses_as_hash(h: Seq<char>) -> bool;

/// Whether a plaintext matches a PHC hash record: the digest recomputed
/// from the plaintext with the record's own algorithm, parameters and salt
/// equals the record's stored digest. Names the result of argon2's
/// `verify_password` on the parsed record, which depends on the two
/// strings alone.
pub uninterp spec fn phc_matches(p: Seq<char>, h: Seq<char>) -> bool;

/// Relies on argon2's `hash_password` (Argon2id, default parameters, a
/// fresh 16-byte random salt from the system RNG): on success the rendered
/// PHC string parses back, and `verify_password` recomputes the digest
/// from the embedded salt and parameters, so the plaintext matches the
/// record whatever salt was drawn. `None` reports an RNG or hashing
/// failure.
#[verifier::external_body]
fn argon2_hash(password: &str) -> (r: Option<String>)
    ensures
        r matches Some(h) ==> parses_as_hash(h@) && phc_matches(password@, h@),
{
    match argon2::Argon2::default().hash_password(password.as_bytes()) {
        Ok(h) => Some(h.to_string()),
        Err(_) => None,
    }
}

/// Relies on phc's `PasswordHash::new` and argon2's `verify_password`:
/// parsing depends on the record string alone, and verification
/// recomputes the digest from the plaintext and the record's embedded
/// parameters, so both outcomes are functions of the two arguments.
/// `None`: the record does not parse; `Some(m)`: it parses and `m` says
/// whether the plaintext matches.
#[verifier::external_body]
fn argon2_check(password: &str, hashed: &str) -> (r: Option<bool>)
    ensures
        r is Some <==> parses_as_hash(hashed@),
        r matches Some(m) ==> m == phc_matches(password@, hashed@),
{
    match argon2::PasswordHash::new(hashed) {
        Ok(parsed) => Some(
            argon2::Argon2::default().verify_password(password.as_bytes(), &parsed).is_ok(),
        ),
        Err(_) => None,
    }
}

/// A non-empty text encodes to at least one byte.
pub proof fn lemma_encode_utf8_nonempty(chars: Seq<char>)
    requires
        chars.len() > 0,
    ensures
        encode_utf8(chars).len() >= 1,
{
    assert(encode_utf8(chars).len() >= vstd::utf8::encode_scalar(chars[0] as u32).len());
}

/// Whether a plaintext is of acceptable length: non-empty and at most
/// `MAX_PASSWORD_LENGTH` bytes.
pub open spec fn valid_password_len(p: Seq<char>) -> bool {
    1 <= encode_utf8(p).len() <= MAX_PASSWORD_LENGTH
}

/// The outcome `compare` owes for each pair of plaintext and stored
/// record.
pub open spec fn verify_outcome(p: Seq<char>, h: Seq<char>) -> Result<bool, ErrorMessage> {
    if encode_utf8(p).len() == 0 {
        Err(ErrorMessage::EmptyPassword)
    } else if encode_utf8(p).len() > MAX_PASSWORD_LENGTH {
        Err(ErrorMessage::ExceededMaxPasswordLength(MAX_PASSWORD_LENGTH))
    } else if !parses_as_hash(h) {
        Err(ErrorMessage::InvalidHashingFormat)
    } else {
        Ok(phc_matches(p, h))
    }
}

/// Derives a hash record from a plaintext with a freshly drawn salt.
///
/// Rejects an empty plaintext and one over `MAX_PASSWORD_LENGTH` bytes;
/// otherwise it returns a self-describing record that parses back and
/// matches the plaintext, or `HashingError` if the hasher itself failed.
pub fn hash(password: &str) -> (r: Result<String, ErrorMessage>)
    ensures
        encode_utf8(password@).len() == 0 <==> r == Err::<String, ErrorMessage>(
            ErrorMessage::EmptyPassword,
        ),
        encode_utf8(password@).len() > MAX_PASSWORD_LENGTH <==> r == Err::<String, ErrorMessage>(
            ErrorMessage::ExceededMaxPasswordLength(MAX_PASSWORD_LENGTH),
        ),
        valid_password_len(password@) ==> (r == Err::<String, ErrorMessage>(
            ErrorMessage::HashingError,
        ) || r is Ok),
        r matches Ok(h) ==> valid_password_len(password@) && parses_as_hash(h@) && phc_matches(
            password@,
            h@,
        ),
{
    let password_bytes = password.as_bytes();
    if password_bytes.len() == 0 {
        return Err(ErrorMessage::EmptyPassword);
    }
    if password_bytes.len() > MAX_PASSWORD_LENGTH {
        return Err(ErrorMessage::ExceededMaxPasswordLength(MAX_PASSWORD_LENGTH));
    }
    match argon2_hash(password) {
        Some(h) => Ok(h),
        None => Err(ErrorMessage::HashingError),
    }
}

/// Checks a plaintext against a stored hash record.
///
/// Same length policy as `hash`; `InvalidHashingFormat` exactly when the
/// record does not parse; otherwise says whether the plaintext matches.
/// An ordinary mismatch is `Ok(false)`, not an error.
pub fn compare(password: &str, hashed_password: &str) -> (r: Result<bool, ErrorMessage>)
    ensures
        r == verify_outcome(password@, hashed_password@),
        valid_password_len(password@) && !parses_as_hash(hashed_password@) ==> r == Err::<
            bool,
            ErrorMessage,
        >(ErrorMessage::InvalidHashingFormat),
{
    let password_bytes = password.as_bytes();
    if password_bytes.len() == 0 {
        return Err(ErrorMessage::EmptyPassword);
    }
    if password_bytes.len() > MAX_PASSWORD_LENGTH {
        return Err(ErrorMessage::ExceededMaxPasswordLength(MAX_PASSWORD_LENGTH));
    }
    match argon2_check(password, hashed_password) {
        Some(m) => Ok(m),
        None => Err(ErrorMessage::InvalidHashingFormat),
    }
}

/// Law: any record that `hash` returned for a plaintext of valid length is
/// accepted by `compare` on that same plaintext — `hash`'s postcondition
/// gives exactly the premises on the record that this law assumes.
pub proof fn lemma_compare_accepts_hash_output(p: Seq<char>, h: Seq<char>)
    requires
        valid_password_len(p),
        parses_as_hash(h),
        phc_matches(p, h),
    ensures
        verify_outcome(p, h) == Ok::<bool, ErrorMessage>(true),
{
}

} // verus!
