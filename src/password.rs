use vstd::prelude::*;

verus! {

/// What bcrypt's verification answers for a password and a digest: `None` where the
/// digest is malformed, else whether the password produced it.
pub uninterp spec fn bcrypt_verdict(password: Seq<char>, digest: Seq<char>) -> Option<bool>;

/// The prefix of every digest made here: bcrypt version 2b, work factor 12.
pub open spec fn digest_prefix() -> Seq<char> {
    seq!['$', '2', 'b', '$', '1', '2', '$']
}

/// The shape of a digest made here: 60 characters behind the prefix.
pub open spec fn has_digest_form(s: Seq<char>) -> bool {
    s.len() == 60 && s.subrange(0, 7) == digest_prefix()
}

/// Relies on bcrypt::hash with bcrypt::DEFAULT_COST (12): a fresh random salt each call;
/// on success the digest is the 60-character "$2b$12$" form, and bcrypt::verify, which
/// re-hashes with the digest's own cost and salt, accepts the password against it.
#[verifier::external_body]
fn bcrypt_hash(password: &str) -> (r: Result<String, String>)
    ensures
        r is Ok ==> has_digest_form(r->Ok_0@),
        r is Ok ==> bcrypt_verdict(password@, r->Ok_0@) == Some(true),
{
    bcrypt::hash(password, bcrypt::DEFAULT_COST).map_err(|e| e.to_string())
}

/// Relies on bcrypt::verify: its outcome depends on the password and the digest alone,
/// and a malformed digest is an error rather than a mismatch.
#[verifier::external_body]
fn bcrypt_check(password: &str, digest: &str) -> (r: Result<bool, String>)
    ensures
        r is Ok <==> bcrypt_verdict(password@, digest@) is Some,
        r is Ok ==> bcrypt_verdict(password@, digest@) == Some(r->Ok_0),
{
    bcrypt::verify(password, digest).map_err(|e| e.to_string())
}

/// Hashes a password into a salted, self-describing digest. Two calls on one password
/// give digests that may differ (fresh salt), and each one verifies against it.
pub fn hash_password(password: &str) -> (r: Result<String, String>)
    ensures
        r is Ok ==> has_digest_form(r->Ok_0@),
        r is Ok ==> bcrypt_verdict(password@, r->Ok_0@) == Some(true),
{
    bcrypt_hash(password)
}

/// Checks a password against a digest. A malformed digest is an error, not `false`.
pub fn verify_password(password: &str, digest: &str) -> (r: Result<bool, String>)
    ensures
        r is Ok <==> bcrypt_verdict(password@, digest@) is Some,
        r is Ok ==> bcrypt_verdict(password@, digest@) == Some(r->Ok_0),
{
    bcrypt_check(password, digest)
}

/// A digest never equals the plaintext it was made from, for any plaintext that does
/// not itself have the shape of a digest.
pub proof fn lemma_digest_is_not_plaintext(password: Seq<char>, digest: Seq<char>)
    ensures
        has_digest_form(digest) && !has_digest_form(password) ==> digest != password,
{
}

} // verus!
