//! Password hashing, email address validation, time-based one-time passwords and random
//! numbers, from their outside crates.
use vstd::prelude::*;
use rand::rngs::StdRng;
use crate::text::{byte_len, digit_char};

verus! {

#[verifier::external_type_specification]
#[verifier::external_body]
pub struct ExStdRng(rand::rngs::StdRng);

/// What `email_address::EmailAddress::is_valid` answers for an address: whether it parses
/// as an email address under the crate's default options.
pub uninterp spec fn email_is_valid(address: Seq<char>) -> bool;

/// What `bcrypt::verify` answers for a password and a stored hash: `Some(matches)`, or
/// `None` when the hash cannot be read.
pub uninterp spec fn bcrypt_verification(password: Seq<char>, hash: Seq<char>) -> Option<bool>;

/// `email_address::EmailAddress::is_valid`. Claimed: the answer is `email_is_valid` of the
/// address (the function parses the address and nothing else).
#[verifier::external_body]
pub(crate) fn is_valid_email(address: &str) -> (r: bool)
    ensures
        r == email_is_valid(address@),
{
    email_address::EmailAddress::is_valid(address)
}

/// The first seven characters of a bcrypt hash made with `cost` (from 4 to 31): `$2b$`, the
/// cost in two digits, `$`.
pub open spec fn bcrypt_prefix(cost: u32) -> Seq<char> {
    seq!['$', '2', 'b', '$', digit_char(cost / 10), digit_char(cost % 10), '$']
}

/// `bcrypt::hash` with the given cost, whose salt is random. Claimed: a hash is only
/// returned for a cost from 4 to 31; it is 60 characters long and starts with `$2b$`, the
/// cost in two digits and `$` (`HashParts::format` writes `$2b${cost:02}$` followed by 22
/// characters of salt and 31 of digest); and `bcrypt::verify` accepts the password against it
/// (it splits the hash into cost, salt and digest and recomputes the digest from the password
/// with that cost and salt). Which hash comes out is left unsaid: it depends on the random
/// salt; `None` covers bcrypt's errors (a cost outside 4..=31, a failing random source).
#[verifier::external_body]
pub(crate) fn hash_password(password: &str, cost: u32) -> (r: Option<String>)
    ensures
        r matches Some(h) ==> {
            &&& 4 <= cost <= 31
            &&& h@.len() == 60
            &&& h@.take(7) == bcrypt_prefix(cost)
            &&& bcrypt_verification(password@, h@) == Some(true)
        },
{
    bcrypt::hash(password, cost).ok()
}

/// `bcrypt::verify`. Claimed: the answer is `bcrypt_verification` of the password and the
/// hash, an error of bcrypt becoming `None` (it depends on its two arguments alone).
#[verifier::external_body]
pub(crate) fn verify_password(password: &str, hash: &str) -> (r: Option<bool>)
    ensures
        r == bcrypt_verification(password@, hash@),
{
    bcrypt::verify(password, hash).ok()
}

/// Whether a string is a key `hex::decode` accepts: an even number of hex digits.
pub open spec fn is_hex_key(s: Seq<char>) -> bool {
    &&& s.len() % 2 == 0
    &&& forall|i: int| 0 <= i < s.len() ==> {
        let c = #[trigger] s[i];
        ('0' <= c && c <= '9') || ('a' <= c && c <= 'f') || ('A' <= c && c <= 'F')
    }
}

/// Checks `code` against the TOTP generator with libreauth's defaults (six digits, 30 second
/// period, SHA-1) for the hex encoded key: `TOTPBuilder::new().hex_key(key).finalize()`,
/// then `is_valid(code)` on the generator. Claimed: there is an answer exactly when the key
/// decodes as hex (the builder records a decoding failure and `finalize` reports it; the
/// default code length is accepted), and a code is only accepted when it is six bytes long
/// (`is_valid` refuses any code whose length differs from the code length before comparing).
/// Whether a six-byte code is accepted is left unsaid: it depends on the clock.
#[verifier::external_body]
pub(crate) fn totp_check(key: &str, code: &str) -> (r: Option<bool>)
    ensures
        r is Some <==> is_hex_key(key@),
        r == Some(true) ==> byte_len(code@) == 6,
{
    match libreauth::oath::TOTPBuilder::new().hex_key(key).finalize() {
        Ok(totp) => Some(totp.is_valid(code)),
        Err(_) => None,
    }
}

/// The provisioning URI (`otpauth://totp/...`) of the TOTP generator with libreauth's
/// defaults for a hex encoded key, issued by `issuer` for `account_name`.
pub uninterp spec fn totp_uri(key: Seq<char>, issuer: Seq<char>, account_name: Seq<char>) -> Seq<char>;

/// The provisioning URI of the TOTP generator for a hex encoded key:
/// `TOTPBuilder::new().hex_key(key).finalize()`, then
/// `key_uri_format(issuer, account_name).finalize()` on the generator. Claimed: there is a
/// URI exactly when the key decodes as hex (as for `totp_for_hex_key`), and it is `totp_uri`
/// of the three arguments (the URI is built from the key, the generator's fixed defaults,
/// the issuer and the account name alone).
#[verifier::external_body]
pub(crate) fn totp_uri_for_hex_key(key: &str, issuer: &str, account_name: &str) -> (r: Option<String>)
    ensures
        r is Some <==> is_hex_key(key@),
        r matches Some(u) ==> u@ == totp_uri(key@, issuer@, account_name@),
{
    match libreauth::oath::TOTPBuilder::new().hex_key(key).finalize() {
        Ok(totp) => Some(totp.key_uri_format(issuer, account_name).finalize()),
        Err(_) => None,
    }
}

/// Whether a string is lower-case hex.
pub open spec fn is_lower_hex(s: Seq<char>) -> bool {
    forall|i: int| 0 <= i < s.len() ==> {
        let c = #[trigger] s[i];
        ('0' <= c && c <= '9') || ('a' <= c && c <= 'f')
    }
}

/// A new random key of 21 bytes, hex encoded:
/// `libreauth::key::KeyBuilder::new().generate().as_hex()`. Claimed: 42 lower-case hex
/// digits (`hex::encode` of 21 bytes). Which key comes out is left unsaid: it is random.
#[verifier::external_body]
pub(crate) fn generate_hex_key() -> (r: String)
    ensures
        r@.len() == 42,
        is_lower_hex(r@),
{
    libreauth::key::KeyBuilder::new().generate().as_hex()
}

/// `StdRng::from_entropy`: a random generator seeded by the operating system. Nothing is
/// claimed of it.
#[verifier::external_body]
pub(crate) fn new_rng() -> (r: StdRng) {
    <StdRng as rand::SeedableRng>::from_entropy()
}

/// `rng.gen_range(0..bound)`. Claimed: the number is below `bound` (the range is
/// half-open); which number is left unsaid. An empty range panics, hence `bound > 0`.
#[verifier::external_body]
pub(crate) fn random_below(rng: &mut StdRng, bound: u32) -> (r: u32)
    requires
        bound > 0,
    ensures
        r < bound,
{
    rand::Rng::gen_range(rng, 0..bound)
}

} // verus!
