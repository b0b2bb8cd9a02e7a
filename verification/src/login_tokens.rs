//! Signed login tokens: JWTs (HS256, keyed by the server's secret) whose claims name a login
//! token and its user, from the jwt, hmac and sha2 crates.
use vstd::prelude::*;
use std::collections::BTreeMap;
use hmac::{Hmac, Mac};
use jwt::{SignWithKey, VerifyWithKey};
use sha2::Sha256;
use crate::sessions::JWTLoginToken;

verus! {

/// The JWT that `sign_with_key` makes with the HS256 key `secret` for the claims
/// `{"token": token, "user_id": user_id}`.
pub uninterp spec fn jwt_login_token(token: Seq<char>, user_id: Seq<char>, secret: Seq<char>) -> Seq<char>;

/// The login claims `(token, user_id)` that `verify_with_key` reads from `raw` with the HS256
/// key `secret`, or `None` when `raw` does not verify or either claim is missing or is not a
/// string.
pub uninterp spec fn jwt_login_claims(raw: Seq<char>, secret: Seq<char>) -> Option<(Seq<char>, Seq<char>)>;

/// Whether every character of a string is a base64url digit or the `.` separator.
pub open spec fn is_jwt_text(s: Seq<char>) -> bool {
    forall|i: int| 0 <= i < s.len() ==> {
        let c = #[trigger] s[i];
        ('A' <= c && c <= 'Z') || ('a' <= c && c <= 'z') || ('0' <= c && c <= '9') || c == '-'
            || c == '_' || c == '.'
    }
}

/// Signs the login claims `{"token": token, "user_id": user_id}` (a map of the two strings,
/// which serialises as `{"token":...,"user_id":...}`) with the HS256 key made from the bytes
/// of `secret`: `claims.sign_with_key(&Hmac::<Sha256>::new_from_slice(secret))`. Claimed:
/// a JWT always comes out (an HMAC key of any length is accepted, and a map of strings always
/// serialises); it is `jwt_login_token` of the three arguments (the header, the claims and
/// the HMAC over them depend on nothing else); it is made of base64url parts joined by `.`;
/// and `verify_with_key` with the same secret reads the same claims back (it recomputes the
/// HMAC over the same header and claims, and decodes the claims it encoded).
#[verifier::external_body]
pub(crate) fn sign_login_jwt(token: &str, user_id: &str, secret: &str) -> (r: Option<String>)
    ensures
        r is Some,
        r matches Some(s) ==> {
            &&& s@ == jwt_login_token(token@, user_id@, secret@)
            &&& is_jwt_text(s@)
            &&& jwt_login_claims(s@, secret@) == Some((token@, user_id@))
        },
{
    let key: Hmac<Sha256> = Hmac::new_from_slice(secret.as_bytes()).ok()?;
    let mut claims: BTreeMap<String, String> = BTreeMap::new();
    claims.insert("token".to_string(), token.to_string());
    claims.insert("user_id".to_string(), user_id.to_string());
    claims.sign_with_key(&key).ok()
}

/// Verifies a JWT with the HS256 key made from the bytes of `secret` and reads its claims as
/// a map from names to JSON values (the type of `jwt::claims::Claims::private`):
/// `raw.verify_with_key(&key)`, then the `token` and `user_id` entries, each of which must be
/// a string; other claims are ignored. Claimed: the claims read are `jwt_login_claims` of
/// the two arguments, and there are none exactly when that is `None`.
#[verifier::external_body]
pub(crate) fn verify_login_jwt(raw: &str, secret: &str) -> (r: Option<JWTLoginToken>)
    ensures
        r is None <==> jwt_login_claims(raw@, secret@) is None,
        r matches Some(c) ==> jwt_login_claims(raw@, secret@) == Some((c.token@, c.user_id@)),
{
    let key: Hmac<Sha256> = Hmac::new_from_slice(secret.as_bytes()).ok()?;
    let mut claims = jwt::claims::Claims::default().private;
    claims = raw.verify_with_key(&key).ok()?;
    let token = claims.get("token")?.as_str()?.to_string();
    let user_id = claims.get("user_id")?.as_str()?.to_string();
    Some(JWTLoginToken { token, user_id })
}

} // verus!
