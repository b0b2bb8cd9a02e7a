//! Sessions: who a request comes from, read from its `Authorization` header.
use vstd::prelude::*;
use crate::entities::{Token, User};
use crate::text::{occurs_at, remove_all, remove_all_occurrences, str_byte_len};
use crate::text::{byte_len, lemma_remove_all_absent};
use crate::errors::opt_view;
use crate::login_tokens::{jwt_login_claims, is_jwt_text, verify_login_jwt};

verus! {

/// The session of a request.
#[derive(Clone)]
pub struct Session {
    pub token: Option<Token>,
    pub user: Option<User>,
    pub user_agent: Option<String>,
    pub ip_address: Option<String>,
    pub verified: bool,
}

/// The claims of a login JWT: the token's identifier and its user.
pub struct JWTLoginToken {
    pub token: String,
    pub user_id: String,
}

/// Whether a header value is a bearer credential.
pub open spec fn is_bearer(auth: Seq<char>) -> bool {
    auth.len() >= "Bearer "@.len() && auth.take("Bearer "@.len() as int) == "Bearer "@
}

/// The credential of an `Authorization` header value: for a value starting with
/// `Bearer `, the value with every `Bearer ` removed; otherwise none.
pub fn bearer_token(authorization: Option<&str>) -> (r: Option<String>)
    ensures
        match authorization {
            Some(a) => if is_bearer(a@) {
                r matches Some(t) && t@ == remove_all(a@, "Bearer "@)
            } else {
                r is None
            },
            None => r is None,
        },
{
    match authorization {
        Some(a) => {
            proof {
                reveal_strlit("Bearer ");
            }
            if occurs_at(a, 0, "Bearer ") {
                proof {
                    assert(a@.subrange(0, "Bearer "@.len() as int) =~= a@.take("Bearer "@.len() as int));
                }
                Some(remove_all_occurrences(a, "Bearer "))
            } else {
                proof {
                    assert(a@.subrange(0, "Bearer "@.len() as int) =~= a@.take("Bearer "@.len() as int));
                }
                None
            }
        },
        None => None,
    }
}

/// The token identifier to look up for the claims of a verified JWT: none when the JWT did
/// not verify or names an empty token.
pub fn token_to_look_up(claims: Option<JWTLoginToken>) -> (r: Option<String>)
    ensures
        match claims {
            Some(c) => if c.token@.len() == 0 {
                r is None
            } else {
                r == Some(c.token)
            },
            None => r is None,
        },
{
    match claims {
        Some(c) => {
            if c.token.as_str().unicode_len() == 0 {
                None
            } else {
                Some(c.token)
            }
        },
        None => None,
    }
}

impl Session {
    /// The session for the result of looking up a login token with its user. The session
    /// keeps the token only when the token has a user, and is verified exactly when the
    /// token found is.
    pub fn from_token_lookup(
        found: Option<(Token, Option<User>)>,
        user_agent: Option<String>,
        ip_address: Option<String>,
    ) -> (s: Session)
        ensures
            s.user_agent == user_agent,
            s.ip_address == ip_address,
            match found {
                Some((t, u)) => {
                    &&& s.user == u
                    &&& s.token == (if u is Some { Some(t) } else { None::<Token> })
                    &&& s.verified == t.verified
                },
                None => s.token is None && s.user is None && !s.verified,
            },
    {
        match found {
            Some((t, u)) => {
                let verified = t.verified;
                let token = if u.is_some() {
                    Some(t)
                } else {
                    None
                };
                Session { token, user: u, user_agent, ip_address, verified }
            },
            None => Session { token: None, user: None, user_agent, ip_address, verified: false },
        }
    }
}

/// The login token that the `Authorization` header names, when signed with `secret`: the
/// token claim of a bearer credential that verifies, unless that claim is empty. A
/// credential that does not verify has empty claims, and so names nothing.
pub open spec fn header_token(authorization: Option<Seq<char>>, secret: Seq<char>) -> Option<Seq<char>> {
    match authorization {
        Some(a) => if is_bearer(a) {
            match jwt_login_claims(remove_all(a, "Bearer "@), secret) {
                Some(c) => if c.0.len() == 0 { None } else { Some(c.0) },
                None => None,
            }
        } else {
            None
        },
        None => None,
    }
}

/// The identifier of the login token that the `Authorization` header names (see
/// `header_token`), read with the server's `secret`.
pub fn claims_from_header(authorization: Option<&str>, secret: &str) -> (r: Option<String>)
    ensures
        match r {
            Some(t) => header_token(opt_view(authorization), secret@) == Some(t@),
            None => header_token(opt_view(authorization), secret@) is None,
        },
{
    let claims = match bearer_token(authorization) {
        Some(raw) => match verify_login_jwt(raw.as_str(), secret) {
            Some(c) => Some(c),
            None => Some(JWTLoginToken { token: String::new(), user_id: String::new() }),
        },
        None => None,
    };
    token_to_look_up(claims)
}

/// Law: the header `Bearer <jwt>`, for a JWT that carries the claims of a non-empty token
/// under `secret` and is made of base64url parts, names that token.
pub proof fn lemma_bearer_jwt_names_token(jwt: Seq<char>, token: Seq<char>, user_id: Seq<char>, secret: Seq<char>)
    requires
        is_jwt_text(jwt),
        jwt_login_claims(jwt, secret) == Some((token, user_id)),
        token.len() > 0,
    ensures
        header_token(Some("Bearer "@ + jwt), secret) == Some(token),
{
    reveal_strlit("Bearer ");
    let pat = "Bearer "@;
    let a = pat + jwt;
    assert(a.take(pat.len() as int) =~= pat);
    assert(a.skip(pat.len() as int) =~= jwt);
    assert forall|i: int| 0 <= i < jwt.len() implies jwt[i] != pat[pat.len() - 1] by {
        let c = jwt[i];
        assert(('A' <= c && c <= 'Z') || ('a' <= c && c <= 'z') || ('0' <= c && c <= '9') || c == '-' || c == '_' || c == '.');
    }
    lemma_remove_all_absent(jwt, pat);
    assert(remove_all(a, pat) == remove_all(a.skip(pat.len() as int), pat));
}

} // verus!
