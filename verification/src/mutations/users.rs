//! Registration, login, blocking, profile settings and two-factor authentication.
use vstd::prelude::*;
use crate::entities::{User, Token, strings_view};
use crate::errors::{ApiError, create_user_input_error, create_not_found_error,
    create_internal_server_error, create_forbidden_error, not_found_error, user_input_error,
    internal_server_error, forbidden_error};
use crate::ids::{new_id, is_generated_id};
use crate::auth::{is_valid_email, email_is_valid, hash_password, verify_password,
    bcrypt_verification, bcrypt_prefix, is_hex_key, totp_check, totp_uri_for_hex_key, totp_uri,
    generate_hex_key, is_lower_hex, new_rng, random_below};
use crate::text::{str_eq, byte_len, str_byte_len, decimal, u32_to_decimal};
use crate::login_tokens::{jwt_login_token, sign_login_jwt};
use crate::sessions::{header_token, lemma_bearer_jwt_names_token};
use super::members::{holds, vec_holds, without_string, remove_string, lemma_without_string_contains};

verus! {

/// Operations on users.
#[derive(Default)]
pub struct UserMutation;

/// What a successful login yields: the new token, the JWT naming it that the client sends
/// back as its bearer credential, and whether a second factor is expected.
#[derive(Debug)]
pub struct LoginTicket {
    pub token: Token,
    pub jwt: String,
    pub expecting_tfa: bool,
}

/// A login ticket for `user`, signed with `secret`, coming from `ip`: the JWT carries the
/// token's identifier and the user's, and the `Authorization` header made of it names the
/// token.
pub open spec fn is_login_ticket(t: LoginTicket, user: User, ip: Option<String>, secret: Seq<char>) -> bool {
    &&& is_login_token(t.token, user, ip)
    &&& t.expecting_tfa == user.tfa_enabled
    &&& t.jwt@ == jwt_login_token(t.token.id@, user.id@, secret)
    &&& header_token(Some("Bearer "@ + t.jwt@), secret) == Some(t.token.id@)
}

/// A new TOTP secret stored on the user, and its provisioning URI.
#[derive(Debug)]
pub struct TotpSetup {
    pub user: User,
    pub uri: String,
}

/// What finalizing an authorization writes: the user (when a backup code was used up) and
/// the token (when it becomes verified).
#[derive(Debug)]
pub struct Authorization {
    pub user: Option<User>,
    pub token: Option<Token>,
}

/// The number of backup codes made when two-factor authentication is confirmed.
pub open spec fn backup_code_count() -> nat {
    8
}

/// The backup codes as stored: their decimal representations.
pub open spec fn stored_codes(codes: Seq<u32>) -> Seq<Seq<char>> {
    codes.map_values(|c: u32| decimal(c))
}

/// The blocked list after toggling `id`: removed (every occurrence) when present, appended
/// otherwise.
pub open spec fn toggled(blocked: Seq<Seq<char>>, id: Seq<char>) -> Seq<Seq<char>> {
    if blocked.contains(id) {
        without_string(blocked, id)
    } else {
        blocked.push(id)
    }
}

/// The new user record of a registration whose password hash is `hash`.
pub open spec fn is_new_user(u: User, username: String, email: String, now: i64) -> bool {
    &&& is_generated_id(u.id@, 16)
    &&& u.created == now
    &&& u.username == username
    &&& u.email_address == email
    &&& !u.verified
    &&& u.blocked@.len() == 0
    &&& u.sessions@.len() == 0
    &&& !u.banned
    &&& !u.admin
    &&& u.notification_setting == 0
    &&& !u.cap_waived
    &&& u.bytes_used == 0
    &&& u.profile_picture is None
    &&& u.profile_banner is None
    &&& u.profile_bio is None
    &&& u.tfa_secret is None
    &&& !u.tfa_enabled
    &&& u.tfa_backup@.len() == 0
}

/// The new token record of a login of `user` from `ip`.
pub open spec fn is_login_token(t: Token, user: User, ip: Option<String>) -> bool {
    &&& is_generated_id(t.id@, 16)
    &&& t.user == user.id
    &&& t.ip@ == (match ip {
        Some(a) => a@,
        None => "0.0.0.0"@,
    })
    &&& t.location@ == "Unknown"@
    &&& t.browser@ == "Unknown"@
    &&& t.operating_system@ == "Unknown"@
    &&& t.verified == !user.tfa_enabled
}

/// Renders each code in decimal.
fn codes_to_strings(codes: &Vec<u32>) -> (r: Vec<String>)
    ensures
        strings_view(r@) == stored_codes(codes@),
{
    let mut out: Vec<String> = Vec::new();
    let mut i: usize = 0;
    while i < codes.len()
        invariant
            i <= codes.len(),
            strings_view(out@) == stored_codes(codes@.take(i as int)),
        decreases codes.len() - i,
    {
        let ghost before = out@;
        out.push(u32_to_decimal(codes[i]));
        proof {
            assert(stored_codes(codes@.take(i + 1)) =~= stored_codes(codes@.take(i as int)).push(decimal(codes@[i as int])));
            assert(strings_view(out@) =~= strings_view(before).push(decimal(codes@[i as int])));
        }
        i = i + 1;
    }
    proof {
        assert(codes@.take(codes.len() as int) =~= codes@);
    }
    out
}

impl UserMutation {
    /// The user record of a registration, given the outcome of hashing the password.
    pub fn user_from_hash(hash: Option<String>, username: String, email: String, now: i64) -> (r: Result<User, ApiError>)
        ensures
            match hash {
                None => r matches Err(e) && e@ == internal_server_error(None, "HASH_ERROR"@),
                Some(h) => r matches Ok(u) && is_new_user(u, username, email, now) && u.password == h,
            },
    {
        let password = match hash {
            Some(h) => h,
            None => {
                return Err(create_internal_server_error(None, "HASH_ERROR"));
            },
        };
        Ok(User {
            id: new_id(16),
            created: now,
            username,
            password,
            email_address: email,
            verified: false,
            blocked: Vec::new(),
            sessions: Vec::new(),
            banned: false,
            admin: false,
            notification_setting: 0,
            cap_waived: false,
            bytes_used: 0,
            profile_picture: None,
            profile_banner: None,
            profile_bio: None,
            tfa_secret: None,
            tfa_enabled: false,
            tfa_backup: Vec::new(),
        })
    }

    /// Registers a user. `existing` is a user with this username or email address, if any.
    /// The email address and username must be free, the username at least 4 bytes long and
    /// the email address valid; the password is stored hashed (cost 4).
    pub fn insert_user(
        existing: Option<User>,
        email: String,
        password: String,
        username: String,
        now: i64,
    ) -> (r: Result<User, ApiError>)
        ensures
            match existing {
                Some(x) if x.email_address@ == email@ => r matches Err(e) && e@ == user_input_error(
                    "An account is already registered with that email."@,
                    "EMAIL_ALREADY_EXISTS"@,
                ),
                Some(x) if x.username@ == username@ => r matches Err(e) && e@ == user_input_error(
                    "An account is already registered with that username"@,
                    "USERNAME_ALREADY_EXISTS"@,
                ),
                _ => if byte_len(username@) < 4 {
                    r matches Err(e) && e@ == user_input_error(
                        "Your username must be at least 4 characters."@,
                        "USERNAME_TOO_SHORT"@,
                    )
                } else if !email_is_valid(email@) {
                    r matches Err(e) && e@ == user_input_error("Invalid email address."@, "INVALID_EMAIL_ADDRESS"@)
                } else {
                    match r {
                        Ok(u) => {
                            &&& is_new_user(u, username, email, now)
                            &&& u.password@.len() == 60
                            &&& u.password@.take(7) == bcrypt_prefix(4)
                            &&& bcrypt_verification(password@, u.password@) == Some(true)
                        },
                        Err(e) => e@ == internal_server_error(None, "HASH_ERROR"@),
                    }
                },
            },
    {
        match &existing {
            Some(x) => {
                if str_eq(x.email_address.as_str(), email.as_str()) {
                    return Err(create_user_input_error(
                        "An account is already registered with that email.",
                        "EMAIL_ALREADY_EXISTS",
                    ));
                }
                if str_eq(x.username.as_str(), username.as_str()) {
                    return Err(create_user_input_error(
                        "An account is already registered with that username",
                        "USERNAME_ALREADY_EXISTS",
                    ));
                }
            },
            None => {},
        }
        if str_byte_len(username.as_str()) < 4 {
            return Err(create_user_input_error(
                "Your username must be at least 4 characters.",
                "USERNAME_TOO_SHORT",
            ));
        }
        if !is_valid_email(email.as_str()) {
            return Err(create_user_input_error("Invalid email address.", "INVALID_EMAIL_ADDRESS"));
        }
        let hash = hash_password(password.as_str(), 4);
        Self::user_from_hash(hash, username, email, now)
    }

    /// The outcome of a login of `user` given the outcome of checking the password
    /// (`None` when the stored hash could not be read); the new token's JWT is signed with the
    /// server's `secret`.
    pub fn login_with_verification(
        user: &User,
        verification: Option<bool>,
        ip: Option<String>,
        secret: &str,
    ) -> (r: Result<LoginTicket, ApiError>)
        ensures
            match verification {
                None => r matches Err(e) && e@ == internal_server_error(None, "VERIFICATION_ERROR"@),
                Some(false) => r matches Err(e) && e@ == forbidden_error(
                    Some("Invalid username or password."@),
                    "INVALID_USER"@,
                ),
                Some(true) => r matches Ok(t) && is_login_ticket(t, *user, ip, secret@),
            },
    {
        match verification {
            None => Err(create_internal_server_error(None, "VERIFICATION_ERROR")),
            Some(false) => Err(create_forbidden_error(Some("Invalid username or password."), "INVALID_USER")),
            Some(true) => {
                let ip = match ip {
                    Some(a) => a,
                    None => String::from_str("0.0.0.0"),
                };
                let token = Token {
                    id: new_id(16),
                    user: user.id.clone(),
                    ip,
                    location: String::from_str("Unknown"),
                    browser: String::from_str("Unknown"),
                    operating_system: String::from_str("Unknown"),
                    verified: !user.tfa_enabled,
                };
                let jwt = match sign_login_jwt(token.id.as_str(), user.id.as_str(), secret) {
                    Some(j) => j,
                    None => {
                        proof {
                            assert(false);
                        }
                        String::new()
                    },
                };
                proof {
                    lemma_bearer_jwt_names_token(jwt@, token.id@, user.id@, secret@);
                }
                Ok(LoginTicket { token, jwt, expecting_tfa: user.tfa_enabled })
            },
        }
    }

    /// Logs in the user found by username (`user`) with `password`. When email
    /// verification is required, unverified users cannot log in. The new token is verified
    /// unless the user has two-factor authentication enabled; the JWT naming it is signed with
    /// the server's `secret`.
    pub fn login_user(
        user: Option<User>,
        email_verification_required: bool,
        password: &str,
        ip: Option<String>,
        secret: &str,
    ) -> (r: Result<LoginTicket, ApiError>)
        ensures
            match user {
                None => r matches Err(e) && e@ == forbidden_error(
                    Some("Invalid username or password."@),
                    "INVALID_USER"@,
                ),
                Some(u) => if email_verification_required && !u.verified {
                    r matches Err(e) && e@ == forbidden_error(
                        Some("You need to verify your email."@),
                        "UNVERIFIED_EMAIL"@,
                    )
                } else {
                    match bcrypt_verification(password@, u.password@) {
                        None => r matches Err(e) && e@ == internal_server_error(None, "VERIFICATION_ERROR"@),
                        Some(false) => r matches Err(e) && e@ == forbidden_error(
                            Some("Invalid username or password."@),
                            "INVALID_USER"@,
                        ),
                        Some(true) => r matches Ok(t) && is_login_ticket(t, u, ip, secret@),
                    }
                },
            },
    {
        let user = match user {
            Some(u) => u,
            None => {
                return Err(create_forbidden_error(Some("Invalid username or password."), "INVALID_USER"));
            },
        };
        if email_verification_required && !user.verified {
            return Err(create_forbidden_error(Some("You need to verify your email."), "UNVERIFIED_EMAIL"));
        }
        let verification = verify_password(password, user.password.as_str());
        Self::login_with_verification(&user, verification, ip, secret)
    }

    /// Toggles whether a user is banned; administrators cannot be banned.
    pub fn ban_user(user: Option<User>) -> (r: Result<User, ApiError>)
        ensures
            match user {
                None => r matches Err(e) && e@ == not_found_error(),
                Some(u) => if u.admin {
                    r matches Err(e) && e@ == forbidden_error(
                        Some("You cannot ban an administrator."@),
                        "ADMINISTRATIVE_IMMUNITY"@,
                    )
                } else {
                    r == Ok::<User, ApiError>(User { banned: !u.banned, ..u })
                },
            },
    {
        let mut u = match user {
            Some(u) => u,
            None => {
                return Err(create_not_found_error());
            },
        };
        if u.admin {
            return Err(create_forbidden_error(Some("You cannot ban an administrator."), "ADMINISTRATIVE_IMMUNITY"));
        }
        u.banned = !u.banned;
        Ok(u)
    }

    /// Toggles whether `current` blocks the user `target`; nobody can block themselves.
    pub fn toggle_block_user(target: Option<User>, current: User) -> (r: Result<User, ApiError>)
        ensures
            match target {
                None => r matches Err(e) && e@ == not_found_error(),
                Some(t) => if t.id@ == current.id@ {
                    r matches Err(e) && e@ == user_input_error(
                        "You cannot block yourself."@,
                        "INVALID_USER_SELF"@,
                    )
                } else {
                    r matches Ok(u) && {
                        &&& strings_view(u.blocked@) == toggled(strings_view(current.blocked@), t.id@)
                        &&& u == (User { blocked: u.blocked, ..current })
                    }
                },
            },
    {
        let t = match target {
            Some(t) => t,
            None => {
                return Err(create_not_found_error());
            },
        };
        if str_eq(t.id.as_str(), current.id.as_str()) {
            return Err(create_user_input_error("You cannot block yourself.", "INVALID_USER_SELF"));
        }
        let mut u = current;
        if vec_holds(&u.blocked, t.id.as_str()) {
            u.blocked = remove_string(&u.blocked, t.id.as_str());
        } else {
            let ghost before = u.blocked@;
            u.blocked.push(t.id);
            proof {
                assert(strings_view(u.blocked@) =~= strings_view(before).push(t.id@));
            }
        }
        Ok(u)
    }

    /// Sets the user's profile bio, of at most 4000 bytes.
    pub fn update_profile_bio(user: User, bio: String) -> (r: Result<User, ApiError>)
        ensures
            byte_len(bio@) > 4000 ==> (r matches Err(e) && e@ == user_input_error(
                "Your bio cannot be longer than 4000 characters."@,
                "BIO_TOO_LONG"@,
            )),
            byte_len(bio@) <= 4000 ==> r == Ok::<User, ApiError>(User { profile_bio: Some(bio), ..user }),
    {
        if str_byte_len(bio.as_str()) > 4000 {
            return Err(create_user_input_error(
                "Your bio cannot be longer than 4000 characters.",
                "BIO_TOO_LONG",
            ));
        }
        let mut u = user;
        u.profile_bio = Some(bio);
        Ok(u)
    }

    /// Sets the user's notification setting, one of 0 to 4.
    pub fn set_notification_setting(user: User, option: i16) -> (r: Result<User, ApiError>)
        ensures
            !(0 <= option <= 4) ==> (r matches Err(e) && e@ == user_input_error(
                "Invalid notification setting."@,
                "INVALID_SETTING"@,
            )),
            0 <= option <= 4 ==> r == Ok::<User, ApiError>(User { notification_setting: option, ..user }),
    {
        if !(0 <= option && option <= 4) {
            return Err(create_user_input_error("Invalid notification setting.", "INVALID_SETTING"));
        }
        let mut u = user;
        u.notification_setting = option;
        Ok(u)
    }

    /// Stores a new random TOTP secret on the user and gives its provisioning URI, issued
    /// by `Starship` for the username. This is step 1 of 2: `confirm_tfa` enables it.
    pub fn generate_totp_secret(user: User) -> (r: TotpSetup)
        ensures
            r.user == (User { tfa_secret: r.user.tfa_secret, ..user }),
            r.user.tfa_secret matches Some(s) && {
                &&& s@.len() == 42
                &&& is_lower_hex(s@)
                &&& r.uri@ == totp_uri(s@, "Starship"@, user.username@)
            },
    {
        let secret = generate_hex_key();
        proof {
            assert forall|i: int| 0 <= i < secret@.len() implies {
                let c = #[trigger] secret@[i];
                ('0' <= c && c <= '9') || ('a' <= c && c <= 'f') || ('A' <= c && c <= 'F')
            } by {}
        }
        let uri = match totp_uri_for_hex_key(secret.as_str(), "Starship", user.username.as_str()) {
            Some(u) => u,
            None => {
                proof {
                    assert(is_hex_key(secret@));
                    assert(false);
                }
                String::new()
            },
        };
        let mut u = user;
        u.tfa_secret = Some(secret);
        TotpSetup { user: u, uri }
    }

    /// Enables two-factor authentication given the outcome of checking the code (`None`
    /// when the stored secret could not be used) and the new backup codes.
    pub fn confirm_tfa_with(user: User, check: Option<bool>, codes: Vec<u32>) -> (r: Result<(User, Vec<u32>), ApiError>)
        ensures
            if user.tfa_secret is None {
                r matches Err(e) && e@ == user_input_error(
                    "You must generate the TOTP secret before confirming it."@,
                    "NO_SECRET"@,
                )
            } else if user.tfa_enabled {
                r matches Err(e) && e@ == user_input_error(
                    "Two factor authentication is already enabled & confirmed."@,
                    "TFA_ALREADY_ENABLED"@,
                )
            } else {
                match check {
                    None => r matches Err(e) && e@ == internal_server_error(None, "TOTP_BUILD_ERROR"@),
                    Some(false) => r matches Err(e) && e@ == user_input_error("Incorrect TFA code."@, "INCORRECT_CODE"@),
                    Some(true) => r matches Ok((u, c)) && {
                        &&& c == codes
                        &&& strings_view(u.tfa_backup@) == stored_codes(codes@)
                        &&& u == (User { tfa_backup: u.tfa_backup, tfa_enabled: true, ..user })
                    },
                }
            },
    {
        if user.tfa_secret.is_none() {
            return Err(create_user_input_error(
                "You must generate the TOTP secret before confirming it.",
                "NO_SECRET",
            ));
        }
        if user.tfa_enabled {
            return Err(create_user_input_error(
                "Two factor authentication is already enabled & confirmed.",
                "TFA_ALREADY_ENABLED",
            ));
        }
        match check {
            None => Err(create_internal_server_error(None, "TOTP_BUILD_ERROR")),
            Some(false) => Err(create_user_input_error("Incorrect TFA code.", "INCORRECT_CODE")),
            Some(true) => {
                let mut u = user;
                u.tfa_backup = codes_to_strings(&codes);
                u.tfa_enabled = true;
                Ok((u, codes))
            },
        }
    }

    /// Validates `token` against the user's TOTP secret and, when it is the current code,
    /// enables two-factor authentication with 8 new random backup codes (each below
    /// 1000000000), which are returned.
    /// The code checked is the decimal form of `token`; only a six-digit code can be current.
    pub fn confirm_tfa(user: User, token: u32) -> (r: Result<(User, Vec<u32>), ApiError>)
        ensures
            if user.tfa_secret is None {
                r matches Err(e) && e@ == user_input_error(
                    "You must generate the TOTP secret before confirming it."@,
                    "NO_SECRET"@,
                )
            } else if user.tfa_enabled {
                r matches Err(e) && e@ == user_input_error(
                    "Two factor authentication is already enabled & confirmed."@,
                    "TFA_ALREADY_ENABLED"@,
                )
            } else if !is_hex_key(user.tfa_secret.unwrap()@) {
                r matches Err(e) && e@ == internal_server_error(None, "TOTP_BUILD_ERROR"@)
            } else {
                match r {
                    Err(e) => e@ == user_input_error("Incorrect TFA code."@, "INCORRECT_CODE"@),
                    Ok((u, c)) => {
                        &&& byte_len(decimal(token)) == 6
                        &&& c@.len() == backup_code_count()
                        &&& forall|i: int| 0 <= i < c@.len() ==> #[trigger] c@[i] < 1000000000
                        &&& strings_view(u.tfa_backup@) == stored_codes(c@)
                        &&& u == (User { tfa_backup: u.tfa_backup, tfa_enabled: true, ..user })
                    },
                }
            },
    {
        let check = match &user.tfa_secret {
            None => None,
            Some(secret) => totp_check(secret.as_str(), u32_to_decimal(token).as_str()),
        };
        let mut rng = new_rng();
        let mut codes: Vec<u32> = Vec::new();
        let mut i: usize = 0;
        while i < 8
            invariant
                i <= 8,
                codes@.len() == i,
                forall|k: int| 0 <= k < codes@.len() ==> #[trigger] codes@[k] < 1000000000,
            decreases 8 - i,
        {
            codes.push(random_below(&mut rng, 1000000000));
            i = i + 1;
        }
        Self::confirm_tfa_with(user, check, codes)
    }

    /// Disables two-factor authentication given the outcome of checking the code (`None`
    /// when the stored secret could not be used); a backup code is accepted too.
    pub fn disable_tfa_with(user: User, check: Option<bool>, token: u32) -> (r: Result<User, ApiError>)
        ensures
            if !user.tfa_enabled {
                r matches Err(e) && e@ == user_input_error(
                    "Two factor authentication is already disabled."@,
                    "TFA_ALREADY_DISABLED"@,
                )
            } else {
                match check {
                    None => r matches Err(e) && e@ == internal_server_error(None, "TOTP_BUILD_ERROR"@),
                    Some(accepted) => if accepted || holds(user.tfa_backup@, decimal(token)) {
                        r == Ok::<User, ApiError>(User { tfa_enabled: false, ..user })
                    } else {
                        r matches Err(e) && e@ == user_input_error(
                            "Incorrect TFA or backup code."@,
                            "INCORRECT_CODE"@,
                        )
                    },
                }
            },
    {
        if !user.tfa_enabled {
            return Err(create_user_input_error(
                "Two factor authentication is already disabled.",
                "TFA_ALREADY_DISABLED",
            ));
        }
        match check {
            None => Err(create_internal_server_error(None, "TOTP_BUILD_ERROR")),
            Some(accepted) => {
                let code = u32_to_decimal(token);
                if accepted || vec_holds(&user.tfa_backup, code.as_str()) {
                    let mut u = user;
                    u.tfa_enabled = false;
                    Ok(u)
                } else {
                    Err(create_user_input_error("Incorrect TFA or backup code.", "INCORRECT_CODE"))
                }
            },
        }
    }

    /// Validates `token` (a current code or a backup code) and disables two-factor
    /// authentication.
    /// The code checked is the decimal form of `token`; only a six-digit code can be current.
    pub fn disable_tfa(user: User, token: u32) -> (r: Result<User, ApiError>)
        requires
            user.tfa_enabled ==> user.tfa_secret is Some,
        ensures
            if !user.tfa_enabled {
                r matches Err(e) && e@ == user_input_error(
                    "Two factor authentication is already disabled."@,
                    "TFA_ALREADY_DISABLED"@,
                )
            } else if !is_hex_key(user.tfa_secret.unwrap()@) {
                r matches Err(e) && e@ == internal_server_error(None, "TOTP_BUILD_ERROR"@)
            } else if holds(user.tfa_backup@, decimal(token)) {
                r == Ok::<User, ApiError>(User { tfa_enabled: false, ..user })
            } else {
                match r {
                    Ok(u) => u == (User { tfa_enabled: false, ..user }) && byte_len(decimal(token)) == 6,
                    Err(e) => e@ == user_input_error("Incorrect TFA or backup code."@, "INCORRECT_CODE"@),
                }
            },
    {
        let check = if !user.tfa_enabled {
            None
        } else {
            match &user.tfa_secret {
                None => None,
                Some(secret) => totp_check(secret.as_str(), u32_to_decimal(token).as_str()),
            }
        };
        Self::disable_tfa_with(user, check, token)
    }

    /// Verifies the session's token given the outcome of checking the code (`None` when the
    /// stored secret could not be used). A backup code that is used is removed from the
    /// user's backup codes.
    pub fn finalize_authorization_with(user: User, auth_token: Token, check: Option<bool>, token: u32) -> (r: Result<Authorization, ApiError>)
        ensures
            if !user.tfa_enabled {
                r matches Err(e) && e@ == user_input_error(
                    "This user does not have two-factor authentication enabled."@,
                    "TFA_DISABLED"@,
                )
            } else if auth_token.verified {
                r matches Ok(a) && a.user is None && a.token is None
            } else {
                match check {
                    None => r matches Err(e) && e@ == internal_server_error(None, "TOTP_BUILD_ERROR"@),
                    Some(accepted) => if accepted || holds(user.tfa_backup@, decimal(token)) {
                        r matches Ok(a) && {
                            &&& a.token == Some(Token { verified: true, ..auth_token })
                            &&& if holds(user.tfa_backup@, decimal(token)) {
                                a.user matches Some(u) && {
                                    &&& strings_view(u.tfa_backup@) == without_string(strings_view(user.tfa_backup@), decimal(token))
                                    &&& u == (User { tfa_backup: u.tfa_backup, ..user })
                                }
                            } else {
                                a.user is None
                            }
                        }
                    } else {
                        r matches Err(e) && e@ == user_input_error(
                            "Incorrect TFA or backup code."@,
                            "INCORRECT_CODE"@,
                        )
                    },
                }
            },
    {
        if !user.tfa_enabled {
            return Err(create_user_input_error(
                "This user does not have two-factor authentication enabled.",
                "TFA_DISABLED",
            ));
        }
        if auth_token.verified {
            return Ok(Authorization { user: None, token: None });
        }
        match check {
            None => Err(create_internal_server_error(None, "TOTP_BUILD_ERROR")),
            Some(accepted) => {
                let code = u32_to_decimal(token);
                let backup = vec_holds(&user.tfa_backup, code.as_str());
                if accepted || backup {
                    let updated_user = if backup {
                        let mut u = user;
                        u.tfa_backup = remove_string(&u.tfa_backup, code.as_str());
                        Some(u)
                    } else {
                        None
                    };
                    let mut t = auth_token;
                    t.verified = true;
                    Ok(Authorization { user: updated_user, token: Some(t) })
                } else {
                    Err(create_user_input_error("Incorrect TFA or backup code.", "INCORRECT_CODE"))
                }
            },
        }
    }

    /// Verifies the session's token with a current code or a backup code. Only needed by
    /// users with two-factor authentication enabled; an already verified token stays so.
    /// The code checked is the decimal form of `token`; only a six-digit code can be current.
    pub fn finalize_authorization(user: User, auth_token: Token, token: u32) -> (r: Result<Authorization, ApiError>)
        requires
            user.tfa_enabled && !auth_token.verified ==> user.tfa_secret is Some,
        ensures
            if !user.tfa_enabled {
                r matches Err(e) && e@ == user_input_error(
                    "This user does not have two-factor authentication enabled."@,
                    "TFA_DISABLED"@,
                )
            } else if auth_token.verified {
                r matches Ok(a) && a.user is None && a.token is None
            } else if !is_hex_key(user.tfa_secret.unwrap()@) {
                r matches Err(e) && e@ == internal_server_error(None, "TOTP_BUILD_ERROR"@)
            } else {
                match r {
                    Ok(a) => {
                        &&& a.token == Some(Token { verified: true, ..auth_token })
                        &&& if holds(user.tfa_backup@, decimal(token)) {
                            a.user matches Some(u) && {
                                &&& strings_view(u.tfa_backup@) == without_string(strings_view(user.tfa_backup@), decimal(token))
                                &&& u == (User { tfa_backup: u.tfa_backup, ..user })
                            }
                        } else {
                            a.user is None && byte_len(decimal(token)) == 6
                        }
                    },
                    Err(e) => !holds(user.tfa_backup@, decimal(token)) && e@ == user_input_error(
                        "Incorrect TFA or backup code."@,
                        "INCORRECT_CODE"@,
                    ),
                }
            },
    {
        let check = if !user.tfa_enabled || auth_token.verified {
            None
        } else {
            match &user.tfa_secret {
                None => None,
                Some(secret) => totp_check(secret.as_str(), u32_to_decimal(token).as_str()),
            }
        };
        Self::finalize_authorization_with(user, auth_token, check, token)
    }
}

/// Law: toggling a block flips whether the user is blocked.
pub proof fn lemma_toggle_flips(blocked: Seq<Seq<char>>, id: Seq<char>)
    ensures
        toggled(blocked, id).contains(id) == !blocked.contains(id),
{
    lemma_without_string_contains(blocked, id, id);
    if !blocked.contains(id) {
        assert(blocked.push(id)[blocked.len() as int] == id);
    }
}

/// Law: toggling a block twice restores who is blocked.
pub proof fn lemma_toggle_twice(blocked: Seq<Seq<char>>, id: Seq<char>, other: Seq<char>)
    ensures
        toggled(toggled(blocked, id), id).contains(other) == blocked.contains(other),
{
    let once = toggled(blocked, id);
    lemma_toggle_flips(blocked, id);
    if blocked.contains(id) {
        lemma_without_string_contains(blocked, id, other);
        if once.push(id).contains(other) && other != id {
            let k = choose|k: int| 0 <= k < once.push(id).len() && once.push(id)[k] == other;
            assert(once[k] == other);
        }
        if blocked.contains(other) && other != id {
            let k = choose|k: int| 0 <= k < once.len() && once[k] == other;
            assert(once.push(id)[k] == other);
        }
        if other == id {
            assert(once.push(id)[once.len() as int] == id);
        }
    } else {
        lemma_without_string_contains(once, id, other);
        if other != id && blocked.contains(other) {
            let k = choose|k: int| 0 <= k < blocked.len() && blocked[k] == other;
            assert(once[k] == other);
        }
        if other != id && once.contains(other) {
            let k = choose|k: int| 0 <= k < once.len() && once[k] == other;
            assert(k < blocked.len());
            assert(blocked[k] == other);
        }
    }
}

/// Law: a backup code is single use: once it has finalized an authorization, it is no
/// longer among the user's backup codes, and the other codes remain.
pub proof fn lemma_backup_code_single_use(codes: Seq<Seq<char>>, used: Seq<char>, other: Seq<char>)
    ensures
        !without_string(codes, used).contains(used),
        other != used ==> (without_string(codes, used).contains(other) == codes.contains(other)),
{
    lemma_without_string_contains(codes, used, used);
    lemma_without_string_contains(codes, used, other);
}

} // verus!
