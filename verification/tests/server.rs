use hmac::{Hmac, Mac};
use jwt::SignWithKey;
use sha2::Sha256;
use starship::components::{create_component, delete_component, Component, Trait};
use starship::entities::{Planet, PlanetComponent, PlanetMember, PlanetRole, Token, User};
use starship::errors::{
    create_forbidden_error, create_internal_server_error, create_not_found_error,
    create_user_input_error, ErrorType,
};
use starship::guards::{SessionGuard, SessionType};
use starship::mutations::common::{apply_permission_updates, position_below};
use starship::mutations::components::ComponentMutation;
use starship::mutations::members::MemberMutation;
use starship::mutations::planets::PlanetMutation;
use starship::mutations::roles::RoleMutation;
use starship::mutations::users::UserMutation;
use starship::queries::{MemberQuery, PlanetQuery, RoleQuery, SysInfoQuery, UserQuery};
use starship::resolvers::member_of;
use starship::sessions::{bearer_token, claims_from_header, token_to_look_up, JWTLoginToken, Session};
use starship::text::{route_path, u32_to_decimal, remove_all_occurrences};

fn planet(id: &str, owner: &str, private: bool) -> Planet {
    Planet {
        id: id.to_string(),
        name: "Planet".to_string(),
        created: 0,
        owner: owner.to_string(),
        private,
        member_count: 1,
        featured: false,
        verified: false,
        partnered: false,
        featured_description: String::new(),
        banned: vec![],
        css: String::new(),
        description: None,
        home: Some("home".to_string()),
    }
}

fn member(id: &str, planet: &str, user: &str, permissions: &[&str]) -> PlanetMember {
    PlanetMember {
        id: id.to_string(),
        planet: planet.to_string(),
        user: user.to_string(),
        roles: vec![],
        permissions: permissions.iter().map(|s| s.to_string()).collect(),
        created: 0,
        banned: false,
    }
}

fn role(id: &str, planet: &str) -> PlanetRole {
    PlanetRole {
        id: id.to_string(),
        name: "Role".to_string(),
        color: "#FFFFFF".to_string(),
        permissions: vec![],
        planet: planet.to_string(),
        position: 0,
        default: false,
    }
}

fn user(id: &str, name: &str) -> User {
    User {
        id: id.to_string(),
        created: 0,
        username: name.to_string(),
        password: String::new(),
        email_address: format!("{}@example.com", name),
        verified: true,
        blocked: vec![],
        sessions: vec![],
        banned: false,
        admin: false,
        notification_setting: 0,
        cap_waived: false,
        bytes_used: 0,
        profile_picture: None,
        profile_banner: None,
        profile_bio: None,
        tfa_secret: None,
        tfa_enabled: false,
        tfa_backup: vec![],
    }
}

fn token(verified: bool) -> Token {
    Token {
        id: "t1".to_string(),
        user: "u1".to_string(),
        ip: "0.0.0.0".to_string(),
        location: "Unknown".to_string(),
        browser: "Unknown".to_string(),
        operating_system: "Unknown".to_string(),
        verified,
    }
}

fn session(u: Option<User>, verified: bool) -> Session {
    Session { token: None, user: u, user_agent: None, ip_address: None, verified }
}

fn admin_of(planet: &str) -> PlanetMember {
    member("m-admin", planet, "admin-user", &["+administrator"])
}

#[test]
fn errors_carry_type_code_and_message() {
    let e = create_user_input_error("Bad.", "BAD");
    assert_eq!((e.message.as_str(), e.code.as_str(), e.error_type), ("Bad.", "BAD", ErrorType::InvalidUserInput));
    let e = create_not_found_error();
    assert_eq!((e.message.as_str(), e.code.as_str()), ("Not found.", "NOT_FOUND"));
    let e = create_internal_server_error(None, "X");
    assert_eq!(e.message, "Internal server error.");
    let e = create_internal_server_error(Some("Oops"), "X");
    assert_eq!(e.message, "Oops");
    let e = create_forbidden_error(None, "F");
    assert_eq!(e.error_type, ErrorType::Forbidden);
}

#[test]
fn guard_rules() {
    let mut admin = user("a", "admin");
    admin.admin = true;
    let mut banned = user("b", "banned");
    banned.banned = true;
    let plain = user("p", "plain");
    assert_eq!(SessionGuard::new(SessionType::User).check(None).unwrap_err().code, "NO_SESSION_ERROR");
    let none = session(None, true);
    let e = SessionGuard::new(SessionType::Token).check(Some(&none)).unwrap_err();
    assert_eq!((e.code.as_str(), e.message.as_str()), ("NOT_LOGGED_IN", "Not logged in."));
    let s = session(Some(plain.clone()), true);
    assert_eq!(SessionGuard::new(SessionType::Admin).check(Some(&s)).unwrap_err().code, "NOT_GLOBAL_ADMIN");
    assert!(SessionGuard::new(SessionType::User).check(Some(&s)).is_ok());
    let s = session(Some(admin), true);
    assert!(SessionGuard::new(SessionType::Admin).check(Some(&s)).is_ok());
    let s = session(Some(banned), true);
    assert_eq!(SessionGuard::new(SessionType::NotBanned).check(Some(&s)).unwrap_err().code, "USER_BANNED");
    let s = session(Some(plain), false);
    assert!(SessionGuard::new(SessionType::Token).check(Some(&s)).is_ok());
    assert_eq!(SessionGuard::new(SessionType::User).check(Some(&s)).unwrap_err().code, "UNVERIFIED_TOKEN");
}

#[test]
fn bearer_header_parsing() {
    assert_eq!(bearer_token(Some("Bearer abc.def")), Some("abc.def".to_string()));
    assert_eq!(bearer_token(Some("Basic abc")), None);
    assert_eq!(bearer_token(None), None);
    assert_eq!(bearer_token(Some("Bearer xBearer y")), Some("xy".to_string()));
    assert_eq!(remove_all_occurrences("aaa", "aa"), "a");
}

#[test]
fn session_from_lookup() {
    assert_eq!(token_to_look_up(None), None);
    let empty = JWTLoginToken { token: String::new(), user_id: String::new() };
    assert_eq!(token_to_look_up(Some(empty)), None);
    let claims = JWTLoginToken { token: "t1".to_string(), user_id: "u1".to_string() };
    assert_eq!(token_to_look_up(Some(claims)), Some("t1".to_string()));
    let s = Session::from_token_lookup(Some((token(true), Some(user("u1", "name")))), Some("agent".to_string()), None);
    assert!(s.verified && s.token.is_some() && s.user.is_some());
    let s = Session::from_token_lookup(Some((token(true), None)), None, None);
    assert!(s.verified && s.token.is_none() && s.user.is_none());
    let s = Session::from_token_lookup(None, None, None);
    assert!(!s.verified && s.token.is_none());
}

#[test]
fn component_types() {
    assert_eq!(create_component("dummy", "p".to_string(), "o".to_string()).unwrap(), "dummy");
    assert_eq!(create_component("forum", "p".to_string(), "o".to_string()).unwrap_err().code, "INVALID_TYPE");
    assert!(delete_component("dummy", "c".to_string()).unwrap());
    assert_eq!(delete_component("forum", "c".to_string()).unwrap_err().code, "UNSUPPORTED_COMPONENT");
    assert_eq!(Component::create().unwrap(), "dummy");
    assert!(Component::delete("x".to_string()).unwrap());
}

#[test]
fn positions_below_lowest() {
    assert_eq!(position_below(None), -1);
    assert_eq!(position_below(Some(-3)), -4);
}

#[test]
fn create_component_needs_permission() {
    let p = planet("p1", "owner", false);
    let e = ComponentMutation::create_component(&p, None, None, None, "p1".to_string(), "C".to_string(), "dummy".to_string(), None, 5).unwrap_err();
    assert_eq!(e.code, "NOT_FOUND");
    let c = ComponentMutation::create_component(&p, Some(admin_of("p1")), None, Some("admin-user".to_string()), "p1".to_string(), "C".to_string(), "dummy".to_string(), Some(2), 5).unwrap();
    assert_eq!((c.name.as_str(), c.position, c.created, c.component_id.as_str()), ("C", 1, 5, "dummy"));
    assert_eq!(c.id.len(), 16);
    let e = ComponentMutation::create_component(&p, Some(admin_of("p1")), None, Some("admin-user".to_string()), "p1".to_string(), "C".to_string(), "wiki".to_string(), None, 5).unwrap_err();
    assert_eq!(e.code, "INVALID_TYPE");
}

#[test]
fn home_component_cannot_be_deleted() {
    let p = planet("p1", "owner", false);
    let home = PlanetComponent {
        id: "home".to_string(),
        name: "Home".to_string(),
        created: 0,
        planet: "p1".to_string(),
        component_type: "dummy".to_string(),
        component_id: "dummy".to_string(),
        parent_id: None,
        position: 0,
    };
    assert_eq!(ComponentMutation::delete_component(&p, Some(admin_of("p1")), None, &home).unwrap_err().code, "HOME");
    let mut other = home.clone();
    other.id = "other".to_string();
    assert!(ComponentMutation::delete_component(&p, Some(admin_of("p1")), None, &other).is_ok());
    let renamed = ComponentMutation::rename_component(&p, Some(admin_of("p1")), None, other, "New".to_string()).unwrap();
    assert_eq!(renamed.name, "New");
}

#[test]
fn joining_planets() {
    let public = planet("p1", "owner", false);
    let private = planet("p2", "owner", true);
    assert_eq!(MemberMutation::join_planet(None, None, false, "u".to_string(), 0).unwrap_err().code, "NOT_FOUND");
    assert_eq!(MemberMutation::join_planet(Some(public.clone()), None, false, "u".to_string(), 0).unwrap_err().code, "MISSING_DEFAULT_ROLE_ERROR");
    assert_eq!(MemberMutation::join_planet(Some(private), Some(role("r", "p2")), false, "u".to_string(), 0).unwrap_err().code, "NOT_FOUND");
    assert_eq!(MemberMutation::join_planet(Some(public.clone()), Some(role("r", "p1")), true, "u".to_string(), 0).unwrap_err().code, "ALREADY_MEMBER");
    let m = MemberMutation::join_planet(Some(public), Some(role("r", "p1")), false, "u".to_string(), 9).unwrap();
    assert_eq!((m.planet.as_str(), m.user.as_str(), m.roles.clone(), m.created, m.banned), ("p1", "u", vec!["r".to_string()], 9, false));
}

#[test]
fn leaving_planets() {
    let p = planet("p1", "owner", false);
    assert_eq!(MemberMutation::leave_planet(None, "u", None).unwrap_err().code, "NOT_MEMBER");
    assert_eq!(MemberMutation::leave_planet(Some(p.clone()), "owner", None).unwrap_err().code, "PLANET_OWNER");
    assert_eq!(MemberMutation::leave_planet(Some(p.clone()), "u", None).unwrap_err().code, "NOT_MEMBER");
    let mut m = member("m", "p1", "u", &[]);
    m.banned = true;
    assert_eq!(MemberMutation::leave_planet(Some(p.clone()), "u", Some(m.clone())).unwrap_err().code, "BANNED");
    m.banned = false;
    assert!(MemberMutation::leave_planet(Some(p), "u", Some(m)).is_ok());
}

#[test]
fn kicking_and_banning() {
    let p = planet("p1", "owner", false);
    let admin = || Some(member("m-mod", "p1", "admin-user", &["+planet.member.kick"]));
    let target = member("m2", "p1", "target", &[]);
    // an administrator is not granted kicking by that alone
    assert_eq!(MemberMutation::kick_member(&target, &p, Some(admin_of("p1")), None, Some("admin-user".to_string())).unwrap_err().code, "NOT_FOUND");
    assert_eq!(MemberMutation::kick_member(&target, &p, None, None, None).unwrap_err().code, "NOT_FOUND");
    assert_eq!(MemberMutation::kick_member(&target, &p, admin(), None, Some("target".to_string())).unwrap_err().code, "SELF");
    let owner = member("m3", "p1", "owner", &[]);
    assert_eq!(MemberMutation::kick_member(&owner, &p, admin(), None, Some("admin-user".to_string())).unwrap_err().code, "PLANET_OWNER");
    let mut banned = target.clone();
    banned.banned = true;
    assert_eq!(MemberMutation::kick_member(&banned, &p, admin(), None, Some("admin-user".to_string())).unwrap_err().code, "BANNED");
    assert!(MemberMutation::kick_member(&target, &p, admin(), None, Some("admin-user".to_string())).is_ok());
    let b = MemberMutation::ban_member(target.clone(), &p, admin(), None, Some("admin-user".to_string())).unwrap();
    assert!(b.banned);
    let b = MemberMutation::ban_member(b, &p, admin(), None, Some("admin-user".to_string())).unwrap();
    assert!(!b.banned);
    assert_eq!(MemberMutation::ban_member(owner, &p, admin(), None, Some("admin-user".to_string())).unwrap_err().code, "PLANET_OWNER");
    assert_eq!(MemberMutation::ban_member(target, &p, admin(), None, Some("target".to_string())).unwrap_err().code, "SELF");
}

#[test]
fn role_membership_changes() {
    let p = planet("p1", "owner", false);
    let r = role("r1", "p1");
    let admin = || Some(admin_of("p1"));
    let target = member("m2", "p1", "target", &[]);
    assert_eq!(MemberMutation::add_role_member(&r, &p, admin(), None, None).unwrap_err().code, "NOT_FOUND");
    let elsewhere = member("m3", "p9", "x", &[]);
    assert_eq!(MemberMutation::add_role_member(&r, &p, admin(), None, Some(elsewhere)).unwrap_err().code, "NOT_FOUND");
    let with = MemberMutation::add_role_member(&r, &p, admin(), None, Some(target.clone())).unwrap();
    assert_eq!(with.roles, vec!["r1".to_string()]);
    assert_eq!(MemberMutation::add_role_member(&r, &p, admin(), None, Some(with.clone())).unwrap_err().code, "ALREADY_HAS_ROLE");
    // remove needs planet.roles.remove_member, which no group holds; grant it explicitly
    let remover = || Some(member("m4", "p1", "x", &["+planet.roles.remove_member"]));
    let without = MemberMutation::remove_role_member(&r, &p, remover(), None, Some(with)).unwrap();
    assert!(without.roles.is_empty());
    assert_eq!(MemberMutation::remove_role_member(&r, &p, remover(), None, Some(without)).unwrap_err().code, "ALREADY_MISSING_ROLE");
    assert_eq!(MemberMutation::remove_role_member(&r, &p, admin(), None, Some(target)).unwrap_err().code, "NOT_FOUND");
}

#[test]
fn member_permission_updates() {
    let p = planet("p1", "owner", false);
    let target = member("m2", "p1", "target", &["+chat.view"]);
    let entries = vec!["-chat.view".to_string(), "+forum.view".to_string(), "*forum.view".to_string()];
    let m = MemberMutation::update_member_permissions(target.clone(), &p, Some(admin_of("p1")), None, entries).unwrap();
    assert_eq!(m.permissions, vec!["-chat.view".to_string()]);
    assert_eq!(MemberMutation::update_member_permissions(target, &p, None, None, vec![]).unwrap_err().code, "NOT_FOUND");
    assert_eq!(apply_permission_updates(vec![], vec!["+a".to_string(), "-a".to_string()]), vec!["-a".to_string()]);
}

#[test]
fn planet_creation() {
    let long = "x".repeat(129);
    assert_eq!(PlanetMutation::insert_planet("u", long, false, 0).unwrap_err().code, "NAME_TOO_LONG");
    let s = PlanetMutation::insert_planet("u", "My Planet".to_string(), true, 7).unwrap();
    assert_eq!(s.planet.owner, "u");
    assert!(s.planet.private);
    assert_eq!(s.planet.home, Some(s.component.id.clone()));
    assert_eq!(s.role.permissions.len(), 24);
    assert!(s.role.default);
    assert_eq!(s.member.permissions, vec!["+owner".to_string()]);
    assert_eq!(s.member.roles, vec![s.role.id.clone()]);
    assert_eq!(s.component.name, "Dummy Component");
    let renamed = PlanetMutation::rename_planet(s.planet.clone(), Some(s.member.clone()), None, "New".to_string()).unwrap();
    assert_eq!(renamed.name, "New");
    assert_eq!(PlanetMutation::rename_planet(s.planet, None, None, "New".to_string()).unwrap_err().code, "NOT_FOUND");
}

#[test]
fn role_operations() {
    let p = planet("p1", "owner", false);
    let admin = || Some(admin_of("p1"));
    let r = RoleMutation::insert_role(&p, admin(), None, "p1".to_string(), "Mods".to_string(), Some(0)).unwrap();
    assert_eq!((r.name.as_str(), r.color.as_str(), r.position, r.default), ("Mods", "#FFFFFF", -1, false));
    assert_eq!(RoleMutation::update_role(r.clone(), &p, admin(), None, "M".to_string(), "#FFF".to_string()).unwrap_err().code, "INVALID_COLOR");
    let u = RoleMutation::update_role(r.clone(), &p, admin(), None, "M".to_string(), "#00000080".to_string()).unwrap();
    assert_eq!((u.name.as_str(), u.color.as_str()), ("M", "#00000080"));
    let editor = || Some(member("m5", "p1", "x", &["+planet.roles.edit_permissions"]));
    let e = RoleMutation::update_role_permissions(r.clone(), &p, editor(), None, vec!["+chat.view".to_string()]).unwrap();
    assert_eq!(e.permissions, vec!["+chat.view".to_string()]);
    assert!(RoleMutation::delete_role(&p, admin(), None).is_ok());
    assert_eq!(RoleMutation::delete_role(&p, None, None).unwrap_err().code, "NOT_FOUND");
}

#[test]
fn user_registration_rules() {
    let existing = user("e", "taken");
    let e = UserMutation::insert_user(Some(existing.clone()), "taken@example.com".to_string(), "pw".to_string(), "other".to_string(), 0).unwrap_err();
    assert_eq!(e.code, "EMAIL_ALREADY_EXISTS");
    let e = UserMutation::insert_user(Some(existing), "new@example.com".to_string(), "pw".to_string(), "taken".to_string(), 0).unwrap_err();
    assert_eq!(e.code, "USERNAME_ALREADY_EXISTS");
    let e = UserMutation::insert_user(None, "new@example.com".to_string(), "pw".to_string(), "abc".to_string(), 0).unwrap_err();
    assert_eq!(e.code, "USERNAME_TOO_SHORT");
    let e = UserMutation::insert_user(None, "not an email".to_string(), "pw".to_string(), "abcd".to_string(), 0).unwrap_err();
    assert_eq!(e.code, "INVALID_EMAIL_ADDRESS");
    let u = UserMutation::insert_user(None, "new@example.com".to_string(), "secret".to_string(), "abcd".to_string(), 3).unwrap();
    assert_eq!((u.username.as_str(), u.email_address.as_str(), u.created), ("abcd", "new@example.com", 3));
    assert_eq!(u.password.len(), 60);
    assert_ne!(u.password, "secret");
    assert_eq!(UserMutation::user_from_hash(None, "abcd".to_string(), "e".to_string(), 0).unwrap_err().code, "HASH_ERROR");
}

#[test]
fn login_rules() {
    let registered = UserMutation::insert_user(None, "a@example.com".to_string(), "secret".to_string(), "alice".to_string(), 0).unwrap();
    let e = UserMutation::login_user(None, false, "secret", None, "server-key").unwrap_err();
    assert_eq!((e.code.as_str(), e.message.as_str()), ("INVALID_USER", "Invalid username or password."));
    let e = UserMutation::login_user(Some(registered.clone()), true, "secret", None, "server-key").unwrap_err();
    assert_eq!(e.code, "UNVERIFIED_EMAIL");
    let e = UserMutation::login_user(Some(registered.clone()), false, "wrong", None, "server-key").unwrap_err();
    assert_eq!(e.code, "INVALID_USER");
    let t = UserMutation::login_user(Some(registered.clone()), false, "secret", Some("1.2.3.4:5".to_string()), "server-key").unwrap();
    assert_eq!((t.token.user.as_str(), t.token.ip.as_str(), t.token.verified, t.expecting_tfa), (registered.id.as_str(), "1.2.3.4:5", true, false));
    let mut broken = registered;
    broken.password = "not a hash".to_string();
    assert_eq!(UserMutation::login_user(Some(broken), false, "secret", None, "server-key").unwrap_err().code, "VERIFICATION_ERROR");
    let mut tfa = user("u", "bob");
    tfa.tfa_enabled = true;
    let t = UserMutation::login_with_verification(&tfa, Some(true), None, "server-key").unwrap();
    assert_eq!((t.token.ip.as_str(), t.token.verified, t.expecting_tfa), ("0.0.0.0", false, true));
}

#[test]
fn ban_and_block_rules() {
    let mut admin = user("a", "admin");
    admin.admin = true;
    assert_eq!(UserMutation::ban_user(Some(admin)).unwrap_err().code, "ADMINISTRATIVE_IMMUNITY");
    assert_eq!(UserMutation::ban_user(None).unwrap_err().code, "NOT_FOUND");
    assert!(UserMutation::ban_user(Some(user("b", "bob"))).unwrap().banned);
    let me = user("me", "me");
    assert_eq!(UserMutation::toggle_block_user(Some(me.clone()), me.clone()).unwrap_err().code, "INVALID_USER_SELF");
    let blocked = UserMutation::toggle_block_user(Some(user("x", "x")), me.clone()).unwrap();
    assert_eq!(blocked.blocked, vec!["x".to_string()]);
    let unblocked = UserMutation::toggle_block_user(Some(user("x", "x")), blocked).unwrap();
    assert!(unblocked.blocked.is_empty());
}

#[test]
fn profile_settings() {
    let u = user("u", "u");
    assert_eq!(UserMutation::update_profile_bio(u.clone(), "x".repeat(4001)).unwrap_err().code, "BIO_TOO_LONG");
    assert_eq!(UserMutation::update_profile_bio(u.clone(), "hi".to_string()).unwrap().profile_bio, Some("hi".to_string()));
    assert_eq!(UserMutation::set_notification_setting(u.clone(), 5).unwrap_err().code, "INVALID_SETTING");
    assert_eq!(UserMutation::set_notification_setting(u.clone(), -1).unwrap_err().code, "INVALID_SETTING");
    assert_eq!(UserMutation::set_notification_setting(u, 4).unwrap().notification_setting, 4);
}

#[test]
fn totp_setup_and_confirmation() {
    let u = user("u", "carol");
    let setup = UserMutation::generate_totp_secret(u.clone());
    let secret = setup.user.tfa_secret.clone().unwrap();
    assert_eq!(secret.len(), 42);
    assert!(setup.uri.starts_with("otpauth://totp/"));
    assert!(setup.uri.contains("carol"));
    assert_eq!(UserMutation::confirm_tfa(u.clone(), 1).unwrap_err().code, "NO_SECRET");
    let mut enabled = setup.user.clone();
    enabled.tfa_enabled = true;
    assert_eq!(UserMutation::confirm_tfa(enabled, 1).unwrap_err().code, "TFA_ALREADY_ENABLED");
    let mut bad = u.clone();
    bad.tfa_secret = Some("xyz".to_string());
    assert_eq!(UserMutation::confirm_tfa(bad, 1).unwrap_err().code, "TOTP_BUILD_ERROR");
    let (confirmed, codes) = UserMutation::confirm_tfa_with(setup.user.clone(), Some(true), vec![7, 1000, 999999999]).unwrap();
    assert_eq!(codes, vec![7, 1000, 999999999]);
    assert_eq!(confirmed.tfa_backup, vec!["7".to_string(), "1000".to_string(), "999999999".to_string()]);
    assert!(confirmed.tfa_enabled);
    assert_eq!(UserMutation::confirm_tfa_with(setup.user, Some(false), vec![]).unwrap_err().code, "INCORRECT_CODE");
}

#[test]
fn disabling_tfa() {
    let mut u = user("u", "dave");
    assert_eq!(UserMutation::disable_tfa(u.clone(), 1).unwrap_err().code, "TFA_ALREADY_DISABLED");
    u.tfa_enabled = true;
    u.tfa_secret = Some("00".to_string());
    u.tfa_backup = vec!["123".to_string()];
    assert!(!UserMutation::disable_tfa(u.clone(), 123).unwrap().tfa_enabled);
    assert_eq!(UserMutation::disable_tfa_with(u.clone(), Some(false), 5).unwrap_err().code, "INCORRECT_CODE");
    assert_eq!(UserMutation::disable_tfa_with(u, None, 5).unwrap_err().code, "TOTP_BUILD_ERROR");
}

#[test]
fn finalizing_authorization() {
    let mut u = user("u", "erin");
    assert_eq!(UserMutation::finalize_authorization(u.clone(), token(false), 1).unwrap_err().code, "TFA_DISABLED");
    u.tfa_enabled = true;
    u.tfa_secret = Some("00".to_string());
    u.tfa_backup = vec!["11".to_string(), "22".to_string()];
    let a = UserMutation::finalize_authorization(u.clone(), token(true), 1).unwrap();
    assert!(a.user.is_none() && a.token.is_none());
    let a = UserMutation::finalize_authorization(u.clone(), token(false), 22).unwrap();
    assert_eq!(a.user.unwrap().tfa_backup, vec!["11".to_string()]);
    assert!(a.token.unwrap().verified);
    let e = UserMutation::finalize_authorization_with(u.clone(), token(false), Some(false), 33).unwrap_err();
    assert_eq!(e.code, "INCORRECT_CODE");
    let a = UserMutation::finalize_authorization_with(u, token(false), Some(true), 33).unwrap();
    assert!(a.user.is_none() && a.token.unwrap().verified);
}

#[test]
fn read_operations() {
    assert_eq!(UserQuery::user(None).unwrap_err().code, "NOT_FOUND");
    assert_eq!(UserQuery::user(Some(user("u", "u"))).unwrap().id, "u");
    assert_eq!(UserQuery::current_user(session(Some(user("u", "u")), true)).id, "u");
    assert!(PlanetQuery::planet(Some(planet("p", "o", false)), None, None).is_ok());
    assert_eq!(PlanetQuery::planet(Some(planet("p", "o", true)), None, None).unwrap_err().code, "NOT_FOUND");
    assert_eq!(PlanetQuery::planet(None, None, None).unwrap_err().code, "NOT_FOUND");
    let private = planet("p", "o", true);
    let own = member("m", "p", "me", &[]);
    assert!(MemberQuery::planet_member(Some(own.clone()), &private, None, None, Some("me".to_string())).is_ok());
    assert_eq!(MemberQuery::planet_member(Some(own), &private, None, None, Some("other".to_string())).unwrap_err().code, "NOT_FOUND");
    assert!(RoleQuery::role(Some(role("r", "p")), &planet("p", "o", false), None, None).is_ok());
    assert_eq!(RoleQuery::role(None, &private, None, None).unwrap_err().code, "NOT_FOUND");
    let info = SysInfoQuery::sys_info();
    assert_eq!((info.server_name.as_str(), info.version.as_str(), info.feature_level), ("starship-server-rs", "2023.0-dev-milestone1", 1));
    assert_eq!(info.supported_features, vec!["users".to_string()]);
}

#[test]
fn private_user_fields() {
    let target = user("t", "t");
    let e = target.user_id_is_same(None, "tfaEnabled").unwrap_err();
    assert_eq!(e.code, "NO_SESSION_ERROR");
    let other = session(Some(user("o", "o")), true);
    let e = target.user_id_is_same(Some(&other), "tfaEnabled").unwrap_err();
    assert_eq!((e.code.as_str(), e.message.as_str()), ("FORBIDDEN", "You don't have permission to read the field 'tfaEnabled'."));
    let same = session(Some(user("t", "t")), true);
    assert!(target.user_id_is_same(Some(&same), "tfaEnabled").is_ok());
    let mut admin = user("a", "a");
    admin.admin = true;
    assert!(target.user_id_is_same(Some(&session(Some(admin), true)), "x").is_ok());
    let logged_out = session(None, false);
    assert_eq!(target.user_id_is_same(Some(&logged_out), "x").unwrap_err().code, "FORBIDDEN");
    assert!(!target.online());
    let mut on = target.clone();
    on.sessions = vec!["s".to_string()];
    assert!(on.online());
}

#[test]
fn planets_of_memberships() {
    let m = member("m", "p", "u", &[]);
    let planets = member_of(vec![
        (m.clone(), vec![planet("p1", "o", false), planet("p2", "o", false)]),
        (m.clone(), vec![]),
        (m, vec![planet("p3", "o", false)]),
    ]);
    let ids: Vec<String> = planets.into_iter().map(|p| p.id).collect();
    assert_eq!(ids, vec!["p1".to_string(), "p3".to_string()]);
}

#[test]
fn text_helpers() {
    assert_eq!(route_path("Hello World"), "hello_world");
    assert_eq!(route_path("ÄB C"), "Äb_c");
    assert_eq!(u32_to_decimal(0), "0");
    assert_eq!(u32_to_decimal(4294967295), "4294967295");
}

#[test]
fn removing_a_granted_role_restores_the_roles() {
    let p = planet("p1", "owner", false);
    let r = role("r9", "p1");
    let target = member("m2", "p1", "target", &[]);
    let mut target = target;
    target.roles = vec!["r1".to_string(), "r2".to_string()];
    let granter = || Some(member("g", "p1", "g", &["+planet.roles.add_member", "+planet.roles.remove_member"]));
    let with = MemberMutation::add_role_member(&r, &p, granter(), None, Some(target.clone())).unwrap();
    assert_eq!(with.roles, vec!["r1".to_string(), "r2".to_string(), "r9".to_string()]);
    let back = MemberMutation::remove_role_member(&r, &p, granter(), None, Some(with)).unwrap();
    assert_eq!(back.roles, target.roles);
}

#[test]
fn registered_password_logs_in() {
    let registered = UserMutation::insert_user(None, "z@example.com".to_string(), "correct horse".to_string(), "zack".to_string(), 0).unwrap();
    assert!(registered.password.starts_with("$2b$04$"));
    let t = UserMutation::login_user(Some(registered.clone()), false, "correct horse", None, "server-key").unwrap();
    assert_eq!(t.token.user, registered.id);
    assert!(UserMutation::login_user(Some(registered), false, "correct horsE", None, "server-key").is_err());
}

#[test]
fn totp_uri_names_issuer_account_and_secret() {
    let setup = UserMutation::generate_totp_secret(user("u", "erin"));
    assert!(setup.uri.starts_with("otpauth://totp/Starship:erin?secret="));
    assert!(setup.uri.contains("issuer=Starship"));
    let again = UserMutation::generate_totp_secret(user("u", "erin"));
    assert_ne!(setup.user.tfa_secret, again.user.tfa_secret);
}

#[test]
fn guard_kinds_are_nested() {
    let mut admin = user("a", "admin");
    admin.admin = true;
    let mut banned = user("b", "banned");
    banned.banned = true;
    let sessions = vec![
        session(None, true),
        session(Some(user("p", "plain")), true),
        session(Some(user("p", "plain")), false),
        session(Some(admin.clone()), true),
        session(Some(admin), false),
        session(Some(banned.clone()), true),
        session(Some(banned), false),
    ];
    let passes = |kind: SessionType, s: &Session| SessionGuard::new(kind).check(Some(s)).is_ok();
    for s in &sessions {
        if passes(SessionType::User, s) {
            assert!(passes(SessionType::Token, s));
        }
        if passes(SessionType::NotBanned, s) || passes(SessionType::Admin, s) {
            assert!(passes(SessionType::User, s));
        }
    }
}

#[test]
fn login_jwt_names_the_new_token() {
    let registered = UserMutation::insert_user(None, "j@example.com".to_string(), "pw".to_string(), "jane".to_string(), 0).unwrap();
    let t = UserMutation::login_user(Some(registered.clone()), false, "pw", None, "server-key").unwrap();
    assert_eq!(t.jwt.split('.').count(), 3);
    let header = format!("Bearer {}", t.jwt);
    assert_eq!(claims_from_header(Some(header.as_str()), "server-key"), Some(t.token.id.clone()));
    // another secret, a tampered token, or no bearer credential names nothing
    assert_eq!(claims_from_header(Some(header.as_str()), "other-key"), None);
    let tampered = format!("Bearer {}x", t.jwt);
    assert_eq!(claims_from_header(Some(tampered.as_str()), "server-key"), None);
    assert_eq!(claims_from_header(Some(t.jwt.as_str()), "server-key"), None);
    assert_eq!(claims_from_header(None, "server-key"), None);
    assert_eq!(claims_from_header(Some("Bearer not.a.jwt"), "server-key"), None);
}

#[test]
fn stored_hash_has_cost_four() {
    let u = UserMutation::insert_user(None, "c@example.com".to_string(), "pw".to_string(), "cost".to_string(), 0).unwrap();
    assert!(u.password.starts_with("$2b$04$"));
    assert_ne!(u.password, "pw");
}

#[test]
fn short_codes_are_never_current() {
    let mut u = user("u", "frank");
    u.tfa_enabled = true;
    u.tfa_secret = Some("3132333435363738393031323334353637383930".to_string());
    u.tfa_backup = vec![];
    // a code of fewer than six digits is refused whatever the time
    assert_eq!(UserMutation::disable_tfa(u.clone(), 12345).unwrap_err().code, "INCORRECT_CODE");
    u.tfa_enabled = false;
    assert_eq!(UserMutation::confirm_tfa(u, 7).unwrap_err().code, "INCORRECT_CODE");
}

#[test]
fn other_claims_are_ignored_when_reading_a_token() {
    let key: Hmac<Sha256> = Hmac::new_from_slice(b"server-key").unwrap();
    let mut claims = jwt::claims::Claims::default().private;
    claims.insert("token".to_string(), "tok123".into());
    claims.insert("user_id".to_string(), "u1".into());
    claims.insert("exp".to_string(), 5u64.into());
    claims.insert("extra".to_string(), true.into());
    let raw = claims.sign_with_key(&key).unwrap();
    let header = format!("Bearer {}", raw);
    assert_eq!(claims_from_header(Some(header.as_str()), "server-key"), Some("tok123".to_string()));
    // a token claim that is not a string names nothing
    let mut bad = jwt::claims::Claims::default().private;
    bad.insert("token".to_string(), 7u64.into());
    bad.insert("user_id".to_string(), "u1".into());
    let header = format!("Bearer {}", bad.sign_with_key(&key).unwrap());
    assert_eq!(claims_from_header(Some(header.as_str()), "server-key"), None);
}
