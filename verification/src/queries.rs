//! The decisions of the read operations.
use vstd::prelude::*;
use crate::entities::{User, Planet, PlanetMember, PlanetRole, strings_view};
use crate::errors::{ApiError, create_not_found_error, not_found_error};
use crate::permissions::checks::permission_granted;
use crate::permissions::util::check_permission;
use crate::sessions::Session;
use crate::text::str_eq;

verus! {

/// Reads of users.
#[derive(Default)]
pub struct UserQuery;

/// Reads of server information.
#[derive(Default)]
pub struct SysInfoQuery;

/// Reads of planets.
#[derive(Default)]
pub struct PlanetQuery;

/// Reads of planet members.
#[derive(Default)]
pub struct MemberQuery;

/// Reads of roles.
#[derive(Default)]
pub struct RoleQuery;

/// All read operations.
pub struct Query(
    pub UserQuery,
    pub SysInfoQuery,
    pub PlanetQuery,
    pub MemberQuery,
    pub RoleQuery,
);

/// Where clients find the server's resources.
pub struct SysInfoPaths {
    pub emoji_url: String,
    pub pfp_url: String,
    pub banner_url: String,
    pub graphql_endpoint: String,
}

/// Information about the server.
pub struct SysInfo {
    pub server_name: String,
    pub version: String,
    pub feature_level: u16,
    pub supported_features: Vec<String>,
    pub supported_components: Vec<String>,
    pub client_flags: Vec<String>,
    pub paths: SysInfoPaths,
}

impl Default for SysInfo {
    fn default() -> (r: Self)
        ensures
            r.server_name@ == "starship-server-rs"@,
            r.version@ == "2023.0-dev-milestone1"@,
            r.feature_level == 1,
            strings_view(r.supported_features@) == seq!["users"@],
            r.supported_components@.len() == 0,
            r.client_flags@.len() == 0,
            r.paths.emoji_url@.len() == 0,
            r.paths.pfp_url@.len() == 0,
            r.paths.banner_url@.len() == 0,
            r.paths.graphql_endpoint@.len() == 0,
    {
        let features = vec![String::from_str("users")];
        proof {
            assert(strings_view(features@) =~= seq!["users"@]);
        }
        Self {
            server_name: String::from_str("starship-server-rs"),
            version: String::from_str("2023.0-dev-milestone1"),
            feature_level: 1,
            supported_features: features,
            supported_components: Vec::new(),
            client_flags: Vec::new(),
            paths: SysInfoPaths {
                emoji_url: String::new(),
                pfp_url: String::new(),
                banner_url: String::new(),
                graphql_endpoint: String::new(),
            },
        }
    }
}

impl SysInfoQuery {
    /// Information about the server.
    pub fn sys_info() -> (r: SysInfo)
        ensures
            r.server_name@ == "starship-server-rs"@,
            r.version@ == "2023.0-dev-milestone1"@,
            r.feature_level == 1,
            strings_view(r.supported_features@) == seq!["users"@],
            r.supported_components@.len() == 0,
            r.client_flags@.len() == 0,
    {
        SysInfo::default()
    }
}

impl UserQuery {
    /// The user found by identifier.
    pub fn user(found: Option<User>) -> (r: Result<User, ApiError>)
        ensures
            match found {
                Some(u) => r == Ok::<User, ApiError>(u),
                None => r matches Err(e) && e@ == not_found_error(),
            },
    {
        match found {
            Some(u) => Ok(u),
            None => Err(create_not_found_error()),
        }
    }

    /// The session's user; the session's guard has established there is one.
    pub fn current_user(session: Session) -> (r: User)
        requires
            session.user is Some,
        ensures
            session.user == Some(r),
    {
        session.user.unwrap()
    }
}

impl PlanetQuery {
    /// The planet found by identifier, for those holding `planet.view` on it.
    pub fn planet(
        planet: Option<Planet>,
        member: Option<PlanetMember>,
        roles: Option<Vec<PlanetRole>>,
    ) -> (r: Result<Planet, ApiError>)
        ensures
            match planet {
                None => r matches Err(e) && e@ == not_found_error(),
                Some(p) => if permission_granted("planet.view"@, p, member, roles) {
                    r == Ok::<Planet, ApiError>(p)
                } else {
                    r matches Err(e) && e@ == not_found_error()
                },
            },
    {
        let p = match planet {
            Some(p) => p,
            None => {
                return Err(create_not_found_error());
            },
        };
        check_permission("planet.view", &p, member, roles)?;
        Ok(p)
    }
}

impl MemberQuery {
    /// The member found by identifier. Users can always see their own membership; others
    /// need `planet.member.view`.
    pub fn planet_member(
        queried: Option<PlanetMember>,
        planet: &Planet,
        member: Option<PlanetMember>,
        roles: Option<Vec<PlanetRole>>,
        user_id: Option<String>,
    ) -> (r: Result<PlanetMember, ApiError>)
        ensures
            match queried {
                None => r matches Err(e) && e@ == not_found_error(),
                Some(q) => if (user_id matches Some(u) && u@ == q.user@)
                    || permission_granted("planet.member.view"@, *planet, member, roles) {
                    r == Ok::<PlanetMember, ApiError>(q)
                } else {
                    r matches Err(e) && e@ == not_found_error()
                },
            },
    {
        let q = match queried {
            Some(q) => q,
            None => {
                return Err(create_not_found_error());
            },
        };
        let own = match &user_id {
            Some(u) => str_eq(u.as_str(), q.user.as_str()),
            None => false,
        };
        if !own {
            check_permission("planet.member.view", planet, member, roles)?;
        }
        Ok(q)
    }
}

impl RoleQuery {
    /// The role found by identifier, for those holding `planet.view` on its planet.
    pub fn role(
        role: Option<PlanetRole>,
        planet: &Planet,
        member: Option<PlanetMember>,
        roles: Option<Vec<PlanetRole>>,
    ) -> (r: Result<PlanetRole, ApiError>)
        ensures
            match role {
                None => r matches Err(e) && e@ == not_found_error(),
                Some(q) => if permission_granted("planet.view"@, *planet, member, roles) {
                    r == Ok::<PlanetRole, ApiError>(q)
                } else {
                    r matches Err(e) && e@ == not_found_error()
                },
            },
    {
        let q = match role {
            Some(q) => q,
            None => {
                return Err(create_not_found_error());
            },
        };
        check_permission("planet.view", planet, member, roles)?;
        Ok(q)
    }
}

} // verus!
