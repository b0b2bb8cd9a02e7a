//! The stored records the server's rules read. Timestamps are microseconds since the Unix epoch.
use vstd::prelude::*;

verus! {

/// A planet (a community space).
#[derive(Clone, Debug)]
pub struct Planet {
    pub id: String,
    pub name: String,
    pub created: i64,
    pub owner: String,
    pub private: bool,
    pub member_count: i32,
    pub featured: bool,
    pub verified: bool,
    pub partnered: bool,
    pub featured_description: String,
    pub banned: Vec<String>,
    pub css: String,
    pub description: Option<String>,
    pub home: Option<String>,
}

/// A user's membership in a planet.
#[derive(Clone, Debug)]
pub struct PlanetMember {
    pub id: String,
    pub planet: String,
    pub user: String,
    pub roles: Vec<String>,
    pub permissions: Vec<String>,
    pub created: i64,
    pub banned: bool,
}

/// A role of a planet; roles with a higher position take precedence.
#[derive(Clone, Debug)]
pub struct PlanetRole {
    pub id: String,
    pub name: String,
    pub color: String,
    pub permissions: Vec<String>,
    pub planet: String,
    pub position: i32,
    pub default: bool,
}

/// A component (page, forum, ...) of a planet.
#[derive(Clone, Debug)]
pub struct PlanetComponent {
    pub id: String,
    pub name: String,
    pub created: i64,
    pub planet: String,
    pub component_type: String,
    pub component_id: String,
    pub parent_id: Option<String>,
    pub position: i32,
}

/// A user account.
#[derive(Clone, Debug)]
pub struct User {
    pub id: String,
    pub created: i64,
    pub username: String,
    pub password: String,
    pub email_address: String,
    pub verified: bool,
    pub blocked: Vec<String>,
    pub sessions: Vec<String>,
    pub banned: bool,
    pub admin: bool,
    pub notification_setting: i16,
    pub cap_waived: bool,
    pub bytes_used: i64,
    pub profile_picture: Option<String>,
    pub profile_banner: Option<String>,
    pub profile_bio: Option<String>,
    pub tfa_secret: Option<String>,
    pub tfa_enabled: bool,
    pub tfa_backup: Vec<String>,
}

/// A login token of a user.
#[derive(Clone, Debug)]
pub struct Token {
    pub id: String,
    pub user: String,
    pub ip: String,
    pub location: String,
    pub browser: String,
    pub operating_system: String,
    pub verified: bool,
}

/// The character views of a sequence of strings.
pub open spec fn strings_view(v: Seq<String>) -> Seq<Seq<char>> {
    v.map_values(|s: String| s@)
}

} // verus!
