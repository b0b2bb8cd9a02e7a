//! Joining and leaving planets, and managing members.
use vstd::prelude::*;
use crate::entities::{Planet, PlanetMember, PlanetRole, strings_view};
use crate::errors::{ApiError, ApiErrorView, create_user_input_error, create_not_found_error,
    create_internal_server_error, not_found_error, user_input_error, internal_server_error};
use crate::ids::{new_id, is_generated_id};
use crate::permissions::checks::permission_granted;
use crate::permissions::util::check_permission;
use crate::text::str_eq;
use super::common::{apply_permission_updates, updates_applied};

verus! {

/// Whether a list of strings holds `s`.
pub open spec fn holds(v: Seq<String>, s: Seq<char>) -> bool {
    strings_view(v).contains(s)
}

/// Whether `v` holds `s`.
pub fn vec_holds(v: &Vec<String>, s: &str) -> (r: bool)
    ensures
        r == holds(v@, s@),
{
    let mut i: usize = 0;
    while i < v.len()
        invariant
            i <= v.len(),
            forall|k: int| 0 <= k < i ==> v@[k]@ != s@,
        decreases v.len() - i,
    {
        if str_eq(v[i].as_str(), s) {
            proof {
                assert(strings_view(v@)[i as int] == s@);
            }
            return true;
        }
        i = i + 1;
    }
    proof {
        if holds(v@, s@) {
            let k = choose|k: int| 0 <= k < strings_view(v@).len() && strings_view(v@)[k] == s@;
            assert(v@[k]@ == s@);
        }
    }
    false
}

/// `v` without the strings equal to `s`, in order.
pub open spec fn without_string(v: Seq<Seq<char>>, s: Seq<char>) -> Seq<Seq<char>>
    decreases v.len(),
{
    if v.len() == 0 {
        v
    } else {
        let rest = without_string(v.drop_last(), s);
        if v.last() != s {
            rest.push(v.last())
        } else {
            rest
        }
    }
}

/// `v` without the strings equal to `s`, in order.
pub fn remove_string(v: &Vec<String>, s: &str) -> (r: Vec<String>)
    ensures
        strings_view(r@) == without_string(strings_view(v@), s@),
{
    let ghost all = strings_view(v@);
    let mut kept: Vec<String> = Vec::new();
    let mut i: usize = 0;
    while i < v.len()
        invariant
            i <= v.len(),
            all == strings_view(v@),
            strings_view(kept@) == without_string(all.take(i as int), s@),
        decreases v.len() - i,
    {
        let ghost before = kept@;
        proof {
            assert(all.take(i + 1).drop_last() =~= all.take(i as int));
            assert(all.take(i + 1).last() == v@[i as int]@);
        }
        if !str_eq(v[i].as_str(), s) {
            kept.push(v[i].clone());
            proof {
                assert(strings_view(kept@) =~= strings_view(before).push(v@[i as int]@));
            }
        }
        i = i + 1;
    }
    proof {
        assert(all.take(v.len() as int) =~= all);
    }
    kept
}

/// Operations on planet members.
#[derive(Default)]
pub struct MemberMutation;

impl MemberMutation {
    /// Joins a public planet as a new member holding the planet's default role. `planet`
    /// and `default_role` are the lookups of the planet and of its default role,
    /// `already_member` whether the user is a member already.
    pub fn join_planet(
        planet: Option<Planet>,
        default_role: Option<PlanetRole>,
        already_member: bool,
        user_id: String,
        now: i64,
    ) -> (r: Result<PlanetMember, ApiError>)
        ensures
            match planet {
                None => r matches Err(e) && e@ == not_found_error(),
                Some(p) => match default_role {
                    None => r matches Err(e) && e@ == internal_server_error(None, "MISSING_DEFAULT_ROLE_ERROR"@),
                    Some(role) => if p.private {
                        r matches Err(e) && e@ == not_found_error()
                    } else if already_member {
                        r matches Err(e) && e@ == user_input_error(
                            "You are already a member of this planet."@,
                            "ALREADY_MEMBER"@,
                        )
                    } else {
                        r matches Ok(m) && {
                            &&& is_generated_id(m.id@, 16)
                            &&& m.planet == p.id
                            &&& m.user == user_id
                            &&& m.roles@ == seq![role.id]
                            &&& m.permissions@.len() == 0
                            &&& m.created == now
                            &&& !m.banned
                        }
                    },
                },
            },
    {
        let planet = match planet {
            Some(p) => p,
            None => {
                return Err(create_not_found_error());
            },
        };
        let role = match default_role {
            Some(r) => r,
            None => {
                return Err(create_internal_server_error(None, "MISSING_DEFAULT_ROLE_ERROR"));
            },
        };
        if planet.private {
            return Err(create_not_found_error());
        }
        if already_member {
            return Err(create_user_input_error(
                "You are already a member of this planet.",
                "ALREADY_MEMBER",
            ));
        }
        Ok(PlanetMember {
            id: new_id(16),
            planet: planet.id,
            user: user_id,
            roles: vec![role.id],
            permissions: Vec::new(),
            created: now,
            banned: false,
        })
    }

    /// Decides leaving a planet: owners and banned members cannot leave. `Ok` means the
    /// membership is to be removed.
    pub fn leave_planet(planet: Option<Planet>, user_id: &str, member: Option<PlanetMember>) -> (r: Result<(), ApiError>)
        ensures
            match planet {
                None => r matches Err(e) && e@ == user_input_error(
                    "You aren't a member of that planet."@,
                    "NOT_MEMBER"@,
                ),
                Some(p) => if user_id@ == p.owner@ {
                    r matches Err(e) && e@ == user_input_error(
                        "You cannot leave a planet you are the owner of."@,
                        "PLANET_OWNER"@,
                    )
                } else {
                    match member {
                        None => r matches Err(e) && e@ == user_input_error(
                            "You aren't a member of that planet."@,
                            "NOT_MEMBER"@,
                        ),
                        Some(m) => if m.banned {
                            r matches Err(e) && e@ == user_input_error(
                                "You cannot leave a planet you are banned from"@,
                                "BANNED"@,
                            )
                        } else {
                            r is Ok
                        },
                    }
                },
            },
    {
        let planet = match planet {
            Some(p) => p,
            None => {
                return Err(create_user_input_error("You aren't a member of that planet.", "NOT_MEMBER"));
            },
        };
        if str_eq(user_id, planet.owner.as_str()) {
            return Err(create_user_input_error(
                "You cannot leave a planet you are the owner of.",
                "PLANET_OWNER",
            ));
        }
        let member = match member {
            Some(m) => m,
            None => {
                return Err(create_user_input_error("You aren't a member of that planet.", "NOT_MEMBER"));
            },
        };
        if member.banned {
            return Err(create_user_input_error("You cannot leave a planet you are banned from", "BANNED"));
        }
        Ok(())
    }

    /// Applies permission entries to a member's permissions. Needs
    /// `planet.member.edit_permissions` on the member's planet.
    pub fn update_member_permissions(
        target: PlanetMember,
        planet: &Planet,
        requester: Option<PlanetMember>,
        roles: Option<Vec<PlanetRole>>,
        permissions: Vec<String>,
    ) -> (r: Result<PlanetMember, ApiError>)
        ensures
            !permission_granted("planet.member.edit_permissions"@, *planet, requester, roles)
                ==> (r matches Err(e) && e@ == not_found_error()),
            permission_granted("planet.member.edit_permissions"@, *planet, requester, roles)
                ==> (r matches Ok(m) && {
                    &&& strings_view(m.permissions@) == updates_applied(
                        strings_view(target.permissions@),
                        strings_view(permissions@),
                    )
                    &&& m == (PlanetMember { permissions: m.permissions, ..target })
                }),
    {
        check_permission("planet.member.edit_permissions", planet, requester, roles)?;
        let mut m = target;
        let mut current: Vec<String> = Vec::new();
        std::mem::swap(&mut current, &mut m.permissions);
        m.permissions = apply_permission_updates(current, permissions);
        Ok(m)
    }

    /// Decides kicking a member: needs `planet.member.kick`; nobody can kick themselves,
    /// the owner or a banned member. `Ok` means the membership is to be removed.
    pub fn kick_member(
        target: &PlanetMember,
        planet: &Planet,
        requester: Option<PlanetMember>,
        roles: Option<Vec<PlanetRole>>,
        user_id: Option<String>,
    ) -> (r: Result<(), ApiError>)
        requires
            permission_granted("planet.member.kick"@, *planet, requester, roles) ==> user_id is Some,
        ensures
            !permission_granted("planet.member.kick"@, *planet, requester, roles)
                ==> (r matches Err(e) && e@ == not_found_error()),
            permission_granted("planet.member.kick"@, *planet, requester, roles) ==> {
                if target.user@ == user_id.unwrap()@ {
                    r matches Err(e) && e@ == user_input_error("You cannot kick yourself."@, "SELF"@)
                } else if target.user@ == planet.owner@ {
                    r matches Err(e) && e@ == user_input_error(
                        "You cannot kick the owner of the planet."@,
                        "PLANET_OWNER"@,
                    )
                } else if target.banned {
                    r matches Err(e) && e@ == user_input_error(
                        "You can not kick a banned member."@,
                        "BANNED"@,
                    )
                } else {
                    r is Ok
                }
            },
    {
        check_permission("planet.member.kick", planet, requester, roles)?;
        let user = match &user_id {
            Some(u) => u,
            None => {
                proof {
                    assert(false);
                }
                return Ok(());
            },
        };
        if str_eq(target.user.as_str(), user.as_str()) {
            return Err(create_user_input_error("You cannot kick yourself.", "SELF"));
        }
        if str_eq(target.user.as_str(), planet.owner.as_str()) {
            return Err(create_user_input_error("You cannot kick the owner of the planet.", "PLANET_OWNER"));
        }
        if target.banned {
            return Err(create_user_input_error("You can not kick a banned member.", "BANNED"));
        }
        Ok(())
    }

    /// Toggles whether a member is banned. Needs `planet.member.kick`; nobody can ban
    /// themselves or the owner.
    pub fn ban_member(
        target: PlanetMember,
        planet: &Planet,
        requester: Option<PlanetMember>,
        roles: Option<Vec<PlanetRole>>,
        user_id: Option<String>,
    ) -> (r: Result<PlanetMember, ApiError>)
        requires
            permission_granted("planet.member.kick"@, *planet, requester, roles) ==> user_id is Some,
        ensures
            !permission_granted("planet.member.kick"@, *planet, requester, roles)
                ==> (r matches Err(e) && e@ == not_found_error()),
            permission_granted("planet.member.kick"@, *planet, requester, roles) ==> {
                if target.user@ == user_id.unwrap()@ {
                    r matches Err(e) && e@ == user_input_error("You cannot ban yourself."@, "SELF"@)
                } else if target.user@ == planet.owner@ {
                    r matches Err(e) && e@ == user_input_error(
                        "You cannot ban the owner of the planet."@,
                        "PLANET_OWNER"@,
                    )
                } else {
                    r == Ok::<PlanetMember, ApiError>(PlanetMember { banned: !target.banned, ..target })
                }
            },
    {
        check_permission("planet.member.kick", planet, requester, roles)?;
        let user = match &user_id {
            Some(u) => u,
            None => {
                proof {
                    assert(false);
                }
                return Err(create_not_found_error());
            },
        };
        if str_eq(target.user.as_str(), user.as_str()) {
            return Err(create_user_input_error("You cannot ban yourself.", "SELF"));
        }
        if str_eq(target.user.as_str(), planet.owner.as_str()) {
            return Err(create_user_input_error("You cannot ban the owner of the planet.", "PLANET_OWNER"));
        }
        let mut m = target;
        m.banned = !m.banned;
        Ok(m)
    }

    /// Gives a member a role of its planet. Needs `planet.roles.add_member`; `target` is the
    /// lookup of the member.
    ///
    /// Whether the requester's roles rank above this role (the `high_enough` rule) is not
    /// checked: no definition of that ranking exists to state it by.
    pub fn add_role_member(
        target_role: &PlanetRole,
        planet: &Planet,
        requester: Option<PlanetMember>,
        roles: Option<Vec<PlanetRole>>,
        target: Option<PlanetMember>,
    ) -> (r: Result<PlanetMember, ApiError>)
        ensures
            !permission_granted("planet.roles.add_member"@, *planet, requester, roles)
                ==> (r matches Err(e) && e@ == not_found_error()),
            permission_granted("planet.roles.add_member"@, *planet, requester, roles) ==> match target {
                None => r matches Err(e) && e@ == not_found_error(),
                Some(m) => if m.planet@ != target_role.planet@ {
                    r matches Err(e) && e@ == not_found_error()
                } else if holds(m.roles@, target_role.id@) {
                    r matches Err(e) && e@ == user_input_error(
                        "This user already has that role."@,
                        "ALREADY_HAS_ROLE"@,
                    )
                } else {
                    r matches Ok(n) && {
                        &&& n.roles@ == m.roles@.push(target_role.id)
                        &&& n == (PlanetMember { roles: n.roles, ..m })
                    }
                },
            },
    {
        check_permission("planet.roles.add_member", planet, requester, roles)?;
        let mut m = match target {
            Some(m) => m,
            None => {
                return Err(create_not_found_error());
            },
        };
        if !str_eq(m.planet.as_str(), target_role.planet.as_str()) {
            return Err(create_not_found_error());
        }
        if vec_holds(&m.roles, target_role.id.as_str()) {
            return Err(create_user_input_error("This user already has that role.", "ALREADY_HAS_ROLE"));
        }
        m.roles.push(target_role.id.clone());
        Ok(m)
    }

    /// Takes a role away from a member. Needs `planet.roles.remove_member`; `target` is the
    /// lookup of the member.
    ///
    /// Whether the requester's roles rank above this role (the `high_enough` rule) is not
    /// checked: no definition of that ranking exists to state it by.
    pub fn remove_role_member(
        target_role: &PlanetRole,
        planet: &Planet,
        requester: Option<PlanetMember>,
        roles: Option<Vec<PlanetRole>>,
        target: Option<PlanetMember>,
    ) -> (r: Result<PlanetMember, ApiError>)
        ensures
            !permission_granted("planet.roles.remove_member"@, *planet, requester, roles)
                ==> (r matches Err(e) && e@ == not_found_error()),
            permission_granted("planet.roles.remove_member"@, *planet, requester, roles) ==> match target {
                None => r matches Err(e) && e@ == not_found_error(),
                Some(m) => if m.planet@ != target_role.planet@ {
                    r matches Err(e) && e@ == not_found_error()
                } else if !holds(m.roles@, target_role.id@) {
                    r matches Err(e) && e@ == user_input_error(
                        "This user doesn't have that role"@,
                        "ALREADY_MISSING_ROLE"@,
                    )
                } else {
                    r matches Ok(n) && {
                        &&& strings_view(n.roles@) == without_string(strings_view(m.roles@), target_role.id@)
                        &&& n == (PlanetMember { roles: n.roles, ..m })
                    }
                },
            },
    {
        check_permission("planet.roles.remove_member", planet, requester, roles)?;
        let mut m = match target {
            Some(m) => m,
            None => {
                return Err(create_not_found_error());
            },
        };
        if !str_eq(m.planet.as_str(), target_role.planet.as_str()) {
            return Err(create_not_found_error());
        }
        if !vec_holds(&m.roles, target_role.id.as_str()) {
            return Err(create_user_input_error("This user doesn't have that role", "ALREADY_MISSING_ROLE"));
        }
        m.roles = remove_string(&m.roles, target_role.id.as_str());
        Ok(m)
    }
}

/// Removing a string keeps exactly the other strings.
pub proof fn lemma_without_string_contains(v: Seq<Seq<char>>, s: Seq<char>, y: Seq<char>)
    ensures
        without_string(v, s).contains(y) == (y != s && v.contains(y)),
    decreases v.len(),
{
    if v.len() > 0 {
        let d = v.drop_last();
        lemma_without_string_contains(d, s, y);
        let w = without_string(d, s);
        if without_string(v, s).contains(y) {
            if v.last() != s && v.last() == y {
                assert(v[v.len() - 1] == y);
            } else {
                if v.last() != s {
                    let k = choose|k: int| 0 <= k < w.push(v.last()).len() && w.push(v.last())[k] == y;
                    assert(w[k] == y);
                }
                let k = choose|k: int| 0 <= k < d.len() && d[k] == y;
                assert(v[k] == y);
            }
        } else if y != s && v.contains(y) {
            let k = choose|k: int| 0 <= k < v.len() && v[k] == y;
            if k < d.len() {
                assert(d[k] == y);
                if v.last() != s {
                    let j = choose|j: int| 0 <= j < w.len() && w[j] == y;
                    assert(w.push(v.last())[j] == y);
                }
            } else {
                assert(w.push(v.last())[w.len() as int] == y);
            }
        }
    }
}


/// Law: taking a role from a member right after giving it to them gives back the roles they
/// had: `add_role_member` appends a role the member does not hold, and
/// `remove_role_member` removes every occurrence of it.
pub proof fn lemma_remove_role_undoes_add(roles: Seq<String>, role: String)
    requires
        !holds(roles, role@),
    ensures
        without_string(strings_view(roles.push(role)), role@) == strings_view(roles),
{
    let v = strings_view(roles);
    assert(strings_view(roles.push(role)) =~= v.push(role@));
    assert(v.push(role@).drop_last() =~= v);
    lemma_without_absent_string(v, role@);
}

/// Removing a string that a list does not hold leaves the list as it is.
proof fn lemma_without_absent_string(v: Seq<Seq<char>>, s: Seq<char>)
    requires
        !v.contains(s),
    ensures
        without_string(v, s) == v,
    decreases v.len(),
{
    if v.len() > 0 {
        let d = v.drop_last();
        if d.contains(s) {
            let k = choose|k: int| 0 <= k < d.len() && d[k] == s;
            assert(v[k] == s);
        }
        lemma_without_absent_string(d, s);
        assert(v[v.len() - 1] != s);
        assert(d.push(v.last()) =~= v);
    }
}

} // verus!
