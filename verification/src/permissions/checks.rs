//! Whether a member (with their roles) holds a permission on a planet.
use vstd::prelude::*;
use crate::text::{permission_base, grants, trim_leading_plus, str_eq, base_is, starts_with_plus, trimmed_is};
use crate::entities::{Planet, PlanetMember, PlanetRole, strings_view};
use super::constants::{
    strs_view, viewer_permissions_spec, member_permissions_spec, administrator_permissions_spec,
    owner_permissions_spec, viewer_permissions, member_permissions, administrator_permissions,
    owner_permissions,
};

verus! {

/// The setting for permission base `q` made by a list of permission strings: the last entry
/// whose base is `q` decides, granting when it starts with `+` and denying otherwise.
pub open spec fn setting_in(perms: Seq<Seq<char>>, q: Seq<char>) -> Option<bool>
    decreases perms.len(),
{
    if perms.len() == 0 {
        None
    } else if permission_base(perms.last()) == q {
        Some(grants(perms.last()))
    } else {
        setting_in(perms.drop_last(), q)
    }
}

/// The deciding role setting for `q`, as (position, setting): roles are taken in order and a
/// role that sets `q` replaces the current decision when its position is at least as high.
/// This is the outcome of applying the roles sorted stably by ascending position.
pub open spec fn role_decision(roles: Seq<PlanetRole>, q: Seq<char>) -> Option<(i32, bool)>
    decreases roles.len(),
{
    if roles.len() == 0 {
        None
    } else {
        let prev = role_decision(roles.drop_last(), q);
        let r = roles.last();
        match setting_in(strings_view(r.permissions@), q) {
            None => prev,
            Some(b) => match prev {
                Some(d) => if d.0 <= r.position {
                    Some((r.position, b))
                } else {
                    prev
                },
                None => Some((r.position, b)),
            },
        }
    }
}

/// Whether any of the roles holds the entry `+administrator`.
pub open spec fn roles_have_administrator(roles: Seq<PlanetRole>) -> bool {
    exists|i: int| 0 <= i < roles.len() && strings_view(roles[i].permissions@).contains("+administrator"@)
}

/// Whether `q` is one of the permissions of a group, with the `+` removed.
pub open spec fn in_group(group: Seq<Seq<char>>, q: Seq<char>) -> bool {
    group.map_values(|c: Seq<char>| trim_leading_plus(c)).contains(q)
}

/// The permissions forced on for administrators and owners.
pub open spec fn administrator_grants(q: Seq<char>) -> bool {
    in_group(administrator_permissions_spec(), q) || in_group(viewer_permissions_spec(), q)
        || in_group(member_permissions_spec(), q)
}

/// The roles given to a check, as a sequence.
pub open spec fn role_seq(roles: Option<Vec<PlanetRole>>) -> Seq<PlanetRole> {
    match roles {
        Some(v) => v@,
        None => Seq::empty(),
    }
}

/// The permission entries of the member given to a check.
pub open spec fn member_entries(member: Option<PlanetMember>) -> Seq<Seq<char>> {
    match member {
        Some(m) => strings_view(m.permissions@),
        None => Seq::empty(),
    }
}

/// Whether the member or a role belongs to another planet than the one checked.
pub open spec fn planet_mismatch(planet: Planet, member: Option<PlanetMember>, roles: Option<Vec<PlanetRole>>) -> bool {
    ||| exists|i: int| 0 <= i < role_seq(roles).len() && role_seq(roles)[i].planet@ != planet.id@
    ||| (member matches Some(m) && m.planet@ != planet.id@)
}

/// Whether the member has the administrator flag, from a role or from their own entries.
pub open spec fn is_administrator(member: Option<PlanetMember>, roles: Option<Vec<PlanetRole>>) -> bool {
    roles_have_administrator(role_seq(roles)) || member_entries(member).contains("+administrator"@)
}

/// Whether the member has the owner flag (only a member's own entries can make an owner).
pub open spec fn is_owner(member: Option<PlanetMember>) -> bool {
    member_entries(member).contains("+owner"@)
}

/// Whether permission `q` is held on `planet` by `member` with `roles`.
///
/// A private planet grants nothing without a member, and nothing is granted when the member
/// or a role belongs to another planet. Owners hold every permission of every group and
/// administrators every permission of the administrator, viewer and member groups. Otherwise
/// the member's own last entry for `q` decides; failing that the deciding role
/// (see `role_decision`); failing that a public planet grants the viewer permissions.
pub open spec fn permission_granted(
    q: Seq<char>,
    planet: Planet,
    member: Option<PlanetMember>,
    roles: Option<Vec<PlanetRole>>,
) -> bool {
    if planet.private && member is None {
        false
    } else if planet_mismatch(planet, member, roles) {
        false
    } else if is_owner(member) && in_group(owner_permissions_spec(), q) {
        true
    } else if (is_administrator(member, roles) || is_owner(member)) && administrator_grants(q) {
        true
    } else {
        match setting_in(member_entries(member), q) {
            Some(b) => b,
            None => match role_decision(role_seq(roles), q) {
                Some(d) => d.1,
                None => !planet.private && in_group(viewer_permissions_spec(), q),
            },
        }
    }
}

/// Reads a list of permission entries: the setting it makes for `q`, and whether it holds
/// `+administrator` and `+owner`.
fn scan_permissions(perms: &Vec<String>, q: &str) -> (r: (Option<bool>, bool, bool))
    ensures
        r.0 == setting_in(strings_view(perms@), q@),
        r.1 == strings_view(perms@).contains("+administrator"@),
        r.2 == strings_view(perms@).contains("+owner"@),
{
    let ghost all = strings_view(perms@);
    let mut setting: Option<bool> = None;
    let mut administrator = false;
    let mut owner = false;
    let mut i: usize = 0;
    while i < perms.len()
        invariant
            all == strings_view(perms@),
            i <= perms.len(),
            setting == setting_in(all.take(i as int), q@),
            administrator == all.take(i as int).contains("+administrator"@),
            owner == all.take(i as int).contains("+owner"@),
        decreases perms.len() - i,
    {
        let p = perms[i].as_str();
        let ghost pre = all.take(i as int);
        let ghost post = all.take(i + 1);
        proof {
            assert(post.drop_last() =~= pre);
            assert(post.last() == p@);
        }
        if str_eq(p, "+administrator") {
            administrator = true;
            proof {
                assert(post[i as int] == "+administrator"@);
            }
        }
        if str_eq(p, "+owner") {
            owner = true;
            proof {
                assert(post[i as int] == "+owner"@);
            }
        }
        if base_is(p, q) {
            setting = Some(starts_with_plus(p));
        }
        proof {
            if !administrator {
                assert forall|k: int| 0 <= k < post.len() implies post[k] != "+administrator"@ by {
                    if k < i {
                        assert(post[k] == pre[k]);
                    }
                }
            } else if pre.contains("+administrator"@) {
                let k = choose|k: int| 0 <= k < pre.len() && pre[k] == "+administrator"@;
                assert(post[k] == pre[k]);
            }
            if !owner {
                assert forall|k: int| 0 <= k < post.len() implies post[k] != "+owner"@ by {
                    if k < i {
                        assert(post[k] == pre[k]);
                    }
                }
            } else if pre.contains("+owner"@) {
                let k = choose|k: int| 0 <= k < pre.len() && pre[k] == "+owner"@;
                assert(post[k] == pre[k]);
            }
        }
        i = i + 1;
    }
    proof {
        assert(all.take(perms.len() as int) =~= all);
    }
    (setting, administrator, owner)
}

/// Whether `q` is one of the permissions of `group`, with the `+` removed.
fn group_contains(group: &Vec<&'static str>, q: &str) -> (r: bool)
    ensures
        r == in_group(strs_view(group@), q@),
{
    let ghost trimmed = strs_view(group@).map_values(|c: Seq<char>| trim_leading_plus(c));
    let mut i: usize = 0;
    while i < group.len()
        invariant
            i <= group.len(),
            trimmed == strs_view(group@).map_values(|c: Seq<char>| trim_leading_plus(c)),
            forall|k: int| 0 <= k < i ==> trimmed[k] != q@,
        decreases group.len() - i,
    {
        if trimmed_is(group[i], q) {
            proof {
                assert(trimmed[i as int] == q@);
            }
            return true;
        }
        i = i + 1;
    }
    false
}

/// Whether the permission `permission` is held on `planet` by `member`, whose roles are
/// `roles`. See `permission_granted` for the rule.
pub fn has_permission(
    permission: &str,
    planet: &Planet,
    member: Option<PlanetMember>,
    roles: Option<Vec<PlanetRole>>,
) -> (r: bool)
    ensures
        r == permission_granted(permission@, *planet, member, roles),
{
    if planet.private && member.is_none() {
        return false;
    }
    let ghost rs_all = role_seq(roles);
    let mut administrator = false;
    let mut decision: Option<(i32, bool)> = None;
    match &roles {
        Some(rs) => {
            let mut i: usize = 0;
            while i < rs.len()
                invariant
                    rs_all == rs@,
                    role_seq(roles) == rs@,
                    i <= rs.len(),
                    forall|k: int| 0 <= k < i ==> rs_all[k].planet@ == planet.id@,
                    decision == role_decision(rs_all.take(i as int), permission@),
                    administrator == roles_have_administrator(rs_all.take(i as int)),
                decreases rs.len() - i,
            {
                let role = &rs[i];
                if !str_eq(role.planet.as_str(), planet.id.as_str()) {
                    proof {
                        assert(role_seq(roles)[i as int].planet@ != planet.id@);
                        assert(planet_mismatch(*planet, member, roles));
                    }
                    return false;
                }
                let ghost pre = rs_all.take(i as int);
                let ghost post = rs_all.take(i + 1);
                proof {
                    assert(post.drop_last() =~= pre);
                    assert(post.last() == *role);
                }
                let (s, adm, _own) = scan_permissions(&role.permissions, permission);
                if adm {
                    administrator = true;
                }
                match s {
                    Some(b) => match decision {
                        Some(d) => {
                            if d.0 <= role.position {
                                decision = Some((role.position, b));
                            }
                        },
                        None => {
                            decision = Some((role.position, b));
                        },
                    },
                    None => {},
                }
                proof {
                    if administrator {
                        if adm {
                            assert(strings_view(post[i as int].permissions@).contains("+administrator"@));
                        } else {
                            let k = choose|k: int| 0 <= k < pre.len()
                                && strings_view(pre[k].permissions@).contains("+administrator"@);
                            assert(post[k] == pre[k]);
                        }
                    } else {
                        assert forall|k: int| 0 <= k < post.len() implies !strings_view(post[k].permissions@).contains("+administrator"@) by {
                            if k < i {
                                assert(post[k] == pre[k]);
                            }
                        }
                    }
                }
                i = i + 1;
            }
            proof {
                assert(rs_all.take(rs.len() as int) =~= rs_all);
            }
        },
        None => {
            proof {
                assert(rs_all.take(0) =~= rs_all);
            }
        },
    }
    let mut owner = false;
    let mut member_setting: Option<bool> = None;
    match &member {
        Some(m) => {
            if !str_eq(m.planet.as_str(), planet.id.as_str()) {
                return false;
            }
            let (s, adm, own) = scan_permissions(&m.permissions, permission);
            member_setting = s;
            if adm {
                administrator = true;
            }
            owner = own;
        },
        None => {
            proof {
                assert(member_entries(member) =~= Seq::<Seq<char>>::empty());
                assert(!member_entries(member).contains("+administrator"@));
                assert(!member_entries(member).contains("+owner"@));
            }
        },
    }
    if owner && group_contains(&owner_permissions(), permission) {
        return true;
    }
    if administrator || owner {
        if group_contains(&administrator_permissions(), permission) || group_contains(
            &viewer_permissions(),
            permission,
        ) || group_contains(&member_permissions(), permission) {
            return true;
        }
    }
    match member_setting {
        Some(b) => b,
        None => match decision {
            Some(d) => d.1,
            None => !planet.private && group_contains(&viewer_permissions(), permission),
        },
    }
}

} // verus!
