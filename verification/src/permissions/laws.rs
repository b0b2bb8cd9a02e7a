//! Properties of the permission rule that hold for all planets, members and roles.
use vstd::prelude::*;
use crate::entities::{Planet, PlanetMember, PlanetRole, strings_view};
use super::constants::{viewer_permissions_spec, owner_permissions_spec};
use super::checks::{
    permission_granted, setting_in, role_decision, in_group, administrator_grants, planet_mismatch,
    is_administrator, is_owner, member_entries, role_seq,
};

verus! {

/// Whether role `r` says anything about permission `q`.
pub open spec fn role_sets(r: PlanetRole, q: Seq<char>) -> bool {
    setting_in(strings_view(r.permissions@), q) is Some
}

/// Law: a private planet grants nothing to someone who is not a member.
pub proof fn lemma_private_planet_needs_member(q: Seq<char>, planet: Planet, roles: Option<Vec<PlanetRole>>)
    requires
        planet.private,
    ensures
        !permission_granted(q, planet, None, roles),
{
}

/// Law: without a member or roles, a public planet grants exactly the viewer permissions.
pub proof fn lemma_public_planet_viewers(q: Seq<char>, planet: Planet)
    requires
        !planet.private,
    ensures
        permission_granted(q, planet, None, None) == in_group(viewer_permissions_spec(), q),
{
    assert(member_entries(None) =~= Seq::<Seq<char>>::empty());
    assert(role_seq(None) =~= Seq::<PlanetRole>::empty());
    assert(!member_entries(None).contains("+owner"@));
    assert(!member_entries(None).contains("+administrator"@));
}

/// Law: a member or a role of another planet is never granted anything.
pub proof fn lemma_planet_locked(
    q: Seq<char>,
    planet: Planet,
    member: Option<PlanetMember>,
    roles: Option<Vec<PlanetRole>>,
)
    requires
        planet_mismatch(planet, member, roles),
    ensures
        !permission_granted(q, planet, member, roles),
{
}

/// Law: the member's own entry for a permission supersedes every role, unless the member is
/// an administrator or owner.
pub proof fn lemma_member_supersedes_roles(
    q: Seq<char>,
    planet: Planet,
    m: PlanetMember,
    roles: Option<Vec<PlanetRole>>,
    b: bool,
)
    requires
        !planet_mismatch(planet, Some(m), roles),
        !is_administrator(Some(m), roles),
        !is_owner(Some(m)),
        setting_in(strings_view(m.permissions@), q) == Some(b),
    ensures
        permission_granted(q, planet, Some(m), roles) == b,
{
}

/// Law: administrators hold every administrator, viewer and member permission, whatever
/// their own entries and their roles say.
pub proof fn lemma_administrator_override(
    q: Seq<char>,
    planet: Planet,
    m: PlanetMember,
    roles: Option<Vec<PlanetRole>>,
)
    requires
        !planet_mismatch(planet, Some(m), roles),
        is_administrator(Some(m), roles),
        administrator_grants(q),
    ensures
        permission_granted(q, planet, Some(m), roles),
{
}

/// Law: owners hold every permission of every group, whatever their entries and roles say.
pub proof fn lemma_owner_override(
    q: Seq<char>,
    planet: Planet,
    m: PlanetMember,
    roles: Option<Vec<PlanetRole>>,
)
    requires
        !planet_mismatch(planet, Some(m), roles),
        is_owner(Some(m)),
        administrator_grants(q) || in_group(owner_permissions_spec(), q),
    ensures
        permission_granted(q, planet, Some(m), roles),
{
}

/// Law: the deciding role is the one with the highest position among the roles that set the
/// permission, the later one in the list among equal positions; when no role sets it, there
/// is no decision.
pub proof fn lemma_role_decision_highest(roles: Seq<PlanetRole>, q: Seq<char>)
    ensures
        role_decision(roles, q) is None <==> (forall|j: int| 0 <= j < roles.len() ==> !role_sets(#[trigger] roles[j], q)),
        role_decision(roles, q) matches Some(d) ==> exists|i: int| {
            &&& 0 <= i < roles.len()
            &&& setting_in(strings_view(roles[i].permissions@), q) == Some(d.1)
            &&& roles[i].position == d.0
            &&& forall|j: int| 0 <= j < roles.len() && role_sets(#[trigger] roles[j], q) ==> roles[j].position <= d.0
            &&& forall|j: int| i < j < roles.len() && role_sets(#[trigger] roles[j], q) ==> roles[j].position < d.0
        },
    decreases roles.len(),
{
    if roles.len() > 0 {
        let d0 = roles.drop_last();
        let r = roles.last();
        let n = roles.len() - 1;
        lemma_role_decision_highest(d0, q);
        assert forall|j: int| 0 <= j < n implies #[trigger] roles[j] == d0[j] by {}
        let prev = role_decision(d0, q);
        match setting_in(strings_view(r.permissions@), q) {
            None => {
                if let Some(d) = prev {
                    let i = choose|i: int| {
                        &&& 0 <= i < d0.len()
                        &&& setting_in(strings_view(d0[i].permissions@), q) == Some(d.1)
                        &&& d0[i].position == d.0
                        &&& forall|j: int| 0 <= j < d0.len() && role_sets(#[trigger] d0[j], q) ==> d0[j].position <= d.0
                        &&& forall|j: int| i < j < d0.len() && role_sets(#[trigger] d0[j], q) ==> d0[j].position < d.0
                    };
                    assert(roles[i] == d0[i]);
                    assert forall|j: int| 0 <= j < roles.len() && role_sets(#[trigger] roles[j], q) implies roles[j].position <= d.0 by {
                        if j < n {
                            assert(roles[j] == d0[j]);
                        }
                    }
                    assert forall|j: int| i < j < roles.len() && role_sets(#[trigger] roles[j], q) implies roles[j].position < d.0 by {
                        if j < n {
                            assert(roles[j] == d0[j]);
                        }
                    }
                } else {
                    assert forall|j: int| 0 <= j < roles.len() implies !role_sets(#[trigger] roles[j], q) by {
                        if j < n {
                            assert(roles[j] == d0[j]);
                        }
                    }
                }
            },
            Some(b) => {
                assert(role_sets(roles[n], q));
                match prev {
                    None => {
                        assert forall|j: int| 0 <= j < roles.len() && role_sets(#[trigger] roles[j], q) implies roles[j].position <= r.position by {
                            if j < n {
                                assert(roles[j] == d0[j]);
                                assert(!role_sets(d0[j], q));
                            }
                        }
                        assert(setting_in(strings_view(roles[n].permissions@), q) == Some(b));
                    },
                    Some(d) => {
                        let i = choose|i: int| {
                            &&& 0 <= i < d0.len()
                            &&& setting_in(strings_view(d0[i].permissions@), q) == Some(d.1)
                            &&& d0[i].position == d.0
                            &&& forall|j: int| 0 <= j < d0.len() && role_sets(#[trigger] d0[j], q) ==> d0[j].position <= d.0
                            &&& forall|j: int| i < j < d0.len() && role_sets(#[trigger] d0[j], q) ==> d0[j].position < d.0
                        };
                        if d.0 <= r.position {
                            assert forall|j: int| 0 <= j < roles.len() && role_sets(#[trigger] roles[j], q) implies roles[j].position <= r.position by {
                                if j < n {
                                    assert(roles[j] == d0[j]);
                                }
                            }
                            assert(setting_in(strings_view(roles[n].permissions@), q) == Some(b));
                        } else {
                            assert(roles[i] == d0[i]);
                            assert forall|j: int| 0 <= j < roles.len() && role_sets(#[trigger] roles[j], q) implies roles[j].position <= d.0 by {
                                if j < n {
                                    assert(roles[j] == d0[j]);
                                }
                            }
                            assert forall|j: int| i < j < roles.len() && role_sets(#[trigger] roles[j], q) implies roles[j].position < d.0 by {
                                if j < n {
                                    assert(roles[j] == d0[j]);
                                }
                            }
                        }
                    },
                }
            },
        }
    }
}


/// Whether no two roles of the list share a position.
pub open spec fn positions_distinct(roles: Seq<PlanetRole>) -> bool {
    forall|i: int, j: int| 0 <= i < j < roles.len() ==> roles[i].position != roles[j].position
}

/// The decision of a list of roles, by the highest setting role (see
/// `lemma_role_decision_highest`), when positions are distinct: it is the one role of
/// that position.
proof fn lemma_decision_of_distinct(roles: Seq<PlanetRole>, q: Seq<char>, k: int)
    requires
        positions_distinct(roles),
        0 <= k < roles.len(),
        role_sets(roles[k], q),
        forall|j: int| 0 <= j < roles.len() && role_sets(#[trigger] roles[j], q) ==> roles[j].position <= roles[k].position,
    ensures
        role_decision(roles, q) == Some((roles[k].position, setting_in(strings_view(roles[k].permissions@), q)->0)),
{
    lemma_role_decision_highest(roles, q);
    let d = role_decision(roles, q)->0;
    let i = choose|i: int| {
        &&& 0 <= i < roles.len()
        &&& setting_in(strings_view(roles[i].permissions@), q) == Some(d.1)
        &&& roles[i].position == d.0
        &&& forall|j: int| 0 <= j < roles.len() && role_sets(#[trigger] roles[j], q) ==> roles[j].position <= d.0
        &&& forall|j: int| i < j < roles.len() && role_sets(#[trigger] roles[j], q) ==> roles[j].position < d.0
    };
    assert(role_sets(roles[i], q));
    assert(roles[k].position <= d.0);
    assert(roles[i].position <= roles[k].position);
    if i != k {
        if i < k {
            assert(roles[i].position != roles[k].position);
        } else {
            assert(roles[k].position != roles[i].position);
        }
    }
}

/// Law: the order in which the roles are given does not matter when no two of them share a
/// position: two lists holding the same roles grant the same permissions.
pub proof fn lemma_role_order_irrelevant(
    q: Seq<char>,
    planet: Planet,
    member: Option<PlanetMember>,
    roles1: Vec<PlanetRole>,
    roles2: Vec<PlanetRole>,
)
    requires
        forall|r: PlanetRole| roles1@.contains(r) <==> roles2@.contains(r),
        positions_distinct(roles1@),
        positions_distinct(roles2@),
    ensures
        permission_granted(q, planet, member, Some(roles1)) == permission_granted(q, planet, member, Some(roles2)),
{
    let s1 = roles1@;
    let s2 = roles2@;
    assert(role_seq(Some(roles1)) == s1);
    assert(role_seq(Some(roles2)) == s2);
    // the same roles belong to another planet, and the same roles make an administrator
    assert forall|i: int| 0 <= i < s1.len() implies s2.contains(#[trigger] s1[i]) by {
        assert(s1.contains(s1[i]));
    }
    assert forall|i: int| 0 <= i < s2.len() implies s1.contains(#[trigger] s2[i]) by {
        assert(s2.contains(s2[i]));
    }
    assert(planet_mismatch(planet, member, Some(roles1)) == planet_mismatch(planet, member, Some(roles2))) by {
        if exists|i: int| 0 <= i < s1.len() && s1[i].planet@ != planet.id@ {
            let i = choose|i: int| 0 <= i < s1.len() && s1[i].planet@ != planet.id@;
            let j = choose|j: int| 0 <= j < s2.len() && s2[j] == s1[i];
        }
        if exists|i: int| 0 <= i < s2.len() && s2[i].planet@ != planet.id@ {
            let i = choose|i: int| 0 <= i < s2.len() && s2[i].planet@ != planet.id@;
            let j = choose|j: int| 0 <= j < s1.len() && s1[j] == s2[i];
        }
    }
    assert(is_administrator(member, Some(roles1)) == is_administrator(member, Some(roles2))) by {
        if exists|i: int| 0 <= i < s1.len() && strings_view(s1[i].permissions@).contains("+administrator"@) {
            let i = choose|i: int| 0 <= i < s1.len() && strings_view(s1[i].permissions@).contains("+administrator"@);
            let j = choose|j: int| 0 <= j < s2.len() && s2[j] == s1[i];
        }
        if exists|i: int| 0 <= i < s2.len() && strings_view(s2[i].permissions@).contains("+administrator"@) {
            let i = choose|i: int| 0 <= i < s2.len() && strings_view(s2[i].permissions@).contains("+administrator"@);
            let j = choose|j: int| 0 <= j < s1.len() && s1[j] == s2[i];
        }
    }
    // the same role decides
    assert(role_decision(s1, q) == role_decision(s2, q)) by {
        lemma_role_decision_highest(s1, q);
        lemma_role_decision_highest(s2, q);
        if role_decision(s1, q) is None {
            assert forall|j: int| 0 <= j < s2.len() implies !role_sets(#[trigger] s2[j], q) by {
                let i = choose|i: int| 0 <= i < s1.len() && s1[i] == s2[j];
                assert(!role_sets(s1[i], q));
            }
        } else {
            let d = role_decision(s1, q)->0;
            let k1 = choose|i: int| {
                &&& 0 <= i < s1.len()
                &&& setting_in(strings_view(s1[i].permissions@), q) == Some(d.1)
                &&& s1[i].position == d.0
                &&& forall|j: int| 0 <= j < s1.len() && role_sets(#[trigger] s1[j], q) ==> s1[j].position <= d.0
                &&& forall|j: int| i < j < s1.len() && role_sets(#[trigger] s1[j], q) ==> s1[j].position < d.0
            };
            let k2 = choose|j: int| 0 <= j < s2.len() && s2[j] == s1[k1];
            assert(role_sets(s1[k1], q));
            assert(role_sets(s2[k2], q));
            assert forall|j: int| 0 <= j < s2.len() && role_sets(#[trigger] s2[j], q) implies s2[j].position <= s2[k2].position by {
                let i = choose|i: int| 0 <= i < s1.len() && s1[i] == s2[j];
                assert(role_sets(s1[i], q));
            }
            lemma_decision_of_distinct(s1, q, k1);
            lemma_decision_of_distinct(s2, q, k2);
        }
    }
}

/// Law: on a public planet, being a member never takes away a permission that a visitor
/// without membership holds, unless the member's own entries or one of their roles set that
/// permission. For a member who is neither administrator nor owner, the permission is held
/// exactly when a visitor holds it, that is exactly when it is a viewer permission.
pub proof fn lemma_member_keeps_visitor_permissions(
    q: Seq<char>,
    planet: Planet,
    m: PlanetMember,
    roles: Option<Vec<PlanetRole>>,
)
    requires
        !planet.private,
        m.planet@ == planet.id@,
        forall|j: int| 0 <= j < role_seq(roles).len() ==> (#[trigger] role_seq(roles)[j]).planet@ == planet.id@,
        setting_in(strings_view(m.permissions@), q) is None,
        forall|j: int| 0 <= j < role_seq(roles).len() ==> !role_sets(#[trigger] role_seq(roles)[j], q),
    ensures
        permission_granted(q, planet, None, None) ==> permission_granted(q, planet, Some(m), roles),
        !is_administrator(Some(m), roles) && !is_owner(Some(m)) ==> {
            &&& permission_granted(q, planet, Some(m), roles) == permission_granted(q, planet, None, None)
            &&& permission_granted(q, planet, Some(m), roles) == in_group(viewer_permissions_spec(), q)
        },
{
    lemma_public_planet_viewers(q, planet);
    lemma_role_decision_highest(role_seq(roles), q);
    assert(member_entries(Some(m)) == strings_view(m.permissions@));
    if planet_mismatch(planet, Some(m), roles) {
        let i = choose|i: int| 0 <= i < role_seq(roles).len() && role_seq(roles)[i].planet@ != planet.id@;
        assert(role_seq(roles)[i].planet@ == planet.id@);
    }
}

} // verus!
