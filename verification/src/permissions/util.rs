//! Helpers used by every permission-guarded operation.
use vstd::prelude::*;
use crate::text::{permission_base, grants, same_base, first_char};
use crate::entities::{Planet, PlanetMember, PlanetRole, strings_view};
use crate::errors::{ApiError, create_not_found_error, not_found_error};
use super::checks::{has_permission, permission_granted, setting_in};

verus! {

/// Checks for a permission and fails with the not-found error when it is not held, so that
/// permission behavior (and what is hidden) is the same across the API.
pub fn check_permission(
    permission: &str,
    planet: &Planet,
    member: Option<PlanetMember>,
    roles: Option<Vec<PlanetRole>>,
) -> (r: Result<(), ApiError>)
    ensures
        r is Ok <==> permission_granted(permission@, *planet, member, roles),
        r matches Err(e) ==> e@ == not_found_error(),
{
    if has_permission(permission, planet, member, roles) {
        Ok(())
    } else {
        Err(create_not_found_error())
    }
}

/// Whether an entry sets its permission explicitly: `+` grants and `-` denies. Any other
/// prefix (such as `*`) falls back to the previous permission set.
pub open spec fn is_explicit(p: Seq<char>) -> bool {
    p.len() > 0 && (p[0] == '-' || p[0] == '+')
}

/// Whether an entry is for another permission than base `b`.
pub open spec fn base_differs(b: Seq<char>) -> spec_fn(Seq<char>) -> bool {
    |x: Seq<char>| permission_base(x) != b
}

/// The entries of `v` whose base differs from that of `p`.
pub open spec fn other_entries(v: Seq<Seq<char>>, p: Seq<char>) -> Seq<Seq<char>> {
    v.filter(base_differs(permission_base(p)))
}

/// The permission list after applying entry `p`: every entry for the same permission is
/// removed, then `p` is appended when it is explicit.
pub open spec fn updated_permissions(v: Seq<Seq<char>>, p: Seq<char>) -> Seq<Seq<char>> {
    if is_explicit(p) {
        other_entries(v, p).push(p)
    } else {
        other_entries(v, p)
    }
}

/// Modifies a permission list based on an entry's prefix.
///
/// Prefixes: `+` grants the permission, `-` explicitly denies it, and `*` (or any other
/// character) falls back to the previous permission set, removing the entry.
pub fn update_permissions(permission_vec: Vec<String>, permission: String) -> (r: Vec<String>)
    ensures
        strings_view(r@) == updated_permissions(strings_view(permission_vec@), permission@),
{
    let ghost all = strings_view(permission_vec@);
    let ghost pred = base_differs(permission_base(permission@));
    let mut kept: Vec<String> = Vec::new();
    let mut i: usize = 0;
    while i < permission_vec.len()
        invariant
            i <= permission_vec.len(),
            all == strings_view(permission_vec@),
            pred == base_differs(permission_base(permission@)),
            strings_view(kept@) == all.take(i as int).filter(pred),
        decreases permission_vec.len() - i,
    {
        let ghost before = kept@;
        let keep = !same_base(permission_vec[i].as_str(), permission.as_str());
        if keep {
            kept.push(permission_vec[i].clone());
        }
        proof {
            let pre = all.take(i as int);
            let post = all.take(i + 1);
            assert(post.drop_last() =~= pre);
            assert(post.last() == permission_vec@[i as int]@);
            reveal_with_fuel(Seq::filter, 1);
            if keep {
                assert(strings_view(kept@) =~= strings_view(before).push(permission_vec@[i as int]@));
            } else {
                assert(strings_view(kept@) =~= strings_view(before));
            }
        }
        i = i + 1;
    }
    proof {
        assert(all.take(permission_vec.len() as int) =~= all);
    }
    let prefix = first_char(permission.as_str());
    if prefix == Some('-') || prefix == Some('+') {
        let ghost before = kept@;
        kept.push(permission);
        proof {
            assert(strings_view(kept@) =~= strings_view(before).push(permission@));
        }
    }
    kept
}

/// Filtering a sequence extended by one element.
proof fn lemma_filter_push(s: Seq<Seq<char>>, x: Seq<char>, pred: spec_fn(Seq<char>) -> bool)
    ensures
        s.push(x).filter(pred) == (if pred(x) { s.filter(pred).push(x) } else { s.filter(pred) }),
{
    reveal_with_fuel(Seq::filter, 1);
    assert(s.push(x).drop_last() =~= s);
}

/// Filtering keeps a sequence whose elements all satisfy the predicate.
proof fn lemma_filter_all(s: Seq<Seq<char>>, pred: spec_fn(Seq<char>) -> bool)
    requires
        forall|k: int| 0 <= k < s.len() ==> pred(#[trigger] s[k]),
    ensures
        s.filter(pred) == s,
    decreases s.len(),
{
    reveal_with_fuel(Seq::filter, 1);
    if s.len() > 0 {
        let t = s.drop_last();
        assert forall|k: int| 0 <= k < t.len() implies pred(#[trigger] t[k]) by {
            assert(t[k] == s[k]);
        }
        lemma_filter_all(t, pred);
        assert(t.push(s.last()) =~= s);
    }
}

/// Removing every entry for base `b` leaves no setting for `b`.
proof fn lemma_filtered_base_unset(s: Seq<Seq<char>>, b: Seq<char>)
    ensures
        setting_in(s.filter(base_differs(b)), b) is None,
    decreases s.len(),
{
    let pred = base_differs(b);
    if s.len() > 0 {
        let d = s.drop_last();
        let x = s.last();
        lemma_filtered_base_unset(d, b);
        assert(d.push(x) =~= s);
        lemma_filter_push(d, x, pred);
        assert(d.filter(pred).push(x).drop_last() =~= d.filter(pred));
    } else {
        reveal_with_fuel(Seq::filter, 1);
    }
}

/// Removing entries for base `b` does not change the setting for any other base `q`.
proof fn lemma_filtered_other_base(s: Seq<Seq<char>>, b: Seq<char>, q: Seq<char>)
    requires
        q != b,
    ensures
        setting_in(s.filter(base_differs(b)), q) == setting_in(s, q),
    decreases s.len(),
{
    let pred = base_differs(b);
    if s.len() > 0 {
        let d = s.drop_last();
        let x = s.last();
        lemma_filtered_other_base(d, b, q);
        assert(d.push(x) =~= s);
        lemma_filter_push(d, x, pred);
        assert(d.filter(pred).push(x).drop_last() =~= d.filter(pred));
    } else {
        reveal_with_fuel(Seq::filter, 1);
    }
}

/// Law: after applying entry `p`, the permission it names is set exactly as `p` says: granted
/// for `+`, denied for `-`, and left unset (falling back) for any other prefix.
pub proof fn lemma_update_sets_permission(v: Seq<Seq<char>>, p: Seq<char>)
    ensures
        setting_in(updated_permissions(v, p), permission_base(p)) == (if is_explicit(p) {
            Some(grants(p))
        } else {
            None::<bool>
        }),
{
    lemma_filtered_base_unset(v, permission_base(p));
}

/// Law: applying entry `p` leaves the setting of every other permission unchanged.
pub proof fn lemma_update_keeps_others(v: Seq<Seq<char>>, p: Seq<char>, q: Seq<char>)
    requires
        q != permission_base(p),
    ensures
        setting_in(updated_permissions(v, p), q) == setting_in(v, q),
{
    lemma_filtered_other_base(v, permission_base(p), q);
    let k = other_entries(v, p);
    assert(k.push(p).drop_last() =~= k);
}

/// Law: applying the same entry twice is the same as applying it once.
pub proof fn lemma_update_idempotent(v: Seq<Seq<char>>, p: Seq<char>)
    ensures
        updated_permissions(updated_permissions(v, p), p) == updated_permissions(v, p),
{
    let pred = base_differs(permission_base(p));
    let kept = v.filter(pred);
    assert(other_entries(v, p) == kept);
    v.filter_lemma(pred);
    assert forall|k: int| 0 <= k < kept.len() implies pred(#[trigger] kept[k]) by {
    }
    lemma_filter_all(kept, pred);
    if is_explicit(p) {
        lemma_filter_push(kept, p, pred);
        assert(other_entries(kept.push(p), p) == kept.push(p).filter(pred));
    } else {
        assert(other_entries(kept, p) == kept.filter(pred));
    }
}

/// Law: a later entry for the same permission replaces an earlier one entirely.
pub proof fn lemma_update_latest_wins(v: Seq<Seq<char>>, p1: Seq<char>, p2: Seq<char>)
    requires
        permission_base(p1) == permission_base(p2),
    ensures
        updated_permissions(updated_permissions(v, p1), p2) == updated_permissions(v, p2),
{
    let pred = base_differs(permission_base(p2));
    let kept = v.filter(pred);
    assert(other_entries(v, p1) == kept);
    assert(other_entries(v, p2) == kept);
    v.filter_lemma(pred);
    assert forall|k: int| 0 <= k < kept.len() implies pred(#[trigger] kept[k]) by {
    }
    lemma_filter_all(kept, pred);
    if is_explicit(p1) {
        lemma_filter_push(kept, p1, pred);
        assert(other_entries(kept.push(p1), p2) == kept.push(p1).filter(pred));
    } else {
        assert(other_entries(kept, p2) == kept.filter(pred));
    }
}

/// Whether no two entries of a permission list are for the same permission.
pub open spec fn bases_distinct(v: Seq<Seq<char>>) -> bool {
    forall|i: int, j: int| 0 <= i < j < v.len() ==> permission_base(v[i]) != permission_base(v[j])
}

/// Filtering a list whose entries are for distinct permissions keeps them distinct, and keeps
/// only entries of the list.
proof fn lemma_filter_keeps_distinct(s: Seq<Seq<char>>, pred: spec_fn(Seq<char>) -> bool)
    requires
        bases_distinct(s),
    ensures
        bases_distinct(s.filter(pred)),
        forall|k: int| 0 <= k < s.filter(pred).len() ==> s.contains(#[trigger] s.filter(pred)[k]),
    decreases s.len(),
{
    reveal_with_fuel(Seq::filter, 1);
    if s.len() > 0 {
        let d = s.drop_last();
        let x = s.last();
        assert(d.push(x) =~= s);
        assert forall|i: int, j: int| 0 <= i < j < d.len() implies permission_base(d[i]) != permission_base(d[j]) by {
            assert(d[i] == s[i] && d[j] == s[j]);
        }
        lemma_filter_keeps_distinct(d, pred);
        lemma_filter_push(d, x, pred);
        let fd = d.filter(pred);
        assert forall|k: int| 0 <= k < fd.len() implies permission_base(#[trigger] fd[k]) != permission_base(x) by {
            assert(d.contains(fd[k]));
            let m = choose|m: int| 0 <= m < d.len() && d[m] == fd[k];
            assert(s[m] == d[m]);
            assert(s[s.len() - 1] == x);
        }
        assert forall|k: int| 0 <= k < fd.len() implies s.contains(#[trigger] fd[k]) by {
            assert(d.contains(fd[k]));
            let m = choose|m: int| 0 <= m < d.len() && d[m] == fd[k];
            assert(s[m] == d[m]);
        }
        if pred(x) {
            let f = fd.push(x);
            assert forall|i: int, j: int| 0 <= i < j < f.len() implies permission_base(f[i]) != permission_base(f[j]) by {
                if j == fd.len() {
                    assert(f[i] == fd[i]);
                } else {
                    assert(f[i] == fd[i] && f[j] == fd[j]);
                }
            }
            assert forall|k: int| 0 <= k < f.len() implies s.contains(#[trigger] f[k]) by {
                if k == fd.len() {
                    assert(s[s.len() - 1] == x);
                } else {
                    assert(f[k] == fd[k]);
                }
            }
        }
    }
}

/// Law: applying an entry never leaves two entries for the same permission in a list that had
/// none, and adds at most one entry.
pub proof fn lemma_update_keeps_one_setting(v: Seq<Seq<char>>, p: Seq<char>)
    requires
        bases_distinct(v),
    ensures
        bases_distinct(updated_permissions(v, p)),
        updated_permissions(v, p).len() <= v.len() + 1,
{
    let pred = base_differs(permission_base(p));
    let kept = v.filter(pred);
    assert(other_entries(v, p) == kept);
    v.filter_lemma(pred);
    lemma_filter_keeps_distinct(v, pred);
    if is_explicit(p) {
        let f = kept.push(p);
        assert forall|i: int, j: int| 0 <= i < j < f.len() implies permission_base(f[i]) != permission_base(f[j]) by {
            if j == kept.len() {
                assert(f[i] == kept[i]);
                assert(pred(kept[i]));
            } else {
                assert(f[i] == kept[i] && f[j] == kept[j]);
            }
        }
    }
}

} // verus!
