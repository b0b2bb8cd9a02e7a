//! Steps shared by several operations.
use vstd::prelude::*;
use crate::entities::strings_view;
use crate::permissions::util::{update_permissions, updated_permissions, bases_distinct, lemma_update_keeps_one_setting,
    lemma_update_keeps_others, lemma_update_sets_permission, is_explicit};
use crate::permissions::checks::setting_in;
use crate::text::{permission_base, grants};

verus! {

/// The position just below the lowest one (`-1` when there is none).
pub open spec fn position_below_spec(lowest: Option<i32>) -> int {
    match lowest {
        Some(p) => p - 1,
        None => -1,
    }
}

/// The position just below the lowest one (`-1` when there is none). The lowest position
/// must leave room below it.
pub fn position_below(lowest: Option<i32>) -> (r: i32)
    requires
        lowest matches Some(p) ==> p > i32::MIN,
    ensures
        r == position_below_spec(lowest),
{
    match lowest {
        Some(p) => p - 1,
        None => -1,
    }
}

/// The permission list after applying the entries in order.
pub open spec fn updates_applied(v: Seq<Seq<char>>, entries: Seq<Seq<char>>) -> Seq<Seq<char>>
    decreases entries.len(),
{
    if entries.len() == 0 {
        v
    } else {
        updated_permissions(updates_applied(v, entries.drop_last()), entries.last())
    }
}

/// Applies permission entries in order (see `update_permissions`).
pub fn apply_permission_updates(permissions: Vec<String>, entries: Vec<String>) -> (r: Vec<String>)
    ensures
        strings_view(r@) == updates_applied(strings_view(permissions@), strings_view(entries@)),
{
    let ghost start = strings_view(permissions@);
    let ghost all = strings_view(entries@);
    let mut current = permissions;
    let mut i: usize = 0;
    while i < entries.len()
        invariant
            i <= entries.len(),
            all == strings_view(entries@),
            strings_view(current@) == updates_applied(start, all.take(i as int)),
        decreases entries.len() - i,
    {
        proof {
            assert(all.take(i + 1).drop_last() =~= all.take(i as int));
            assert(all.take(i + 1).last() == entries@[i as int]@);
        }
        current = update_permissions(current, entries[i].clone());
        i = i + 1;
    }
    proof {
        assert(all.take(entries.len() as int) =~= all);
    }
    current
}

/// Law: applying permission entries in order never leaves two entries for the same
/// permission in a list that had none, and adds at most one entry per applied entry.
pub proof fn lemma_updates_keep_one_setting(v: Seq<Seq<char>>, entries: Seq<Seq<char>>)
    requires
        bases_distinct(v),
    ensures
        bases_distinct(updates_applied(v, entries)),
        updates_applied(v, entries).len() <= v.len() + entries.len(),
    decreases entries.len(),
{
    if entries.len() > 0 {
        lemma_updates_keep_one_setting(v, entries.drop_last());
        lemma_update_keeps_one_setting(updates_applied(v, entries.drop_last()), entries.last());
    }
}

/// Law: the entries are applied on top of the existing permissions. Applying no entries
/// leaves the list as it is, and the setting of every permission that no entry names is
/// the one it had before.
pub proof fn lemma_updates_keep_unnamed(v: Seq<Seq<char>>, entries: Seq<Seq<char>>, q: Seq<char>)
    requires
        forall|i: int| 0 <= i < entries.len() ==> permission_base(#[trigger] entries[i]) != q,
    ensures
        updates_applied(v, Seq::empty()) == v,
        setting_in(updates_applied(v, entries), q) == setting_in(v, q),
    decreases entries.len(),
{
    if entries.len() > 0 {
        let d = entries.drop_last();
        assert forall|i: int| 0 <= i < d.len() implies permission_base(#[trigger] d[i]) != q by {
            assert(d[i] == entries[i]);
        }
        lemma_updates_keep_unnamed(v, d, q);
        assert(permission_base(entries[entries.len() - 1]) != q);
        lemma_update_keeps_others(updates_applied(v, d), entries.last(), q);
    }
}

/// Law: after applying the entries, a permission that an entry names is set as the last such
/// entry says: granted for `+`, denied for `-`, and unset (falling back) for any other prefix.
pub proof fn lemma_updates_last_entry_decides(v: Seq<Seq<char>>, entries: Seq<Seq<char>>, k: int)
    requires
        0 <= k < entries.len(),
        forall|i: int| k < i < entries.len() ==> permission_base(#[trigger] entries[i]) != permission_base(entries[k]),
    ensures
        setting_in(updates_applied(v, entries), permission_base(entries[k])) == (if is_explicit(entries[k]) {
            Some(grants(entries[k]))
        } else {
            None::<bool>
        }),
    decreases entries.len(),
{
    let d = entries.drop_last();
    if k == entries.len() - 1 {
        lemma_update_sets_permission(updates_applied(v, d), entries[k]);
    } else {
        assert forall|i: int| k < i < d.len() implies permission_base(#[trigger] d[i]) != permission_base(d[k]) by {
            assert(d[i] == entries[i]);
        }
        lemma_updates_last_entry_decides(v, d, k);
        assert(permission_base(entries[entries.len() - 1]) != permission_base(entries[k]));
        lemma_update_keeps_others(updates_applied(v, d), entries.last(), permission_base(entries[k]));
    }
}

} // verus!
