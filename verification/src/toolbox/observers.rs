//! Change observers. An observer subscribes to one item (a field or a feature); committing
//! a change to that item yields the observers to notify, in the order they registered. The
//! callbacks themselves belong to the caller, who runs the ones named.
use vstd::prelude::*;
use crate::ids::{new_id, is_generated_id};

verus! {

/// A subscription to changes of `item`.
pub struct Observer<T> {
    pub id: String,
    pub item: T,
}

/// The items that can be observed.
pub trait ObservedItem: Copy {
    fn same_item(&self, other: &Self) -> (r: bool)
        ensures
            r == (*self == *other);
}

/// The identifiers of the observers of `item`, in registration order.
pub open spec fn notified_ids<T>(obs: Seq<Observer<T>>, item: T) -> Seq<Seq<char>>
    decreases obs.len(),
{
    if obs.len() == 0 {
        Seq::empty()
    } else {
        let rest = notified_ids(obs.drop_last(), item);
        if obs.last().item == item {
            rest.push(obs.last().id@)
        } else {
            rest
        }
    }
}

/// The observers whose identifier is not `id`.
pub open spec fn without_id<T>(obs: Seq<Observer<T>>, id: Seq<char>) -> Seq<Observer<T>>
    decreases obs.len(),
{
    if obs.len() == 0 {
        obs
    } else {
        let rest = without_id(obs.drop_last(), id);
        if obs.last().id@ != id {
            rest.push(obs.last())
        } else {
            rest
        }
    }
}

/// Whether an observer has identifier `id`.
pub open spec fn has_id<T>(obs: Seq<Observer<T>>, id: Seq<char>) -> bool {
    exists|i: int| 0 <= i < obs.len() && obs[i].id@ == id
}

/// Something whose changes can be observed.
pub trait Observable<T> {
    spec fn observer_list(&self) -> Seq<Observer<T>>;

    /// Adds an observer of `item` under a fresh random identifier and returns it.
    fn register(&mut self, item: T) -> (r: &Observer<T>)
        ensures
            final(self).observer_list() == old(self).observer_list().push(*r),
            r.item == item,
            is_generated_id(r.id@, 21),
    ;

    /// Removes every observer with identifier `id`.
    fn unregister(&mut self, id: &str)
        ensures
            final(self).observer_list() == without_id(old(self).observer_list(), id@),
    ;

    /// The identifiers of the observers to notify of a change to `item`.
    fn commit_changes(&self, item: T) -> (r: Vec<String>)
        ensures
            r@.map_values(|s: String| s@) == notified_ids(self.observer_list(), item),
    ;
}

/// Adds an observer of `item` with a fresh identifier at the end of `observers`.
pub fn push_observer<T>(observers: &mut Vec<Observer<T>>, item: T)
    ensures
        final(observers)@.len() == old(observers)@.len() + 1,
        final(observers)@.drop_last() == old(observers)@,
        final(observers)@.last().item == item,
        is_generated_id(final(observers)@.last().id@, 21),
{
    let id = new_id(21);
    observers.push(Observer { id, item });
    proof {
        assert(observers@.drop_last() =~= old(observers)@);
    }
}

/// Removes every observer with identifier `id`.
pub fn remove_observers<T>(observers: &mut Vec<Observer<T>>, id: &str)
    ensures
        final(observers)@ == without_id(old(observers)@, id@),
{
    let ghost initial = observers@;
    let mut kept: Vec<Observer<T>> = Vec::new();
    while observers.len() > 0
        invariant
            without_id(initial, id@) == without_id(observers@, id@) + kept@,
        decreases observers.len(),
    {
        let ghost before = observers@;
        let o = observers.pop().unwrap();
        proof {
            assert(before.drop_last() =~= observers@);
            assert(before.last() == o);
        }
        if !crate::text::str_eq(o.id.as_str(), id) {
            let ghost k = kept@;
            kept.insert(0, o);
            proof {
                assert(without_id(before, id@) == without_id(observers@, id@).push(o));
                assert(without_id(observers@, id@).push(o) + k =~= without_id(observers@, id@) + kept@);
            }
        }
    }
    proof {
        assert(without_id(observers@, id@) + kept@ =~= kept@);
    }
    *observers = kept;
}

/// The identifiers of the observers of `item`, in registration order.
pub fn ids_for<T: ObservedItem>(observers: &Vec<Observer<T>>, item: T) -> (r: Vec<String>)
    ensures
        r@.map_values(|s: String| s@) == notified_ids(observers@, item),
{
    let mut ids: Vec<String> = Vec::new();
    let mut i: usize = 0;
    while i < observers.len()
        invariant
            i <= observers.len(),
            ids@.map_values(|s: String| s@) == notified_ids(observers@.take(i as int), item),
        decreases observers.len() - i,
    {
        let ghost before = ids@;
        proof {
            assert(observers@.take(i + 1).drop_last() =~= observers@.take(i as int));
        }
        if observers[i].item.same_item(&item) {
            ids.push(observers[i].id.clone());
            proof {
                assert(ids@.map_values(|s: String| s@) =~= before.map_values(|s: String| s@).push(observers@[i as int].id@));
            }
        }
        i = i + 1;
    }
    proof {
        assert(observers@.take(observers.len() as int) =~= observers@);
    }
    ids
}

/// Law: removing a just registered observer by its identifier restores the observers, when
/// no earlier observer had that identifier.
pub proof fn lemma_unregister_undoes_register<T>(obs: Seq<Observer<T>>, o: Observer<T>)
    requires
        !has_id(obs, o.id@),
    ensures
        without_id(obs.push(o), o.id@) == obs,
{
    assert(obs.push(o).drop_last() =~= obs);
    lemma_without_absent(obs, o.id@);
}

/// Removing an identifier no observer has changes nothing.
pub proof fn lemma_without_absent<T>(obs: Seq<Observer<T>>, id: Seq<char>)
    requires
        !has_id(obs, id),
    ensures
        without_id(obs, id) == obs,
    decreases obs.len(),
{
    if obs.len() > 0 {
        let d = obs.drop_last();
        assert(!has_id(d, id)) by {
            if has_id(d, id) {
                let i = choose|i: int| 0 <= i < d.len() && d[i].id@ == id;
                assert(obs[i] == d[i]);
            }
        }
        lemma_without_absent(d, id);
        assert(obs[obs.len() - 1].id@ != id);
        assert(d.push(obs.last()) =~= obs);
    }
}

/// Law: an observer removed by identifier is never notified afterwards.
pub proof fn lemma_unregistered_not_notified<T>(obs: Seq<Observer<T>>, id: Seq<char>, item: T)
    ensures
        !notified_ids(without_id(obs, id), item).contains(id),
    decreases obs.len(),
{
    if obs.len() > 0 {
        let d = obs.drop_last();
        lemma_unregistered_not_notified(d, id, item);
        let w = without_id(d, id);
        if obs.last().id@ != id {
            assert(w.push(obs.last()).drop_last() =~= w);
            let n = notified_ids(w, item);
            if obs.last().item == item {
                assert forall|k: int| 0 <= k < n.push(obs.last().id@).len() implies n.push(obs.last().id@)[k] != id by {
                    if k < n.len() {
                        assert(n.push(obs.last().id@)[k] == n[k]);
                    }
                }
            }
        }
    }
}

/// Law: committing a change to an item names exactly the observers of that item.
pub proof fn lemma_notified_are_observers<T>(obs: Seq<Observer<T>>, item: T, id: Seq<char>)
    ensures
        notified_ids(obs, item).contains(id) <==> exists|i: int| 0 <= i < obs.len() && obs[i].item == item && obs[i].id@ == id,
    decreases obs.len(),
{
    if obs.len() > 0 {
        let d = obs.drop_last();
        lemma_notified_are_observers(d, item, id);
        let n = notified_ids(d, item);
        let last = obs.last();
        if notified_ids(obs, item).contains(id) {
            if last.item == item && last.id@ == id {
                assert(obs[obs.len() - 1] == last);
            } else {
                if last.item == item {
                    let k = choose|k: int| 0 <= k < n.push(last.id@).len() && n.push(last.id@)[k] == id;
                    assert(k < n.len());
                    assert(n[k] == id);
                }
                assert(n.contains(id));
                let i = choose|i: int| 0 <= i < d.len() && d[i].item == item && d[i].id@ == id;
                assert(obs[i] == d[i]);
            }
        } else {
            assert forall|i: int| 0 <= i < obs.len() && obs[i].item == item implies obs[i].id@ != id by {
                if i < d.len() {
                    assert(obs[i] == d[i]);
                    if d[i].id@ == id {
                        assert(n.contains(id));
                        if last.item == item {
                            let k = choose|k: int| 0 <= k < n.len() && n[k] == id;
                            assert(n.push(last.id@)[k] == id);
                        }
                    }
                } else {
                    if last.item == item {
                        assert(n.push(last.id@)[n.len() as int] == last.id@);
                    }
                }
            }
        }
    }
}

} // verus!
