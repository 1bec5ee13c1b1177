//! The mathematical model of a registry: a sequence of slots, each an
//! identifier with its entry, in which no identifier occurs twice.
//!
//! The pool's contracts are stated over this model, and the laws that relate
//! its operations are proved here.

use vstd::prelude::*;

verus! {

/// A registry of entries of type `E`, each under an identifier.
pub struct Registry<E> {
    /// The identifiers with their entries, oldest first.
    pub slots: Seq<(Seq<char>, E)>,
}

impl<E> Registry<E> {
    /// The registry that holds nothing.
    pub open spec fn empty() -> Self {
        Registry { slots: Seq::empty() }
    }

    /// The identifiers, oldest first.
    pub open spec fn ids(self) -> Seq<Seq<char>> {
        self.slots.map_values(|slot: (Seq<char>, E)| slot.0)
    }

    /// The number of entries.
    pub open spec fn len(self) -> nat {
        self.slots.len()
    }

    /// No identifier occurs twice.
    pub open spec fn wf(self) -> bool {
        forall|i: int, j: int|
            0 <= i < j < self.slots.len() ==> (#[trigger] self.slots[i]).0 != (
            #[trigger] self.slots[j]).0
    }

    /// Whether `id` is in slot `i`.
    pub open spec fn at(self, id: Seq<char>, i: int) -> bool {
        0 <= i < self.slots.len() && self.slots[i].0 == id
    }

    /// Whether an entry stands under `id`.
    pub open spec fn contains(self, id: Seq<char>) -> bool {
        exists|i: int| self.at(id, i)
    }

    /// The slot of `id`, where the registry contains it.
    pub open spec fn position(self, id: Seq<char>) -> int {
        choose|i: int| self.at(id, i)
    }

    /// The entry under `id`, where the registry contains it.
    pub open spec fn entry(self, id: Seq<char>) -> E {
        self.slots[self.position(id)].1
    }

    /// The registry after an attempt to add `entry` under `id`: unchanged if
    /// the identifier is taken, else with the new slot at the end.
    pub open spec fn spawn(self, id: Seq<char>, entry: E) -> Self {
        if self.contains(id) {
            self
        } else {
            Registry { slots: self.slots.push((id, entry)) }
        }
    }

    /// The registry after the removal of `id`: unchanged if it holds no such
    /// identifier, else without that slot, the others in their order.
    pub open spec fn remove(self, id: Seq<char>) -> Self {
        if self.contains(id) {
            Registry { slots: self.slots.remove(self.position(id)) }
        } else {
            self
        }
    }

    /// The registry after the attempts `calls`, made in order.
    pub open spec fn spawn_all(self, calls: Seq<(Seq<char>, E)>) -> Self
        decreases calls.len(),
    {
        if calls.len() == 0 {
            self
        } else {
            self.spawn_all(calls.drop_last()).spawn(calls.last().0, calls.last().1)
        }
    }

    /// In a registry without duplicates, the slot that holds an identifier is
    /// its position.
    pub proof fn lemma_position(self, id: Seq<char>, i: int)
        requires
            self.wf(),
            self.at(id, i),
        ensures
            self.contains(id),
            self.position(id) == i,
            self.entry(id) == self.slots[i].1,
    {
    }

    /// Two identifiers stand in two slots: each has an entry of its own.
    pub proof fn lemma_slots_apart(self, id: Seq<char>, other: Seq<char>)
        requires
            self.contains(id),
            self.contains(other),
            other != id,
        ensures
            self.position(id) != self.position(other),
            self.at(id, self.position(id)),
            self.at(other, self.position(other)),
    {
    }

    /// Adding keeps the registry free of duplicates. A new identifier is then
    /// found with the entry that was given, and the count grows by one.
    pub proof fn lemma_spawn(self, id: Seq<char>, entry: E)
        requires
            self.wf(),
        ensures
            self.spawn(id, entry).wf(),
            self.spawn(id, entry).contains(id),
            !self.contains(id) ==> self.spawn(id, entry).entry(id) == entry && self.spawn(
                id,
                entry,
            ).len() == self.len() + 1,
    {
        let after = self.spawn(id, entry);
        if !self.contains(id) {
            let n = self.slots.len() as int;
            assert forall|i: int, j: int| 0 <= i < j < after.slots.len() implies (
            #[trigger] after.slots[i]).0 != (#[trigger] after.slots[j]).0 by {
                if j == n {
                    assert(!self.at(id, i));
                }
            }
            after.lemma_position(id, n);
        }
    }

    /// Uniqueness: an attempt to add under an identifier that is taken changes
    /// nothing. The entry that stood under it stands there still.
    pub proof fn lemma_spawn_taken(self, id: Seq<char>, entry: E)
        requires
            self.contains(id),
        ensures
            self.spawn(id, entry) == self,
            self.spawn(id, entry).entry(id) == self.entry(id),
    {
    }

    /// Adding under one identifier leaves every other identifier as it was.
    pub proof fn lemma_spawn_keeps_others(self, id: Seq<char>, entry: E, other: Seq<char>)
        requires
            self.wf(),
            other != id,
        ensures
            self.spawn(id, entry).contains(other) == self.contains(other),
            self.contains(other) ==> self.spawn(id, entry).entry(other) == self.entry(other),
    {
        let after = self.spawn(id, entry);
        self.lemma_spawn(id, entry);
        if !self.contains(id) {
            if self.contains(other) {
                let p = self.position(other);
                after.lemma_position(other, p);
            }
            if after.contains(other) {
                let q = after.position(other);
                assert(self.at(other, q));
            }
        }
    }

    /// Uniqueness over any sequence of attempts on an empty registry: no
    /// identifier is ever held twice, and under each identifier stands the
    /// entry of the first attempt that named it, whatever came later.
    pub proof fn lemma_first_spawn_stays(calls: Seq<(Seq<char>, E)>, first: int)
        requires
            0 <= first < calls.len(),
            forall|k: int| 0 <= k < first ==> (#[trigger] calls[k]).0 != calls[first].0,
        ensures
            Self::empty().spawn_all(calls).wf(),
            Self::empty().spawn_all(calls).contains(calls[first].0),
            Self::empty().spawn_all(calls).entry(calls[first].0) == calls[first].1,
        decreases calls.len(),
    {
        let id = calls[first].0;
        let earlier = calls.drop_last();
        let before = Self::empty().spawn_all(earlier);
        Self::lemma_spawn_all_wf(earlier);
        if first == calls.len() - 1 {
            Self::lemma_spawn_all_absent(earlier, id);
            before.lemma_spawn(id, calls[first].1);
        } else {
            assert forall|k: int| 0 <= k < first implies (#[trigger] earlier[k]).0
                != earlier[first].0 by {}
            Self::lemma_first_spawn_stays(earlier, first);
            before.lemma_spawn(calls.last().0, calls.last().1);
            if calls.last().0 == id {
                before.lemma_spawn_taken(id, calls.last().1);
            } else {
                before.lemma_spawn_keeps_others(calls.last().0, calls.last().1, id);
            }
        }
    }

    /// Any sequence of attempts on an empty registry leaves it free of
    /// duplicates.
    pub proof fn lemma_spawn_all_wf(calls: Seq<(Seq<char>, E)>)
        ensures
            Self::empty().spawn_all(calls).wf(),
        decreases calls.len(),
    {
        if calls.len() > 0 {
            Self::lemma_spawn_all_wf(calls.drop_last());
            Self::empty().spawn_all(calls.drop_last()).lemma_spawn(calls.last().0, calls.last().1);
        }
    }

    /// An identifier that no attempt named is not in the registry.
    pub proof fn lemma_spawn_all_absent(calls: Seq<(Seq<char>, E)>, id: Seq<char>)
        requires
            forall|k: int| 0 <= k < calls.len() ==> (#[trigger] calls[k]).0 != id,
        ensures
            !Self::empty().spawn_all(calls).contains(id),
        decreases calls.len(),
    {
        if calls.len() > 0 {
            let earlier = calls.drop_last();
            assert forall|k: int| 0 <= k < earlier.len() implies (#[trigger] earlier[k]).0
                != id by {}
            Self::lemma_spawn_all_absent(earlier, id);
            Self::lemma_spawn_all_wf(earlier);
            Self::empty().spawn_all(earlier).lemma_spawn_keeps_others(
                calls.last().0,
                calls.last().1,
                id,
            );
        } else {
            assert(!Self::empty().contains(id)) by {
                assert forall|i: int| !Self::empty().at(id, i) by {}
            }
        }
    }

    /// Removal keeps the registry free of duplicates, and the identifier is
    /// gone afterwards: a request for it finds nothing.
    pub proof fn lemma_remove(self, id: Seq<char>)
        requires
            self.wf(),
        ensures
            self.remove(id).wf(),
            !self.remove(id).contains(id),
            self.contains(id) ==> self.remove(id).len() + 1 == self.len(),
    {
        let after = self.remove(id);
        if self.contains(id) {
            assert forall|i: int, j: int| 0 <= i < j < after.slots.len() implies (
            #[trigger] after.slots[i]).0 != (#[trigger] after.slots[j]).0 by {}
            assert forall|i: int| !after.at(id, i) by {}
        }
    }

    /// Removing one identifier leaves every other identifier as it was.
    pub proof fn lemma_remove_keeps_others(self, id: Seq<char>, other: Seq<char>)
        requires
            self.wf(),
            other != id,
        ensures
            self.remove(id).contains(other) == self.contains(other),
            self.contains(other) ==> self.remove(id).entry(other) == self.entry(other),
    {
        let after = self.remove(id);
        self.lemma_remove(id);
        if self.contains(id) {
            let p = self.position(id);
            if self.contains(other) {
                let q = self.position(other);
                after.lemma_position(other, if q < p { q } else { q - 1 });
            }
            if after.contains(other) {
                let b = after.position(other);
                assert(self.at(other, if b < p { b } else { b + 1 }));
            }
        }
    }
}

} // verus!
