//! Render-thread cache of drawable geometry, keyed by geometry identifier.
//! Entries are kept in the order of their first registration; registering
//! an identifier again replaces its entry in place.

use vstd::prelude::*;
use crate::geometry_id::GeometryId;

verus! {

/// Whether no identifier occurs twice in `s`.
pub open spec fn ids_unique<E>(s: Seq<(GeometryId, E)>) -> bool {
    forall|i: int, j: int| 0 <= i < j < s.len() ==> s[i].0 != s[j].0
}

/// Whether `s` holds an entry for `id`.
pub open spec fn has_id<E>(s: Seq<(GeometryId, E)>, id: GeometryId) -> bool {
    exists|k: int| 0 <= k < s.len() && s[k].0 == id
}

/// The index of the entry for `id` in `s`, where `s` holds one.
pub open spec fn index_of<E>(s: Seq<(GeometryId, E)>, id: GeometryId) -> int {
    choose|k: int| 0 <= k < s.len() && s[k].0 == id
}

/// `s` after registering `entry` under `id`: the entry for `id` replaced in
/// place if there is one, else a new entry at the end.
pub open spec fn inserted<E>(s: Seq<(GeometryId, E)>, id: GeometryId, entry: E) -> Seq<(GeometryId, E)> {
    if has_id(s, id) {
        s.update(index_of(s, id), (id, entry))
    } else {
        s.push((id, entry))
    }
}

/// The registry: entries with pairwise distinct identifiers.
pub struct GeometryRegistry<E> {
    entries: Vec<(GeometryId, E)>,
}

impl<E> View for GeometryRegistry<E> {
    type V = Seq<(GeometryId, E)>;

    closed spec fn view(&self) -> Seq<(GeometryId, E)> {
        self.entries@
    }
}

impl<E> GeometryRegistry<E> {
    pub open spec fn wf(&self) -> bool {
        ids_unique(self@)
    }

    pub fn new() -> (r: GeometryRegistry<E>)
        ensures
            r.wf(),
            r@ == Seq::<(GeometryId, E)>::empty(),
    {
        GeometryRegistry { entries: Vec::new() }
    }

    pub fn len(&self) -> (r: usize)
        ensures
            r == self@.len(),
    {
        self.entries.len()
    }

    /// The position of the entry for `id`, if there is one.
    pub fn find(&self, id: GeometryId) -> (r: Option<usize>)
        requires
            self.wf(),
        ensures
            r is None <==> !has_id(self@, id),
            r is Some ==> r->0 == index_of(self@, id) && self@[r->0 as int].0 == id,
    {
        let mut i: usize = 0;
        while i < self.entries.len()
            invariant
                i <= self@.len(),
                self.wf(),
                forall|k: int| 0 <= k < i ==> self@[k].0 != id,
            decreases self@.len() - i,
        {
            if self.entries[i].0 == id {
                assert(self@[i as int].0 == id);
                assert(has_id(self@, id));
                let ghost k = index_of(self@, id);
                assert(k == i) by {
                    if k < i {
                    } else if k > i {
                        assert(self@[i as int].0 != self@[k].0);
                    }
                }
                return Some(i);
            }
            i = i + 1;
        }
        None
    }

    /// Registers `entry` under `id`: replaces the entry for `id` in place and
    /// hands back the one it replaced, or appends a new entry and returns
    /// `None`.
    pub fn insert(&mut self, id: GeometryId, entry: E) -> (r: Option<E>)
        requires
            old(self).wf(),
        ensures
            final(self).wf(),
            final(self)@ == inserted(old(self)@, id, entry),
            final(self)@.len() == if has_id(old(self)@, id) {
                old(self)@.len()
            } else {
                old(self)@.len() + 1
            },
            has_id(final(self)@, id),
            final(self)@[index_of(final(self)@, id)] == (id, entry),
            has_id(old(self)@, id) ==> r == Some(old(self)@[index_of(old(self)@, id)].1),
            !has_id(old(self)@, id) ==> r is None,
    {
        proof {
            lemma_inserted_keeps_ids_unique(self@, id, entry);
        }
        match self.find(id) {
            Some(i) => {
                let mut old_entry = (id, entry);
                std::mem::swap(&mut old_entry, &mut self.entries[i]);
                Some(old_entry.1)
            },
            None => {
                self.entries.push((id, entry));
                None
            },
        }
    }

    /// The entry for `id`, if there is one.
    pub fn get(&self, id: GeometryId) -> (r: Option<&E>)
        requires
            self.wf(),
        ensures
            has_id(self@, id) ==> r == Some(&self@[index_of(self@, id)].1),
            !has_id(self@, id) ==> r is None,
    {
        match self.find(id) {
            Some(i) => Some(&self.entries[i].1),
            None => None,
        }
    }

    /// The entry at position `i`, in registration order.
    pub fn entry(&self, i: usize) -> (r: &(GeometryId, E))
        requires
            i < self@.len(),
        ensures
            *r == self@[i as int],
    {
        &self.entries[i]
    }

    /// Drops every entry.
    pub fn clear(&mut self)
        ensures
            final(self).wf(),
            final(self)@ == Seq::<(GeometryId, E)>::empty(),
    {
        self.entries.clear();
    }
}

proof fn lemma_inserted_keeps_ids_unique<E>(s: Seq<(GeometryId, E)>, id: GeometryId, entry: E)
    requires
        ids_unique(s),
    ensures
        ids_unique(inserted(s, id, entry)),
        has_id(inserted(s, id, entry), id),
        inserted(s, id, entry)[index_of(inserted(s, id, entry), id)] == (id, entry),
{
    let t = inserted(s, id, entry);
    if has_id(s, id) {
        let k = index_of(s, id);
        assert(t[k].0 == id);
    } else {
        assert(t[s.len() as int].0 == id);
    }
    assert(has_id(t, id));
    let j = index_of(t, id);
    if has_id(s, id) {
        let k = index_of(s, id);
        assert(j == k) by {
            if j != k {
                assert(t[j].0 == s[j].0);
            }
        }
    } else {
        assert(j == s.len()) by {
            if j < s.len() {
                assert(t[j].0 == s[j].0);
            }
        }
    }
}

/// Registering an identifier that is already there replaces its entry: the
/// registry keeps its size, the entry for the identifier holds the second
/// payload, and every other entry stays as it was.
pub proof fn lemma_add_same_id_replaces<E>(s: Seq<(GeometryId, E)>, id: GeometryId, first: E, second: E)
    requires
        ids_unique(s),
    ensures
        ({
            let once = inserted(s, id, first);
            let twice = inserted(once, id, second);
            &&& ids_unique(twice)
            &&& twice.len() == once.len()
            &&& has_id(twice, id)
            &&& twice[index_of(twice, id)].1 == second
            &&& forall|k: int| 0 <= k < twice.len() && twice[k].0 != id ==> twice[k] == once[k]
        }),
{
    let once = inserted(s, id, first);
    lemma_inserted_keeps_ids_unique(s, id, first);
    lemma_inserted_keeps_ids_unique(once, id, second);
}

} // verus!
