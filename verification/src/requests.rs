//! The pending requests by their ids.
use vstd::prelude::*;

use crate::bytes::same_bytes;

verus! {

/// Values by request id, each id at most once.
pub struct RequestMap<V> {
    entries: Vec<([u8; 32], V)>,
}

/// Where `id` stands among `entries`.
spec fn position<V>(entries: Seq<([u8; 32], V)>, id: [u8; 32]) -> int {
    choose|i: int| 0 <= i < entries.len() && #[trigger] entries[i].0 == id
}

/// Whether `id` stands among `entries`.
spec fn has_entry<V>(entries: Seq<([u8; 32], V)>, id: [u8; 32]) -> bool {
    exists|i: int| 0 <= i < entries.len() && #[trigger] entries[i].0 == id
}

/// Whether no id stands twice among `entries`.
spec fn distinct<V>(entries: Seq<([u8; 32], V)>) -> bool {
    forall|i: int, j: int|
        0 <= i < entries.len() && 0 <= j < entries.len() && #[trigger] entries[i].0
            == #[trigger] entries[j].0 ==> i == j
}

/// The entries as a map.
spec fn as_map<V>(entries: Seq<([u8; 32], V)>) -> Map<[u8; 32], V> {
    Map::new(|id: [u8; 32]| has_entry(entries, id), |id: [u8; 32]| entries[position(entries, id)].1)
}

impl<V> View for RequestMap<V> {
    type V = Map<[u8; 32], V>;

    closed spec fn view(&self) -> Map<[u8; 32], V> {
        as_map(self.entries@)
    }
}

impl<V> RequestMap<V> {
    #[verifier::type_invariant]
    spec fn ids_are_distinct(self) -> bool {
        distinct(self.entries@)
    }

    /// A map without requests.
    pub fn new() -> (map: Self)
        ensures
            map@ == Map::<[u8; 32], V>::empty(),
    {
        let map = RequestMap { entries: Vec::new() };
        assert(map@ =~= Map::<[u8; 32], V>::empty());
        map
    }

    /// Where `id` stands.
    fn find(&self, id: &[u8; 32]) -> (found: Option<usize>)
        ensures
            match found {
                Some(i) => i < self.entries@.len() && self.entries@[i as int].0 == *id,
                None => !has_entry(self.entries@, *id),
            },
    {
        let mut i: usize = 0;
        while i < self.entries.len()
            invariant
                i <= self.entries@.len(),
                forall|j: int| 0 <= j < i ==> #[trigger] self.entries@[j].0 != *id,
            decreases self.entries@.len() - i,
        {
            if same_bytes(self.entries[i].0.as_slice(), id.as_slice()) {
                assert(self.entries@[i as int].0 =~= *id);
                return Some(i);
            }
            i += 1;
        }
        None
    }

    /// The value of a request.
    pub fn get(&self, id: &[u8; 32]) -> (value: Option<&V>)
        ensures
            match value {
                Some(v) => self@.dom().contains(*id) && self@[*id] == *v,
                None => !self@.dom().contains(*id),
            },
    {
        proof {
            use_type_invariant(self);
        }
        match self.find(id) {
            Some(i) => Some(&self.entries[i].1),
            None => None,
        }
    }

    /// Whether there is a value for a request.
    pub fn contains(&self, id: &[u8; 32]) -> (contained: bool)
        ensures
            contained == self@.dom().contains(*id),
    {
        match self.find(id) {
            Some(i) => true,
            None => false,
        }
    }

    /// Takes the value of a request out.
    pub fn remove(&mut self, id: &[u8; 32]) -> (value: Option<V>)
        ensures
            final(self)@ == old(self)@.remove(*id),
            match value {
                Some(v) => old(self)@.dom().contains(*id) && old(self)@[*id] == v,
                None => !old(self)@.dom().contains(*id),
            },
    {
        proof {
            use_type_invariant(&*self);
        }
        let found = self.find(id);
        match found {
            Some(i) => {
                let mut entries: Vec<([u8; 32], V)> = Vec::new();
                std::mem::swap(&mut entries, &mut self.entries);
                let ghost before = entries@;
                let (_, value) = entries.remove(i);
                let ghost after = entries@;
                proof {
                    assert forall|k: int, l: int|
                        0 <= k < after.len() && 0 <= l < after.len() && #[trigger] after[k].0
                            == #[trigger] after[l].0 implies k == l by {
                        let k2 = if k < i { k } else { k + 1 };
                        let l2 = if l < i { l } else { l + 1 };
                        assert(before[k2].0 == before[l2].0);
                    }
                    assert forall|x: [u8; 32]|
                        has_entry(after, x) == (has_entry(before, x) && x != *id) by {
                        if has_entry(after, x) {
                            let k = position(after, x);
                            let k2 = if k < i { k } else { k + 1 };
                            assert(before[k2].0 == x);
                            assert(before[i as int].0 == *id);
                        }
                        if has_entry(before, x) && x != *id {
                            let k = position(before, x);
                            let k2 = if k < i { k } else { k - 1 };
                            assert(after[k2].0 == x);
                        }
                    }
                    assert forall|x: [u8; 32]| has_entry(after, x) implies as_map(after)[x]
                        == as_map(before)[x] by {
                        let k = position(after, x);
                        let k2 = if k < i { k } else { k + 1 };
                        assert(before[k2].0 == x);
                        assert(has_entry(before, x));
                        assert(position(before, x) == k2);
                    }
                    assert(as_map(after) =~= as_map(before).remove(*id));
                }
                self.entries = entries;
                Some(value)
            },
            None => {
                assert(self@ =~= self@.remove(*id));
                None
            },
        }
    }

    /// Sets the value of a request.
    pub fn insert(&mut self, id: [u8; 32], value: V)
        ensures
            final(self)@ == old(self)@.insert(id, value),
    {
        let _ = self.remove(&id);
        proof {
            use_type_invariant(&*self);
        }
        let mut entries: Vec<([u8; 32], V)> = Vec::new();
        std::mem::swap(&mut entries, &mut self.entries);
        let ghost before = entries@;
        entries.push((id, value));
        let ghost after = entries@;
        proof {
            assert(!as_map(before).dom().contains(id));
            assert(!has_entry(before, id));
            assert(after.last().0 == id);
            assert forall|x: [u8; 32]| has_entry(after, x) == (has_entry(before, x) || x == id) by {
                if has_entry(before, x) {
                    assert(after[position(before, x)].0 == x);
                }
                if x == id {
                    assert(after[after.len() - 1].0 == x);
                }
                if has_entry(after, x) && x != id {
                    assert(before[position(after, x)].0 == x);
                }
            }
            assert forall|x: [u8; 32]| has_entry(before, x) implies as_map(after)[x]
                == as_map(before)[x] by {
                let k = position(before, x);
                assert(after[k].0 == x);
                assert(has_entry(after, x));
                assert(position(after, x) == k);
            }
            assert(as_map(after)[id] == value);
            assert(as_map(after) =~= as_map(before).insert(id, value));
            assert(as_map(after) =~= old(self)@.insert(id, value));
        }
        self.entries = entries;
    }
}

} // verus!
