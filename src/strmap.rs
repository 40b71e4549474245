use vstd::prelude::*;

verus! {

/// True when `s` lists each key at most once and agrees with `m` entry by entry.
pub open spec fn entries_match<V>(s: Seq<(String, V)>, m: Map<Seq<char>, V>) -> bool {
    &&& forall|i: int, j: int|
        0 <= i < j < s.len() ==> (#[trigger] s[i]).0@ != (#[trigger] s[j]).0@
    &&& forall|i: int|
        0 <= i < s.len() ==> m.contains_key((#[trigger] s[i]).0@) && m[s[i].0@] == s[i].1
    &&& forall|k: Seq<char>|
        #[trigger] m.contains_key(k) ==> exists|i: int| 0 <= i < s.len() && (#[trigger] s[i]).0@ == k
}

/// A map keyed by strings, kept as a list of entries with distinct keys.
/// Its meaning is the finite map from key text to value.
pub struct StrMap<V> {
    entries: Vec<(String, V)>,
    model: Ghost<Map<Seq<char>, V>>,
}

impl<V> View for StrMap<V> {
    type V = Map<Seq<char>, V>;

    closed spec fn view(&self) -> Map<Seq<char>, V> {
        self.model@
    }
}

impl<V> StrMap<V> {
    #[verifier::type_invariant]
    closed spec fn inv(self) -> bool {
        &&& entries_match(self.entries@, self.model@)
        &&& self.model@.dom().finite()
        &&& self.model@.len() == self.entries@.len()
    }

    /// The empty map.
    pub fn new() -> (r: Self)
        ensures
            r@ == Map::<Seq<char>, V>::empty(),
    {
        StrMap { entries: Vec::new(), model: Ghost(Map::empty()) }
    }

    /// The entries, each key once, in no particular order.
    pub fn entries(&self) -> (r: &Vec<(String, V)>)
        ensures
            entries_match(r@, self@),
            r@.len() == self@.len(),
            self@.dom().finite(),
    {
        proof {
            use_type_invariant(self);
        }
        &self.entries
    }

    /// Number of keys.
    pub fn len(&self) -> (r: usize)
        ensures
            r == self@.len(),
            self@.dom().finite(),
    {
        proof {
            use_type_invariant(self);
        }
        self.entries.len()
    }

    /// Position of `key` among the entries, if it is there.
    fn find(&self, key: &str) -> (r: Option<usize>)
        ensures
            match r {
                Some(i) => i < self.entries@.len() && self.entries@[i as int].0@ == key@,
                None => !self@.contains_key(key@),
            },
    {
        proof {
            use_type_invariant(self);
        }
        let mut i: usize = 0;
        while i < self.entries.len()
            invariant
                i <= self.entries@.len(),
                entries_match(self.entries@, self.model@),
                forall|j: int| 0 <= j < i ==> (#[trigger] self.entries@[j]).0@ != key@,
            decreases self.entries@.len() - i,
        {
            if crate::text::str_eq(self.entries[i].0.as_str(), key) {
                return Some(i);
            }
            i = i + 1;
        }
        None
    }

    /// Whether `key` has an entry.
    pub fn contains_key(&self, key: &str) -> (r: bool)
        ensures
            r == self@.contains_key(key@),
    {
        proof {
            use_type_invariant(self);
        }
        match self.find(key) {
            Some(_) => true,
            None => false,
        }
    }

    /// The value stored under `key`.
    pub fn get(&self, key: &str) -> (r: Option<&V>)
        ensures
            match r {
                Some(v) => self@.contains_key(key@) && *v == self@[key@],
                None => !self@.contains_key(key@),
            },
    {
        proof {
            use_type_invariant(self);
        }
        match self.find(key) {
            Some(i) => Some(&self.entries[i].1),
            None => None,
        }
    }

    /// Stores `value` under `key`, replacing and returning any earlier value.
    pub fn insert(&mut self, key: String, value: V) -> (r: Option<V>)
        ensures
            final(self)@ == old(self)@.insert(key@, value),
            match r {
                Some(v) => old(self)@.contains_key(key@) && v == old(self)@[key@],
                None => !old(self)@.contains_key(key@),
            },
    {
        proof {
            use_type_invariant(&*self);
        }
        let found = self.find(key.as_str());
        let StrMap { mut entries, model } = self.take();
        let ghost old_entries = entries@;
        let ghost old_model = model@;
        let ghost k = key@;
        match found {
            Some(i) => {
                let mut entry = (key, value);
                let ghost new_model = old_model.insert(k, entry.1);
                core::mem::swap(&mut entries[i], &mut entry);
                proof {
                    assert(old_model.contains_key(k));
                    assert(new_model.dom() =~= old_model.dom());
                    assert forall|j: int| 0 <= j < entries@.len() implies new_model.contains_key(
                        (#[trigger] entries@[j]).0@,
                    ) && new_model[entries@[j].0@] == entries@[j].1 by {
                        if j != i {
                            assert(old_entries[j] == entries@[j]);
                        }
                    }
                    assert forall|k2: Seq<char>| #[trigger]
                        new_model.contains_key(k2) implies exists|j: int|
                        0 <= j < entries@.len() && (#[trigger] entries@[j]).0@ == k2 by {
                        let j = choose|j: int|
                            0 <= j < old_entries.len() && (#[trigger] old_entries[j]).0@ == k2;
                        assert(entries@[j].0@ == k2);
                    }
                }
                *self = StrMap { entries, model: Ghost(new_model) };
                Some(entry.1)
            },
            None => {
                let ghost v = value;
                entries.push((key, value));
                let ghost new_model = old_model.insert(k, v);
                proof {
                    let n = old_entries.len() as int;
                    assert(entries@[n].0@ == k);
                    assert forall|k2: Seq<char>| #[trigger]
                        new_model.contains_key(k2) implies exists|j: int|
                        0 <= j < entries@.len() && (#[trigger] entries@[j]).0@ == k2 by {
                        if k2 != k {
                            let j = choose|j: int|
                                0 <= j < old_entries.len() && (#[trigger] old_entries[j]).0@ == k2;
                            assert(entries@[j] == old_entries[j]);
                        }
                    }
                    assert forall|a: int, b: int|
                        0 <= a < b < entries@.len() implies (#[trigger] entries@[a]).0@
                        != (#[trigger] entries@[b]).0@ by {
                        if b == n {
                            assert(old_model.contains_key(old_entries[a].0@));
                        }
                    }
                }
                *self = StrMap { entries, model: Ghost(new_model) };
                None
            },
        }
    }

    /// Drops the entry of `key`, returning its value; a missing key changes nothing.
    pub fn remove(&mut self, key: &str) -> (r: Option<V>)
        ensures
            final(self)@ == old(self)@.remove(key@),
            match r {
                Some(v) => old(self)@.contains_key(key@) && v == old(self)@[key@],
                None => !old(self)@.contains_key(key@),
            },
    {
        proof {
            use_type_invariant(&*self);
        }
        match self.find(key) {
            Some(i) => {
                let StrMap { mut entries, model } = self.take();
                let ghost old_entries = entries@;
                let ghost old_model = model@;
                let ghost k = key@;
                let entry = entries.swap_remove(i);
                let ghost new_model = old_model.remove(k);
                proof {
                    let last = old_entries.len() - 1;
                    assert forall|j: int| 0 <= j < entries@.len() implies (#[trigger] entries@[j])
                        == old_entries[if j == i { last } else { j }] by {}
                    assert forall|a: int, b: int|
                        0 <= a < b < entries@.len() implies (#[trigger] entries@[a]).0@
                        != (#[trigger] entries@[b]).0@ by {
                        let a0 = if a == i { last } else { a };
                        let b0 = if b == i { last } else { b };
                        assert(entries@[a] == old_entries[a0]);
                        assert(entries@[b] == old_entries[b0]);
                        if a0 < b0 {
                            assert(old_entries[a0].0@ != old_entries[b0].0@);
                        } else {
                            assert(old_entries[b0].0@ != old_entries[a0].0@);
                        }
                    }
                    assert forall|j: int| 0 <= j < entries@.len() implies new_model.contains_key(
                        (#[trigger] entries@[j]).0@,
                    ) && new_model[entries@[j].0@] == entries@[j].1 by {
                        let j0 = if j == i { last } else { j };
                        assert(entries@[j] == old_entries[j0]);
                        assert(j0 != i);
                        if i < j0 {
                            assert(old_entries[i as int].0@ != old_entries[j0].0@);
                        } else {
                            assert(old_entries[j0].0@ != old_entries[i as int].0@);
                        }
                    }
                    assert forall|k2: Seq<char>| #[trigger]
                        new_model.contains_key(k2) implies exists|j: int|
                        0 <= j < entries@.len() && (#[trigger] entries@[j]).0@ == k2 by {
                        let j0 = choose|j: int|
                            0 <= j < old_entries.len() && (#[trigger] old_entries[j]).0@ == k2;
                        assert(j0 != i);
                        let j = if j0 == last { i as int } else { j0 };
                        assert(entries@[j] == old_entries[j0]);
                    }
                }
                *self = StrMap { entries, model: Ghost(new_model) };
                Some(entry.1)
            },
            None => {
                proof {
                    assert(self@.remove(key@) =~= self@);
                }
                None
            },
        }
    }

    /// Empties the map and hands back every entry it held.
    pub fn take_all(&mut self) -> (r: Vec<(String, V)>)
        ensures
            final(self)@ == Map::<Seq<char>, V>::empty(),
            entries_match(r@, old(self)@),
            r@.len() == old(self)@.len(),
    {
        proof {
            use_type_invariant(&*self);
        }
        let StrMap { entries, model } = self.take();
        entries
    }

    /// Moves the whole map out, leaving an empty one.
    fn take(&mut self) -> (r: Self)
        ensures
            r == *old(self),
            final(self)@ == Map::<Seq<char>, V>::empty(),
    {
        let mut r = StrMap::new();
        core::mem::swap(self, &mut r);
        r
    }
}

} // verus!
