//! A finite map keyed by strings, kept as a vector of entries with unique keys.
use vstd::prelude::*;

verus! {

/// A map from strings to values. Every key occurs in at most one entry; the
/// map's abstract value is the ghost `Map` that the entries spell out.
pub struct StringMap<V> {
    entries: Vec<(String, V)>,
    contents: Ghost<Map<Seq<char>, V>>,
}

impl<V> View for StringMap<V> {
    type V = Map<Seq<char>, V>;

    closed spec fn view(&self) -> Map<Seq<char>, V> {
        self.contents@
    }
}

impl<V> StringMap<V> {
    /// Keys are unique, and the entries hold exactly the keys and values of the view.
    pub closed spec fn wf(&self) -> bool {
        let e = self.entries@;
        &&& self.contents@.dom().finite()
        &&& forall|i: int, j: int|
            0 <= i < j < e.len() ==> (#[trigger] e[i]).0@ != (#[trigger] e[j]).0@
        &&& forall|i: int|
            0 <= i < e.len() ==> self.contents@.contains_key((#[trigger] e[i]).0@)
                && self.contents@[e[i].0@] == e[i].1
        &&& forall|k: Seq<char>|
            #[trigger] self.contents@.contains_key(k) ==> exists|i: int|
                0 <= i < e.len() && (#[trigger] e[i]).0@ == k
    }

    /// An empty map.
    pub fn new() -> (r: Self)
        ensures
            r.wf(),
            r@ == Map::<Seq<char>, V>::empty(),
    {
        StringMap { entries: Vec::new(), contents: Ghost(Map::empty()) }
    }

    /// The position of the entry whose key is `k`, if there is one.
    fn find(&self, k: &String) -> (r: Option<usize>)
        requires
            self.wf(),
        ensures
            match r {
                Some(i) => i < self.entries@.len() && self.entries@[i as int].0@ == k@,
                None => !self@.contains_key(k@),
            },
    {
        let mut i: usize = 0;
        while i < self.entries.len()
            invariant
                self.wf(),
                i <= self.entries@.len(),
                forall|j: int| 0 <= j < i ==> (#[trigger] self.entries@[j]).0@ != k@,
            decreases self.entries@.len() - i,
        {
            if self.entries[i].0 == *k {
                return Some(i);
            }
            i = i + 1;
        }
        None
    }

    /// Whether `k` has an entry.
    pub fn contains_key(&self, k: &String) -> (r: bool)
        requires
            self.wf(),
        ensures
            r == self@.contains_key(k@),
    {
        match self.find(k) {
            Some(_) => true,
            None => false,
        }
    }

    /// The value stored under `k`, if any.
    pub fn get(&self, k: &String) -> (r: Option<&V>)
        requires
            self.wf(),
        ensures
            r is Some <==> self@.contains_key(k@),
            r is Some ==> *r->Some_0 == self@[k@],
    {
        match self.find(k) {
            Some(i) => Some(&self.entries[i].1),
            None => None,
        }
    }

    /// Stores `v` under `k`, replacing any earlier value.
    pub fn insert(&mut self, k: String, v: V)
        requires
            old(self).wf(),
        ensures
            final(self).wf(),
            final(self)@ == old(self)@.insert(k@, v),
    {
        let ghost key = k@;
        let ghost old_entries = self.entries@;
        let ghost old_map = self.contents@;
        let ghost m = old_map.insert(key, v);
        match self.find(&k) {
            Some(i) => {
                self.entries.set(i, (k, v));
                self.contents = Ghost(m);
                assert forall|k2: Seq<char>| #[trigger] m.contains_key(k2)
                    implies exists|j: int| 0 <= j < self.entries@.len()
                        && (#[trigger] self.entries@[j]).0@ == k2 by {
                    if k2 == key {
                        assert(self.entries@[i as int].0@ == k2);
                    } else {
                        let j = choose|j: int| 0 <= j < old_entries.len()
                            && (#[trigger] old_entries[j]).0@ == k2;
                        assert(self.entries@[j] == old_entries[j]);
                    }
                }
            },
            None => {
                self.entries.push((k, v));
                self.contents = Ghost(m);
                let ghost n = old_entries.len() as int;
                assert(self.entries@[n].0@ == key);
                assert forall|j: int| 0 <= j < n implies (#[trigger] self.entries@[j]).0@ != key by {
                    assert(self.entries@[j] == old_entries[j]);
                    assert(old_map.contains_key(old_entries[j].0@));
                }
                assert forall|k2: Seq<char>| #[trigger] m.contains_key(k2)
                    implies exists|j: int| 0 <= j < self.entries@.len()
                        && (#[trigger] self.entries@[j]).0@ == k2 by {
                    if k2 == key {
                        assert(self.entries@[n].0@ == k2);
                    } else {
                        let j = choose|j: int| 0 <= j < old_entries.len()
                            && (#[trigger] old_entries[j]).0@ == k2;
                        assert(self.entries@[j] == old_entries[j]);
                    }
                }
            },
        }
    }

    /// Removes the entry of `k`, if there is one.
    pub fn remove(&mut self, k: &String)
        requires
            old(self).wf(),
        ensures
            final(self).wf(),
            final(self)@ == old(self)@.remove(k@),
    {
        let ghost old_entries = self.entries@;
        match self.find(k) {
            Some(i) => {
                self.entries.remove(i);
                self.contents = Ghost(self.contents@.remove(k@));
                assert forall|k2: Seq<char>| #[trigger] self.contents@.contains_key(k2)
                    implies exists|j: int| 0 <= j < self.entries@.len()
                        && (#[trigger] self.entries@[j]).0@ == k2 by {
                    let j = choose|j: int| 0 <= j < old_entries.len()
                        && (#[trigger] old_entries[j]).0@ == k2;
                    if j < i {
                        assert(self.entries@[j] == old_entries[j]);
                    } else {
                        assert(self.entries@[j - 1] == old_entries[j]);
                    }
                }
            },
            None => {
                assert(self.contents@.remove(k@) =~= self.contents@);
            },
        }
    }
}

} // verus!
