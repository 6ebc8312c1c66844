use vstd::prelude::*;

verus! {

/// A table keyed by code: the local task table (code to timer handle) and the
/// in-process lock board (key to lease end) are both kept in one.
///
/// Codes are unique: a code has at most one value at any time.
pub struct KeyTable<T> {
    entries: Vec<(String, T)>,
    contents: Ghost<Map<Seq<char>, T>>,
}

impl<T> View for KeyTable<T> {
    type V = Map<Seq<char>, T>;

    closed spec fn view(&self) -> Map<Seq<char>, T> {
        self.contents@
    }
}

impl<T: Copy> KeyTable<T> {
    /// The table is well formed: each stored row is in the map, each key of
    /// the map has a row, and no two rows share a code.
    pub closed spec fn wf(&self) -> bool {
        &&& forall|i: int|
            0 <= i < self.entries@.len() ==> {
                &&& #[trigger] self.contents@.contains_key(self.entries@[i].0@)
                &&& self.contents@[self.entries@[i].0@] == self.entries@[i].1
            }
        &&& forall|k: Seq<char>|
            #[trigger] self.contents@.contains_key(k) ==> exists|i: int|
                0 <= i < self.entries@.len() && #[trigger] self.entries@[i].0@ == k
        &&& forall|i: int, j: int|
            0 <= i < self.entries@.len() && 0 <= j < self.entries@.len() && i != j
                ==> #[trigger] self.entries@[i].0@ != #[trigger] self.entries@[j].0@
    }

    pub fn new() -> (r: KeyTable<T>)
        ensures
            r.wf(),
            r@ == Map::<Seq<char>, T>::empty(),
    {
        KeyTable { entries: Vec::new(), contents: Ghost(Map::empty()) }
    }

    fn position(&self, code: &String) -> (r: Option<usize>)
        requires
            self.wf(),
        ensures
            match r {
                Some(i) => i < self.entries@.len() && self.entries@[i as int].0@ == code@,
                None => !self@.contains_key(code@),
            },
    {
        let mut i: usize = 0;
        while i < self.entries.len()
            invariant
                self.wf(),
                i <= self.entries@.len(),
                forall|j: int| 0 <= j < i ==> self.entries@[j].0@ != code@,
            decreases self.entries@.len() - i,
        {
            if self.entries[i].0 == *code {
                return Some(i);
            }
            i = i + 1;
        }
        None
    }

    /// The value stored under `code`, if any.
    pub fn get(&self, code: &String) -> (r: Option<T>)
        requires
            self.wf(),
        ensures
            r == (if self@.contains_key(code@) { Some(self@[code@]) } else { None::<T> }),
    {
        match self.position(code) {
            Some(i) => Some(self.entries[i].1),
            None => None,
        }
    }

    /// Whether `code` has a value.
    pub fn contains(&self, code: &String) -> (r: bool)
        requires
            self.wf(),
        ensures
            r == self@.contains_key(code@),
    {
        self.position(code).is_some()
    }

    /// Number of codes with a value.
    pub fn len(&self) -> (r: usize)
        requires
            self.wf(),
        ensures
            r == self@.len(),
    {
        proof {
            self.lemma_len();
        }
        self.entries.len()
    }

    proof fn lemma_len(&self)
        requires
            self.wf(),
        ensures
            self@.len() == self.entries@.len(),
            self@.dom().finite(),
    {
        let keys = self.entries@.map_values(|e: (String, T)| e.0@);
        assert forall|i: int, j: int| 0 <= i < j < keys.len() implies keys[i] != keys[j] by {
            assert(self.entries@[i].0@ != self.entries@[j].0@);
        }
        assert(keys.no_duplicates());
        assert(keys.to_set() =~= self@.dom()) by {
            assert forall|k: Seq<char>| keys.to_set().contains(k) implies self@.dom().contains(k) by {
                let i = choose|i: int| 0 <= i < keys.len() && keys[i] == k;
                assert(self.entries@[i].0@ == k);
            }
            assert forall|k: Seq<char>| self@.dom().contains(k) implies keys.to_set().contains(k) by {
                assert(self.contents@.contains_key(k));
                let i = choose|i: int| 0 <= i < self.entries@.len() && #[trigger] self.entries@[i].0@ == k;
                assert(keys[i] == k);
            }
        }
        keys.unique_seq_to_set();
    }

    /// Stores `value` under `code`, replacing the value it had.
    pub fn insert(&mut self, code: String, value: T)
        requires
            old(self).wf(),
        ensures
            final(self).wf(),
            final(self)@ == old(self)@.insert(code@, value),
    {
        let ghost key = code@;
        match self.position(&code) {
            Some(i) => {
                self.entries.set(i, (code, value));
                self.contents = Ghost(self.contents@.insert(key, value));
                assert forall|j: int| 0 <= j < self.entries@.len() implies {
                    &&& #[trigger] self.contents@.contains_key(self.entries@[j].0@)
                    &&& self.contents@[self.entries@[j].0@] == self.entries@[j].1
                } by {
                    if j != i {
                        assert(old(self).entries@[j] == self.entries@[j]);
                        assert(old(self).entries@[j].0@ != old(self).entries@[i as int].0@);
                    }
                }
                assert forall|a: int, b: int|
                    0 <= a < self.entries@.len() && 0 <= b < self.entries@.len() && a != b
                        implies #[trigger] self.entries@[a].0@ != #[trigger] self.entries@[b].0@ by {
                    assert(old(self).entries@[a].0@ != old(self).entries@[b].0@);
                }
                assert forall|k: Seq<char>| #[trigger] self.contents@.contains_key(k) implies exists|j: int|
                    0 <= j < self.entries@.len() && #[trigger] self.entries@[j].0@ == k by {
                    if k != key {
                        assert(old(self).contents@.contains_key(k));
                        let j = choose|j: int| 0 <= j < old(self).entries@.len() && #[trigger] old(self).entries@[j].0@ == k;
                        assert(self.entries@[j].0@ == k);
                    } else {
                        assert(self.entries@[i as int].0@ == k);
                    }
                }
            },
            None => {
                self.entries.push((code, value));
                self.contents = Ghost(self.contents@.insert(key, value));
                let ghost n: int = self.entries@.len() - 1;
                assert(self.entries@[n].0@ == key);
                assert forall|j: int| 0 <= j < self.entries@.len() implies {
                    &&& #[trigger] self.contents@.contains_key(self.entries@[j].0@)
                    &&& self.contents@[self.entries@[j].0@] == self.entries@[j].1
                } by {
                    if j != n {
                        assert(old(self).entries@[j] == self.entries@[j]);
                        assert(old(self).contents@.contains_key(old(self).entries@[j].0@));
                    }
                }
                assert forall|k: Seq<char>| #[trigger] self.contents@.contains_key(k) implies exists|j: int|
                    0 <= j < self.entries@.len() && #[trigger] self.entries@[j].0@ == k by {
                    if k != key {
                        assert(old(self).contents@.contains_key(k));
                        let j = choose|j: int| 0 <= j < old(self).entries@.len() && #[trigger] old(self).entries@[j].0@ == k;
                        assert(self.entries@[j].0@ == k);
                    } else {
                        assert(self.entries@[n].0@ == k);
                    }
                }
                assert forall|a: int, b: int|
                    0 <= a < self.entries@.len() && 0 <= b < self.entries@.len() && a != b
                        implies #[trigger] self.entries@[a].0@ != #[trigger] self.entries@[b].0@ by {
                    if a == n {
                        assert(old(self).contents@.contains_key(self.entries@[b].0@));
                    } else if b == n {
                        assert(old(self).contents@.contains_key(self.entries@[a].0@));
                    }
                }
            },
        }
        assert(self.contents@ =~= old(self)@.insert(key, value));
    }

    /// Takes `code` out of the table and returns the value it had, if any.
    pub fn remove(&mut self, code: &String) -> (r: Option<T>)
        requires
            old(self).wf(),
        ensures
            final(self).wf(),
            final(self)@ == old(self)@.remove(code@),
            r == (if old(self)@.contains_key(code@) { Some(old(self)@[code@]) } else { None::<T> }),
    {
        match self.position(code) {
            Some(i) => {
                let ghost key = code@;
                let entry = self.entries.remove(i);
                self.contents = Ghost(self.contents@.remove(key));
                assert forall|j: int| 0 <= j < self.entries@.len() implies {
                    &&& #[trigger] self.contents@.contains_key(self.entries@[j].0@)
                    &&& self.contents@[self.entries@[j].0@] == self.entries@[j].1
                } by {
                    let oj = if j < i { j } else { j + 1 };
                    assert(old(self).entries@[oj] == self.entries@[j]);
                    assert(old(self).entries@[oj].0@ != old(self).entries@[i as int].0@);
                    assert(old(self).contents@.contains_key(old(self).entries@[oj].0@));
                }
                assert forall|k: Seq<char>| #[trigger] self.contents@.contains_key(k) implies exists|j: int|
                    0 <= j < self.entries@.len() && #[trigger] self.entries@[j].0@ == k by {
                    assert(old(self).contents@.contains_key(k));
                    let j = choose|j: int| 0 <= j < old(self).entries@.len() && #[trigger] old(self).entries@[j].0@ == k;
                    assert(j != i);
                    if j < i {
                        assert(self.entries@[j].0@ == k);
                    } else {
                        assert(self.entries@[j - 1].0@ == k);
                    }
                }
                assert forall|a: int, b: int|
                    0 <= a < self.entries@.len() && 0 <= b < self.entries@.len() && a != b
                        implies #[trigger] self.entries@[a].0@ != #[trigger] self.entries@[b].0@ by {
                    let oa = if a < i { a } else { a + 1 };
                    let ob = if b < i { b } else { b + 1 };
                    assert(old(self).entries@[oa] == self.entries@[a]);
                    assert(old(self).entries@[ob] == self.entries@[b]);
                }
                Some(entry.1)
            },
            None => {
                assert(self.contents@ =~= old(self)@.remove(code@));
                None
            },
        }
    }
}

} // verus!
