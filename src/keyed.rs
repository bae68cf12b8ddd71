//! A finite map from byte-string keys to values, kept as parallel vectors.

use crate::types::bytes_equal;
use vstd::prelude::*;

verus! {

#[verifier::reject_recursive_types(V)]
pub struct KeyedList<V> {
    keys: Vec<Vec<u8>>,
    vals: Vec<V>,
    map: Ghost<Map<Seq<u8>, V>>,
}

impl<V> KeyedList<V> {
    /// The map that the list holds.
    pub closed spec fn view(&self) -> Map<Seq<u8>, V> {
        self.map@
    }

    pub closed spec fn wf(&self) -> bool {
        &&& self.keys@.len() == self.vals@.len()
        &&& forall|i: int, j: int|
            0 <= i < j < self.keys@.len() ==> #[trigger] self.keys@[i]@ != #[trigger] self.keys@[j]@
        &&& forall|i: int|
            0 <= i < self.keys@.len() ==> self.map@.contains_key(#[trigger] self.keys@[i]@)
                && self.map@[self.keys@[i]@] == self.vals@[i]
        &&& forall|k: Seq<u8>|
            #[trigger] self.map@.contains_key(k) ==> exists|i: int|
                0 <= i < self.keys@.len() && #[trigger] self.keys@[i]@ == k
    }

    pub fn new() -> (r: Self)
        ensures
            r.wf(),
            r.view() == Map::<Seq<u8>, V>::empty(),
    {
        KeyedList { keys: Vec::new(), vals: Vec::new(), map: Ghost(Map::empty()) }
    }

    fn position(&self, key: &[u8]) -> (r: Option<usize>)
        requires
            self.wf(),
        ensures
            r.is_none() ==> !self.view().contains_key(key@),
            r matches Some(i) ==> i < self.keys@.len() && self.keys@[i as int]@ == key@,
    {
        let mut i: usize = 0;
        while i < self.keys.len()
            invariant
                self.wf(),
                i <= self.keys@.len(),
                forall|j: int| 0 <= j < i ==> self.keys@[j]@ != key@,
            decreases self.keys@.len() - i,
        {
            if bytes_equal(self.keys[i].as_slice(), key) {
                return Some(i);
            }
            i = i + 1;
        }
        None
    }

    /// The value at `key`, if any.
    pub fn get(&self, key: &[u8]) -> (r: Option<&V>)
        requires
            self.wf(),
        ensures
            r.is_none() == !self.view().contains_key(key@),
            r matches Some(v) ==> *v == self.view()[key@],
    {
        match self.position(key) {
            Some(i) => Some(&self.vals[i]),
            None => None,
        }
    }

    /// Sets the value at `key`, adding the key if it is new.
    pub fn insert(&mut self, key: Vec<u8>, v: V)
        requires
            old(self).wf(),
        ensures
            final(self).wf(),
            final(self).view() == old(self).view().insert(key@, v),
    {
        let ghost k = key@;
        let ghost m = self.map@.insert(k, v);
        match self.position(key.as_slice()) {
            Some(i) => {
                self.vals.set(i, v);
                self.map = Ghost(m);
                assert forall|kk: Seq<u8>| #[trigger] self.map@.contains_key(kk) implies exists|j: int|
                    0 <= j < self.keys@.len() && #[trigger] self.keys@[j]@ == kk by {
                    if kk != k {
                        assert(old(self).map@.contains_key(kk));
                    }
                }
            },
            None => {
                self.keys.push(key);
                self.vals.push(v);
                self.map = Ghost(m);
                let ghost n = self.keys@.len() - 1;
                assert(self.keys@[n]@ == k);
                assert forall|kk: Seq<u8>| #[trigger] self.map@.contains_key(kk) implies exists|j: int|
                    0 <= j < self.keys@.len() && #[trigger] self.keys@[j]@ == kk by {
                    if kk != k {
                        assert(old(self).map@.contains_key(kk));
                        let j = choose|j: int| 0 <= j < old(self).keys@.len() && #[trigger] old(self).keys@[j]@ == kk;
                        assert(self.keys@[j]@ == kk);
                    } else {
                        assert(self.keys@[n]@ == kk);
                    }
                }
            },
        }
    }
}

} // verus!
