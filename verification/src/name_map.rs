//! A small map keyed by names.
//!
//! Host names are the keys of every table the proxy consults. The tables are
//! filled once at start-up and read on every connection, so a pair of vectors
//! with distinct keys serves, and its meaning is a `Map` from the key's
//! characters to the stored value.

use vstd::prelude::*;

verus! {

/// A finite map from names to values of type `V`.
pub struct NameMap<V> {
    keys: Vec<String>,
    vals: Vec<V>,
}

/// Index at which `key` stands among `keys`, if any.
pub open spec fn key_index(keys: Seq<String>, key: Seq<char>, i: int) -> bool {
    0 <= i < keys.len() && keys[i]@ == key
}

impl<V> NameMap<V> {
    /// Keys and values go in pairs and no key stands twice.
    pub closed spec fn wf(&self) -> bool {
        &&& self.keys@.len() == self.vals@.len()
        &&& forall|i: int, j: int|
            0 <= i < self.keys@.len() && 0 <= j < self.keys@.len() && i != j
                ==> self.keys@[i]@ != self.keys@[j]@
    }

    /// What the map holds.
    pub closed spec fn map(&self) -> Map<Seq<char>, V> {
        Map::new(
            |k: Seq<char>| exists|i: int| key_index(self.keys@, k, i),
            |k: Seq<char>| self.vals@[choose|i: int| key_index(self.keys@, k, i)],
        )
    }

    /// Number of names stored.
    pub closed spec fn count(&self) -> nat {
        self.keys@.len()
    }

    /// The empty map.
    pub fn new() -> (r: Self)
        ensures
            r.wf(),
            r.map() =~= Map::<Seq<char>, V>::empty(),
            r.count() == 0,
    {
        NameMap { keys: Vec::new(), vals: Vec::new() }
    }

    /// Number of names stored.
    pub fn len(&self) -> (n: usize)
        requires
            self.wf(),
        ensures
            n == self.count(),
    {
        self.keys.len()
    }

    /// Whether no name is stored.
    pub fn is_empty(&self) -> (r: bool)
        requires
            self.wf(),
        ensures
            r == (self.count() == 0),
    {
        self.keys.len() == 0
    }

    fn position(&self, key: &String) -> (r: Option<usize>)
        requires
            self.wf(),
        ensures
            match r {
                Some(i) => key_index(self.keys@, key@, i as int),
                None => forall|i: int| !key_index(self.keys@, key@, i),
            },
    {
        let mut i: usize = 0;
        while i < self.keys.len()
            invariant
                i <= self.keys@.len(),
                forall|j: int| 0 <= j < i ==> self.keys@[j]@ != key@,
            decreases self.keys@.len() - i,
        {
            if self.keys[i] == *key {
                return Some(i);
            }
            i += 1;
        }
        None
    }

    /// The value stored under `key`, if there is one.
    pub fn get(&self, key: &str) -> (r: Option<&V>)
        requires
            self.wf(),
        ensures
            match r {
                Some(v) => self.map().contains_key(key@) && *v == self.map()[key@],
                None => !self.map().contains_key(key@),
            },
    {
        let owned = key.to_owned();
        match self.position(&owned) {
            Some(i) => {
                proof {
                    let c = choose|j: int| key_index(self.keys@, key@, j);
                    assert(key_index(self.keys@, key@, i as int));
                    assert(c == i);
                }
                Some(&self.vals[i])
            },
            None => None,
        }
    }

    /// Whether a value is stored under `key`.
    pub fn contains_key(&self, key: &str) -> (r: bool)
        requires
            self.wf(),
        ensures
            r == self.map().contains_key(key@),
    {
        let owned = key.to_owned();
        self.position(&owned).is_some()
    }

    /// Stores `val` under `key`, in place of what stood there before.
    pub fn insert(&mut self, key: String, val: V)
        requires
            old(self).wf(),
        ensures
            final(self).wf(),
            final(self).map() =~= old(self).map().insert(key@, val),
            final(self).count() == old(self).count() + (if old(self).map().contains_key(key@) {
                0nat
            } else {
                1nat
            }),
    {
        let ghost before = *self;
        match self.position(&key) {
            Some(i) => {
                self.vals.set(i, val);
                proof {
                    assert(self.keys@ == before.keys@);
                    assert forall|k: Seq<char>| #[trigger]
                        self.map().contains_key(k) implies self.map()[k] == before.map().insert(
                        key@,
                        val,
                    )[k] by {
                        let c = choose|j: int| key_index(self.keys@, k, j);
                        if k == key@ {
                            assert(key_index(self.keys@, k, i as int));
                            assert(c == i);
                        }
                    }
                    assert(key_index(before.keys@, key@, i as int));
                    assert(self.map() =~= before.map().insert(key@, val));
                }
            },
            None => {
                self.keys.push(key);
                self.vals.push(val);
                proof {
                    let n = before.keys@.len() as int;
                    assert(self.keys@ == before.keys@.push(key));
                    assert(key_index(self.keys@, key@, n));
                    assert forall|i: int, j: int|
                        0 <= i < self.keys@.len() && 0 <= j < self.keys@.len() && i != j implies
                        self.keys@[i]@ != self.keys@[j]@ by {
                        if i == n {
                            assert(!key_index(before.keys@, key@, j));
                        } else if j == n {
                            assert(!key_index(before.keys@, key@, i));
                        }
                    }
                    assert forall|k: Seq<char>|
                        self.map().contains_key(k) <==> #[trigger] before.map().insert(
                            key@,
                            val,
                        ).contains_key(k) by {
                        if self.map().contains_key(k) {
                            let c = choose|j: int| key_index(self.keys@, k, j);
                            if c < n {
                                assert(key_index(before.keys@, k, c));
                            }
                        }
                        if before.map().contains_key(k) {
                            let c = choose|j: int| key_index(before.keys@, k, j);
                            assert(key_index(self.keys@, k, c));
                        }
                    }
                    assert forall|k: Seq<char>| #[trigger]
                        self.map().contains_key(k) implies self.map()[k] == before.map().insert(
                        key@,
                        val,
                    )[k] by {
                        let c = choose|j: int| key_index(self.keys@, k, j);
                        if k == key@ {
                            if c < n {
                                assert(key_index(before.keys@, key@, c));
                            }
                            assert(c == n);
                        } else {
                            assert(key_index(before.keys@, k, c));
                            let d = choose|j: int| key_index(before.keys@, k, j);
                            assert(key_index(self.keys@, k, d));
                            assert(c == d);
                        }
                    }
                    assert(self.map() =~= before.map().insert(key@, val));
                }
            },
        }
    }
}

} // verus!
