//! The cache that holds claim records: an interface, and an in-memory cache that meets it.

use vstd::prelude::*;

verus! {

/// The value under `k`, if `m` has one.
pub open spec fn lookup<V>(m: Map<Seq<char>, V>, k: Seq<char>) -> Option<V> {
    if m.contains_key(k) {
        Some(m[k])
    } else {
        None
    }
}

/// A key-value cache with expiring entries, the only state the engine keeps.
///
/// `entries` are the live entries and `ttls` the time to live each was written with. Expiry
/// happens between operations and is not part of this model.
pub trait CacheStore {
    spec fn entries(&self) -> Map<Seq<char>, u32>;

    spec fn ttls(&self) -> Map<Seq<char>, u64>;

    /// A store whose operations always succeed (one held in memory).
    spec fn faultless(&self) -> bool;

    /// The store's own consistency, kept by every operation.
    spec fn inv(&self) -> bool;

    /// Reads the value under `key`; `Err` holds the store's message when it cannot be reached.
    fn get(&mut self, key: &String) -> (r: Result<Option<u32>, String>)
        requires
            old(self).inv(),
        ensures
            final(self).inv(),
            final(self).entries() == old(self).entries(),
            final(self).ttls() == old(self).ttls(),
            final(self).faultless() == old(self).faultless(),
            r matches Ok(v) ==> v == lookup(old(self).entries(), key@),
            old(self).faultless() ==> r is Ok,
    ;

    /// Writes `value` under `key` with an expiry of `ttl_seconds`, replacing what was there.
    fn set_with_ttl(&mut self, key: &String, value: u32, ttl_seconds: u64) -> (r: Result<
        (),
        String,
    >)
        requires
            old(self).inv(),
        ensures
            final(self).inv(),
            final(self).faultless() == old(self).faultless(),
            r is Ok ==> final(self).entries() == old(self).entries().insert(key@, value),
            r is Ok ==> final(self).ttls() == old(self).ttls().insert(key@, ttl_seconds),
            old(self).faultless() ==> r is Ok,
    ;
}

/// A cache held in memory, for tests and single-process use. Entries do not expire by
/// themselves; `remove` takes one out as expiry would.
pub struct MemoryCache {
    keys: Vec<String>,
    values: Vec<u32>,
    ttl_list: Vec<u64>,
    model: Ghost<Map<Seq<char>, u32>>,
    ttl_model: Ghost<Map<Seq<char>, u64>>,
}

impl MemoryCache {
    pub closed spec fn wf(&self) -> bool {
        &&& self.keys.len() == self.values.len()
        &&& self.keys.len() == self.ttl_list.len()
        &&& forall|i: int, j: int|
            0 <= i < j < self.keys.len() ==> self.keys@[i]@ != self.keys@[j]@
        &&& forall|k: Seq<char>|
            #![trigger self.model@.contains_key(k)]
            self.model@.contains_key(k) <==> exists|i: int|
                0 <= i < self.keys.len() && self.keys@[i]@ == k
        &&& self.model@.dom() == self.ttl_model@.dom()
        &&& forall|i: int|
            #![trigger self.keys@[i]]
            0 <= i < self.keys.len() ==> self.model@[self.keys@[i]@] == self.values@[i]
                && self.ttl_model@[self.keys@[i]@] == self.ttl_list@[i]
    }

    /// An empty cache.
    pub fn new() -> (r: MemoryCache)
        ensures
            r.entries() == Map::<Seq<char>, u32>::empty(),
            r.ttls() == Map::<Seq<char>, u64>::empty(),
            r.faultless(),
            r.inv(),
    {
        MemoryCache {
            keys: Vec::new(),
            values: Vec::new(),
            ttl_list: Vec::new(),
            model: Ghost(Map::empty()),
            ttl_model: Ghost(Map::empty()),
        }
    }

    fn find(&self, key: &String) -> (r: Option<usize>)
        ensures
            match r {
                Some(i) => i < self.keys.len() && self.keys@[i as int]@ == key@,
                None => forall|i: int| 0 <= i < self.keys.len() ==> self.keys@[i]@ != key@,
            },
    {
        let mut i: usize = 0;
        while i < self.keys.len()
            invariant
                i <= self.keys.len(),
                forall|j: int| 0 <= j < i ==> self.keys@[j]@ != key@,
            decreases self.keys.len() - i,
        {
            if self.keys[i] == *key {
                return Some(i);
            }
            i = i + 1;
        }
        None
    }

    /// The number of live entries.
    pub fn len(&self) -> (r: usize)
        requires
            self.inv(),
        ensures
            r == self.entries().len(),
    {
        proof {
            self.lemma_dom_len();
        }
        self.keys.len()
    }

    proof fn lemma_dom_len(&self)
        requires
            self.wf(),
        ensures
            self.model@.dom().finite(),
            self.model@.dom().len() == self.keys.len(),
        decreases self.keys.len(),
    {
        let ks = self.keys@.map_values(|s: String| s@);
        assert forall|i: int, j: int| 0 <= i < j < ks.len() implies ks[i] != ks[j] by {
            assert(self.keys@[i]@ != self.keys@[j]@);
        };
        ks.unique_seq_to_set();
        assert(self.model@.dom() =~= ks.to_set()) by {
            assert forall|k: Seq<char>| self.model@.dom().contains(k) <==> ks.to_set().contains(k) by {
                if self.model@.contains_key(k) {
                    let i = choose|i: int| 0 <= i < self.keys.len() && self.keys@[i]@ == k;
                    assert(ks[i] == k);
                }
                if ks.to_set().contains(k) {
                    let i = choose|i: int| 0 <= i < ks.len() && ks[i] == k;
                    assert(self.keys@[i]@ == k);
                }
            };
        };
    }

    /// The time to live that the entry under `key` was written with, if there is one.
    pub fn ttl_seconds_of(&self, key: &String) -> (r: Option<u64>)
        requires
            self.inv(),
        ensures
            r == lookup(self.ttls(), key@),
    {
                match self.find(key) {
            Some(i) => {
                assert(self.model@.contains_key(key@));
                Some(self.ttl_list[i])
            },
            None => {
                proof {
                    if self.model@.contains_key(key@) {
                        let i = choose|i: int| 0 <= i < self.keys.len() && self.keys@[i]@ == key@;
                        assert(false);
                    }
                }
                None
            },
        }
    }

    /// Takes the entry under `key` out, as its expiry would.
    pub fn remove(&mut self, key: &String)
        requires
            old(self).inv(),
        ensures
            final(self).inv(),
            final(self).entries() == old(self).entries().remove(key@),
            final(self).ttls() == old(self).ttls().remove(key@),
    {
                match self.find(key) {
            Some(i) => {
                let ghost old_keys = self.keys@;
                let ghost old_values = self.values@;
                let ghost old_ttls = self.ttl_list@;
                self.keys.remove(i);
                self.values.remove(i);
                self.ttl_list.remove(i);
                self.model = Ghost(self.model@.remove(key@));
                self.ttl_model = Ghost(self.ttl_model@.remove(key@));
                assert forall|k: Seq<char>|
                    #![trigger self.model@.contains_key(k)]
                    self.model@.contains_key(k) <==> exists|j: int|
                        0 <= j < self.keys.len() && self.keys@[j]@ == k by {
                    if self.model@.contains_key(k) {
                        let j = choose|j: int| 0 <= j < old_keys.len() && old_keys[j]@ == k;
                        if j < i {
                            assert(self.keys@[j]@ == k);
                        } else {
                            assert(self.keys@[j - 1]@ == k);
                        }
                    }
                    if exists|j: int| 0 <= j < self.keys.len() && self.keys@[j]@ == k {
                        let j = choose|j: int| 0 <= j < self.keys.len() && self.keys@[j]@ == k;
                        if j < i {
                            assert(old_keys[j]@ == k);
                        } else {
                            assert(old_keys[j + 1]@ == k);
                        }
                    }
                };
                assert(self.model@.dom() =~= self.ttl_model@.dom());
            },
            None => {
                proof {
                    if self.model@.contains_key(key@) {
                        let i = choose|i: int| 0 <= i < self.keys.len() && self.keys@[i]@ == key@;
                        assert(false);
                    }
                }
                assert(self.model@.remove(key@) =~= self.model@);
                assert(self.ttl_model@.remove(key@) =~= self.ttl_model@);
            },
        }
    }
}

impl CacheStore for MemoryCache {
    closed spec fn entries(&self) -> Map<Seq<char>, u32> {
        self.model@
    }

    closed spec fn ttls(&self) -> Map<Seq<char>, u64> {
        self.ttl_model@
    }

    open spec fn faultless(&self) -> bool {
        true
    }

    closed spec fn inv(&self) -> bool {
        self.wf()
    }

    fn get(&mut self, key: &String) -> (r: Result<Option<u32>, String>) {
                match self.find(key) {
            Some(i) => {
                assert(self.model@.contains_key(key@));
                Ok(Some(self.values[i]))
            },
            None => {
                proof {
                    if self.model@.contains_key(key@) {
                        let i = choose|i: int| 0 <= i < self.keys.len() && self.keys@[i]@ == key@;
                        assert(false);
                    }
                }
                Ok(None)
            },
        }
    }

    fn set_with_ttl(&mut self, key: &String, value: u32, ttl_seconds: u64) -> (r: Result<
        (),
        String,
    >) {
                let ghost old_keys = self.keys@;
        let ghost old_model = self.model@;
        let found = self.find(key);
        match found {
            Some(i) => {
                self.values.set(i, value);
                self.ttl_list.set(i, ttl_seconds);
            },
            None => {
                self.keys.push(key.clone());
                self.values.push(value);
                self.ttl_list.push(ttl_seconds);
            },
        }
        self.model = Ghost(self.model@.insert(key@, value));
        self.ttl_model = Ghost(self.ttl_model@.insert(key@, ttl_seconds));
        assert forall|k: Seq<char>|
            #![trigger self.model@.contains_key(k)]
            self.model@.contains_key(k) <==> exists|j: int|
                0 <= j < self.keys.len() && self.keys@[j]@ == k by {
            if self.model@.contains_key(k) {
                if k == key@ {
                    match found {
                        Some(i) => assert(self.keys@[i as int]@ == k),
                        None => assert(self.keys@[old_keys.len() as int]@ == k),
                    }
                } else {
                    assert(old_model.contains_key(k));
                    let j = choose|j: int| 0 <= j < old_keys.len() && old_keys[j]@ == k;
                    assert(self.keys@[j]@ == k);
                }
            }
            if exists|j: int| 0 <= j < self.keys.len() && self.keys@[j]@ == k {
                let j = choose|j: int| 0 <= j < self.keys.len() && self.keys@[j]@ == k;
                if j < old_keys.len() {
                    assert(old_keys[j]@ == k);
                    assert(old_model.contains_key(k));
                }
            }
        };
        assert(self.model@.dom() =~= self.ttl_model@.dom());
        Ok(())
    }
}

} // verus!
