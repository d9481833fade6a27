//! Small keyed stores that the in-memory ledger is built of: entries keyed by
//! a 128-bit identifier, or by a text. A key occurs at most once; inserting
//! under a present key replaces its value.

use vstd::prelude::*;

verus! {

/// The slot at which `k` sits in `keys`.
pub open spec fn slot_of<K>(keys: Seq<K>, k: K) -> int {
    choose|i: int| 0 <= i < keys.len() && keys[i] == k
}

/// No key occurs twice.
pub open spec fn distinct<K>(keys: Seq<K>) -> bool {
    forall|i: int, j: int| 0 <= i < j < keys.len() ==> keys[i] != keys[j]
}

/// The map that parallel key and value sequences describe.
pub open spec fn keyed_map<K, V>(keys: Seq<K>, values: Seq<V>) -> Map<K, V> {
    Map::new(|k: K| keys.contains(k), |k: K| values[slot_of(keys, k)])
}

/// With distinct keys, the slot of the key at `i` is `i`.
proof fn lemma_slot_of_distinct<K>(keys: Seq<K>, i: int)
    requires
        distinct(keys),
        0 <= i < keys.len(),
    ensures
        slot_of(keys, keys[i]) == i,
{
    assert(keys.contains(keys[i]));
    let j = slot_of(keys, keys[i]);
    if j != i {
        if j < i {
            assert(keys[j] != keys[i]);
        } else {
            assert(keys[i] != keys[j]);
        }
    }
}

/// Replacing the value at the slot of `k` inserts `(k, v)` into the map.
proof fn lemma_update_is_insert<K, V>(keys: Seq<K>, values: Seq<V>, i: int, v: V)
    requires
        distinct(keys),
        keys.len() == values.len(),
        0 <= i < keys.len(),
    ensures
        keyed_map(keys, values.update(i, v)) == keyed_map(keys, values).insert(keys[i], v),
{
    let m1 = keyed_map(keys, values.update(i, v));
    let m2 = keyed_map(keys, values).insert(keys[i], v);
    assert forall|k: K| m1.contains_key(k) <==> m2.contains_key(k) by {
        if k == keys[i] {
            assert(keys.contains(k));
        }
    }
    assert forall|k: K| #[trigger] m1.contains_key(k) implies m1[k] == m2[k] by {
        let j = choose|j: int| 0 <= j < keys.len() && keys[j] == k;
        lemma_slot_of_distinct(keys, j);
    }
    assert(m1 =~= m2);
}

/// Appending a new key `k` with `v` inserts `(k, v)` into the map.
proof fn lemma_push_is_insert<K, V>(keys: Seq<K>, values: Seq<V>, k: K, v: V)
    requires
        distinct(keys),
        keys.len() == values.len(),
        !keys.contains(k),
    ensures
        distinct(keys.push(k)),
        keyed_map(keys.push(k), values.push(v)) == keyed_map(keys, values).insert(k, v),
{
    let nk = keys.push(k);
    let nv = values.push(v);
    assert(distinct(nk)) by {
        assert forall|a: int, b: int| 0 <= a < b < nk.len() implies nk[a] != nk[b] by {
            if b == keys.len() {
                assert(keys[a] == nk[a]);
                if keys[a] == k {
                    assert(keys.contains(k));
                }
            }
        }
    }
    let m1 = keyed_map(nk, nv);
    let m2 = keyed_map(keys, values).insert(k, v);
    assert forall|x: K| m1.contains_key(x) <==> m2.contains_key(x) by {
        if keys.contains(x) {
            let j = choose|j: int| 0 <= j < keys.len() && keys[j] == x;
            assert(nk[j] == x);
        }
        if nk.contains(x) && x != k {
            let j = choose|j: int| 0 <= j < nk.len() && nk[j] == x;
            assert(keys[j] == x);
        }
        if x == k {
            assert(nk[keys.len() as int] == k);
        }
    }
    assert forall|x: K| #[trigger] m1.contains_key(x) implies m1[x] == m2[x] by {
        let j = choose|j: int| 0 <= j < nk.len() && nk[j] == x;
        lemma_slot_of_distinct(nk, j);
        if x != k {
            lemma_slot_of_distinct(keys, j);
        }
    }
    assert(m1 =~= m2);
}

/// Entries keyed by a 128-bit identifier.
pub struct IdStore<V> {
    keys: Vec<u128>,
    values: Vec<V>,
}

impl<V> View for IdStore<V> {
    type V = Map<u128, V>;

    closed spec fn view(&self) -> Map<u128, V> {
        keyed_map(self.keys@, self.values@)
    }
}

impl<V> IdStore<V> {
    /// The keys are distinct and each has a value.
    pub closed spec fn well_formed(self) -> bool {
        self.keys@.len() == self.values@.len() && distinct(self.keys@)
    }

    /// The number of slots (one per key).
    pub closed spec fn size(self) -> nat {
        self.keys@.len()
    }

    /// The key held in slot `i`.
    pub closed spec fn key_at(self, i: int) -> u128 {
        self.keys@[i]
    }

    /// Every key of the map sits in some slot, and every slot holds a key of
    /// the map.
    pub proof fn lemma_slots(self)
        ensures
            forall|k: u128| #[trigger]
                self@.contains_key(k) ==> exists|i: int| 0 <= i < self.size() && self.key_at(i) == k,
            forall|i: int| 0 <= i < self.size() ==> #[trigger] self@.contains_key(self.key_at(i)),
    {
        assert forall|k: u128| #[trigger] self@.contains_key(k) implies exists|i: int|
            0 <= i < self.size() && self.key_at(i) == k by {
            let i = choose|i: int| 0 <= i < self.keys@.len() && self.keys@[i] == k;
            assert(self.key_at(i) == k);
        }
        assert forall|i: int| 0 <= i < self.size() implies #[trigger] self@.contains_key(
            self.key_at(i),
        ) by {
            assert(self.keys@.contains(self.keys@[i]));
        }
    }

    /// An empty store.
    pub fn new() -> (s: Self)
        ensures
            s.well_formed(),
            s@ == Map::<u128, V>::empty(),
            s.size() == 0,
    {
        let s = IdStore { keys: Vec::new(), values: Vec::new() };
        assert(s@ =~= Map::<u128, V>::empty());
        s
    }

    /// The number of slots.
    pub fn slots(&self) -> (n: usize)
        ensures
            n == self.size(),
    {
        self.keys.len()
    }

    /// The key and value held in slot `i`.
    pub fn slot(&self, i: usize) -> (r: (u128, &V))
        requires
            self.well_formed(),
            i < self.size(),
        ensures
            r.0 == self.key_at(i as int),
            self@.contains_key(r.0),
            self@[r.0] == *r.1,
    {
        proof {
            lemma_slot_of_distinct(self.keys@, i as int);
            assert(self.keys@.contains(self.keys@[i as int]));
        }
        (self.keys[i], &self.values[i])
    }

    /// The slot of `k`, if present.
    fn find(&self, k: u128) -> (r: Option<usize>)
        ensures
            match r {
                Some(i) => i < self.keys@.len() && self.keys@[i as int] == k,
                None => !self.keys@.contains(k),
            },
    {
        let mut i: usize = 0;
        while i < self.keys.len()
            invariant
                i <= self.keys@.len(),
                forall|j: int| 0 <= j < i ==> self.keys@[j] != k,
            decreases self.keys@.len() - i,
        {
            if self.keys[i] == k {
                return Some(i);
            }
            i = i + 1;
        }
        None
    }

    /// The value stored under `k`.
    pub fn get(&self, k: u128) -> (r: Option<&V>)
        requires
            self.well_formed(),
        ensures
            r is Some <==> self@.contains_key(k),
            r matches Some(v) ==> *v == self@[k],
    {
        match self.find(k) {
            Some(i) => {
                proof {
                    lemma_slot_of_distinct(self.keys@, i as int);
                    assert(self.keys@.contains(k));
                }
                Some(&self.values[i])
            },
            None => None,
        }
    }

    /// Stores `v` under `k`, replacing any value stored there.
    pub fn insert(&mut self, k: u128, v: V)
        requires
            old(self).well_formed(),
        ensures
            final(self).well_formed(),
            final(self)@ == old(self)@.insert(k, v),
    {
        match self.find(k) {
            Some(i) => {
                proof {
                    lemma_update_is_insert(self.keys@, self.values@, i as int, v);
                }
                self.values.set(i, v);
            },
            None => {
                proof {
                    lemma_push_is_insert(self.keys@, self.values@, k, v);
                }
                self.keys.push(k);
                self.values.push(v);
            },
        }
    }
}

/// Entries keyed by a text.
pub struct TextStore<V> {
    keys: Vec<String>,
    values: Vec<V>,
}

/// The texts of a sequence of strings.
pub open spec fn texts(keys: Seq<String>) -> Seq<Seq<char>> {
    keys.map_values(|s: String| s@)
}

impl<V> View for TextStore<V> {
    type V = Map<Seq<char>, V>;

    closed spec fn view(&self) -> Map<Seq<char>, V> {
        keyed_map(texts(self.keys@), self.values@)
    }
}

impl<V> TextStore<V> {
    /// The keys are distinct and each has a value.
    pub closed spec fn well_formed(self) -> bool {
        self.keys@.len() == self.values@.len() && distinct(texts(self.keys@))
    }

    /// The number of slots (one per key).
    pub closed spec fn size(self) -> nat {
        self.keys@.len()
    }

    /// The key held in slot `i`.
    pub closed spec fn key_at(self, i: int) -> Seq<char> {
        self.keys@[i]@
    }

    /// Every key of the map sits in some slot, and every slot holds a key of
    /// the map.
    pub proof fn lemma_slots(self)
        ensures
            forall|k: Seq<char>| #[trigger]
                self@.contains_key(k) ==> exists|i: int| 0 <= i < self.size() && self.key_at(i) == k,
            forall|i: int| 0 <= i < self.size() ==> #[trigger] self@.contains_key(self.key_at(i)),
    {
        assert forall|k: Seq<char>| #[trigger] self@.contains_key(k) implies exists|i: int|
            0 <= i < self.size() && self.key_at(i) == k by {
            let i = choose|i: int| 0 <= i < texts(self.keys@).len() && texts(self.keys@)[i] == k;
            assert(self.key_at(i) == k);
        }
        assert forall|i: int| 0 <= i < self.size() implies #[trigger] self@.contains_key(
            self.key_at(i),
        ) by {
            assert(texts(self.keys@)[i] == self.key_at(i));
            assert(texts(self.keys@).contains(self.key_at(i)));
        }
    }

    /// An empty store.
    pub fn new() -> (s: Self)
        ensures
            s.well_formed(),
            s@ == Map::<Seq<char>, V>::empty(),
            s.size() == 0,
    {
        let s = TextStore { keys: Vec::new(), values: Vec::new() };
        assert(texts(s.keys@) =~= Seq::<Seq<char>>::empty());
        assert(s@ =~= Map::<Seq<char>, V>::empty());
        s
    }

    /// The number of slots.
    pub fn slots(&self) -> (n: usize)
        ensures
            n == self.size(),
    {
        self.keys.len()
    }

    /// The value held in slot `i`, with its key.
    pub fn slot(&self, i: usize) -> (r: &V)
        requires
            self.well_formed(),
            i < self.size(),
        ensures
            self@.contains_key(self.key_at(i as int)),
            self@[self.key_at(i as int)] == *r,
    {
        proof {
            lemma_slot_of_distinct(texts(self.keys@), i as int);
            assert(texts(self.keys@).contains(texts(self.keys@)[i as int]));
        }
        &self.values[i]
    }

    /// The slot of the text `k`, if present.
    fn find(&self, k: &str) -> (r: Option<usize>)
        ensures
            match r {
                Some(i) => i < self.keys@.len() && texts(self.keys@)[i as int] == k@,
                None => !texts(self.keys@).contains(k@),
            },
    {
        let key = String::from_str(k);
        let mut i: usize = 0;
        while i < self.keys.len()
            invariant
                i <= self.keys@.len(),
                key@ == k@,
                forall|j: int| 0 <= j < i ==> texts(self.keys@)[j] != k@,
            decreases self.keys@.len() - i,
        {
            if self.keys[i] == key {
                return Some(i);
            }
            i = i + 1;
        }
        None
    }

    /// The value stored under the text `k`.
    pub fn get(&self, k: &str) -> (r: Option<&V>)
        requires
            self.well_formed(),
        ensures
            r is Some <==> self@.contains_key(k@),
            r matches Some(v) ==> *v == self@[k@],
    {
        match self.find(k) {
            Some(i) => {
                proof {
                    lemma_slot_of_distinct(texts(self.keys@), i as int);
                    assert(texts(self.keys@).contains(k@));
                }
                Some(&self.values[i])
            },
            None => None,
        }
    }

    /// Stores `v` under the text of `k`, replacing any value stored there.
    pub fn insert(&mut self, k: String, v: V)
        requires
            old(self).well_formed(),
        ensures
            final(self).well_formed(),
            final(self)@ == old(self)@.insert(k@, v),
    {
        match self.find(k.as_str()) {
            Some(i) => {
                proof {
                    lemma_update_is_insert(texts(self.keys@), self.values@, i as int, v);
                }
                self.values.set(i, v);
            },
            None => {
                proof {
                    lemma_push_is_insert(texts(self.keys@), self.values@, k@, v);
                    assert(texts(self.keys@.push(k)) =~= texts(self.keys@).push(k@));
                }
                self.keys.push(k);
                self.values.push(v);
            },
        }
    }

    /// Replaces the value stored under the text `k`, when `k` is present;
    /// otherwise leaves the store unchanged.
    pub fn replace(&mut self, k: &str, v: V) -> (found: bool)
        requires
            old(self).well_formed(),
        ensures
            final(self).well_formed(),
            found == old(self)@.contains_key(k@),
            found ==> final(self)@ == old(self)@.insert(k@, v),
            !found ==> final(self)@ == old(self)@,
    {
        match self.find(k) {
            Some(i) => {
                proof {
                    lemma_update_is_insert(texts(self.keys@), self.values@, i as int, v);
                    assert(texts(self.keys@).contains(k@));
                }
                self.values.set(i, v);
                true
            },
            None => false,
        }
    }
}

} // verus!
