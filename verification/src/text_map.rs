//! A map keyed by text, stored as two parallel vectors.
use vstd::prelude::*;

verus! {

/// A finite map from text keys to values in which no key occurs twice.
#[derive(Debug)]
pub struct TextMap<V> {
    keys: Vec<String>,
    vals: Vec<V>,
}

/// Position of `k` in `ks` (meaningful when `k` occurs in `ks`).
pub closed spec fn position_in(ks: Seq<Seq<char>>, k: Seq<char>) -> int {
    choose|i: int| 0 <= i < ks.len() && ks[i] == k
}

/// The map that pairs each key of `ks` with the value at the same position of `vs`.
pub closed spec fn map_of<V>(ks: Seq<Seq<char>>, vs: Seq<V>) -> Map<Seq<char>, V> {
    Map::new(|k: Seq<char>| ks.contains(k), |k: Seq<char>| vs[position_in(ks, k)])
}

proof fn lemma_map_of_update<V>(ks: Seq<Seq<char>>, vs: Seq<V>, i: int, x: V)
    requires
        ks.len() == vs.len(),
        ks.no_duplicates(),
        0 <= i < ks.len(),
    ensures
        map_of(ks, vs.update(i, x)) == map_of(ks, vs).insert(ks[i], x),
{
    let m1 = map_of(ks, vs.update(i, x));
    let m2 = map_of(ks, vs).insert(ks[i], x);
    assert(ks.contains(ks[i]));
    assert forall|k: Seq<char>| #[trigger] m1.contains_key(k) implies m2.contains_key(k) && m1[k] == m2[k] by {
        let p = position_in(ks, k);
        assert(0 <= p < ks.len() && ks[p] == k);
        if k == ks[i] {
            if p != i {
                assert(ks[p] == ks[i]);
            }
        }
    }
    assert(m1 =~= m2);
}

proof fn lemma_map_of_entries<V>(ks: Seq<Seq<char>>, vs: Seq<V>)
    requires
        ks.len() == vs.len(),
        ks.no_duplicates(),
    ensures
        forall|k: Seq<char>| #[trigger] map_of(ks, vs).contains_key(k) <==> ks.contains(k),
        forall|i: int| 0 <= i < ks.len() ==> #[trigger] map_of(ks, vs)[ks[i]] == vs[i],
{
    assert forall|i: int| 0 <= i < ks.len() implies #[trigger] map_of(ks, vs)[ks[i]] == vs[i] by {
        assert(ks.contains(ks[i]));
        let p = position_in(ks, ks[i]);
        assert(0 <= p < ks.len() && ks[p] == ks[i]);
    }
}

impl<V> TextMap<V> {
    /// The keys in storage order, as character sequences.
    pub closed spec fn key_seq(&self) -> Seq<Seq<char>> {
        self.keys@.map_values(|k: String| k@)
    }

    /// The values in storage order.
    pub closed spec fn val_seq(&self) -> Seq<V> {
        self.vals@
    }

    /// Storage position of key `k` (meaningful when `k` is present).
    pub closed spec fn position(&self, k: Seq<char>) -> int {
        position_in(self.key_seq(), k)
    }

    /// Well-formedness: one value per key, and no key stored twice.
    pub closed spec fn wf(&self) -> bool {
        &&& self.keys@.len() == self.vals@.len()
        &&& self.key_seq().no_duplicates()
    }

    /// The map that this value stands for.
    pub closed spec fn as_map(&self) -> Map<Seq<char>, V> {
        map_of(self.key_seq(), self.vals@)
    }

    proof fn lemma_position(&self, i: int)
        requires
            self.wf(),
            0 <= i < self.keys@.len(),
        ensures
            self.position(self.key_seq()[i]) == i,
            self.as_map().contains_key(self.key_seq()[i]),
            self.as_map()[self.key_seq()[i]] == self.vals@[i],
    {
        let k = self.key_seq()[i];
        assert(self.key_seq().contains(k));
        let p = self.position(k);
        assert(0 <= p < self.key_seq().len() && self.key_seq()[p] == k);
        if p != i {
            assert(self.key_seq()[p] == self.key_seq()[i]);
        }
    }

    proof fn lemma_len(&self)
        requires
            self.wf(),
        ensures
            self.as_map().dom().finite(),
            self.as_map().dom().len() == self.keys@.len(),
    {
        assert(self.as_map().dom() =~= self.key_seq().to_set());
        self.key_seq().unique_seq_to_set();
    }

    /// Each stored key maps to the value stored beside it, the keys are
    /// exactly the map's domain, and there are as many entries as keys.
    pub proof fn lemma_entries(&self)
        requires
            self.wf(),
        ensures
            self.key_seq().len() == self.val_seq().len(),
            self.key_seq().len() == self@.len(),
            self@.dom().finite(),
            forall|i: int|
                0 <= i < self.key_seq().len() ==> #[trigger] self@.contains_key(self.key_seq()[i])
                    && self@[self.key_seq()[i]] == self.val_seq()[i],
            forall|k: Seq<char>| #[trigger]
                self@.contains_key(k) ==> exists|i: int|
                    0 <= i < self.key_seq().len() && self.key_seq()[i] == k,
            forall|i: int, j: int|
                0 <= i < j < self.key_seq().len() ==> self.key_seq()[i] != self.key_seq()[j],
    {
        self.lemma_len();
        assert forall|i: int| 0 <= i < self.key_seq().len() implies #[trigger] self@.contains_key(
            self.key_seq()[i],
        ) && self@[self.key_seq()[i]] == self.val_seq()[i] by {
            self.lemma_position(i);
        }
        assert forall|k: Seq<char>| #[trigger] self@.contains_key(k) implies exists|i: int|
            0 <= i < self.key_seq().len() && self.key_seq()[i] == k by {
            let p = self.position(k);
            assert(0 <= p < self.key_seq().len() && self.key_seq()[p] == k);
        }
    }

    /// References to the values, in storage order.
    pub fn values(&self) -> (r: Vec<&V>)
        requires
            self.wf(),
        ensures
            r@.len() == self.val_seq().len(),
            forall|i: int| 0 <= i < r@.len() ==> *#[trigger] r@[i] == self.val_seq()[i],
    {
        let mut r: Vec<&V> = Vec::new();
        let n = self.vals.len();
        let mut i: usize = 0;
        while i < n
            invariant
                n == self.vals@.len(),
                i <= n,
                r@.len() == i,
                forall|j: int| 0 <= j < i ==> *#[trigger] r@[j] == self.vals@[j],
            decreases n - i,
        {
            r.push(&self.vals[i]);
            i = i + 1;
        }
        r
    }

    /// The values as a mutable slice, in storage order; the keys stay as they are.
    pub fn values_mut(&mut self) -> (r: &mut [V])
        requires
            old(self).wf(),
        ensures
            r@ == old(self).val_seq(),
            final(self).key_seq() == old(self).key_seq(),
            final(self).val_seq() == final(r)@,
            final(r)@.len() == r@.len() ==> final(self).wf()
                && final(self)@.dom() == old(self)@.dom()
                && forall|i: int| 0 <= i < r@.len()
                    ==> #[trigger] final(self)@[old(self).key_seq()[i]] == final(r)@[i],
    {
        proof {
            let ks = self.key_seq();
            let n = ks.len();
            assert forall|vs: Seq<V>| vs.len() == n implies
                (#[trigger] map_of(ks, vs)).dom() == map_of(ks, self.vals@).dom()
                && forall|i: int| 0 <= i < n ==> #[trigger] map_of(ks, vs)[ks[i]] == vs[i] by {
                lemma_map_of_entries(ks, vs);
                lemma_map_of_entries(ks, self.vals@);
                assert(map_of(ks, vs).dom() =~= map_of(ks, self.vals@).dom());
            }
        }
        self.vals.as_mut_slice()
    }

    /// Creates an empty map.
    pub fn new() -> (m: Self)
        ensures
            m.wf(),
            m@ == Map::<Seq<char>, V>::empty(),
    {
        let m = TextMap { keys: Vec::new(), vals: Vec::new() };
        assert(m.key_seq() =~= Seq::<Seq<char>>::empty());
        assert(m@ =~= Map::<Seq<char>, V>::empty());
        m
    }

    /// Number of keys.
    pub fn len(&self) -> (n: usize)
        requires
            self.wf(),
        ensures
            self@.dom().finite(),
            n == self@.len(),
    {
        proof {
            self.lemma_len();
        }
        self.keys.len()
    }

    /// Storage position of `key`, if present.
    fn find(&self, key: &str) -> (r: Option<usize>)
        requires
            self.wf(),
        ensures
            match r {
                Some(i) => i < self.keys@.len() && self.key_seq()[i as int] == key@,
                None => !self@.contains_key(key@),
            },
    {
        let k = key.to_owned();
        let n = self.keys.len();
        let mut i: usize = 0;
        while i < n
            invariant
                n == self.keys@.len(),
                i <= n,
                k@ == key@,
                forall|j: int| 0 <= j < i ==> self.key_seq()[j] != key@,
            decreases n - i,
        {
            if self.keys[i] == k {
                return Some(i);
            }
            i = i + 1;
        }
        proof {
            if self@.contains_key(key@) {
                let j = choose|j: int| 0 <= j < self.key_seq().len() && self.key_seq()[j] == key@;
                assert(self.key_seq()[j] != key@);
            }
        }
        None
    }

    /// Whether `key` is present.
    pub fn contains_key(&self, key: &str) -> (b: bool)
        requires
            self.wf(),
        ensures
            b == self@.contains_key(key@),
    {
        match self.find(key) {
            Some(i) => {
                proof {
                    self.lemma_position(i as int);
                }
                true
            },
            None => false,
        }
    }

    /// The value stored under `key`, if any.
    pub fn get(&self, key: &str) -> (r: Option<&V>)
        requires
            self.wf(),
        ensures
            match r {
                Some(v) => self@.contains_key(key@) && *v == self@[key@],
                None => !self@.contains_key(key@),
            },
    {
        match self.find(key) {
            Some(i) => {
                proof {
                    self.lemma_position(i as int);
                }
                Some(&self.vals[i])
            },
            None => None,
        }
    }

    /// Mutable access to the value stored under `key`, if any.
    pub fn get_mut(&mut self, key: &str) -> (r: Option<&mut V>)
        requires
            old(self).wf(),
        ensures
            final(self).wf(),
            match r {
                Some(v) => old(self)@.contains_key(key@) && *v == old(self)@[key@] && final(self)@
                    == old(self)@.insert(key@, *final(v)),
                None => !old(self)@.contains_key(key@) && final(self)@ == old(self)@,
            },
    {
        match self.find(key) {
            Some(i) => {
                proof {
                    self.lemma_position(i as int);
                    let ks = self.key_seq();
                    let vs = self.vals@;
                    assert forall|x: V| #[trigger] map_of(ks, vs.update(i as int, x)) == map_of(ks, vs).insert(key@, x) by {
                        lemma_map_of_update(ks, vs, i as int, x);
                    }
                }
                Some(&mut self.vals[i])
            },
            None => None,
        }
    }

    /// Stores `value` under `key`; returns the value it replaces, if any.
    pub fn insert(&mut self, key: String, value: V) -> (r: Option<V>)
        requires
            old(self).wf(),
        ensures
            final(self).wf(),
            final(self)@ == old(self)@.insert(key@, value),
            match r {
                Some(v) => old(self)@.contains_key(key@) && v == old(self)@[key@],
                None => !old(self)@.contains_key(key@),
            },
    {
        let ghost old_map = self@;
        match self.find(key.as_str()) {
            Some(i) => {
                proof {
                    self.lemma_position(i as int);
                }
                let old_v = self.vals.remove(i);
                self.vals.insert(i, value);
                proof {
                    assert(self.key_seq() == old(self).key_seq());
                    assert forall|k: Seq<char>| #[trigger] self@.contains_key(k) implies self@[k]
                        == old_map.insert(key@, value)[k] by {
                        let p = self.position(k);
                        self.lemma_position(p);
                        old(self).lemma_position(p);
                    }
                    assert(self@ =~= old_map.insert(key@, value));
                }
                Some(old_v)
            },
            None => {
                let ghost old_keys = self.key_seq();
                self.keys.push(key);
                self.vals.push(value);
                proof {
                    let n = old_keys.len() as int;
                    assert(self.key_seq() =~= old_keys.push(key@));
                    assert(!old_keys.contains(key@));
                    assert forall|a: int, b: int|
                        0 <= a < b < self.key_seq().len() implies self.key_seq()[a]
                        != self.key_seq()[b] by {
                        if b == n {
                            assert(old_keys[a] == self.key_seq()[a]);
                        }
                    }
                    assert forall|k: Seq<char>| #[trigger]
                        old_map.insert(key@, value).contains_key(k) implies self@.contains_key(
                        k,
                    ) && self@[k] == old_map.insert(key@, value)[k] by {
                        if k == key@ {
                            self.lemma_position(n);
                        } else {
                            let p = old(self).position(k);
                            old(self).lemma_position(p);
                            self.lemma_position(p);
                        }
                    }
                    assert forall|k: Seq<char>| #[trigger]
                        self@.contains_key(k) implies old_map.insert(key@, value).contains_key(
                        k,
                    ) by {
                        let p = self.position(k);
                        if p < n {
                            assert(old_keys[p] == k);
                        }
                    }
                    assert(self@ =~= old_map.insert(key@, value));
                }
                None
            },
        }
    }

    /// Removes `key`; returns the value it held, if any.
    pub fn remove(&mut self, key: &str) -> (r: Option<V>)
        requires
            old(self).wf(),
        ensures
            final(self).wf(),
            final(self)@ == old(self)@.remove(key@),
            match r {
                Some(v) => old(self)@.contains_key(key@) && v == old(self)@[key@],
                None => !old(self)@.contains_key(key@),
            },
    {
        let ghost old_map = self@;
        match self.find(key) {
            Some(i) => {
                proof {
                    self.lemma_position(i as int);
                }
                let ghost old_keys = self.key_seq();
                let ghost old_vals = self.vals@;
                self.keys.remove(i);
                let v = self.vals.remove(i);
                proof {
                    let ii = i as int;
                    assert(self.key_seq() =~= old_keys.remove(ii));
                    assert forall|a: int, b: int|
                        0 <= a < b < self.key_seq().len() implies self.key_seq()[a]
                        != self.key_seq()[b] by {
                        let oa = if a < ii {
                            a
                        } else {
                            a + 1
                        };
                        let ob = if b < ii {
                            b
                        } else {
                            b + 1
                        };
                        assert(self.key_seq()[a] == old_keys[oa]);
                        assert(self.key_seq()[b] == old_keys[ob]);
                    }
                    assert forall|k: Seq<char>| #[trigger]
                        old_map.remove(key@).contains_key(k) implies self@.contains_key(k)
                        && self@[k] == old_map.remove(key@)[k] by {
                        let p = old(self).position(k);
                        old(self).lemma_position(p);
                        assert(p != ii);
                        let q = if p < ii {
                            p
                        } else {
                            p - 1
                        };
                        assert(self.key_seq()[q] == k);
                        self.lemma_position(q);
                    }
                    assert forall|k: Seq<char>| #[trigger]
                        self@.contains_key(k) implies old_map.remove(key@).contains_key(k) by {
                        let q = self.position(k);
                        let p = if q < ii {
                            q
                        } else {
                            q + 1
                        };
                        assert(old_keys[p] == k);
                        assert(old_keys.contains(k));
                        if k == key@ {
                            assert(old_keys[ii] == k);
                        }
                    }
                    assert(self@ =~= old_map.remove(key@));
                }
                Some(v)
            },
            None => {
                assert(self@ =~= old_map.remove(key@));
                None
            },
        }
    }

    /// Removes every key.
    pub fn clear(&mut self)
        requires
            old(self).wf(),
        ensures
            final(self).wf(),
            final(self)@ == Map::<Seq<char>, V>::empty(),
    {
        self.keys.clear();
        self.vals.clear();
        assert(self.key_seq() =~= Seq::<Seq<char>>::empty());
        assert(self@ =~= Map::<Seq<char>, V>::empty());
    }

    /// The keys, each once, in storage order.
    pub fn keys(&self) -> (r: Vec<String>)
        requires
            self.wf(),
        ensures
            r@.len() == self@.len(),
            forall|i: int| 0 <= i < r@.len() ==> self@.contains_key(#[trigger] r@[i]@),
            forall|k: Seq<char>| #[trigger]
                self@.contains_key(k) ==> exists|i: int| 0 <= i < r@.len() && r@[i]@ == k,
            forall|i: int, j: int| 0 <= i < j < r@.len() ==> r@[i]@ != r@[j]@,
            r@.len() == self.key_seq().len(),
            forall|i: int| 0 <= i < r@.len() ==> #[trigger] r@[i]@ == self.key_seq()[i],
    {
        proof {
            self.lemma_len();
        }
        let mut r: Vec<String> = Vec::new();
        let n = self.keys.len();
        let mut i: usize = 0;
        while i < n
            invariant
                n == self.keys@.len(),
                i <= n,
                r@.len() == i,
                forall|j: int| 0 <= j < i ==> #[trigger] r@[j]@ == self.key_seq()[j],
            decreases n - i,
        {
            r.push(self.keys[i].clone());
            i = i + 1;
        }
        proof {
            assert forall|j: int| 0 <= j < r@.len() implies self@.contains_key(#[trigger] r@[j]@) by {
                self.lemma_position(j);
            }
            assert forall|k: Seq<char>| #[trigger] self@.contains_key(k) implies exists|j: int|
                0 <= j < r@.len() && r@[j]@ == k by {
                let p = self.position(k);
                assert(r@[p]@ == k);
            }
        }
        r
    }
}

impl<V: Clone> Clone for TextMap<V> {
    /// Copies the map: the same keys, in the same order, each with a clone
    /// of its value.
    fn clone(&self) -> (r: Self)
        ensures
            r.key_seq() == self.key_seq(),
            r.val_seq().len() == self.val_seq().len(),
            forall|i: int|
                0 <= i < self.val_seq().len() ==> cloned::<V>(
                    #[trigger] self.val_seq()[i],
                    r.val_seq()[i],
                ),
            self.wf() ==> r.wf(),
            self.wf() ==> r@.dom() == self@.dom(),
            (forall|i: int|
                0 <= i < self.val_seq().len() ==> r.val_seq()[i] == self.val_seq()[i]) ==> r@
                == self@,
    {
        let r = TextMap { keys: self.keys.clone(), vals: self.vals.clone() };
        assert(r.key_seq() =~= self.key_seq());
        proof {
            if self.wf() {
                assert(r@.dom() =~= self@.dom());
            }
            if forall|i: int| 0 <= i < self.val_seq().len() ==> r.val_seq()[i] == self.val_seq()[i] {
                assert(r.vals@.len() == self.vals@.len());
                assert forall|i: int| 0 <= i < r.vals@.len() implies r.vals@[i] == self.vals@[i] by {
                    assert(r.val_seq()[i] == self.val_seq()[i]);
                }
                assert(r.vals@ =~= self.vals@);
            }
        }
        r
    }
}

impl<V> View for TextMap<V> {
    type V = Map<Seq<char>, V>;

    closed spec fn view(&self) -> Map<Seq<char>, V> {
        self.as_map()
    }
}

} // verus!
