use vstd::prelude::*;

verus! {

/// A finite map from 64-bit keys (account and record identifiers) to values,
/// kept as a list of entries in which no key occurs twice.
#[derive(Debug)]
pub struct AssocMap<V> {
    entries: Vec<(u64, V)>,
}

pub open spec fn keys_unique<V>(s: Seq<(u64, V)>) -> bool {
    forall|i: int, j: int| 0 <= i < s.len() && 0 <= j < s.len() && i != j ==> #[trigger] s[i].0 != #[trigger] s[j].0
}

pub open spec fn seq_has_key<V>(s: Seq<(u64, V)>, k: u64) -> bool {
    exists|i: int| 0 <= i < s.len() && #[trigger] s[i].0 == k
}

pub open spec fn seq_to_map<V>(s: Seq<(u64, V)>) -> Map<u64, V> {
    Map::new(
        |k: u64| seq_has_key(s, k),
        |k: u64| s[choose|i: int| 0 <= i < s.len() && #[trigger] s[i].0 == k].1,
    )
}

proof fn lemma_entry_in_map<V>(s: Seq<(u64, V)>, i: int)
    requires
        keys_unique(s),
        0 <= i < s.len(),
    ensures
        seq_to_map(s).contains_key(s[i].0),
        seq_to_map(s)[s[i].0] == s[i].1,
{
    let k = s[i].0;
    assert(seq_has_key(s, k));
    let j = choose|j: int| 0 <= j < s.len() && #[trigger] s[j].0 == k;
    assert(s[j].0 == k);
}

proof fn lemma_absent_not_in_map<V>(s: Seq<(u64, V)>, k: u64)
    requires
        forall|i: int| 0 <= i < s.len() ==> #[trigger] s[i].0 != k,
    ensures
        !seq_to_map(s).contains_key(k),
{
}

proof fn lemma_map_of_update<V>(s: Seq<(u64, V)>, i: int, v: V)
    requires
        keys_unique(s),
        0 <= i < s.len(),
    ensures
        keys_unique(s.update(i, (s[i].0, v))),
        seq_to_map(s.update(i, (s[i].0, v))) =~= seq_to_map(s).insert(s[i].0, v),
{
    let t = s.update(i, (s[i].0, v));
    let k = s[i].0;
    assert(keys_unique(t)) by {
        assert forall|a: int, b: int| 0 <= a < t.len() && 0 <= b < t.len() && a != b implies #[trigger] t[a].0 != #[trigger] t[b].0 by {
            assert(t[a].0 == s[a].0);
            assert(t[b].0 == s[b].0);
        }
    }
    assert forall|q: u64| seq_to_map(t).contains_key(q) <==> seq_to_map(s).insert(k, v).contains_key(q) by {
        if seq_has_key(t, q) {
            let a = choose|a: int| 0 <= a < t.len() && #[trigger] t[a].0 == q;
            assert(s[a].0 == q);
        }
        if seq_has_key(s, q) {
            let a = choose|a: int| 0 <= a < s.len() && #[trigger] s[a].0 == q;
            assert(t[a].0 == q);
        }
    }
    assert forall|q: u64| #[trigger] seq_to_map(t).contains_key(q) implies seq_to_map(t)[q] == seq_to_map(s).insert(k, v)[q] by {
        let a = choose|a: int| 0 <= a < t.len() && #[trigger] t[a].0 == q;
        assert(t[a].0 == q);
        lemma_entry_in_map(t, a);
        if a == i {
        } else {
            assert(s[a] == t[a]);
            lemma_entry_in_map(s, a);
        }
    }
}

proof fn lemma_map_of_push<V>(s: Seq<(u64, V)>, k: u64, v: V)
    requires
        keys_unique(s),
        forall|i: int| 0 <= i < s.len() ==> #[trigger] s[i].0 != k,
    ensures
        keys_unique(s.push((k, v))),
        seq_to_map(s.push((k, v))) =~= seq_to_map(s).insert(k, v),
{
    let t = s.push((k, v));
    assert(keys_unique(t)) by {
        assert forall|a: int, b: int| 0 <= a < t.len() && 0 <= b < t.len() && a != b implies #[trigger] t[a].0 != #[trigger] t[b].0 by {
            if a < s.len() {
                assert(t[a] == s[a]);
            }
            if b < s.len() {
                assert(t[b] == s[b]);
            }
        }
    }
    assert forall|q: u64| seq_to_map(t).contains_key(q) <==> seq_to_map(s).insert(k, v).contains_key(q) by {
        if seq_has_key(t, q) {
            let a = choose|a: int| 0 <= a < t.len() && #[trigger] t[a].0 == q;
            if a < s.len() {
                assert(s[a].0 == q);
            }
        }
        if seq_has_key(s, q) {
            let a = choose|a: int| 0 <= a < s.len() && #[trigger] s[a].0 == q;
            assert(t[a].0 == q);
        }
        if q == k {
            assert(t[s.len() as int].0 == k);
        }
    }
    assert forall|q: u64| #[trigger] seq_to_map(t).contains_key(q) implies seq_to_map(t)[q] == seq_to_map(s).insert(k, v)[q] by {
        let a = choose|a: int| 0 <= a < t.len() && #[trigger] t[a].0 == q;
        assert(t[a].0 == q);
        lemma_entry_in_map(t, a);
        if a < s.len() {
            assert(s[a] == t[a]);
            lemma_entry_in_map(s, a);
        }
    }
}

proof fn lemma_map_of_remove<V>(s: Seq<(u64, V)>, i: int)
    requires
        keys_unique(s),
        0 <= i < s.len(),
    ensures
        keys_unique(s.remove(i)),
        seq_to_map(s.remove(i)) =~= seq_to_map(s).remove(s[i].0),
{
    let t = s.remove(i);
    let k = s[i].0;
    assert forall|a: int| 0 <= a < t.len() implies #[trigger] t[a] == (if a < i { s[a] } else { s[a + 1] }) by {
    }
    assert(keys_unique(t)) by {
        assert forall|a: int, b: int| 0 <= a < t.len() && 0 <= b < t.len() && a != b implies #[trigger] t[a].0 != #[trigger] t[b].0 by {
            let a1 = if a < i { a } else { a + 1 };
            let b1 = if b < i { b } else { b + 1 };
            assert(t[a] == s[a1]);
            assert(t[b] == s[b1]);
        }
    }
    assert forall|q: u64| seq_to_map(t).contains_key(q) <==> seq_to_map(s).remove(k).contains_key(q) by {
        if seq_has_key(t, q) {
            let a = choose|a: int| 0 <= a < t.len() && #[trigger] t[a].0 == q;
            let a1 = if a < i { a } else { a + 1 };
            assert(t[a] == s[a1]);
            assert(s[a1].0 == q);
            assert(a1 != i);
        }
        if seq_has_key(s, q) && q != k {
            let a = choose|a: int| 0 <= a < s.len() && #[trigger] s[a].0 == q;
            assert(a != i);
            let a0 = if a < i { a } else { a - 1 };
            assert(t[a0] == s[a]);
            assert(t[a0].0 == q);
        }
    }
    assert forall|q: u64| #[trigger] seq_to_map(t).contains_key(q) implies seq_to_map(t)[q] == seq_to_map(s).remove(k)[q] by {
        let a = choose|a: int| 0 <= a < t.len() && #[trigger] t[a].0 == q;
        assert(t[a].0 == q);
        lemma_entry_in_map(t, a);
        let a1 = if a < i { a } else { a + 1 };
        assert(t[a] == s[a1]);
        lemma_entry_in_map(s, a1);
    }
}

impl<V> View for AssocMap<V> {
    type V = Map<u64, V>;

    closed spec fn view(&self) -> Map<u64, V> {
        seq_to_map(self.entries@)
    }
}

impl<V> AssocMap<V> {
    #[verifier::type_invariant]
    closed spec fn inv(&self) -> bool {
        keys_unique(self.entries@)
    }

    /// The keys in the order in which they were first inserted.
    pub closed spec fn key_order(&self) -> Seq<u64> {
        self.entries@.map_values(|e: (u64, V)| e.0)
    }

    /// An empty map.
    pub fn new() -> (m: Self)
        ensures
            m@ == Map::<u64, V>::empty(),
            m.key_order() == Seq::<u64>::empty(),
    {
        let m = AssocMap { entries: Vec::new() };
        assert(m@ =~= Map::<u64, V>::empty());
        assert(m.key_order() =~= Seq::<u64>::empty());
        m
    }

    fn find(&self, k: u64) -> (r: Option<usize>)
        ensures
            match r {
                Some(i) => i < self.entries@.len() && self.entries@[i as int].0 == k,
                None => forall|i: int| 0 <= i < self.entries@.len() ==> #[trigger] self.entries@[i].0 != k,
            },
    {
        let mut i: usize = 0;
        while i < self.entries.len()
            invariant
                i <= self.entries@.len(),
                forall|j: int| 0 <= j < i ==> #[trigger] self.entries@[j].0 != k,
            decreases self.entries@.len() - i,
        {
            if self.entries[i].0 == k {
                return Some(i);
            }
            i = i + 1;
        }
        None
    }

    /// Whether the key has a value.
    pub fn contains_key(&self, k: u64) -> (b: bool)
        ensures
            b == self@.contains_key(k),
    {
        proof {
            use_type_invariant(self);
        }
        match self.find(k) {
            Some(i) => {
                proof {
                    lemma_entry_in_map(self.entries@, i as int);
                }
                true
            },
            None => false,
        }
    }

    /// The value stored under the key, if any.
    pub fn get(&self, k: u64) -> (r: Option<&V>)
        ensures
            r == (if self@.contains_key(k) { Some(&self@[k]) } else { None }),
    {
        proof {
            use_type_invariant(self);
        }
        match self.find(k) {
            Some(i) => {
                proof {
                    lemma_entry_in_map(self.entries@, i as int);
                }
                Some(&self.entries[i].1)
            },
            None => None,
        }
    }

    /// Stores the value under the key, replacing any earlier value.
    pub fn insert(&mut self, k: u64, v: V)
        ensures
            final(self)@ == old(self)@.insert(k, v),
            old(self)@.contains_key(k) ==> final(self).key_order() == old(self).key_order(),
            !old(self)@.contains_key(k) ==> final(self).key_order() == old(self).key_order().push(k),
    {
        proof {
            use_type_invariant(&*self);
        }
        match self.find(k) {
            Some(i) => {
                proof {
                    lemma_map_of_update(self.entries@, i as int, v);
                    lemma_entry_in_map(self.entries@, i as int);
                }
                let ghost old_order = self.key_order();
                let mut entries = Vec::new();
                std::mem::swap(&mut entries, &mut self.entries);
                entries.set(i, (k, v));
                self.entries = entries;
                assert(self.key_order() =~= old_order);
            },
            None => {
                proof {
                    lemma_map_of_push(self.entries@, k, v);
                    lemma_absent_not_in_map(self.entries@, k);
                }
                let ghost old_order = self.key_order();
                let mut entries = Vec::new();
                std::mem::swap(&mut entries, &mut self.entries);
                entries.push((k, v));
                self.entries = entries;
                assert(self.key_order() =~= old_order.push(k));
            },
        }
    }

    /// Removes the key and hands back its value, if it had one.
    pub fn remove(&mut self, k: u64) -> (r: Option<V>)
        ensures
            final(self)@ == old(self)@.remove(k),
            r == (if old(self)@.contains_key(k) { Some(old(self)@[k]) } else { None }),
    {
        proof {
            use_type_invariant(&*self);
        }
        match self.find(k) {
            Some(i) => {
                proof {
                    lemma_map_of_remove(self.entries@, i as int);
                    lemma_entry_in_map(self.entries@, i as int);
                }
                let mut entries = Vec::new();
                std::mem::swap(&mut entries, &mut self.entries);
                let e = entries.remove(i);
                self.entries = entries;
                Some(e.1)
            },
            None => {
                proof {
                    lemma_absent_not_in_map(self.entries@, k);
                    assert(self@.remove(k) =~= self@);
                }
                None
            },
        }
    }
}

} // verus!

verus! {

/// A finite map keyed by pairs of 64-bit identifiers (such as player and season).
pub struct PairMap<V> {
    outer: AssocMap<AssocMap<V>>,
}

pub open spec fn pair_view<V>(m: Map<u64, AssocMap<V>>) -> Map<(u64, u64), V> {
    Map::new(
        |k: (u64, u64)| m.contains_key(k.0) && m[k.0]@.contains_key(k.1),
        |k: (u64, u64)| m[k.0]@[k.1],
    )
}

impl<V> View for PairMap<V> {
    type V = Map<(u64, u64), V>;

    closed spec fn view(&self) -> Map<(u64, u64), V> {
        pair_view(self.outer@)
    }
}

impl<V> PairMap<V> {
    pub fn new() -> (m: Self)
        ensures
            m@ == Map::<(u64, u64), V>::empty(),
    {
        let m = PairMap { outer: AssocMap::new() };
        assert(m@ =~= Map::<(u64, u64), V>::empty());
        m
    }

    pub fn contains_key(&self, a: u64, b: u64) -> (r: bool)
        ensures
            r == self@.contains_key((a, b)),
    {
        match self.outer.get(a) {
            Some(inner) => inner.contains_key(b),
            None => false,
        }
    }

    pub fn get(&self, a: u64, b: u64) -> (r: Option<&V>)
        ensures
            r == (if self@.contains_key((a, b)) { Some(&self@[(a, b)]) } else { None }),
    {
        match self.outer.get(a) {
            Some(inner) => inner.get(b),
            None => None,
        }
    }

    pub fn insert(&mut self, a: u64, b: u64, v: V)
        ensures
            final(self)@ == old(self)@.insert((a, b), v),
    {
        let mut inner = match self.outer.remove(a) {
            Some(i) => i,
            None => AssocMap::new(),
        };
        inner.insert(b, v);
        self.outer.insert(a, inner);
        assert(self@ =~= old(self)@.insert((a, b), v));
    }

    pub fn remove(&mut self, a: u64, b: u64) -> (r: Option<V>)
        ensures
            final(self)@ == old(self)@.remove((a, b)),
            r == (if old(self)@.contains_key((a, b)) { Some(old(self)@[(a, b)]) } else { None }),
    {
        match self.outer.remove(a) {
            Some(mut inner) => {
                let r = inner.remove(b);
                self.outer.insert(a, inner);
                assert(self@ =~= old(self)@.remove((a, b)));
                r
            },
            None => {
                assert(self@ =~= old(self)@.remove((a, b)));
                None
            },
        }
    }
}

} // verus!

verus! {

/// A finite map from 64-bit identifiers to lists, a missing key reading as
/// the empty list.
pub struct ListMap<T> {
    inner: AssocMap<Vec<T>>,
}

impl<T> View for ListMap<T> {
    type V = Map<u64, Seq<T>>;

    closed spec fn view(&self) -> Map<u64, Seq<T>> {
        self.inner@.map_values(|v: Vec<T>| v@)
    }
}

impl<T> ListMap<T> {
    /// The list under the key (empty when there is none).
    pub open spec fn list(&self, k: u64) -> Seq<T> {
        if self@.contains_key(k) { self@[k] } else { Seq::empty() }
    }

    pub fn new() -> (m: Self)
        ensures
            m@ == Map::<u64, Seq<T>>::empty(),
    {
        let m = ListMap { inner: AssocMap::new() };
        assert(m@ =~= Map::<u64, Seq<T>>::empty());
        m
    }

    /// Appends `x` to the list under `k`.
    pub fn push(&mut self, k: u64, x: T)
        ensures
            final(self)@ == old(self)@.insert(k, old(self).list(k).push(x)),
    {
        let mut v = match self.inner.remove(k) {
            Some(v) => v,
            None => Vec::new(),
        };
        v.push(x);
        self.inner.insert(k, v);
        assert(self@ =~= old(self)@.insert(k, old(self).list(k).push(x)));
    }

    /// Replaces the list under `k`.
    pub fn set(&mut self, k: u64, v: Vec<T>)
        ensures
            final(self)@ == old(self)@.insert(k, v@),
    {
        self.inner.insert(k, v);
        assert(self@ =~= old(self)@.insert(k, v@));
    }

    /// The list under `k`, borrowed (empty when there is none).
    pub fn get(&self, k: u64) -> (r: Option<&Vec<T>>)
        ensures
            match r {
                Some(v) => self@.contains_key(k) && v@ == self@[k],
                None => !self@.contains_key(k),
            },
    {
        self.inner.get(k)
    }
}

impl<T: Copy> ListMap<T> {
    /// A copy of the list under `k` (empty when there is none).
    pub fn get_list(&self, k: u64) -> (r: Vec<T>)
        ensures
            r@ == self.list(k),
    {
        match self.inner.get(k) {
            Some(v) => crate::seqs::copy_vec(v),
            None => Vec::new(),
        }
    }
}

} // verus!

verus! {

impl<V: Copy> AssocMap<V> {
    /// A copy of the map.
    pub fn duplicate(&self) -> (r: Self)
        ensures
            r@ == self@,
    {
        proof {
            use_type_invariant(self);
        }
        AssocMap { entries: crate::seqs::copy_vec(&self.entries) }
    }
}

impl<V> AssocMap<V> {
    /// The keys, in the order in which they were first inserted.
    pub fn keys(&self) -> (r: Vec<u64>)
        ensures
            r@ == self.key_order(),
            forall|k: u64| self@.contains_key(k) <==> r@.contains(k),
    {
        let mut r: Vec<u64> = Vec::new();
        let mut i: usize = 0;
        while i < self.entries.len()
            invariant
                i <= self.entries@.len(),
                r@ == self.entries@.subrange(0, i as int).map_values(|e: (u64, V)| e.0),
            decreases self.entries@.len() - i,
        {
            r.push(self.entries[i].0);
            i = i + 1;
            assert(r@ =~= self.entries@.subrange(0, i as int).map_values(|e: (u64, V)| e.0));
        }
        assert(self.entries@.subrange(0, self.entries@.len() as int) =~= self.entries@);
        assert forall|k: u64| self@.contains_key(k) <==> r@.contains(k) by {
            if self@.contains_key(k) {
                let j = choose|j: int| 0 <= j < self.entries@.len() && #[trigger] self.entries@[j].0 == k;
                assert(r@[j] == k);
            }
            if r@.contains(k) {
                let j = choose|j: int| 0 <= j < r@.len() && r@[j] == k;
                assert(self.entries@[j].0 == k);
                assert(seq_has_key(self.entries@, k));
            }
        }
        r
    }
}

impl<V: Copy> PairMap<V> {
    /// A copy of the map.
    pub fn duplicate(&self) -> (r: Self)
        ensures
            r@ == self@,
    {
        proof {
            use_type_invariant(&self.outer);
        }
        let mut entries: Vec<(u64, AssocMap<V>)> = Vec::new();
        let mut i: usize = 0;
        while i < self.outer.entries.len()
            invariant
                i <= self.outer.entries@.len(),
                keys_unique(self.outer.entries@),
                entries@.len() == i,
                forall|j: int| 0 <= j < i ==> (#[trigger] entries@[j]).0 == self.outer.entries@[j].0
                    && entries@[j].1@ == self.outer.entries@[j].1@,
            decreases self.outer.entries@.len() - i,
        {
            let k = self.outer.entries[i].0;
            let inner = self.outer.entries[i].1.duplicate();
            entries.push((k, inner));
            i = i + 1;
        }
        proof {
            assert forall|a: int, b: int| 0 <= a < entries@.len() && 0 <= b < entries@.len() && a != b implies #[trigger] entries@[a].0 != #[trigger] entries@[b].0 by {
                assert(self.outer.entries@[a].0 != self.outer.entries@[b].0);
            }
        }
        let r = PairMap { outer: AssocMap { entries } };
        proof {
            let s = self.outer.entries@;
            let t = r.outer.entries@;
            assert forall|k: (u64, u64)| #[trigger] r@.contains_key(k) == self@.contains_key(k) by {
                if seq_has_key(s, k.0) {
                    let j = choose|j: int| 0 <= j < s.len() && #[trigger] s[j].0 == k.0;
                    lemma_entry_in_map(s, j);
                    lemma_entry_in_map(t, j);
                    assert(t[j].0 == k.0);
                }
                if seq_has_key(t, k.0) {
                    let j = choose|j: int| 0 <= j < t.len() && #[trigger] t[j].0 == k.0;
                    lemma_entry_in_map(s, j);
                    lemma_entry_in_map(t, j);
                }
            }
            assert forall|k: (u64, u64)| r@.contains_key(k) implies #[trigger] r@[k] == self@[k] by {
                let j = choose|j: int| 0 <= j < t.len() && #[trigger] t[j].0 == k.0;
                lemma_entry_in_map(s, j);
                lemma_entry_in_map(t, j);
            }
            assert(r@ =~= self@);
        }
        r
    }
}

} // verus!
