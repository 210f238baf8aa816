use vstd::prelude::*;

verus! {

/// A key of an [`OrderedMap`]: a copyable value with an injective rank that orders it.
pub trait MapKey: Copy + Sized {
    /// The rank by which keys are ordered.
    spec fn rank(&self) -> u64;

    /// Computes the rank of the key.
    fn key_rank(&self) -> (r: u64)
        ensures
            r == self.rank(),
    ;

    /// Two keys with the same rank are the same key.
    proof fn lemma_rank_injective(a: Self, b: Self)
        requires
            a.rank() == b.rank(),
        ensures
            a == b,
    ;
}

/// A value of an [`OrderedMap`] that can be compared for equality.
pub trait MapValue: Copy + Sized {
    fn same_value(&self, other: &Self) -> (r: bool)
        ensures
            r == (*self == *other),
    ;
}

/// Entries ordered by strictly increasing key rank.
pub open spec fn entries_sorted<K: MapKey, V>(s: Seq<(K, V)>) -> bool {
    forall|i: int, j: int| 0 <= i < j < s.len() ==> (#[trigger] s[i]).0.rank() < (#[trigger] s[j]).0.rank()
}

/// Whether some entry holds the key `k`.
pub open spec fn has_key<K, V>(s: Seq<(K, V)>, k: K) -> bool {
    exists|i: int| 0 <= i < s.len() && (#[trigger] s[i]).0 == k
}

/// The position of the entry that holds the key `k` (meaningful when `has_key(s, k)`).
pub open spec fn key_index<K, V>(s: Seq<(K, V)>, k: K) -> int {
    choose|i: int| 0 <= i < s.len() && (#[trigger] s[i]).0 == k
}

/// The value stored under `k`, if any.
pub open spec fn lookup<K, V>(s: Seq<(K, V)>, k: K) -> Option<V> {
    if has_key(s, k) {
        Some(s[key_index(s, k)].1)
    } else {
        None
    }
}

/// Whether `p` separates the entries ranked below `k` from those ranked above it.
pub open spec fn is_insert_point<K: MapKey, V>(s: Seq<(K, V)>, k: K, p: int) -> bool {
    &&& 0 <= p <= s.len()
    &&& forall|i: int| 0 <= i < p ==> (#[trigger] s[i]).0.rank() < k.rank()
    &&& forall|i: int| p <= i < s.len() ==> (#[trigger] s[i]).0.rank() > k.rank()
}

/// The position at which an absent key `k` belongs in sorted entries.
pub open spec fn insert_index<K: MapKey, V>(s: Seq<(K, V)>, k: K) -> int {
    choose|p: int| is_insert_point(s, k, p)
}

/// The entries after storing `v` under `k`: an existing entry is replaced in place,
/// a new one is inserted at its ordered position.
pub open spec fn put<K: MapKey, V>(s: Seq<(K, V)>, k: K, v: V) -> Seq<(K, V)> {
    if has_key(s, k) {
        s.update(key_index(s, k), (k, v))
    } else {
        s.insert(insert_index(s, k), (k, v))
    }
}

/// The keys of the entries, in order.
pub open spec fn entry_keys<K, V>(s: Seq<(K, V)>) -> Seq<K> {
    s.map_values(|e: (K, V)| e.0)
}

/// In sorted entries, the entry found at index `i` for key `k` is the one `key_index` names.
pub proof fn lemma_key_index_unique<K: MapKey, V>(s: Seq<(K, V)>, k: K, i: int)
    requires
        entries_sorted(s),
        0 <= i < s.len(),
        s[i].0 == k,
    ensures
        has_key(s, k),
        key_index(s, k) == i,
        lookup(s, k) == Some(s[i].1),
{
    assert(has_key(s, k));
    let j = key_index(s, k);
    if j < i {
        assert(s[j].0.rank() < s[i].0.rank());
    } else if j > i {
        assert(s[i].0.rank() < s[j].0.rank());
    }
}

/// A single entry finds its own key and no other, and storing under its key replaces it.
pub proof fn lemma_single_entry<K: MapKey, V>(k: K, v: V)
    ensures
        entries_sorted(seq![(k, v)]),
        lookup(seq![(k, v)], k) == Some(v),
        forall|j: K| j != k ==> lookup(seq![(k, v)], j) is None,
        forall|w: V| #[trigger] put(seq![(k, v)], k, w) == seq![(k, w)],
{
    let s = seq![(k, v)];
    lemma_key_index_unique(s, k, 0);
    assert forall|w: V| #[trigger] put(s, k, w) == seq![(k, w)] by {
        assert(s.update(0, (k, w)) =~= seq![(k, w)]);
    }
    assert forall|j: K| j != k implies lookup(s, j) is None by {
        if has_key(s, j) {
            let i = choose|i: int| 0 <= i < s.len() && (#[trigger] s[i]).0 == j;
            assert(i == 0);
        }
    }
}

proof fn lemma_insert_point_from<K: MapKey, V>(s: Seq<(K, V)>, k: K, i: int)
    requires
        entries_sorted(s),
        !has_key(s, k),
        0 <= i <= s.len(),
        forall|j: int| 0 <= j < i ==> (#[trigger] s[j]).0.rank() < k.rank(),
    ensures
        exists|p: int| is_insert_point(s, k, p),
    decreases s.len() - i,
{
    if i == s.len() {
        assert(is_insert_point(s, k, i));
    } else if s[i].0.rank() < k.rank() {
        lemma_insert_point_from(s, k, i + 1);
    } else {
        if s[i].0.rank() == k.rank() {
            K::lemma_rank_injective(s[i].0, k);
            assert(s[i].0 == k);
        }
        assert forall|j: int| i <= j < s.len() implies (#[trigger] s[j]).0.rank() > k.rank() by {
            if j > i {
                assert(s[i].0.rank() < s[j].0.rank());
            }
        }
        assert(is_insert_point(s, k, i));
    }
}

/// Storing under a key keeps sorted entries sorted; an absent key is inserted at a proper
/// position.
pub proof fn lemma_put_sorted<K: MapKey, V>(s: Seq<(K, V)>, k: K, v: V)
    requires
        entries_sorted(s),
    ensures
        entries_sorted(put(s, k, v)),
        !has_key(s, k) ==> is_insert_point(s, k, insert_index(s, k)),
{
    if has_key(s, k) {
        let i = key_index(s, k);
        let r = put(s, k, v);
        assert forall|a: int, b: int| 0 <= a < b < r.len() implies
            (#[trigger] r[a]).0.rank() < (#[trigger] r[b]).0.rank() by {
            assert(s[a].0.rank() < s[b].0.rank());
        }
    } else {
        lemma_insert_point_from(s, k, 0);
        let p = insert_index(s, k);
        let r = put(s, k, v);
        assert forall|a: int, b: int| 0 <= a < b < r.len() implies
            (#[trigger] r[a]).0.rank() < (#[trigger] r[b]).0.rank() by {
            if b < p {
                assert(s[a].0.rank() < s[b].0.rank());
            } else if b == p {
            } else if a < p {
                assert(s[a].0.rank() < s[b - 1].0.rank());
            } else if a == p {
            } else {
                assert(s[a - 1].0.rank() < s[b - 1].0.rank());
            }
        }
    }
}

/// Reading after a write: after storing `v` under `k` in sorted entries, `k` finds `v` and
/// every other key finds what it found before.
pub proof fn lemma_lookup_after_put<K: MapKey, V>(s: Seq<(K, V)>, k: K, v: V, j: K)
    requires
        entries_sorted(s),
    ensures
        lookup(put(s, k, v), k) == Some(v),
        j != k ==> lookup(put(s, k, v), j) == lookup(s, j),
{
    lemma_put_sorted(s, k, v);
    let r = put(s, k, v);
    if has_key(s, k) {
        let idx = key_index(s, k);
        lemma_key_index_unique(r, k, idx);
        if j != k {
            if has_key(s, j) {
                let i = key_index(s, j);
                lemma_key_index_unique(s, j, i);
                assert(r[i] == s[i]);
                lemma_key_index_unique(r, j, i);
            } else {
                if has_key(r, j) {
                    let x = choose|x: int| 0 <= x < r.len() && (#[trigger] r[x]).0 == j;
                    assert(r[x] == s[x]);
                }
            }
        }
    } else {
        let p = insert_index(s, k);
        assert(r[p] == (k, v));
        lemma_key_index_unique(r, k, p);
        if j != k {
            if has_key(s, j) {
                let i = key_index(s, j);
                lemma_key_index_unique(s, j, i);
                if i < p {
                    assert(r[i] == s[i]);
                    lemma_key_index_unique(r, j, i);
                } else {
                    assert(r[i + 1] == s[i]);
                    lemma_key_index_unique(r, j, i + 1);
                }
            } else {
                if has_key(r, j) {
                    let x = choose|x: int| 0 <= x < r.len() && (#[trigger] r[x]).0 == j;
                    if x < p {
                        assert(r[x] == s[x]);
                    } else if x > p {
                        assert(r[x] == s[x - 1]);
                    }
                }
            }
        }
    }
}

/// Replacing the value under a key that is present keeps the entries sorted, keeps the set of
/// keys, and leaves the value of every other key as it was.
pub proof fn lemma_replace_frame<K: MapKey, V>(s: Seq<(K, V)>, k: K, v: V)
    requires
        entries_sorted(s),
        lookup(s, k) is Some,
    ensures
        entries_sorted(put(s, k, v)),
        lookup(put(s, k, v), k) == Some(v),
        forall|j: K| (#[trigger] lookup(put(s, k, v), j) is Some) == (lookup(s, j) is Some),
        forall|j: K| j != k ==> #[trigger] lookup(put(s, k, v), j) == lookup(s, j),
{
    lemma_put_sorted(s, k, v);
    assert forall|j: K| (#[trigger] lookup(put(s, k, v), j) is Some) == (lookup(s, j) is Some) by {
        lemma_lookup_after_put(s, k, v, j);
    }
    assert forall|j: K| j != k implies #[trigger] lookup(put(s, k, v), j) == lookup(s, j) by {
        lemma_lookup_after_put(s, k, v, j);
    }
    lemma_lookup_after_put(s, k, v, k);
}

/// The sum of `f` over the values of the entries.
pub open spec fn sum_values<K, V>(s: Seq<(K, V)>, f: spec_fn(V) -> nat) -> nat
    decreases s.len(),
{
    if s.len() == 0 {
        0
    } else {
        f(s[0].1) + sum_values(s.drop_first(), f)
    }
}

proof fn lemma_sum_update<K, V>(s: Seq<(K, V)>, i: int, e: (K, V), f: spec_fn(V) -> nat)
    requires
        0 <= i < s.len(),
    ensures
        sum_values(s.update(i, e), f) + f(s[i].1) == sum_values(s, f) + f(e.1),
    decreases s.len(),
{
    let u = s.update(i, e);
    if i == 0 {
        assert(u.drop_first() =~= s.drop_first());
    } else {
        assert(u.drop_first() =~= s.drop_first().update(i - 1, e));
        lemma_sum_update(s.drop_first(), i - 1, e, f);
    }
}

/// Replacing the value under a present key changes a sum over the values by the difference
/// between the new value's term and the old one's.
pub proof fn lemma_replace_sum<K: MapKey, V>(s: Seq<(K, V)>, k: K, v: V, f: spec_fn(V) -> nat)
    requires
        lookup(s, k) is Some,
    ensures
        sum_values(put(s, k, v), f) + f(lookup(s, k)->Some_0) == sum_values(s, f) + f(v),
{
    lemma_sum_update(s, key_index(s, k), (k, v), f);
}

/// A finite map stored as entries sorted by key rank, so that equal maps have equal entries.
#[derive(Debug, PartialEq, Eq)]
pub struct OrderedMap<K: MapKey, V: Copy> {
    entries: Vec<(K, V)>,
}

impl<K: MapKey, V: Copy> View for OrderedMap<K, V> {
    type V = Seq<(K, V)>;

    closed spec fn view(&self) -> Seq<(K, V)> {
        self.entries@
    }
}

impl<K: MapKey, V: Copy> OrderedMap<K, V> {
    #[verifier::type_invariant]
    closed spec fn sorted(self) -> bool {
        entries_sorted(self.entries@)
    }

    /// The entries of every map are sorted by key rank.
    pub fn witness_sorted(&self)
        ensures
            entries_sorted(self@),
    {
        proof {
            use_type_invariant(self);
        }
    }

    /// An empty map.
    pub fn new() -> (r: Self)
        ensures
            r@ == Seq::<(K, V)>::empty(),
    {
        OrderedMap { entries: Vec::new() }
    }

    /// The number of entries.
    pub fn len(&self) -> (r: usize)
        ensures
            r == self@.len(),
    {
        self.entries.len()
    }

    /// Whether the map has no entry.
    pub fn is_empty(&self) -> (r: bool)
        ensures
            r == (self@.len() == 0),
    {
        self.entries.len() == 0
    }

    /// The entry at position `i`.
    pub fn entry_at(&self, i: usize) -> (r: (K, V))
        requires
            i < self@.len(),
        ensures
            r == self@[i as int],
    {
        self.entries[i]
    }

    /// Finds the position of `k`, if present.
    fn find(&self, k: &K) -> (r: Option<usize>)
        ensures
            match r {
                Some(i) => i < self@.len() && self@[i as int].0 == *k && key_index(self@, *k)
                    == i && has_key(self@, *k),
                None => !has_key(self@, *k),
            },
    {
        proof {
            use_type_invariant(self);
        }
        let kr = k.key_rank();
        let n = self.entries.len();
        let mut i: usize = 0;
        while i < n
            invariant
                n == self.entries@.len(),
                0 <= i <= n,
                entries_sorted(self.entries@),
                kr == k.rank(),
                forall|j: int| 0 <= j < i ==> (#[trigger] self.entries@[j]).0.rank() != kr,
            decreases n - i,
        {
            let er = self.entries[i].0.key_rank();
            if er == kr {
                proof {
                    K::lemma_rank_injective(self.entries@[i as int].0, *k);
                    lemma_key_index_unique(self.entries@, *k, i as int);
                }
                return Some(i);
            }
            i = i + 1;
        }
        proof {
            if has_key(self@, *k) {
                let j = choose|j: int| 0 <= j < self@.len() && (#[trigger] self@[j]).0 == *k;
                assert(self.entries@[j].0.rank() != kr);
            }
        }
        None
    }

    /// The value stored under `k`, if any.
    pub fn get(&self, k: &K) -> (r: Option<&V>)
        ensures
            match r {
                Some(v) => lookup(self@, *k) == Some(*v),
                None => lookup(self@, *k) is None,
            },
    {
        match self.find(k) {
            Some(i) => Some(&self.entries[i].1),
            None => None,
        }
    }

    /// Whether some entry holds `k`.
    pub fn contains_key(&self, k: &K) -> (r: bool)
        ensures
            r == has_key(self@, *k),
    {
        self.find(k).is_some()
    }

    /// Stores `v` under `k` and returns the value it replaced.
    pub fn insert(&mut self, k: K, v: V) -> (r: Option<V>)
        ensures
            final(self)@ == put(old(self)@, k, v),
            r == lookup(old(self)@, k),
    {
        proof {
            use_type_invariant(&*self);
        }
        let kr = k.key_rank();
        let n = self.entries.len();
        let mut i: usize = 0;
        while i < n && self.entries[i].0.key_rank() < kr
            invariant
                n == self.entries@.len(),
                0 <= i <= n,
                self.entries@ == old(self)@,
                entries_sorted(self.entries@),
                kr == k.rank(),
                forall|j: int| 0 <= j < i ==> (#[trigger] self.entries@[j]).0.rank() < kr,
            decreases n - i,
        {
            i = i + 1;
        }
        let ghost before = self.entries@;
        if i < n && self.entries[i].0.key_rank() == kr {
            let old_v = self.entries[i].1;
            proof {
                K::lemma_rank_injective(self.entries@[i as int].0, k);
                lemma_key_index_unique(self.entries@, k, i as int);
            }
            let mut entries = Vec::new();
            std::mem::swap(&mut entries, &mut self.entries);
            entries.set(i, (k, v));
            assert(entries_sorted(entries@)) by {
                assert forall|a: int, b: int| 0 <= a < b < entries@.len() implies
                    (#[trigger] entries@[a]).0.rank() < (#[trigger] entries@[b]).0.rank() by {
                    assert(before[a].0.rank() < before[b].0.rank());
                }
            }
            self.entries = entries;
            return Some(old_v);
        }
        proof {
            assert(forall|j: int| i <= j < before.len() ==> (#[trigger] before[j]).0.rank() > kr) by {
                assert forall|j: int| i <= j < before.len() implies (#[trigger] before[j]).0.rank() > kr by {
                    if j > i {
                        assert(before[i as int].0.rank() < before[j].0.rank());
                    }
                }
            }
            assert(!has_key(before, k)) by {
                if has_key(before, k) {
                    let j = choose|j: int| 0 <= j < before.len() && (#[trigger] before[j]).0 == k;
                    assert(before[j].0.rank() == kr);
                }
            }
            assert(is_insert_point(before, k, i as int));
            let p = insert_index(before, k);
            if p < i {
                assert(before[p].0.rank() < k.rank());
            } else if p > i {
                assert(before[i as int].0.rank() < k.rank());
            }
        }
        let mut entries = Vec::new();
        std::mem::swap(&mut entries, &mut self.entries);
        entries.insert(i, (k, v));
        assert(entries_sorted(entries@)) by {
            assert forall|a: int, b: int| 0 <= a < b < entries@.len() implies
                (#[trigger] entries@[a]).0.rank() < (#[trigger] entries@[b]).0.rank() by {
                if b < i {
                    assert(before[a].0.rank() < before[b].0.rank());
                } else if b == i {
                } else if a < i {
                    assert(before[a].0.rank() < before[b - 1].0.rank());
                } else if a == i {
                } else {
                    assert(before[a - 1].0.rank() < before[b - 1].0.rank());
                }
            }
        }
        self.entries = entries;
        None
    }

    /// The keys, in increasing rank.
    pub fn keys(&self) -> (r: Vec<K>)
        ensures
            r@ == entry_keys(self@),
    {
        let n = self.entries.len();
        let mut out: Vec<K> = Vec::new();
        let mut i: usize = 0;
        while i < n
            invariant
                n == self.entries@.len(),
                0 <= i <= n,
                out@ == entry_keys(self.entries@.subrange(0, i as int)),
            decreases n - i,
        {
            out.push(self.entries[i].0);
            assert(entry_keys(self.entries@.subrange(0, i + 1)) =~= entry_keys(
                self.entries@.subrange(0, i as int),
            ).push(self.entries@[i as int].0));
            i = i + 1;
        }
        assert(self.entries@.subrange(0, n as int) =~= self.entries@);
        out
    }

    /// A copy of the map.
    pub fn duplicate(&self) -> (r: Self)
        ensures
            r@ == self@,
    {
        proof {
            use_type_invariant(self);
        }
        let n = self.entries.len();
        let mut out: Vec<(K, V)> = Vec::new();
        let mut i: usize = 0;
        while i < n
            invariant
                n == self.entries@.len(),
                0 <= i <= n,
                out@ == self.entries@.subrange(0, i as int),
            decreases n - i,
        {
            out.push(self.entries[i]);
            assert(self.entries@.subrange(0, i + 1) =~= self.entries@.subrange(0, i as int).push(
                self.entries@[i as int],
            ));
            i = i + 1;
        }
        assert(self.entries@.subrange(0, n as int) =~= self.entries@);
        OrderedMap { entries: out }
    }
}

impl<K: MapKey, V: MapValue> OrderedMap<K, V> {
    /// Whether two maps hold the same entries.
    pub fn same_entries(&self, other: &Self) -> (r: bool)
        ensures
            r == (self@ == other@),
    {
        let n = self.entries.len();
        if n != other.entries.len() {
            return false;
        }
        let mut i: usize = 0;
        while i < n
            invariant
                n == self.entries@.len(),
                n == other.entries@.len(),
                0 <= i <= n,
                forall|j: int| 0 <= j < i ==> self.entries@[j] == other.entries@[j],
            decreases n - i,
        {
            let a = self.entries[i];
            let b = other.entries[i];
            let ka = a.0.key_rank();
            let kb = b.0.key_rank();
            if ka != kb {
                return false;
            }
            proof {
                K::lemma_rank_injective(a.0, b.0);
            }
            if !a.1.same_value(&b.1) {
                return false;
            }
            i = i + 1;
        }
        assert(self.entries@ =~= other.entries@);
        true
    }
}

} // verus!
