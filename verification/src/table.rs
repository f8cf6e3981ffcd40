use vstd::prelude::*;

verus! {

/// Whether no two entries share a key.
pub open spec fn keys_distinct<T>(s: Seq<(String, T)>) -> bool {
    forall|i: int, j: int|
        0 <= i < s.len() && 0 <= j < s.len() && i != j ==> #[trigger] s[i].0@ != #[trigger] s[j].0@
}

/// Whether some entry has the key `k`.
pub open spec fn has_key<T>(s: Seq<(String, T)>, k: Seq<char>) -> bool {
    exists|i: int| 0 <= i < s.len() && #[trigger] s[i].0@ == k
}

/// The position of the entry with key `k`.
pub open spec fn index_of<T>(s: Seq<(String, T)>, k: Seq<char>) -> int {
    choose|i: int| 0 <= i < s.len() && #[trigger] s[i].0@ == k
}

/// The map that a list of entries with distinct keys stands for.
pub open spec fn entries_map<T>(s: Seq<(String, T)>) -> Map<Seq<char>, T> {
    Map::new(|k: Seq<char>| has_key(s, k), |k: Seq<char>| s[index_of(s, k)].1)
}

proof fn lemma_entry<T>(s: Seq<(String, T)>, i: int)
    requires
        keys_distinct(s),
        0 <= i < s.len(),
    ensures
        entries_map(s).contains_key(s[i].0@),
        entries_map(s)[s[i].0@] == s[i].1,
        index_of(s, s[i].0@) == i,
{
    assert(has_key(s, s[i].0@));
    let j = index_of(s, s[i].0@);
    assert(s[j].0@ == s[i].0@);
}

#[verifier::spinoff_prover]
proof fn lemma_push<T>(s: Seq<(String, T)>, k: String, v: T)
    requires
        keys_distinct(s),
        !has_key(s, k@),
    ensures
        keys_distinct(s.push((k, v))),
        entries_map(s.push((k, v))) == entries_map(s).insert(k@, v),
{
    let t = s.push((k, v));
    assert forall|i: int, j: int|
        0 <= i < t.len() && 0 <= j < t.len() && i != j implies #[trigger] t[i].0@ != #[trigger] t[j].0@ by {
        if i < s.len() && j < s.len() {
            assert(t[i] == s[i] && t[j] == s[j]);
        } else if i < s.len() {
            assert(t[i] == s[i]);
            assert(t[j].0 == k);
            if s[i].0@ == k@ {
                assert(has_key(s, k@));
            }
        } else {
            assert(t[j] == s[j]);
            assert(t[i].0 == k);
            if s[j].0@ == k@ {
                assert(has_key(s, k@));
            }
        }
    }
    let m = entries_map(s).insert(k@, v);
    assert forall|key: Seq<char>| #[trigger] entries_map(t).contains_key(key) <==> m.contains_key(key) by {
        if has_key(t, key) {
            let i = choose|i: int| 0 <= i < t.len() && #[trigger] t[i].0@ == key;
            if i < s.len() {
                assert(s[i] == t[i]);
                assert(s[i].0@ == key);
                assert(has_key(s, key));
            } else {
                assert(t[i].0 == k);
            }
        }
        if has_key(s, key) {
            let i = choose|i: int| 0 <= i < s.len() && #[trigger] s[i].0@ == key;
            assert(t[i] == s[i]);
            assert(t[i].0@ == key);
            assert(has_key(t, key));
        }
        if key == k@ {
            assert(t[s.len() as int].0@ == key);
            assert(has_key(t, key));
        }
    }
    assert forall|key: Seq<char>| #[trigger] entries_map(t).contains_key(key) implies entries_map(t)[key]
        == m[key] by {
        if key == k@ {
            lemma_entry(t, s.len() as int);
        } else {
            let i = choose|i: int| 0 <= i < t.len() && #[trigger] t[i].0@ == key;
            if i == s.len() {
                assert(t[i].0 == k);
            }
            assert(i < s.len());
            assert(t[i] == s[i]);
            lemma_entry(t, i);
            lemma_entry(s, i);
        }
    }
    assert(entries_map(t) =~= m);
}

#[verifier::spinoff_prover]
proof fn lemma_remove<T>(s: Seq<(String, T)>, i: int)
    requires
        keys_distinct(s),
        0 <= i < s.len(),
    ensures
        keys_distinct(s.remove(i)),
        entries_map(s.remove(i)) == entries_map(s).remove(s[i].0@),
{
    let t = s.remove(i);
    assert forall|a: int, b: int|
        0 <= a < t.len() && 0 <= b < t.len() && a != b implies #[trigger] t[a].0@ != #[trigger] t[b].0@ by {
        let a0 = if a < i { a } else { a + 1 };
        let b0 = if b < i { b } else { b + 1 };
        assert(t[a] == s[a0] && t[b] == s[b0]);
    }
    let m = entries_map(s).remove(s[i].0@);
    assert forall|key: Seq<char>| #[trigger] entries_map(t).contains_key(key) <==> m.contains_key(key) by {
        if has_key(t, key) {
            let a = choose|a: int| 0 <= a < t.len() && #[trigger] t[a].0@ == key;
            let a0 = if a < i { a } else { a + 1 };
            assert(t[a] == s[a0]);
            assert(has_key(s, key));
            assert(key != s[i].0@);
        }
        if has_key(s, key) && key != s[i].0@ {
            let a0 = choose|a: int| 0 <= a < s.len() && #[trigger] s[a].0@ == key;
            assert(a0 != i);
            let a = if a0 < i { a0 } else { a0 - 1 };
            assert(t[a] == s[a0]);
            assert(has_key(t, key));
        }
    }
    assert forall|key: Seq<char>| #[trigger] entries_map(t).contains_key(key) implies entries_map(t)[key]
        == m[key] by {
        let a = choose|a: int| 0 <= a < t.len() && #[trigger] t[a].0@ == key;
        let a0 = if a < i { a } else { a + 1 };
        assert(t[a] == s[a0]);
        lemma_entry(t, a);
        lemma_entry(s, a0);
    }
    assert(entries_map(t) =~= m);
}

proof fn lemma_empty<T>(s: Seq<(String, T)>)
    requires
        s.len() == 0,
    ensures
        keys_distinct(s),
        entries_map(s) == Map::<Seq<char>, T>::empty(),
{
    assert(entries_map(s) =~= Map::<Seq<char>, T>::empty());
}

#[verifier::spinoff_prover]
proof fn lemma_update<T>(s: Seq<(String, T)>, i: int)
    requires
        keys_distinct(s),
        0 <= i < s.len(),
    ensures
        forall|v: T|
            #![trigger s.update(i, (s[i].0, v))]
            keys_distinct(s.update(i, (s[i].0, v))) && entries_map(s.update(i, (s[i].0, v)))
                == entries_map(s).insert(s[i].0@, v),
{
    assert forall|v: T|
        #![trigger s.update(i, (s[i].0, v))]
        keys_distinct(s.update(i, (s[i].0, v))) && entries_map(s.update(i, (s[i].0, v)))
            == entries_map(s).insert(s[i].0@, v) by {
        let t = s.update(i, (s[i].0, v));
        assert forall|a: int, b: int|
            0 <= a < t.len() && 0 <= b < t.len() && a != b implies #[trigger] t[a].0@
            != #[trigger] t[b].0@ by {
            assert(t[a].0 == s[a].0 && t[b].0 == s[b].0);
        }
        let m = entries_map(s).insert(s[i].0@, v);
        assert forall|key: Seq<char>| #[trigger] entries_map(t).contains_key(key) <==> m.contains_key(key) by {
            if has_key(t, key) {
                let a = choose|a: int| 0 <= a < t.len() && #[trigger] t[a].0@ == key;
                assert(t[a].0 == s[a].0);
                assert(s[a].0@ == key);
            }
            if has_key(s, key) {
                let a = choose|a: int| 0 <= a < s.len() && #[trigger] s[a].0@ == key;
                assert(t[a].0 == s[a].0);
                assert(t[a].0@ == key);
            }
            if key == s[i].0@ {
                assert(t[i].0@ == key);
            }
        }
        assert forall|key: Seq<char>| #[trigger] entries_map(t).contains_key(key) implies entries_map(t)[key]
            == m[key] by {
            let a = choose|a: int| 0 <= a < t.len() && #[trigger] t[a].0@ == key;
            assert(t[a].0 == s[a].0);
            lemma_entry(t, a);
            if a != i {
                lemma_entry(s, a);
            }
        }
        assert(entries_map(t) =~= m);
    }
}

#[verifier::spinoff_prover]
proof fn lemma_dom_len<T>(s: Seq<(String, T)>)
    requires
        keys_distinct(s),
    ensures
        entries_map(s).dom().finite(),
        entries_map(s).dom().len() == s.len(),
    decreases s.len(),
{
    if s.len() == 0 {
        lemma_empty(s);
    } else {
        let t = s.drop_last();
        let e = s.last();
        assert forall|i: int, j: int|
            0 <= i < t.len() && 0 <= j < t.len() && i != j implies #[trigger] t[i].0@
            != #[trigger] t[j].0@ by {
            assert(t[i] == s[i] && t[j] == s[j]);
        }
        if has_key(t, e.0@) {
            let i = choose|i: int| 0 <= i < t.len() && #[trigger] t[i].0@ == e.0@;
            assert(t[i] == s[i]);
            assert(s[s.len() - 1] == e);
        }
        lemma_push(t, e.0, e.1);
        assert(t.push((e.0, e.1)) =~= s);
        lemma_dom_len(t);
    }
}

/// How many keys of `m` map to `v`.
pub open spec fn value_count<T>(m: Map<Seq<char>, T>, v: T) -> nat {
    m.dom().filter(|k: Seq<char>| m[k] == v).len()
}

/// The values of a list of entries, in order.
pub open spec fn entry_values<T>(s: Seq<(String, T)>) -> Seq<T> {
    s.map_values(|e: (String, T)| e.1)
}

#[verifier::spinoff_prover]
proof fn lemma_value_counts<T>(s: Seq<(String, T)>)
    requires
        keys_distinct(s),
    ensures
        forall|v: T| #[trigger] entry_values(s).to_multiset().count(v) == value_count(entries_map(s), v),
    decreases s.len(),
{
    broadcast use vstd::seq_lib::group_seq_properties;
    broadcast use vstd::multiset::group_multiset_axioms;

    if s.len() == 0 {
        lemma_empty(s);
        assert(entry_values(s) =~= Seq::<T>::empty());
        assert forall|v: T| #[trigger] entry_values(s).to_multiset().count(v) == value_count(entries_map(s), v) by {
            let m = entries_map(s);
            assert(m.dom().filter(|k: Seq<char>| m[k] == v) =~= Set::<Seq<char>>::empty());
        }
    } else {
        let t = s.drop_last();
        let e = s.last();
        assert forall|i: int, j: int|
            0 <= i < t.len() && 0 <= j < t.len() && i != j implies #[trigger] t[i].0@
            != #[trigger] t[j].0@ by {
            assert(t[i] == s[i] && t[j] == s[j]);
        }
        if has_key(t, e.0@) {
            let i = choose|i: int| 0 <= i < t.len() && #[trigger] t[i].0@ == e.0@;
            assert(t[i] == s[i]);
            assert(s[s.len() - 1] == e);
        }
        lemma_push(t, e.0, e.1);
        assert(t.push((e.0, e.1)) =~= s);
        lemma_value_counts(t);
        lemma_dom_len(t);
        assert(entry_values(s) =~= entry_values(t).push(e.1));
        let mt = entries_map(t);
        let ms = entries_map(s);
        assert forall|v: T| #[trigger] entry_values(s).to_multiset().count(v) == value_count(ms, v) by {
            let ft = mt.dom().filter(|k: Seq<char>| mt[k] == v);
            let fs = ms.dom().filter(|k: Seq<char>| ms[k] == v);
            mt.dom().lemma_len_filter(|k: Seq<char>| mt[k] == v);
            assert(!mt.dom().contains(e.0@));
            if e.1 == v {
                assert(fs =~= ft.insert(e.0@));
            } else {
                assert(fs =~= ft);
            }
        }
    }
}

/// A map from address text to `T`, kept as a list of entries with distinct
/// keys.
pub struct Table<T> {
    entries: Vec<(String, T)>,
}

impl<T> View for Table<T> {
    type V = Map<Seq<char>, T>;

    closed spec fn view(&self) -> Map<Seq<char>, T> {
        entries_map(self.entries@)
    }
}

impl<T> Table<T> {
    /// The table's own invariant: no key occurs twice.
    pub closed spec fn wf(&self) -> bool {
        keys_distinct(self.entries@)
    }

    /// An empty table.
    pub fn new() -> (t: Self)
        ensures
            t.wf(),
            t@ == Map::<Seq<char>, T>::empty(),
    {
        let t = Table { entries: Vec::new() };
        proof {
            lemma_empty(t.entries@);
        }
        t
    }

    fn find(&self, k: &String) -> (r: Option<usize>)
        requires
            self.wf(),
        ensures
            r matches Some(i) ==> i < self.entries@.len() && self.entries@[i as int].0@ == k@,
            r is None ==> !has_key(self.entries@, k@),
    {
        let mut i: usize = 0;
        while i < self.entries.len()
            invariant
                i <= self.entries@.len(),
                forall|j: int| 0 <= j < i ==> #[trigger] self.entries@[j].0@ != k@,
            decreases self.entries@.len() - i,
        {
            if self.entries[i].0 == *k {
                return Some(i);
            }
            i += 1;
        }
        None
    }

    /// Whether `k` has an entry.
    pub fn contains_key(&self, k: &String) -> (b: bool)
        requires
            self.wf(),
        ensures
            b == self@.contains_key(k@),
    {
        match self.find(k) {
            Some(i) => {
                proof {
                    lemma_entry(self.entries@, i as int);
                }
                true
            },
            None => false,
        }
    }

    /// The value stored under `k`, if any.
    pub fn get(&self, k: &String) -> (r: Option<&T>)
        requires
            self.wf(),
        ensures
            r is Some == self@.contains_key(k@),
            r matches Some(v) ==> *v == self@[k@],
    {
        match self.find(k) {
            Some(i) => {
                proof {
                    lemma_entry(self.entries@, i as int);
                }
                Some(&self.entries[i].1)
            },
            None => None,
        }
    }

    /// Mutable access to the value stored under `k`, if any.
    pub fn get_mut(&mut self, k: &String) -> (r: Option<&mut T>)
        requires
            old(self).wf(),
        ensures
            final(self).wf(),
            r is Some == old(self)@.contains_key(k@),
            r matches Some(v) ==> *v == old(self)@[k@] && final(self)@ == old(self)@.insert(
                k@,
                *final(v),
            ),
            r is None ==> final(self)@ == old(self)@,
    {
        match self.find(k) {
            Some(i) => {
                proof {
                    lemma_entry(self.entries@, i as int);
                    lemma_update(self.entries@, i as int);
                }
                Some(&mut self.entries[i].1)
            },
            None => None,
        }
    }

    /// Stores `v` under `k`, giving back the value it replaces.
    pub fn insert(&mut self, k: String, v: T) -> (old_value: Option<T>)
        requires
            old(self).wf(),
        ensures
            final(self).wf(),
            final(self)@ == old(self)@.insert(k@, v),
            old_value is Some == old(self)@.contains_key(k@),
            old_value matches Some(o) ==> o == old(self)@[k@],
    {
        let found = self.find(&k);
        let old_value = match found {
            Some(i) => {
                proof {
                    lemma_entry(self.entries@, i as int);
                    lemma_remove(self.entries@, i as int);
                }
                let (_, o) = self.entries.remove(i);
                Some(o)
            },
            None => None,
        };
        proof {
            let s = self.entries@;
            if has_key(s, k@) {
                let j = choose|j: int| 0 <= j < s.len() && #[trigger] s[j].0@ == k@;
                lemma_entry(s, j);
            }
            lemma_push(s, k, v);
        }
        self.entries.push((k, v));
        proof {
            assert(self@ =~= old(self)@.insert(k@, v));
        }
        old_value
    }

    /// Removes the entry of `k`, giving back its value.
    pub fn remove(&mut self, k: &String) -> (removed: Option<T>)
        requires
            old(self).wf(),
        ensures
            final(self).wf(),
            final(self)@ == old(self)@.remove(k@),
            removed is Some == old(self)@.contains_key(k@),
            removed matches Some(o) ==> o == old(self)@[k@],
    {
        match self.find(k) {
            Some(i) => {
                proof {
                    lemma_entry(self.entries@, i as int);
                    lemma_remove(self.entries@, i as int);
                }
                let (_, o) = self.entries.remove(i);
                Some(o)
            },
            None => {
                proof {
                    assert(old(self)@.remove(k@) =~= old(self)@);
                }
                None
            },
        }
    }

    /// Empties the table, giving back the values it held.
    pub fn drain_values(&mut self) -> (values: Vec<T>)
        requires
            old(self).wf(),
        ensures
            final(self).wf(),
            final(self)@ == Map::<Seq<char>, T>::empty(),
            values@.len() == old(self)@.dom().len(),
            forall|v: T| #[trigger] values@.to_multiset().count(v) == value_count(old(self)@, v),
            forall|v: T|
                values@.contains(v) <==> exists|k: Seq<char>|
                    #[trigger] old(self)@.contains_key(k) && old(self)@[k] == v,
    {
        let ghost orig = self.entries@;
        let mut values: Vec<T> = Vec::new();
        while self.entries.len() > 0
            invariant
                keys_distinct(orig),
                self.entries@ == orig.subrange(0, self.entries@.len() as int),
                values@.len() == orig.len() - self.entries@.len(),
                forall|j: int|
                    0 <= j < values@.len() ==> #[trigger] values@[j] == orig[orig.len() - 1 - j].1,
            decreases self.entries@.len(),
        {
            let (_, v) = self.entries.pop().unwrap();
            values.push(v);
        }
        proof {
            lemma_empty(self.entries@);
            lemma_dom_len(orig);
            lemma_value_counts(orig);
            assert(values@ =~= entry_values(orig).reverse());
            entry_values(orig).lemma_reverse_to_multiset();
            assert forall|v: T|
                values@.contains(v) <==> exists|k: Seq<char>|
                    #[trigger] old(self)@.contains_key(k) && old(self)@[k] == v by {
                if values@.contains(v) {
                    let j = choose|j: int| 0 <= j < values@.len() && values@[j] == v;
                    let i = orig.len() - 1 - j;
                    lemma_entry(orig, i);
                    assert(old(self)@.contains_key(orig[i].0@) && old(self)@[orig[i].0@] == v);
                }
                if exists|k: Seq<char>| #[trigger] old(self)@.contains_key(k) && old(self)@[k] == v {
                    let k = choose|k: Seq<char>| #[trigger] old(self)@.contains_key(k) && old(self)@[k] == v;
                    let i = index_of(orig, k);
                    assert(has_key(orig, k));
                    lemma_entry(orig, i);
                    let j = orig.len() - 1 - i;
                    assert(values@[j] == v);
                }
            }
        }
        values
    }
}

} // verus!
