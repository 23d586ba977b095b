//! A map keyed by text, kept as a list of entries with distinct keys, so that it
//! can be walked in order as well as looked up.
use crate::text::str_eq;
use vstd::prelude::*;

verus! {

/// Entries as a map: later entries would win, but keys are distinct anyway.
pub open spec fn entries_map<V>(e: Seq<(String, V)>) -> Map<Seq<char>, V>
    decreases e.len(),
{
    if e.len() == 0 {
        Map::empty()
    } else {
        entries_map(e.drop_last()).insert(e.last().0@, e.last().1)
    }
}

/// No key occurs twice.
pub open spec fn distinct_keys<V>(e: Seq<(String, V)>) -> bool {
    forall|i: int, j: int| 0 <= i < j < e.len() ==> e[i].0@ != e[j].0@
}

/// Entries with distinct keys make a finite map with one key per entry, each
/// mapped to its entry's value.
pub proof fn lemma_entries_map<V>(e: Seq<(String, V)>)
    requires
        distinct_keys(e),
    ensures
        entries_map(e).dom().finite(),
        entries_map(e).len() == e.len(),
        forall|k: Seq<char>| #[trigger]
            entries_map(e).contains_key(k) <==> exists|i: int| 0 <= i < e.len() && e[i].0@ == k,
        forall|i: int| 0 <= i < e.len() ==> #[trigger] entries_map(e)[e[i].0@] == e[i].1,
    decreases e.len(),
{
    if e.len() > 0 {
        let d = e.drop_last();
        assert(distinct_keys(d));
        lemma_entries_map(d);
        let m = entries_map(d);
        assert(!m.contains_key(e.last().0@)) by {
            if m.contains_key(e.last().0@) {
                let i = choose|i: int| 0 <= i < d.len() && d[i].0@ == e.last().0@;
                assert(e[i].0@ != e[e.len() - 1].0@);
            }
        }
        assert forall|k: Seq<char>| #[trigger]
            entries_map(e).contains_key(k) <==> exists|i: int|
                0 <= i < e.len() && e[i].0@ == k by {
            if entries_map(e).contains_key(k) {
                if k != e.last().0@ {
                    let i = choose|i: int| 0 <= i < d.len() && d[i].0@ == k;
                    assert(e[i] == d[i]);
                } else {
                    assert(e[e.len() - 1].0@ == k);
                }
            }
            if exists|i: int| 0 <= i < e.len() && e[i].0@ == k {
                let i = choose|i: int| 0 <= i < e.len() && e[i].0@ == k;
                if i < e.len() - 1 {
                    assert(d[i] == e[i]);
                }
            }
        }
        assert forall|i: int| 0 <= i < e.len() implies #[trigger] entries_map(e)[e[i].0@]
            == e[i].1 by {
            if i < e.len() - 1 {
                assert(d[i] == e[i]);
                assert(e[i].0@ != e[e.len() - 1].0@);
            }
        }
    }
}

/// A text-keyed map that keeps its entries in insertion order.
#[derive(Debug)]
pub struct StrMap<V> {
    entries: Vec<(String, V)>,
}

impl<V> View for StrMap<V> {
    type V = Map<Seq<char>, V>;

    closed spec fn view(&self) -> Map<Seq<char>, V> {
        entries_map(self.entries@)
    }
}

impl<V> StrMap<V> {
    #[verifier::type_invariant]
    closed spec fn inv(self) -> bool {
        distinct_keys(self.entries@)
    }

    /// The keys, in order.
    pub closed spec fn key_seq(self) -> Seq<Seq<char>> {
        self.entries@.map_values(|e: (String, V)| e.0@)
    }

    /// The values, in the order of their keys.
    pub closed spec fn value_seq(self) -> Seq<V> {
        self.entries@.map_values(|e: (String, V)| e.1)
    }

    /// Keys and values line up with the map.
    pub fn lemma_seqs(&self)
        ensures
            self.key_seq().len() == self.value_seq().len(),
            self@.dom().finite(),
            self@.len() == self.key_seq().len(),
            forall|i: int, j: int|
                0 <= i < j < self.key_seq().len() ==> self.key_seq()[i] != self.key_seq()[j],
            forall|k: Seq<char>| #[trigger]
                self@.contains_key(k) <==> self.key_seq().contains(k),
            forall|i: int|
                0 <= i < self.key_seq().len() ==> #[trigger] self@[self.key_seq()[i]]
                    == self.value_seq()[i],
    {
        proof {
            use_type_invariant(self);
            lemma_entries_map(self.entries@);
            assert forall|k: Seq<char>| #[trigger]
                self@.contains_key(k) <==> self.key_seq().contains(k) by {
                if self@.contains_key(k) {
                    let i = choose|i: int|
                        0 <= i < self.entries@.len() && self.entries@[i].0@ == k;
                    assert(self.key_seq()[i] == k);
                }
                if self.key_seq().contains(k) {
                    let i = choose|i: int|
                        0 <= i < self.key_seq().len() && self.key_seq()[i] == k;
                    assert(self.entries@[i].0@ == k);
                }
            }
            assert forall|i: int| 0 <= i < self.key_seq().len() implies #[trigger] self@[
                self.key_seq()[i]] == self.value_seq()[i] by {
                assert(self.key_seq()[i] == self.entries@[i].0@);
            }
        }
    }

    pub fn new() -> (r: Self)
        ensures
            r@ == Map::<Seq<char>, V>::empty(),
            r.key_seq().len() == 0,
    {
        StrMap { entries: Vec::new() }
    }

    pub fn len(&self) -> (r: usize)
        ensures
            r == self.key_seq().len(),
            r == self@.len(),
    {
        self.lemma_seqs();
        self.entries.len()
    }

    pub fn is_empty(&self) -> (r: bool)
        ensures
            r == (self@.len() == 0),
            r == (self@ == Map::<Seq<char>, V>::empty()),
    {
        self.lemma_seqs();
        if self.entries.len() == 0 {
            assert(self@ =~= Map::<Seq<char>, V>::empty());
            true
        } else {
            assert(self@.contains_key(self.key_seq()[0]));
            false
        }
    }

    /// The `i`-th key.
    pub fn key_at(&self, i: usize) -> (r: &String)
        requires
            i < self.key_seq().len(),
        ensures
            r@ == self.key_seq()[i as int],
    {
        &self.entries[i].0
    }

    /// The `i`-th value.
    pub fn value_at(&self, i: usize) -> (r: &V)
        requires
            i < self.value_seq().len(),
        ensures
            *r == self.value_seq()[i as int],
    {
        &self.entries[i].1
    }

    /// Position of key `k`, if present.
    fn position(&self, k: &str) -> (r: Option<usize>)
        ensures
            match r {
                Some(i) => i < self.entries@.len() && self.entries@[i as int].0@ == k@,
                None => forall|i: int|
                    0 <= i < self.entries@.len() ==> self.entries@[i].0@ != k@,
            },
    {
        let mut i: usize = 0;
        while i < self.entries.len()
            invariant
                i <= self.entries@.len(),
                forall|j: int| 0 <= j < i ==> self.entries@[j].0@ != k@,
            decreases self.entries@.len() - i,
        {
            if str_eq(self.entries[i].0.as_str(), k) {
                return Some(i);
            }
            i = i + 1;
        }
        None
    }

    pub fn contains_key(&self, k: &str) -> (r: bool)
        ensures
            r == self@.contains_key(k@),
    {
        proof {
            use_type_invariant(self);
            lemma_entries_map(self.entries@);
        }
        self.position(k).is_some()
    }

    pub fn get(&self, k: &str) -> (r: Option<&V>)
        ensures
            match r {
                Some(v) => self@.contains_key(k@) && *v == self@[k@],
                None => !self@.contains_key(k@),
            },
    {
        proof {
            use_type_invariant(self);
            lemma_entries_map(self.entries@);
        }
        match self.position(k) {
            Some(i) => Some(&self.entries[i].1),
            None => None,
        }
    }

    /// Sets `k` to `v`, keeping the position of an existing key.
    pub fn insert(&mut self, k: String, v: V)
        ensures
            final(self)@ == old(self)@.insert(k@, v),
    {
        proof {
            use_type_invariant(&*self);
            lemma_entries_map(self.entries@);
        }
        let ghost old_e = self.entries@;
        match self.position(k.as_str()) {
            Some(i) => {
                let mut entries = Vec::new();
                std::mem::swap(&mut entries, &mut self.entries);
                entries.set(i, (k, v));
                proof {
                    assert forall|a: int, b: int| 0 <= a < b < entries@.len() implies entries@[a].0@
                        != entries@[b].0@ by {
                        if a != i && b != i {
                            assert(entries@[a] == old_e[a] && entries@[b] == old_e[b]);
                        } else if a == i {
                            assert(entries@[b] == old_e[b]);
                        } else {
                            assert(entries@[a] == old_e[a]);
                        }
                    }
                    lemma_entries_map(entries@);
                    assert(entries_map(entries@) =~= entries_map(old_e).insert(k@, v)) by {
                        assert forall|key: Seq<char>| #[trigger]
                            entries_map(entries@).contains_key(key) <==> entries_map(
                                old_e,
                            ).insert(k@, v).contains_key(key) by {
                            if entries_map(entries@).contains_key(key) {
                                let j = choose|j: int|
                                    0 <= j < entries@.len() && entries@[j].0@ == key;
                                if j != i {
                                    assert(old_e[j] == entries@[j]);
                                }
                            }
                            if entries_map(old_e).contains_key(key) {
                                let j = choose|j: int| 0 <= j < old_e.len() && old_e[j].0@ == key;
                                if j != i {
                                    assert(old_e[j] == entries@[j]);
                                } else {
                                    assert(entries@[j].0@ == key);
                                }
                            }
                        }
                        assert forall|key: Seq<char>|
                            #[trigger] entries_map(entries@).contains_key(key) implies entries_map(
                                entries@,
                            )[key] == entries_map(old_e).insert(k@, v)[key] by {
                            let j = choose|j: int|
                                0 <= j < entries@.len() && entries@[j].0@ == key;
                            if j != i {
                                assert(old_e[j] == entries@[j]);
                            }
                        }
                    }
                }
                self.entries = entries;
            },
            None => {
                let mut entries = Vec::new();
                std::mem::swap(&mut entries, &mut self.entries);
                entries.push((k, v));
                proof {
                    assert(entries@.drop_last() =~= old_e);
                    assert forall|a: int, b: int| 0 <= a < b < entries@.len() implies entries@[a].0@
                        != entries@[b].0@ by {
                        if b < entries@.len() - 1 {
                            assert(entries@[a] == old_e[a] && entries@[b] == old_e[b]);
                        } else {
                            assert(entries@[a] == old_e[a]);
                        }
                    }
                }
                self.entries = entries;
            },
        }
    }
}

impl<V> StrMap<V> {
    /// Takes out the most recently added entry.
    pub fn pop(&mut self) -> (r: (String, V))
        requires
            old(self)@.len() > 0,
        ensures
            old(self)@.contains_key(r.0@),
            old(self)@[r.0@] == r.1,
            final(self)@ == old(self)@.remove(r.0@),
            final(self)@.len() < old(self)@.len(),
    {
        proof {
            use_type_invariant(&*self);
            lemma_entries_map(self.entries@);
        }
        let ghost old_e = self.entries@;
        let mut entries = Vec::new();
        std::mem::swap(&mut entries, &mut self.entries);
        let last = entries.pop().unwrap();
        proof {
            let d = old_e.drop_last();
            assert(entries@ =~= d);
            assert(distinct_keys(d));
            lemma_entries_map(d);
            assert(!entries_map(d).contains_key(last.0@)) by {
                if entries_map(d).contains_key(last.0@) {
                    let i = choose|i: int| 0 <= i < d.len() && d[i].0@ == last.0@;
                    assert(old_e[i].0@ != old_e[old_e.len() - 1].0@);
                }
            }
            assert(entries_map(d) =~= entries_map(old_e).remove(last.0@));
        }
        self.entries = entries;
        last
    }
}

/// Values that can be copied exactly.
pub trait Duplicate: Sized {
    fn duplicate(&self) -> (r: Self)
        ensures
            r == *self,
    ;
}

impl Duplicate for String {
    fn duplicate(&self) -> (r: Self) {
        self.clone()
    }
}

impl<T: Duplicate> Duplicate for Option<T> {
    fn duplicate(&self) -> (r: Self) {
        match self {
            Some(v) => Some(v.duplicate()),
            None => None,
        }
    }
}

/// A copy of a vector, element by element.
pub fn dup_vec<T: Duplicate>(v: &Vec<T>) -> (r: Vec<T>)
    ensures
        r@ == v@,
{
    let mut out: Vec<T> = Vec::new();
    let mut i: usize = 0;
    while i < v.len()
        invariant
            i <= v@.len(),
            out@ == v@.take(i as int),
        decreases v@.len() - i,
    {
        out.push(v[i].duplicate());
        i = i + 1;
        assert(out@ =~= v@.take(i as int));
    }
    assert(out@ =~= v@);
    out
}

/// A copy of an optional vector.
pub fn dup_opt_vec<T: Duplicate>(v: &Option<Vec<T>>) -> (r: Option<Vec<T>>)
    ensures
        r is Some <==> v is Some,
        r is Some ==> r->0@ == v->0@,
{
    match v {
        Some(x) => Some(dup_vec(x)),
        None => None,
    }
}

impl<V: Duplicate> StrMap<V> {
    /// A copy of this map, entries in the same order.
    pub fn duplicate(&self) -> (r: Self)
        ensures
            r@ == self@,
            r.key_seq() == self.key_seq(),
            r.value_seq() == self.value_seq(),
    {
        proof {
            use_type_invariant(self);
        }
        let mut entries: Vec<(String, V)> = Vec::new();
        let mut i: usize = 0;
        while i < self.entries.len()
            invariant
                i <= self.entries@.len(),
                entries@ == self.entries@.take(i as int),
            decreases self.entries@.len() - i,
        {
            let (k, v) = (self.entries[i].0.clone(), self.entries[i].1.duplicate());
            entries.push((k, v));
            i = i + 1;
            assert(entries@ =~= self.entries@.take(i as int));
        }
        assert(entries@ =~= self.entries@);
        let r = StrMap { entries };
        assert(r.key_seq() =~= self.key_seq());
        assert(r.value_seq() =~= self.value_seq());
        r
    }

    /// Adds every entry of `other`, its values winning over existing ones.
    pub fn extend_from(&mut self, other: &Self)
        ensures
            final(self)@ == old(self)@.union_prefer_right(other@),
    {
        other.lemma_seqs();
        let ghost start = self@;
        let mut i: usize = 0;
        while i < other.len()
            invariant
                i <= other.key_seq().len(),
                other.key_seq().len() == other.value_seq().len(),
                forall|k: Seq<char>| #[trigger] other@.contains_key(k) <==> other.key_seq().contains(k),
                forall|j: int|
                    0 <= j < other.key_seq().len() ==> #[trigger] other@[other.key_seq()[j]]
                        == other.value_seq()[j],
                self@ == start.union_prefer_right(
                    Map::new(
                        |k: Seq<char>| other.key_seq().take(i as int).contains(k),
                        |k: Seq<char>| other@[k],
                    ),
                ),
            decreases other.key_seq().len() - i,
        {
            let k = other.key_at(i).clone();
            let v = other.value_at(i).duplicate();
            let ghost prev = self@;
            self.insert(k, v);
            proof {
                let ks = other.key_seq();
                assert(ks.take(i + 1) =~= ks.take(i as int).push(ks[i as int]));
                let m1 = Map::new(
                    |key: Seq<char>| ks.take(i as int).contains(key),
                    |key: Seq<char>| other@[key],
                );
                let m2 = Map::new(
                    |key: Seq<char>| ks.take(i + 1).contains(key),
                    |key: Seq<char>| other@[key],
                );
                assert forall|key: Seq<char>| #[trigger]
                    m2.dom().contains(key) <==> m1.dom().contains(key) || key == ks[i as int] by {
                    if ks.take(i + 1).contains(key) {
                        let t = ks.take(i + 1);
                        let j = choose|j: int| 0 <= j < t.len() && t[j] == key;
                        if j < i {
                            assert(ks.take(i as int)[j] == key);
                        }
                    }
                    if ks.take(i as int).contains(key) {
                        let t = ks.take(i as int);
                        let j = choose|j: int| 0 <= j < t.len() && t[j] == key;
                        assert(ks.take(i + 1)[j] == key);
                    }
                    if key == ks[i as int] {
                        assert(ks.take(i + 1)[i as int] == key);
                    }
                }
                assert(self@ =~= start.union_prefer_right(m2));
            }
            i = i + 1;
        }
        proof {
            let m = Map::new(
                |k: Seq<char>| other.key_seq().take(i as int).contains(k),
                |k: Seq<char>| other@[k],
            );
            assert(other.key_seq().take(i as int) =~= other.key_seq());
            assert(m =~= other@);
        }
    }
}

} // verus!
