//! A map keyed by strings, each key present at most once.

use vstd::prelude::*;

use crate::chars::{chars_of, owned, starts_with, starts_with_at};

verus! {

/// A map from string keys to values, kept as a list of pairs in which no key
/// occurs twice.
#[derive(Debug)]
pub struct KeyedStore<V> {
    entries: Vec<(String, V)>,
}

/// The map that a list of pairs stands for; a later pair wins over an earlier
/// one with the same key.
pub open spec fn pairs_map<V>(s: Seq<(String, V)>) -> Map<Seq<char>, V>
    decreases s.len(),
{
    if s.len() == 0 {
        Map::empty()
    } else {
        pairs_map(s.drop_last()).insert(s.last().0@, s.last().1)
    }
}

/// No two pairs share a key.
pub open spec fn distinct_keys<V>(s: Seq<(String, V)>) -> bool {
    forall|i: int, j: int| 0 <= i < s.len() && 0 <= j < s.len() && i != j ==> #[trigger] s[i].0@
        != #[trigger] s[j].0@
}

proof fn lemma_distinct_drop_last<V>(s: Seq<(String, V)>)
    requires
        distinct_keys(s),
        s.len() > 0,
    ensures
        distinct_keys(s.drop_last()),
{
    let t = s.drop_last();
    assert forall|a: int, b: int|
        0 <= a < t.len() && 0 <= b < t.len() && a != b implies #[trigger] t[a].0@
        != #[trigger] t[b].0@ by {
        assert(t[a] == s[a] && t[b] == s[b]);
    }
}

proof fn lemma_pairs_map_dom<V>(s: Seq<(String, V)>, k: Seq<char>)
    ensures
        pairs_map(s).contains_key(k) <==> exists|i: int| 0 <= i < s.len() && #[trigger] s[i].0@ == k,
    decreases s.len(),
{
    if s.len() > 0 {
        lemma_pairs_map_dom(s.drop_last(), k);
        if pairs_map(s.drop_last()).contains_key(k) {
            let i = choose|i: int| 0 <= i < s.drop_last().len() && #[trigger] s.drop_last()[i].0@ == k;
            assert(s[i].0@ == k);
        }
        if exists|i: int| 0 <= i < s.len() && #[trigger] s[i].0@ == k {
            let i = choose|i: int| 0 <= i < s.len() && #[trigger] s[i].0@ == k;
            if i < s.len() - 1 {
                assert(s.drop_last()[i].0@ == k);
            }
        }
    }
}

proof fn lemma_pairs_map_value<V>(s: Seq<(String, V)>, i: int)
    requires
        distinct_keys(s),
        0 <= i < s.len(),
    ensures
        pairs_map(s).contains_key(s[i].0@),
        pairs_map(s)[s[i].0@] == s[i].1,
    decreases s.len(),
{
    if i < s.len() - 1 {
        let t = s.drop_last();
        lemma_distinct_drop_last(s);
        lemma_pairs_map_value(t, i);
        assert(t[i] == s[i]);
        assert(s[i].0@ != s[s.len() - 1].0@);
    }
}

/// Two distinct-keyed lists with the same keys and values stand for the same map.
proof fn lemma_pairs_map_ext<V>(s: Seq<(String, V)>, m: Map<Seq<char>, V>)
    requires
        distinct_keys(s),
        forall|k: Seq<char>| #[trigger] m.contains_key(k) <==> exists|i: int| 0 <= i < s.len() && #[trigger] s[i].0@ == k,
        forall|i: int| 0 <= i < s.len() ==> m[#[trigger] s[i].0@] == s[i].1,
    ensures
        pairs_map(s) == m,
{
    assert forall|k: Seq<char>| pairs_map(s).contains_key(k) <==> m.contains_key(k) by {
        lemma_pairs_map_dom(s, k);
    }
    assert forall|k: Seq<char>| pairs_map(s).contains_key(k) implies pairs_map(s)[k] == m[k] by {
        lemma_pairs_map_dom(s, k);
        let j = choose|j: int| 0 <= j < s.len() && #[trigger] s[j].0@ == k;
        lemma_pairs_map_value(s, j);
    }
    assert(pairs_map(s) =~= m);
}

proof fn lemma_pairs_map_len<V>(s: Seq<(String, V)>)
    requires
        distinct_keys(s),
    ensures
        pairs_map(s).dom().finite(),
        pairs_map(s).dom().len() == s.len(),
    decreases s.len(),
{
    if s.len() > 0 {
        let t = s.drop_last();
        lemma_distinct_drop_last(s);
        lemma_pairs_map_len(t);
        lemma_pairs_map_dom(t, s.last().0@);
        if pairs_map(t).contains_key(s.last().0@) {
            let j = choose|j: int| 0 <= j < t.len() && #[trigger] t[j].0@ == s.last().0@;
            assert(s[j].0@ == s[s.len() - 1].0@);
        }
    }
}

/// The entries of `m` whose key does not begin with `prefix`.
pub open spec fn without_prefix<V>(m: Map<Seq<char>, V>, prefix: Seq<char>) -> Map<Seq<char>, V> {
    m.restrict(m.dom().filter(|k: Seq<char>| !starts_with(k, prefix)))
}

impl<V> View for KeyedStore<V> {
    type V = Map<Seq<char>, V>;

    closed spec fn view(&self) -> Map<Seq<char>, V> {
        pairs_map(self.entries@)
    }
}

impl<V> KeyedStore<V> {
    #[verifier::type_invariant]
    spec fn inv(self) -> bool {
        distinct_keys(self.entries@)
    }

    /// An empty store.
    pub fn new() -> (r: KeyedStore<V>)
        ensures
            r@ == Map::<Seq<char>, V>::empty(),
    {
        KeyedStore { entries: Vec::new() }
    }

    /// The number of keys.
    pub fn len(&self) -> (r: usize)
        ensures
            self@.dom().finite(),
            r == self@.dom().len(),
    {
        proof {
            use_type_invariant(self);
            lemma_pairs_map_len(self.entries@);
        }
        self.entries.len()
    }

    /// The position of `key` in the list of pairs.
    fn position(&self, key: &str) -> (r: Option<usize>)
        ensures
            match r {
                Some(i) => i < self.entries@.len() && self.entries@[i as int].0@ == key@,
                None => forall|j: int| 0 <= j < self.entries@.len() ==> (#[trigger] self.entries@[j]).0@ != key@,
            },
    {
        let k = owned(key);
        let mut i: usize = 0;
        while i < self.entries.len()
            invariant
                i <= self.entries@.len(),
                k@ == key@,
                forall|j: int| 0 <= j < i ==> (#[trigger] self.entries@[j]).0@ != key@,
            decreases self.entries.len() - i,
        {
            if self.entries[i].0 == k {
                return Some(i);
            }
            i = i + 1;
        }
        None
    }

    /// The value of `key`, if it is present.
    pub fn get(&self, key: &str) -> (r: Option<&V>)
        ensures
            match r {
                Some(v) => self@.contains_key(key@) && *v == self@[key@],
                None => !self@.contains_key(key@),
            },
    {
        proof {
            use_type_invariant(self);
        }
        match self.position(key) {
            Some(i) => {
                proof {
                    lemma_pairs_map_value(self.entries@, i as int);
                }
                Some(&self.entries[i].1)
            },
            None => {
                proof {
                    lemma_pairs_map_dom(self.entries@, key@);
                }
                None
            },
        }
    }

    /// Sets `key` to `value`, replacing any earlier value of `key`.
    pub fn insert(&mut self, key: String, value: V)
        ensures
            final(self)@ == old(self)@.insert(key@, value),
    {
        proof {
            use_type_invariant(&*self);
        }
        let ghost old_entries = self.entries@;
        let pos = self.position(key.as_str());
        let mut entries: Vec<(String, V)> = Vec::new();
        core::mem::swap(&mut entries, &mut self.entries);
        match pos {
            Some(i) => {
                let ghost k = key@;
                entries.set(i, (key, value));
                proof {
                    let u = entries@;
                    assert forall|a: int, b: int|
                        0 <= a < u.len() && 0 <= b < u.len() && a != b implies #[trigger] u[a].0@
                        != #[trigger] u[b].0@ by {
                        assert(u[a].0@ == old_entries[a].0@);
                        assert(u[b].0@ == old_entries[b].0@);
                    }
                    let m = pairs_map(old_entries).insert(k, value);
                    assert forall|kk: Seq<char>| #[trigger] m.contains_key(kk) <==> exists|j: int|
                        0 <= j < u.len() && #[trigger] u[j].0@ == kk by {
                        lemma_pairs_map_dom(old_entries, kk);
                        if exists|j: int| 0 <= j < old_entries.len() && #[trigger] old_entries[j].0@ == kk {
                            let j = choose|j: int| 0 <= j < old_entries.len() && #[trigger] old_entries[j].0@ == kk;
                            assert(u[j].0@ == kk);
                        }
                        if exists|j: int| 0 <= j < u.len() && #[trigger] u[j].0@ == kk {
                            let j = choose|j: int| 0 <= j < u.len() && #[trigger] u[j].0@ == kk;
                            assert(old_entries[j].0@ == kk);
                        }
                    }
                    assert forall|j: int| 0 <= j < u.len() implies m[#[trigger] u[j].0@] == u[j].1 by {
                        if j != i {
                            lemma_pairs_map_value(old_entries, j);
                            assert(u[j] == old_entries[j]);
                        }
                    }
                    lemma_pairs_map_ext(u, m);
                }
            },
            None => {
                entries.push((key, value));
                proof {
                    assert(entries@.drop_last() =~= old_entries);
                    let u = entries@;
                    assert forall|a: int, b: int|
                        0 <= a < u.len() && 0 <= b < u.len() && a != b implies #[trigger] u[a].0@
                        != #[trigger] u[b].0@ by {
                        if a < old_entries.len() {
                            assert(u[a] == old_entries[a]);
                        }
                        if b < old_entries.len() {
                            assert(u[b] == old_entries[b]);
                        }
                    }
                }
            },
        }
        self.entries = entries;
    }

    /// Removes `key`, returning its value if it was present.
    pub fn remove(&mut self, key: &str) -> (r: Option<V>)
        ensures
            final(self)@ == old(self)@.remove(key@),
            match r {
                Some(v) => old(self)@.contains_key(key@) && v == old(self)@[key@],
                None => !old(self)@.contains_key(key@),
            },
    {
        proof {
            use_type_invariant(&*self);
        }
        let ghost old_entries = self.entries@;
        match self.position(key) {
            Some(i) => {
                proof {
                    lemma_pairs_map_value(old_entries, i as int);
                }
                let mut entries: Vec<(String, V)> = Vec::new();
                core::mem::swap(&mut entries, &mut self.entries);
                let (_, v) = entries.remove(i);
                proof {
                    let u = entries@;
                    assert(u =~= old_entries.remove(i as int));
                    assert forall|a: int, b: int|
                        0 <= a < u.len() && 0 <= b < u.len() && a != b implies #[trigger] u[a].0@
                        != #[trigger] u[b].0@ by {
                        let a0 = if a < i { a } else { a + 1 };
                        let b0 = if b < i { b } else { b + 1 };
                        assert(u[a] == old_entries[a0]);
                        assert(u[b] == old_entries[b0]);
                    }
                    let m = pairs_map(old_entries).remove(key@);
                    assert forall|kk: Seq<char>| #[trigger] m.contains_key(kk) <==> exists|j: int|
                        0 <= j < u.len() && #[trigger] u[j].0@ == kk by {
                        lemma_pairs_map_dom(old_entries, kk);
                        if m.contains_key(kk) {
                            let j = choose|j: int| 0 <= j < old_entries.len() && #[trigger] old_entries[j].0@ == kk;
                            assert(j != i);
                            let j2 = if j < i { j } else { j - 1 };
                            assert(u[j2].0@ == kk);
                        }
                        if exists|j: int| 0 <= j < u.len() && #[trigger] u[j].0@ == kk {
                            let j = choose|j: int| 0 <= j < u.len() && #[trigger] u[j].0@ == kk;
                            let j0 = if j < i { j } else { j + 1 };
                            assert(old_entries[j0].0@ == kk);
                            assert(j0 != i);
                        }
                    }
                    assert forall|j: int| 0 <= j < u.len() implies m[#[trigger] u[j].0@] == u[j].1 by {
                        let j0 = if j < i { j } else { j + 1 };
                        assert(u[j] == old_entries[j0]);
                        lemma_pairs_map_value(old_entries, j0);
                    }
                    lemma_pairs_map_ext(u, m);
                }
                self.entries = entries;
                Some(v)
            },
            None => {
                proof {
                    lemma_pairs_map_dom(old_entries, key@);
                    assert(pairs_map(old_entries).remove(key@) =~= pairs_map(old_entries));
                }
                None
            },
        }
    }

    /// Removes every key.
    pub fn clear(&mut self)
        ensures
            final(self)@ == Map::<Seq<char>, V>::empty(),
    {
        self.entries = Vec::new();
    }

    /// Removes every key that begins with `prefix`.
    pub fn remove_prefixed(&mut self, prefix: &str)
        ensures
            final(self)@ == without_prefix(old(self)@, prefix@),
    {
        proof {
            use_type_invariant(&*self);
        }
        let p = chars_of(prefix);
        let ghost orig = self.entries@;
        let mut rest: Vec<(String, V)> = Vec::new();
        core::mem::swap(&mut rest, &mut self.entries);
        let mut kept: Vec<(String, V)> = Vec::new();
        while rest.len() > 0
            invariant
                p@ == prefix@,
                distinct_keys(orig),
                rest@ == orig.take(rest@.len() as int),
                rest@.len() <= orig.len(),
                forall|j: int| 0 <= j < kept@.len() ==> !starts_with(#[trigger] kept@[j].0@, prefix@),
                forall|j: int|
                    0 <= j < kept@.len() ==> exists|k: int|
                        rest@.len() <= k < orig.len() && #[trigger] orig[k] == #[trigger] kept@[j],
                forall|k: int|
                    rest@.len() <= k < orig.len() && !starts_with(#[trigger] orig[k].0@, prefix@)
                        ==> exists|j: int| 0 <= j < kept@.len() && kept@[j] == orig[k],
                distinct_keys(kept@),
            decreases rest.len(),
        {
            let e = rest.pop().unwrap();
            let ghost idx = rest@.len() as int;
            assert(orig[idx] == e);
            assert(rest@ =~= orig.take(idx));
            let kc = chars_of(e.0.as_str());
            if !starts_with_at(&kc, 0, kc.len(), &p) {
                proof {
                    assert(kc@.subrange(0, kc@.len() as int) =~= kc@);
                }
                let ghost before = kept@;
                kept.push(e);
                proof {
                    assert forall|j: int| 0 <= j < kept@.len() implies exists|k: int|
                        rest@.len() <= k < orig.len() && #[trigger] orig[k] == #[trigger] kept@[j] by {
                        if j < before.len() {
                            assert(kept@[j] == before[j]);
                        } else {
                            assert(orig[idx] == kept@[j]);
                        }
                    }
                    assert forall|a: int, b: int|
                        0 <= a < kept@.len() && 0 <= b < kept@.len() && a != b implies #[trigger] kept@[a].0@
                        != #[trigger] kept@[b].0@ by {
                        if a < before.len() && b < before.len() {
                            assert(kept@[a] == before[a] && kept@[b] == before[b]);
                        } else if a < before.len() {
                            assert(kept@[a] == before[a]);
                            let k = choose|k: int| idx + 1 <= k < orig.len() && #[trigger] orig[k] == before[a];
                            assert(orig[k].0@ != orig[idx].0@);
                        } else {
                            assert(kept@[b] == before[b]);
                            let k = choose|k: int| idx + 1 <= k < orig.len() && #[trigger] orig[k] == before[b];
                            assert(orig[k].0@ != orig[idx].0@);
                        }
                    }
                    assert forall|k: int|
                        rest@.len() <= k < orig.len() && !starts_with(#[trigger] orig[k].0@, prefix@)
                            implies exists|j: int| 0 <= j < kept@.len() && kept@[j] == orig[k] by {
                        if k == idx {
                            assert(kept@[before.len() as int] == orig[k]);
                        } else {
                            let j = choose|j: int| 0 <= j < before.len() && before[j] == orig[k];
                            assert(kept@[j] == orig[k]);
                        }
                    }
                }
            } else {
                proof {
                    assert(kc@.subrange(0, kc@.len() as int) =~= kc@);
                }
            }
        }
        proof {
            let m = without_prefix(pairs_map(orig), prefix@);
            let u = kept@;
            assert forall|kk: Seq<char>| #[trigger] m.contains_key(kk) <==> exists|j: int|
                0 <= j < u.len() && #[trigger] u[j].0@ == kk by {
                lemma_pairs_map_dom(orig, kk);
                if m.contains_key(kk) {
                    let k = choose|k: int| 0 <= k < orig.len() && #[trigger] orig[k].0@ == kk;
                    let j = choose|j: int| 0 <= j < u.len() && u[j] == orig[k];
                    assert(u[j].0@ == kk);
                }
                if exists|j: int| 0 <= j < u.len() && #[trigger] u[j].0@ == kk {
                    let j = choose|j: int| 0 <= j < u.len() && #[trigger] u[j].0@ == kk;
                    let k = choose|k: int| 0 <= k < orig.len() && #[trigger] orig[k] == u[j];
                    assert(orig[k].0@ == kk);
                    assert(!starts_with(u[j].0@, prefix@));
                }
            }
            assert forall|j: int| 0 <= j < u.len() implies m[#[trigger] u[j].0@] == u[j].1 by {
                let k = choose|k: int| 0 <= k < orig.len() && #[trigger] orig[k] == u[j];
                lemma_pairs_map_value(orig, k);
            }
            lemma_pairs_map_ext(u, m);
        }
        self.entries = kept;
    }
}


/// The keys and values of a list of string pairs, by their characters.
pub open spec fn string_pairs_view(s: Seq<(String, String)>) -> Seq<(Seq<char>, Seq<char>)> {
    s.map_values(|e: (String, String)| (e.0@, e.1@))
}

/// The map that a list of character pairs stands for; a later pair wins over
/// an earlier one with the same key.
pub open spec fn char_pairs_map(s: Seq<(Seq<char>, Seq<char>)>) -> Map<Seq<char>, Seq<char>>
    decreases s.len(),
{
    if s.len() == 0 {
        Map::empty()
    } else {
        char_pairs_map(s.drop_last()).insert(s.last().0, s.last().1)
    }
}

proof fn lemma_pairs_map_views(s: Seq<(String, String)>)
    ensures
        pairs_map(s).map_values(|v: String| v@) == char_pairs_map(string_pairs_view(s)),
    decreases s.len(),
{
    if s.len() > 0 {
        lemma_pairs_map_views(s.drop_last());
        assert(string_pairs_view(s).drop_last() =~= string_pairs_view(s.drop_last()));
        assert(pairs_map(s).map_values(|v: String| v@) =~= char_pairs_map(string_pairs_view(s)));
    } else {
        assert(pairs_map(s).map_values(|v: String| v@) =~= char_pairs_map(string_pairs_view(s)));
    }
}

/// A map from string keys to string values.
#[derive(Debug)]
pub struct StringMap {
    store: KeyedStore<String>,
}

impl View for StringMap {
    type V = Map<Seq<char>, Seq<char>>;

    closed spec fn view(&self) -> Map<Seq<char>, Seq<char>> {
        self.store@.map_values(|v: String| v@)
    }
}

impl StringMap {
    /// An empty map.
    pub fn new() -> (r: StringMap)
        ensures
            r@ == Map::<Seq<char>, Seq<char>>::empty(),
    {
        let r = StringMap { store: KeyedStore::new() };
        assert(r@ =~= Map::<Seq<char>, Seq<char>>::empty());
        r
    }

    /// Sets `key` to `value`, replacing any earlier value of `key`.
    pub fn insert(&mut self, key: String, value: String)
        ensures
            final(self)@ == old(self)@.insert(key@, value@),
    {
        let ghost k = key@;
        let ghost v = value@;
        self.store.insert(key, value);
        assert(self@ =~= old(self)@.insert(k, v));
    }

    /// The value of `key`, if it is set.
    pub fn get(&self, key: &str) -> (r: Option<&String>)
        ensures
            match r {
                Some(v) => self@.contains_key(key@) && v@ == self@[key@],
                None => !self@.contains_key(key@),
            },
    {
        self.store.get(key)
    }

    /// The keys and values, each key once.
    pub fn to_pairs(&self) -> (r: Vec<(String, String)>)
        ensures
            char_pairs_map(string_pairs_view(r@)) == self@,
            distinct_keys(r@),
    {
        proof {
            use_type_invariant(&self.store);
        }
        let entries = &self.store.entries;
        let mut r: Vec<(String, String)> = Vec::new();
        let mut i: usize = 0;
        while i < entries.len()
            invariant
                i <= entries@.len(),
                entries@ == self.store.entries@,
                r@.len() == i,
                forall|j: int| 0 <= j < i ==> (#[trigger] r@[j]).0@ == entries@[j].0@ && r@[j].1@
                    == entries@[j].1@,
            decreases entries.len() - i,
        {
            r.push((crate::chars::copy_string(&entries[i].0), crate::chars::copy_string(&entries[i].1)));
            i = i + 1;
        }
        proof {
            assert(string_pairs_view(r@) =~= string_pairs_view(entries@));
            lemma_pairs_map_views(r@);
            lemma_pairs_map_views(entries@);
            assert forall|a: int, b: int|
                0 <= a < r@.len() && 0 <= b < r@.len() && a != b implies #[trigger] r@[a].0@
                != #[trigger] r@[b].0@ by {
                assert(entries@[a].0@ != entries@[b].0@);
            }
        }
        r
    }
}

} // verus!
