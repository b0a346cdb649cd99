//! A JSON value as the WebDriver wire protocol carries it.
//!
//! Numbers keep the three shapes that JSON decoders distinguish: non-negative
//! integers, negative integers, and other numbers, which are carried as the bit
//! pattern of an IEEE-754 double and never computed on here.
use crate::text::str_eq;
use vstd::prelude::*;

verus! {

/// A JSON number.
#[derive(Debug, Clone, Copy, PartialEq, Eq, Structural)]
pub enum JsonNumber {
    /// A non-negative integer.
    PosInt(u64),
    /// A negative integer.
    NegInt(i64),
    /// Any other number, as the bit pattern of an IEEE-754 double.
    Float(u64),
}

/// A JSON value.
#[derive(Debug)]
pub enum Json {
    /// `null`
    Null,
    /// `true` or `false`
    Bool(bool),
    /// A number.
    Number(JsonNumber),
    /// A string.
    String(String),
    /// An array.
    Array(Vec<Json>),
    /// An object.
    Object(JsonMap),
}

/// A JSON object: a list of entries whose keys are pairwise distinct.
#[derive(Debug)]
pub struct JsonMap {
    entries: Vec<(String, Json)>,
}

/// The keys of `s` are pairwise distinct.
pub open spec fn keys_distinct(s: Seq<(String, Json)>) -> bool {
    forall|i: int, j: int|
        0 <= i < s.len() && 0 <= j < s.len() && i != j ==> #[trigger] s[i].0@ != #[trigger] s[j].0@
}

/// `key` is the key of some entry of `s`.
pub open spec fn seq_has_key(s: Seq<(String, Json)>, key: Seq<char>) -> bool {
    exists|i: int| 0 <= i < s.len() && #[trigger] s[i].0@ == key
}

/// The position of the entry of `s` whose key is `key`.
pub open spec fn seq_key_index(s: Seq<(String, Json)>, key: Seq<char>) -> int {
    choose|i: int| 0 <= i < s.len() && #[trigger] s[i].0@ == key
}

/// The map from keys to values that the entries `s` describe.
pub open spec fn seq_to_map(s: Seq<(String, Json)>) -> Map<Seq<char>, Json> {
    Map::new(|k: Seq<char>| seq_has_key(s, k), |k: Seq<char>| s[seq_key_index(s, k)].1)
}

impl JsonMap {
    #[verifier::type_invariant]
    spec fn wf(self) -> bool {
        keys_distinct(self.entries@)
    }

    /// The entries, in order.
    pub closed spec fn entry_seq(self) -> Seq<(String, Json)> {
        self.entries@
    }

    /// The object as a map from keys to values.
    pub open spec fn as_map(self) -> Map<Seq<char>, Json> {
        seq_to_map(self.entry_seq())
    }

    /// An empty object.
    pub fn new() -> (m: JsonMap)
        ensures
            m.as_map() == Map::<Seq<char>, Json>::empty(),
            m.entry_seq().len() == 0,
    {
        let m = JsonMap { entries: Vec::new() };
        assert(m.as_map() =~= Map::<Seq<char>, Json>::empty());
        m
    }

    /// The number of entries.
    pub fn len(&self) -> (n: usize)
        ensures
            n == self.entry_seq().len(),
            n == 0 <==> self.as_map().dom() == Set::<Seq<char>>::empty(),
    {
        proof {
            if self.entries@.len() == 0 {
                assert(self.as_map().dom() =~= Set::<Seq<char>>::empty());
            } else {
                assert(self.as_map().dom().contains(self.entries@[0].0@));
            }
        }
        self.entries.len()
    }

    /// The position of the entry with the given key, if any.
    fn position(&self, key: &str) -> (r: Option<usize>)
        ensures
            r is None ==> !seq_has_key(self.entries@, key@),
            r matches Some(i) ==> i < self.entries@.len() && self.entries@[i as int].0@ == key@,
    {
        let mut i: usize = 0;
        while i < self.entries.len()
            invariant
                i <= self.entries@.len(),
                forall|j: int| 0 <= j < i ==> #[trigger] self.entries@[j].0@ != key@,
            decreases self.entries@.len() - i,
        {
            if str_eq(self.entries[i].0.as_str(), key) {
                return Some(i);
            }
            i = i + 1;
        }
        None
    }

    /// Is there an entry with the given key?
    pub fn contains_key(&self, key: &str) -> (b: bool)
        ensures
            b == self.as_map().contains_key(key@),
    {
        self.position(key).is_some()
    }

    /// The value under the given key, if any.
    pub fn get(&self, key: &str) -> (r: Option<&Json>)
        ensures
            r is None <==> !self.as_map().contains_key(key@),
            r matches Some(v) ==> *v == self.as_map()[key@],
    {
        proof { use_type_invariant(self); }
        match self.position(key) {
            Some(i) => {
                proof {
                    let k = seq_key_index(self.entries@, key@);
                    assert(self.entries@[k].0@ == key@);
                }
                Some(&self.entries[i].1)
            },
            None => None,
        }
    }

    /// Remove the entry with the given key, and return its value.
    pub fn remove(&mut self, key: &str) -> (r: Option<Json>)
        ensures
            r is None <==> !old(self).as_map().contains_key(key@),
            r matches Some(v) ==> v == old(self).as_map()[key@],
            final(self).as_map() == old(self).as_map().remove(key@),
    {
        proof { use_type_invariant(&*self); }
        match self.position(key) {
            Some(i) => {
                let ghost s = self.entries@;
                proof {
                    let k = seq_key_index(s, key@);
                    assert(s[k].0@ == key@);
                }
                let mut entries: Vec<(String, Json)> = Vec::new();
                std::mem::swap(&mut entries, &mut self.entries);
                let (_k, v) = entries.remove(i);
                let ghost t = entries@;
                assert(t =~= s.remove(i as int));
                proof {
                    assert forall|a: int, b: int|
                        0 <= a < t.len() && 0 <= b < t.len() && a != b implies #[trigger] t[a].0@
                        != #[trigger] t[b].0@ by {
                        let a2 = if a < i { a } else { a + 1 };
                        let b2 = if b < i { b } else { b + 1 };
                        assert(t[a] == s[a2]);
                        assert(t[b] == s[b2]);
                    }
                    lemma_remove_entry(s, i as int);
                }
                self.entries = entries;
                Some(v)
            },
            None => {
                proof {
                    assert(self.as_map() =~= self.as_map().remove(key@));
                }
                None
            },
        }
    }

    /// Set the value under the given key, replacing any earlier one.
    pub fn insert(&mut self, key: String, value: Json)
        ensures
            final(self).as_map() == old(self).as_map().insert(key@, value),
    {
        proof { use_type_invariant(&*self); }
        let ghost s = self.entries@;
        let ghost kv = key@;
        match self.position(key.as_str()) {
            Some(i) => {
                let mut entries: Vec<(String, Json)> = Vec::new();
                std::mem::swap(&mut entries, &mut self.entries);
                entries.set(i, (key, value));
                let ghost t = entries@;
                proof {
                    assert(t =~= s.update(i as int, t[i as int]));
                    assert(t[i as int].0@ == kv);
                    assert forall|a: int, b: int|
                        0 <= a < t.len() && 0 <= b < t.len() && a != b implies #[trigger] t[a].0@
                        != #[trigger] t[b].0@ by {
                        if a != i && b != i {
                            assert(t[a] == s[a]);
                            assert(t[b] == s[b]);
                        } else if a == i {
                            assert(t[b] == s[b]);
                            assert(s[a].0@ == kv);
                        } else {
                            assert(t[a] == s[a]);
                            assert(s[b].0@ == kv);
                        }
                    }
                    lemma_update_entry(s, i as int, t[i as int]);
                }
                self.entries = entries;
            },
            None => {
                let mut entries: Vec<(String, Json)> = Vec::new();
                std::mem::swap(&mut entries, &mut self.entries);
                entries.push((key, value));
                let ghost t = entries@;
                proof {
                    assert(t =~= s.push(t[s.len() as int]));
                    lemma_push_entry(s, t[s.len() as int]);
                }
                self.entries = entries;
            },
        }
    }

    /// The entries, in order.
    pub fn into_entries(self) -> (v: Vec<(String, Json)>)
        ensures
            v@ == self.entry_seq(),
            keys_distinct(v@),
    {
        proof { use_type_invariant(&self); }
        self.entries
    }

    /// The entry at position `i`.
    pub fn entry(&self, i: usize) -> (r: (&String, &Json))
        requires
            i < self.entry_seq().len(),
        ensures
            *r.0 == self.entry_seq()[i as int].0,
            *r.1 == self.entry_seq()[i as int].1,
    {
        (&self.entries[i].0, &self.entries[i].1)
    }
}

proof fn lemma_remove_entry(s: Seq<(String, Json)>, i: int)
    requires
        keys_distinct(s),
        0 <= i < s.len(),
    ensures
        seq_to_map(s.remove(i)) == seq_to_map(s).remove(s[i].0@),
{
    let t = s.remove(i);
    let k = s[i].0@;
    assert forall|x: Seq<char>| seq_has_key(t, x) <==> seq_has_key(s, x) && x != k by {
        if seq_has_key(t, x) {
            let a = choose|a: int| 0 <= a < t.len() && #[trigger] t[a].0@ == x;
            let a2 = if a < i { a } else { a + 1 };
            assert(t[a] == s[a2]);
            assert(s[a2].0@ == x);
        }
        if seq_has_key(s, x) && x != k {
            let b = choose|b: int| 0 <= b < s.len() && #[trigger] s[b].0@ == x;
            let b2 = if b < i { b } else { b - 1 };
            assert(t[b2] == s[b]);
        }
    }
    assert forall|x: Seq<char>| #[trigger] seq_has_key(t, x) implies
        t[seq_key_index(t, x)].1 == s[seq_key_index(s, x)].1 by {
        let a = seq_key_index(t, x);
        let a2 = if a < i { a } else { a + 1 };
        assert(t[a] == s[a2]);
        assert(s[a2].0@ == x);
        let b = seq_key_index(s, x);
        assert(s[b].0@ == x);
    }
    assert(seq_to_map(t) =~= seq_to_map(s).remove(k));
}

proof fn lemma_update_entry(s: Seq<(String, Json)>, i: int, e: (String, Json))
    requires
        keys_distinct(s),
        keys_distinct(s.update(i, e)),
        0 <= i < s.len(),
        e.0@ == s[i].0@,
    ensures
        seq_to_map(s.update(i, e)) == seq_to_map(s).insert(e.0@, e.1),
{
    let t = s.update(i, e);
    assert forall|x: Seq<char>| seq_has_key(t, x) <==> seq_has_key(s, x) by {
        if seq_has_key(t, x) {
            let a = choose|a: int| 0 <= a < t.len() && #[trigger] t[a].0@ == x;
            assert(s[a].0@ == x);
        }
        if seq_has_key(s, x) {
            let b = choose|b: int| 0 <= b < s.len() && #[trigger] s[b].0@ == x;
            assert(t[b].0@ == x);
        }
    }
    assert forall|x: Seq<char>| #[trigger] seq_has_key(t, x) implies
        t[seq_key_index(t, x)].1 == (if x == e.0@ { e.1 } else { s[seq_key_index(s, x)].1 }) by {
        let a = seq_key_index(t, x);
        assert(t[a].0@ == x);
        if x != e.0@ {
            let b = seq_key_index(s, x);
            assert(s[b].0@ == x);
            assert(a != i);
            assert(t[a] == s[a]);
        } else {
            assert(t[i].0@ == x);
        }
    }
    assert(seq_to_map(t) =~= seq_to_map(s).insert(e.0@, e.1));
}

proof fn lemma_push_entry(s: Seq<(String, Json)>, e: (String, Json))
    requires
        keys_distinct(s),
        !seq_has_key(s, e.0@),
    ensures
        keys_distinct(s.push(e)),
        seq_to_map(s.push(e)) == seq_to_map(s).insert(e.0@, e.1),
{
    let t = s.push(e);
    assert forall|a: int, b: int|
        0 <= a < t.len() && 0 <= b < t.len() && a != b implies #[trigger] t[a].0@
        != #[trigger] t[b].0@ by {
        if a < s.len() && b < s.len() {
            assert(t[a] == s[a]);
            assert(t[b] == s[b]);
        } else if a < s.len() {
            assert(t[a] == s[a]);
        } else {
            assert(t[b] == s[b]);
        }
    }
    assert forall|x: Seq<char>| seq_has_key(t, x) <==> seq_has_key(s, x) || x == e.0@ by {
        if seq_has_key(t, x) {
            let a = choose|a: int| 0 <= a < t.len() && #[trigger] t[a].0@ == x;
            if a < s.len() {
                assert(t[a] == s[a]);
            }
        }
        if seq_has_key(s, x) {
            let b = choose|b: int| 0 <= b < s.len() && #[trigger] s[b].0@ == x;
            assert(t[b] == s[b]);
        }
        if x == e.0@ {
            assert(t[s.len() as int].0@ == x);
        }
    }
    assert forall|x: Seq<char>| #[trigger] seq_has_key(t, x) implies
        t[seq_key_index(t, x)].1 == (if x == e.0@ { e.1 } else { s[seq_key_index(s, x)].1 }) by {
        let a = seq_key_index(t, x);
        assert(t[a].0@ == x);
        if x != e.0@ {
            let b = seq_key_index(s, x);
            assert(s[b].0@ == x);
            assert(a < s.len());
            assert(t[a] == s[a]);
        } else {
            assert(a == s.len());
        }
    }
    assert(seq_to_map(t) =~= seq_to_map(s).insert(e.0@, e.1));
}

} // verus!
