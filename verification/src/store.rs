//! The store: key/value pairs with unique keys, kept in the order in which
//! their keys were first inserted.

use vstd::prelude::*;

verus! {

/// The mathematical model of a store: its pairs, in order.
pub type Pairs = Seq<(Seq<char>, Seq<char>)>;

/// No key occurs in two pairs.
pub open spec fn keys_distinct(s: Pairs) -> bool {
    forall|i: int, j: int| 0 <= i < j < s.len() ==> (#[trigger] s[i]).0 != (#[trigger] s[j]).0
}

/// No pair of `s` before position `n` has the key `k`.
pub open spec fn key_absent_before(s: Pairs, k: Seq<char>, n: int) -> bool {
    forall|j: int| 0 <= j < n && j < s.len() ==> (#[trigger] s[j]).0 != k
}

/// The position of the first pair with key `k`, if there is one.
pub open spec fn key_index(s: Pairs, k: Seq<char>) -> Option<int>
    decreases s.len(),
{
    if s.len() == 0 {
        None
    } else {
        match key_index(s.drop_last(), k) {
            Some(i) => Some(i),
            None => if s.last().0 == k {
                Some(s.len() - 1)
            } else {
                None
            },
        }
    }
}

/// The value stored under `k`, if there is one.
pub open spec fn lookup(s: Pairs, k: Seq<char>) -> Option<Seq<char>> {
    match key_index(s, k) {
        Some(i) => Some(s[i].1),
        None => None,
    }
}

/// The pairs after `v` is stored under `k`: a pair with that key keeps its
/// position and takes the new value; a new key goes to the end.
pub open spec fn put(s: Pairs, k: Seq<char>, v: Seq<char>) -> Pairs {
    match key_index(s, k) {
        Some(i) => s.update(i, (k, v)),
        None => s.push((k, v)),
    }
}

/// The pairs after the one at position `n` is taken out; the others keep
/// their order. A position past the end takes nothing out.
pub open spec fn take_out(s: Pairs, n: nat) -> Pairs {
    if n < s.len() {
        s.remove(n as int)
    } else {
        s
    }
}

/// The pairs as a map from key to value.
pub open spec fn as_map(s: Pairs) -> Map<Seq<char>, Seq<char>> {
    Map::new(|k: Seq<char>| key_index(s, k).is_some(), |k: Seq<char>| lookup(s, k).unwrap())
}

/// `key_index` finds the first position that holds the key, and finds none
/// exactly when no position holds it.
pub proof fn lemma_key_index(s: Pairs, k: Seq<char>)
    ensures
        match key_index(s, k) {
            Some(i) => 0 <= i < s.len() && s[i].0 == k && key_absent_before(s, k, i),
            None => key_absent_before(s, k, s.len() as int),
        },
    decreases s.len(),
{
    if s.len() > 0 {
        let front = s.drop_last();
        lemma_key_index(front, k);
        match key_index(front, k) {
            Some(i) => {
                assert(s[i] == front[i]);
                assert forall|j: int| 0 <= j < i && j < s.len() implies (#[trigger] s[j]).0
                    != k by {
                    assert(s[j] == front[j]);
                }
            },
            None => {
                assert forall|j: int| 0 <= j < s.len() - 1 implies (#[trigger] s[j]).0 != k by {
                    assert(s[j] == front[j]);
                }
            },
        }
    }
}

/// A position that holds the key, with no earlier one that does, is what
/// `key_index` finds.
pub proof fn lemma_key_index_is(s: Pairs, k: Seq<char>, i: int)
    requires
        0 <= i < s.len(),
        s[i].0 == k,
        key_absent_before(s, k, i),
    ensures
        key_index(s, k) == Some(i),
{
    lemma_key_index(s, k);
    match key_index(s, k) {
        Some(j) => {
            if j < i {
                assert(s[j].0 != k);
            } else if i < j {
                assert(s[i].0 != k);
            }
        },
        None => {
            assert(s[i].0 != k);
        },
    }
}

/// Storing a value changes the position of no key: each key is found
/// where it was, and the stored key, where it is new, at the end.
pub proof fn lemma_put_key_index(s: Pairs, k: Seq<char>, v: Seq<char>, other: Seq<char>)
    ensures
        key_index(put(s, k, v), other) == if other == k && key_index(s, k).is_none() {
            Some(s.len() as int)
        } else {
            key_index(s, other)
        },
{
    let t = put(s, k, v);
    lemma_key_index(s, k);
    lemma_key_index(s, other);
    match key_index(s, k) {
        Some(p) => {
            assert forall|j: int| 0 <= j < t.len() implies (#[trigger] t[j]).0 == s[j].0 by {}
            match key_index(s, other) {
                Some(i) => {
                    assert forall|j: int| 0 <= j < i && j < t.len() implies (#[trigger] t[j]).0
                        != other by {
                        assert(s[j].0 != other);
                    }
                    lemma_key_index_is(t, other, i);
                },
                None => {
                    lemma_key_index(t, other);
                    if key_index(t, other).is_some() {
                        let j = key_index(t, other).unwrap();
                        assert(s[j].0 != other);
                    }
                },
            }
        },
        None => {
            assert(t.drop_last() =~= s);
        },
    }
}

/// Read as a map, the store after `put` is the map before with the pair
/// inserted.
pub proof fn lemma_put_as_map(s: Pairs, k: Seq<char>, v: Seq<char>)
    ensures
        as_map(put(s, k, v)) == as_map(s).insert(k, v),
        lookup(put(s, k, v), k) == Some(v),
{
    let t = put(s, k, v);
    lemma_key_index(s, k);
    assert forall|other: Seq<char>|
        lookup(t, other) == if other == k {
            Some(v)
        } else {
            #[trigger] lookup(s, other)
        } by {
        lemma_put_key_index(s, k, v, other);
        lemma_key_index(s, other);
    }
    assert forall|other: Seq<char>| #[trigger]
        key_index(t, other).is_some() == (other == k || key_index(s, other).is_some()) by {
        lemma_put_key_index(s, k, v, other);
    }
    assert(lookup(s, k) == lookup(s, k));
    lemma_put_key_index(s, k, v, k);
    assert(as_map(t) =~= as_map(s).insert(k, v));
}

/// Storing a value under a key that is stored already keeps the number of
/// pairs; under a new key it adds one.
pub proof fn lemma_put_len(s: Pairs, k: Seq<char>, v: Seq<char>)
    ensures
        put(s, k, v).len() == if key_index(s, k).is_some() {
            s.len()
        } else {
            s.len() + 1
        },
{
    lemma_key_index(s, k);
}

/// Storing a value keeps the keys distinct.
pub proof fn lemma_put_keeps_distinct(s: Pairs, k: Seq<char>, v: Seq<char>)
    requires
        keys_distinct(s),
    ensures
        keys_distinct(put(s, k, v)),
{
    lemma_key_index(s, k);
    let t = put(s, k, v);
    match key_index(s, k) {
        Some(p) => {
            assert forall|i: int, j: int| 0 <= i < j < t.len() implies (#[trigger] t[i]).0 != (
            #[trigger] t[j]).0 by {
                assert(t[i].0 == s[i].0);
                assert(t[j].0 == s[j].0);
            }
        },
        None => {
            assert forall|i: int, j: int| 0 <= i < j < t.len() implies (#[trigger] t[i]).0 != (
            #[trigger] t[j]).0 by {
                assert(t[i] == s[i]);
                if j < s.len() {
                    assert(t[j] == s[j]);
                } else {
                    assert(s[i].0 != k);
                }
            }
        },
    }
}

/// Taking a pair out keeps the keys distinct.
pub proof fn lemma_take_out_keeps_distinct(s: Pairs, n: nat)
    requires
        keys_distinct(s),
    ensures
        keys_distinct(take_out(s, n)),
{
    let t = take_out(s, n);
    if n < s.len() {
        assert forall|i: int, j: int| 0 <= i < j < t.len() implies (#[trigger] t[i]).0 != (
        #[trigger] t[j]).0 by {
            let si = if i < n { i } else { i + 1 };
            let sj = if j < n { j } else { j + 1 };
            assert(t[i] == s[si]);
            assert(t[j] == s[sj]);
        }
    }
}

/// Key/value pairs with unique keys, in the order in which their keys were
/// first inserted.
pub struct Store {
    entries: Vec<(String, String)>,
}

impl View for Store {
    type V = Pairs;

    closed spec fn view(&self) -> Pairs {
        Seq::new(self.entries@.len(), |i: int| (self.entries@[i].0@, self.entries@[i].1@))
    }
}

impl Store {
    /// The store's invariant: no key occurs twice.
    pub open spec fn wf(&self) -> bool {
        keys_distinct(self@)
    }

    /// The number of pairs fits in a `usize`.
    pub proof fn lemma_len_fits(&self)
        ensures
            self@.len() <= usize::MAX,
    {
        assert(self.entries.len() == self.entries@.len());
    }

    /// An empty store.
    pub fn new() -> (r: Store)
        ensures
            r@ == Pairs::empty(),
            r.wf(),
    {
        let r = Store { entries: Vec::new() };
        assert(r@ =~= Pairs::empty());
        r
    }

    /// The number of pairs.
    pub fn len(&self) -> (r: usize)
        ensures
            r == self@.len(),
    {
        self.entries.len()
    }

    /// The position of the pair with the given key.
    pub fn position(&self, key: &String) -> (r: Option<usize>)
        ensures
            match r {
                Some(i) => key_index(self@, key@) == Some(i as int),
                None => key_index(self@, key@).is_none(),
            },
    {
        let mut i: usize = 0;
        while i < self.entries.len()
            invariant
                i <= self.entries@.len(),
                key_absent_before(self@, key@, i as int),
            decreases self.entries@.len() - i,
        {
            if self.entries[i].0 == *key {
                proof {
                    lemma_key_index_is(self@, key@, i as int);
                }
                return Some(i);
            }
            i = i + 1;
        }
        proof {
            lemma_key_index(self@, key@);
        }
        None
    }

    /// The value stored under the given key.
    pub fn get(&self, key: &String) -> (r: Option<&String>)
        ensures
            match r {
                Some(v) => lookup(self@, key@) == Some(v@),
                None => lookup(self@, key@).is_none(),
            },
    {
        match self.position(key) {
            Some(i) => {
                proof {
                    lemma_key_index(self@, key@);
                }
                Some(&self.entries[i].1)
            },
            None => None,
        }
    }

    /// The key and the value at a position, counted from zero in the
    /// store's order; `None` for a position past the end.
    pub fn entry(&self, index: usize) -> (r: Option<(&String, &String)>)
        ensures
            match r {
                Some(p) => index < self@.len() && (p.0@, p.1@) == self@[index as int],
                None => index >= self@.len(),
            },
    {
        if index < self.entries.len() {
            Some((&self.entries[index].0, &self.entries[index].1))
        } else {
            None
        }
    }

    /// Stores `value` under `key`: an existing key keeps its position and
    /// takes the new value, a new key goes to the end.
    pub fn insert(&mut self, key: String, value: String)
        requires
            old(self).wf(),
        ensures
            final(self)@ == put(old(self)@, key@, value@),
            final(self).wf(),
    {
        proof {
            lemma_put_keeps_distinct(self@, key@, value@);
        }
        match self.position(&key) {
            Some(i) => {
                proof {
                    lemma_key_index(self@, key@);
                }
                self.entries.set(i, (key, value));
            },
            None => {
                self.entries.push((key, value));
            },
        }
        assert(self@ =~= put(old(self)@, key@, value@));
    }

    /// Takes out the pair at `index`; the others keep their order. A
    /// position past the end takes nothing out.
    pub fn remove_at(&mut self, index: usize)
        requires
            old(self).wf(),
        ensures
            final(self)@ == take_out(old(self)@, index as nat),
            final(self).wf(),
    {
        proof {
            lemma_take_out_keeps_distinct(self@, index as nat);
        }
        if index < self.entries.len() {
            self.entries.remove(index);
        }
        assert(self@ =~= take_out(old(self)@, index as nat));
    }
}

} // verus!
