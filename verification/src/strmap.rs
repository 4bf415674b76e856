//! A map from text keys to values, kept as a list in which no key occurs
//! twice. Its view is the mathematical map from a key's characters to the
//! view of the value stored under it.

use vstd::prelude::*;

verus! {

/// A map keyed by strings.
#[derive(Debug)]
pub struct StrMap<V> {
    entries: Vec<(String, V)>,
}

/// Index of the first pair of `s` whose key reads `key`, or the length of
/// `s` where there is none.
pub open spec fn position_of<V>(s: Seq<(String, V)>, key: Seq<char>) -> int
    decreases s.len(),
{
    if s.len() == 0 {
        0
    } else if s[0].0@ == key {
        0
    } else {
        1 + position_of(s.drop_first(), key)
    }
}

proof fn lemma_position_of<V>(s: Seq<(String, V)>, key: Seq<char>)
    ensures
        0 <= position_of(s, key) <= s.len(),
        position_of(s, key) < s.len() ==> s[position_of(s, key)].0@ == key,
        forall|i: int| 0 <= i < position_of(s, key) ==> (#[trigger] s[i]).0@ != key,
    decreases s.len(),
{
    if s.len() != 0 && s[0].0@ != key {
        let rest = s.drop_first();
        lemma_position_of(rest, key);
        assert forall|i: int| 0 <= i < position_of(s, key) implies (#[trigger] s[i]).0@ != key by {
            if i > 0 {
                assert(s[i] == rest[i - 1]);
            }
        }
    }
}

/// One of the first `n` texts of `keys` is `key`.
pub open spec fn among(keys: Seq<String>, n: int, key: Seq<char>) -> bool {
    exists|j: int| 0 <= j < n && (#[trigger] keys[j])@ == key
}

/// No key occurs twice in `s`.
pub open spec fn distinct_keys<V>(s: Seq<(String, V)>) -> bool {
    forall|i: int, j: int|
        0 <= i < j < s.len() ==> (#[trigger] s[i]).0@ != (#[trigger] s[j]).0@
}

impl<V: View> View for StrMap<V> {
    type V = Map<Seq<char>, V::V>;

    closed spec fn view(&self) -> Map<Seq<char>, V::V> {
        Map::new(
            |k: Seq<char>| position_of(self.entries@, k) < self.entries@.len(),
            |k: Seq<char>| self.entries@[position_of(self.entries@, k)].1@,
        )
    }
}

impl<V> StrMap<V> {
    #[verifier::type_invariant]
    spec fn keys_occur_once(self) -> bool {
        distinct_keys(self.entries@)
    }
}

impl<V: View> StrMap<V> {
    /// The keys in the order in which the map holds them.
    pub closed spec fn key_seq(self) -> Seq<Seq<char>> {
        self.entries@.map_values(|p: (String, V)| p.0@)
    }

    /// An empty map.
    pub fn new() -> (r: Self)
        ensures
            r@ == Map::<Seq<char>, V::V>::empty(),
    {
        let r = StrMap { entries: Vec::new() };
        assert(r@ =~= Map::<Seq<char>, V::V>::empty());
        r
    }

    fn find(&self, key: &str) -> (r: usize)
        ensures
            r == position_of(self.entries@, key@),
            r <= self.entries@.len(),
            r < self.entries@.len() <==> self@.contains_key(key@),
            r < self.entries@.len() ==> self.entries@[r as int].0@ == key@ && self@[key@]
                == self.entries@[r as int].1@,
    {
        proof {
            lemma_position_of(self.entries@, key@);
        }
        let mut i: usize = 0;
        while i < self.entries.len()
            invariant
                i <= self.entries@.len(),
                i <= position_of(self.entries@, key@),
                position_of(self.entries@, key@) <= self.entries@.len(),
                position_of(self.entries@, key@) < self.entries@.len() ==> self.entries@[position_of(
                    self.entries@,
                    key@,
                )].0@ == key@,
            decreases self.entries@.len() - i,
        {
            if same_text(self.entries[i].0.as_str(), key) {
                proof {
                    lemma_position_of(self.entries@, key@);
                }
                return i;
            }
            i = i + 1;
        }
        i
    }

    /// The number of keys. The keys of `key_seq` are those of the view, each
    /// once.
    pub fn len(&self) -> (r: usize)
        ensures
            r == self.key_seq().len(),
            self.key_seq().no_duplicates(),
            forall|k: Seq<char>| self.key_seq().contains(k) <==> self@.contains_key(k),
            self@.dom().finite(),
            r == self@.dom().len(),
    {
        proof {
            use_type_invariant(self);
            let s = self.entries@;
            let ks = self.key_seq();
            assert forall|i: int, j: int| 0 <= i < ks.len() && 0 <= j < ks.len() && i != j implies ks[i]
                != ks[j] by {
                if i < j {
                    assert(s[i].0@ != s[j].0@);
                } else {
                    assert(s[j].0@ != s[i].0@);
                }
            }
            ks.unique_seq_to_set();
            vstd::seq_lib::seq_to_set_is_finite(ks);
            assert(ks.to_set() =~= self@.dom()) by {
                assert forall|k: Seq<char>| ks.to_set().contains(k) <==> self@.dom().contains(k) by {
                    lemma_position_of(s, k);
                    if ks.contains(k) {
                        let i = choose|i: int| 0 <= i < ks.len() && ks[i] == k;
                        assert(s[i].0@ == k);
                    }
                    if self@.contains_key(k) {
                        assert(ks[position_of(s, k)] == k);
                    }
                }
            }
            assert forall|k: Seq<char>| self.key_seq().contains(k) <==> self@.contains_key(k) by {
                lemma_position_of(s, k);
                if self.key_seq().contains(k) {
                    let i = choose|i: int| 0 <= i < self.key_seq().len() && self.key_seq()[i] == k;
                    assert(s[i].0@ == k);
                }
                if self@.contains_key(k) {
                    assert(self.key_seq()[position_of(s, k)] == k);
                }
            }
        }
        self.entries.len()
    }

    /// Whether `key` has a value.
    pub fn contains_key(&self, key: &str) -> (r: bool)
        ensures
            r == self@.contains_key(key@),
    {
        self.find(key) < self.entries.len()
    }

    /// The value stored under `key`.
    pub fn get(&self, key: &str) -> (r: Option<&V>)
        ensures
            r is Some <==> self@.contains_key(key@),
            r matches Some(v) ==> v@ == self@[key@],
    {
        let i = self.find(key);
        if i < self.entries.len() {
            Some(&self.entries[i].1)
        } else {
            None
        }
    }

    /// The key at position `i` of `key_seq`.
    pub fn key_at(&self, i: usize) -> (r: &String)
        requires
            i < self.key_seq().len(),
        ensures
            r@ == self.key_seq()[i as int],
            self@.contains_key(r@),
    {
        proof {
            lemma_position_of(self.entries@, self.entries@[i as int].0@);
        }
        &self.entries[i].0
    }

    /// The keys: those of the view, each once.
    pub fn keys(&self) -> (r: Vec<String>)
        ensures
            r@.len() == self.key_seq().len(),
            forall|i: int| 0 <= i < r@.len() ==> (#[trigger] r@[i])@ == self.key_seq()[i],
            forall|i: int, j: int|
                0 <= i < j < r@.len() ==> (#[trigger] r@[i])@ != (#[trigger] r@[j])@,
            forall|k: Seq<char>| self@.contains_key(k) <==> among(r@, r@.len() as int, k),
    {
        let count = self.len();
        let mut keys: Vec<String> = Vec::new();
        let mut i: usize = 0;
        while i < count
            invariant
                count == self.key_seq().len(),
                i <= count,
                keys@.len() == i,
                forall|j: int| 0 <= j < i ==> (#[trigger] keys@[j])@ == self.key_seq()[j],
            decreases count - i,
        {
            keys.push(self.key_at(i).clone());
            i = i + 1;
        }
        proof {
            let ks = self.key_seq();
            assert forall|a: int, b: int| 0 <= a < b < keys@.len() implies (#[trigger] keys@[a])@ != (
            #[trigger] keys@[b])@ by {
                assert(ks[a] != ks[b]);
            }
            assert forall|k: Seq<char>| self@.contains_key(k) <==> among(
                keys@,
                keys@.len() as int,
                k,
            ) by {
                if self@.contains_key(k) {
                    assert(ks.contains(k));
                    let j = choose|j: int| 0 <= j < ks.len() && ks[j] == k;
                    assert(keys@[j]@ == k);
                }
                if among(keys@, keys@.len() as int, k) {
                    let j = choose|j: int| 0 <= j < keys@.len() && (#[trigger] keys@[j])@ == k;
                    assert(ks[j] == k);
                    assert(ks.contains(k));
                }
            }
        }
        keys
    }

    /// Stores `value` under `key`, in place of what was there.
    pub fn insert(&mut self, key: String, value: V)
        ensures
            final(self)@ == old(self)@.insert(key@, value@),
    {
        proof {
            use_type_invariant(&*self);
        }
        let i = self.find(key.as_str());
        let ghost before = self.entries@;
        let ghost k = key@;
        let ghost v = value@;
        let mut entries: Vec<(String, V)> = Vec::new();
        core::mem::swap(&mut self.entries, &mut entries);
        if i < entries.len() {
            entries.set(i, (key, value));
        } else {
            entries.push((key, value));
        }
        proof {
            lemma_position_of(before, k);
            assert forall|a: int, b: int| 0 <= a < b < entries@.len() implies (
            #[trigger] entries@[a]).0@ != (#[trigger] entries@[b]).0@ by {
                if a < before.len() && a != i {
                    assert(entries@[a] == before[a]);
                }
                if b < before.len() && b != i {
                    assert(entries@[b] == before[b]);
                }
            }
        }
        self.entries = entries;
        proof {
            let after = self.entries@;
            assert forall|q: Seq<char>|
                #![auto]
                position_of(after, q) < after.len() <==> (q == k || position_of(before, q)
                    < before.len()) by {
                lemma_position_of(after, q);
                lemma_position_of(before, q);
                lemma_position_of(before, k);
                if position_of(before, q) < before.len() {
                    assert(after[position_of(before, q)].0@ == q);
                }
                if q == k {
                    assert(after[i as int].0@ == q);
                }
            }
            assert forall|q: Seq<char>| position_of(after, q) < after.len() implies #[trigger] after[position_of(
                after,
                q,
            )].1@ == (if q == k {
                v
            } else {
                before[position_of(before, q)].1@
            }) by {
                lemma_position_of(after, q);
                lemma_position_of(before, q);
                lemma_position_of(before, k);
                let pa = position_of(after, q);
                if q == k {
                    assert(after[i as int].0@ == q);
                    assert(pa == i);
                } else {
                    assert(pa < before.len());
                    assert(before[pa].0@ == q);
                    assert(position_of(before, q) < before.len());
                    assert(after[position_of(before, q)].0@ == q);
                }
            }
            assert(final(self)@ =~= old(self)@.insert(k, v));
        }
    }

    /// Takes `key` and its value out of the map.
    pub fn remove(&mut self, key: &str) -> (r: Option<V>)
        ensures
            final(self)@ == old(self)@.remove(key@),
            r is Some <==> old(self)@.contains_key(key@),
            r matches Some(v) ==> v@ == old(self)@[key@],
    {
        proof {
            use_type_invariant(&*self);
        }
        let i = self.find(key);
        if i >= self.entries.len() {
            assert(final(self)@ =~= old(self)@.remove(key@));
            return None;
        }
        let ghost before = self.entries@;
        let ghost k = key@;
        let mut entries: Vec<(String, V)> = Vec::new();
        core::mem::swap(&mut self.entries, &mut entries);
        let pair = entries.remove(i);
        self.entries = entries;
        proof {
            let after = self.entries@;
            assert forall|q: Seq<char>|
                #![auto]
                position_of(after, q) < after.len() <==> (q != k && position_of(before, q)
                    < before.len()) by {
                lemma_position_of(after, q);
                lemma_position_of(before, q);
                let pb = position_of(before, q);
                if q != k && pb < before.len() {
                    if pb < i {
                        assert(after[pb].0@ == q);
                    } else {
                        assert(after[pb - 1].0@ == q);
                    }
                }
                let pa = position_of(after, q);
                if pa < after.len() {
                    if pa < i {
                        assert(before[pa].0@ == q);
                    } else {
                        assert(before[pa + 1].0@ == q);
                    }
                }
            }
            assert forall|q: Seq<char>| position_of(after, q) < after.len() implies #[trigger] after[position_of(
                after,
                q,
            )].1@ == before[position_of(before, q)].1@ by {
                lemma_position_of(after, q);
                lemma_position_of(before, q);
                let pa = position_of(after, q);
                let pb = position_of(before, q);
                if pa < i {
                    assert(before[pa].0@ == q);
                } else {
                    assert(before[pa + 1].0@ == q);
                }
            }
            assert(final(self)@ =~= old(self)@.remove(k));
        }
        Some(pair.1)
    }
}

impl<V: Clone + View> Clone for StrMap<V> {
    /// A map with the same keys, each with a clone of its value.
    fn clone(&self) -> (r: Self)
        ensures
            r@.dom() == self@.dom(),
    {
        proof {
            use_type_invariant(self);
        }
        let mut entries: Vec<(String, V)> = Vec::new();
        let mut i: usize = 0;
        while i < self.entries.len()
            invariant
                i <= self.entries@.len(),
                entries@.len() == i,
                forall|j: int| 0 <= j < i ==> (#[trigger] entries@[j]).0@ == self.entries@[j].0@,
            decreases self.entries@.len() - i,
        {
            entries.push((self.entries[i].0.clone(), self.entries[i].1.clone()));
            i = i + 1;
        }
        proof {
            assert forall|a: int, b: int| 0 <= a < b < entries@.len() implies (
            #[trigger] entries@[a]).0@ != (#[trigger] entries@[b]).0@ by {
                assert(self.entries@[a].0@ != self.entries@[b].0@);
            }
        }
        let r = StrMap { entries };
        proof {
            assert forall|k: Seq<char>| r@.dom().contains(k) <==> self@.dom().contains(k) by {
                lemma_position_of(r.entries@, k);
                lemma_position_of(self.entries@, k);
                let p = position_of(r.entries@, k);
                let q = position_of(self.entries@, k);
                if p < r.entries@.len() {
                    assert(self.entries@[p].0@ == k);
                }
                if q < self.entries@.len() {
                    assert(r.entries@[q].0@ == k);
                }
            }
            assert(r@.dom() =~= self@.dom());
        }
        r
    }
}

/// Whether two texts hold the same characters.
pub fn same_text(a: &str, b: &str) -> (r: bool)
    ensures
        r == (a@ == b@),
{
    let n = a.unicode_len();
    if n != b.unicode_len() {
        return false;
    }
    let mut i: usize = 0;
    while i < n
        invariant
            n == a@.len(),
            n == b@.len(),
            i <= n,
            forall|j: int| 0 <= j < i ==> a@[j] == b@[j],
        decreases n - i,
    {
        if a.get_char(i) != b.get_char(i) {
            return false;
        }
        i = i + 1;
    }
    assert(a@ =~= b@);
    true
}

} // verus!
