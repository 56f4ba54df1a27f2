//! A map with text keys.
use crate::text::str_same;
use vstd::prelude::*;

verus! {

/// A map from text to values, kept as a list of pairs: the first pair of a key counts.
#[derive(Debug)]
pub struct TextMap<V> {
    entries: Vec<(String, V)>,
}

/// The position of a key's first pair, or the number of pairs.
spec fn position<V>(entries: Seq<(String, V)>, key: Seq<char>) -> nat
    decreases entries.len(),
{
    if entries.len() == 0 {
        0
    } else if entries[0].0@ == key {
        0
    } else {
        1 + position(entries.skip(1), key)
    }
}

proof fn lemma_position<V>(entries: Seq<(String, V)>, key: Seq<char>)
    ensures
        position(entries, key) <= entries.len(),
        position(entries, key) < entries.len() ==> entries[position(entries, key) as int].0@ == key,
        forall|i: int|
            0 <= i < position(entries, key) ==> (#[trigger] entries[i]).0@ != key,
    decreases entries.len(),
{
    if entries.len() > 0 && entries[0].0@ != key {
        let rest = entries.skip(1);
        lemma_position(rest, key);
        assert forall|i: int| 0 <= i < position(entries, key) implies (
        #[trigger] entries[i]).0@ != key by {
            if i > 0 {
                assert(rest[i - 1] == entries[i]);
            }
        }
    }
}

proof fn lemma_position_is<V>(entries: Seq<(String, V)>, key: Seq<char>, n: int)
    requires
        0 <= n <= entries.len(),
        n < entries.len() ==> entries[n].0@ == key,
        forall|i: int| 0 <= i < n ==> (#[trigger] entries[i]).0@ != key,
    ensures
        position(entries, key) == n,
{
    lemma_position(entries, key);
    let p = position(entries, key) as int;
    if p < n {
        assert(entries[p].0@ != key);
    }
}

/// What a list of pairs maps each key to.
pub closed spec fn mapping<V>(entries: Seq<(String, V)>) -> Map<Seq<char>, V> {
    Map::new(
        |k: Seq<char>| position(entries, k) < entries.len(),
        |k: Seq<char>| entries[position(entries, k) as int].1,
    )
}

proof fn lemma_mapping_first<V>(entries: Seq<(String, V)>)
    requires
        entries.len() > 0,
    ensures
        mapping(entries) == mapping(entries.skip(1)).insert(entries[0].0@, entries[0].1),
{
    let rest = entries.skip(1);
    assert forall|k: Seq<char>| mapping(entries).contains_key(k) implies mapping(entries)[k]
        == mapping(rest).insert(entries[0].0@, entries[0].1)[k] by {
        if k != entries[0].0@ {
            assert(entries[position(entries, k) as int] == rest[position(rest, k) as int]);
        }
    }
    assert(mapping(entries) =~= mapping(rest).insert(entries[0].0@, entries[0].1));
}

impl<V> View for TextMap<V> {
    type V = Map<Seq<char>, V>;

    closed spec fn view(&self) -> Map<Seq<char>, V> {
        mapping(self.entries@)
    }
}

impl<V> TextMap<V> {
    /// An empty map.
    pub fn new() -> (r: Self)
        ensures
            r@ == Map::<Seq<char>, V>::empty(),
    {
        let r = TextMap { entries: Vec::new() };
        assert(r@ =~= Map::<Seq<char>, V>::empty());
        r
    }

    fn find(&self, key: &str) -> (r: usize)
        ensures
            r == position(self.entries@, key@),
            r <= self.entries@.len(),
            r < self.entries@.len() <==> self@.contains_key(key@),
            r < self.entries@.len() ==> self.entries@[r as int].1 == self@[key@],
    {
        let mut i: usize = 0;
        while i < self.entries.len()
            invariant
                i <= self.entries@.len(),
                forall|j: int| 0 <= j < i ==> (#[trigger] self.entries@[j]).0@ != key@,
            decreases self.entries.len() - i,
        {
            if str_same(self.entries[i].0.as_str(), key) {
                proof {
                    lemma_position_is(self.entries@, key@, i as int);
                }
                return i;
            }
            i = i + 1;
        }
        proof {
            lemma_position_is(self.entries@, key@, i as int);
        }
        i
    }

    /// Whether a key is present.
    pub fn contains_key(&self, key: &str) -> (r: bool)
        ensures
            r == self@.contains_key(key@),
    {
        self.find(key) < self.entries.len()
    }

    /// The value of a key.
    pub fn get(&self, key: &str) -> (r: Option<&V>)
        ensures
            match r {
                Some(v) => self@.contains_key(key@) && *v == self@[key@],
                None => !self@.contains_key(key@),
            },
    {
        let i: usize = self.find(key);
        if i < self.entries.len() {
            Some(&self.entries[i].1)
        } else {
            None
        }
    }

    /// Takes a key out, with its value.
    pub fn remove(&mut self, key: &str) -> (r: Option<V>)
        ensures
            final(self)@ == old(self)@.remove(key@),
            match r {
                Some(v) => old(self)@.contains_key(key@) && v == old(self)@[key@],
                None => !old(self)@.contains_key(key@),
            },
    {
        let ghost start = self.entries@;
        let mut taken: Option<V> = None;
        let mut kept: Vec<(String, V)> = Vec::new();
        let mut rest: Vec<(String, V)> = Vec::new();
        std::mem::swap(&mut rest, &mut self.entries);
        assert(mapping(kept@) =~= mapping(start.skip(start.len() as int)).remove(key@));
        while rest.len() > 0
            invariant
                rest@ == start.take(rest@.len() as int),
                rest@.len() <= start.len(),
                mapping(kept@) == mapping(start.skip(rest@.len() as int)).remove(key@),
                match taken {
                    Some(v) => mapping(start.skip(rest@.len() as int)).contains_key(key@) && v
                        == mapping(start.skip(rest@.len() as int))[key@],
                    None => !mapping(start.skip(rest@.len() as int)).contains_key(key@),
                },
            decreases rest@.len(),
        {
            let ghost n = rest@.len() as int;
            let ghost longer = start.skip(n - 1);
            let ghost before = kept@;
            let entry = rest.pop().unwrap();
            assert(longer.skip(1) == start.skip(n));
            assert(longer[0] == entry);
            proof {
                lemma_mapping_first(longer);
            }
            if str_same(entry.0.as_str(), key) {
                taken = Some(entry.1);
                assert(mapping(kept@) =~= mapping(longer).remove(key@));
            } else {
                kept.insert(0, entry);
                assert(kept@.skip(1) == before);
                proof {
                    lemma_mapping_first(kept@);
                }
                assert(mapping(kept@) =~= mapping(longer).remove(key@));
            }
        }
        assert(start.skip(0) == start);
        self.entries = kept;
        taken
    }

    /// Gives a key a value, in place of one that it had.
    pub fn insert(&mut self, key: String, value: V)
        ensures
            final(self)@ == old(self)@.insert(key@, value),
    {
        let ghost start = self@;
        let _ = self.remove(key.as_str());
        let mut entries: Vec<(String, V)> = Vec::new();
        std::mem::swap(&mut entries, &mut self.entries);
        let ghost rest = entries@;
        entries.insert(0, (key, value));
        assert(entries@.skip(1) == rest);
        proof {
            lemma_mapping_first(entries@);
        }
        self.entries = entries;
        assert(start.remove(key@).insert(key@, value) =~= start.insert(key@, value));
    }

    /// Some key, if there is any.
    pub fn any_key(&self) -> (r: Option<&String>)
        ensures
            match r {
                Some(k) => self@.contains_key(k@),
                None => self@ == Map::<Seq<char>, V>::empty(),
            },
    {
        if self.entries.len() == 0 {
            assert(self@ =~= Map::<Seq<char>, V>::empty());
            None
        } else {
            let r = &self.entries[0].0;
            proof {
                lemma_position_is(self.entries@, r@, 0);
            }
            Some(r)
        }
    }

    /// Every key, once.
    pub fn keys(&self) -> (r: Vec<String>)
        ensures
            forall|i: int, j: int|
                0 <= i < j < r@.len() ==> (#[trigger] r@[i])@ != (#[trigger] r@[j])@,
            forall|i: int| 0 <= i < r@.len() ==> self@.contains_key((#[trigger] r@[i])@),
            forall|k: Seq<char>| #[trigger]
                self@.contains_key(k) ==> exists|i: int|
                    0 <= i < r@.len() && (#[trigger] r@[i])@ == k,
    {
        let mut out: Vec<String> = Vec::new();
        let mut n: usize = 0;
        let ghost mut from: Seq<int> = Seq::empty();
        while n < self.entries.len()
            invariant
                n <= self.entries@.len(),
                from.len() == out@.len(),
                forall|i: int|
                    #![trigger out@[i]]
                    #![trigger from[i]]
                    0 <= i < out@.len() ==> 0 <= from[i] < n && position(self.entries@, out@[i]@)
                        == from[i] && from[i] < self.entries@.len(),
                forall|i: int, j: int|
                    0 <= i < j < from.len() ==> #[trigger] from[i] < #[trigger] from[j],
                forall|k: Seq<char>|
                    position(self.entries@, k) < n ==> exists|i: int|
                        0 <= i < out@.len() && (#[trigger] out@[i])@ == k,
            decreases self.entries.len() - n,
        {
            let key = &self.entries[n].0;
            let ghost before = out@;
            if self.find(key.as_str()) == n {
                out.push(key.clone());
                proof {
                    from = from.push(n as int);
                }
                assert(out@.last()@ == key@);
            }
            assert forall|k: Seq<char>| position(self.entries@, k) < n + 1 implies exists|i: int|
                0 <= i < out@.len() && (#[trigger] out@[i])@ == k by {
                if position(self.entries@, k) < n {
                    let i = choose|i: int| 0 <= i < before.len() && (#[trigger] before[i])@ == k;
                    assert(out@[i]@ == k);
                } else {
                    lemma_position(self.entries@, k);
                    assert(out@[out@.len() - 1]@ == k);
                }
            }
            n = n + 1;
        }
        assert forall|k: Seq<char>| #[trigger] self@.contains_key(k) implies exists|i: int|
            0 <= i < out@.len() && (#[trigger] out@[i])@ == k by {
            assert(position(self.entries@, k) < n);
        }
        assert forall|i: int, j: int| 0 <= i < j < out@.len() implies (#[trigger] out@[i])@ != (
        #[trigger] out@[j])@ by {
            assert(from[i] < from[j]);
        }
        out
    }
}

} // verus!
