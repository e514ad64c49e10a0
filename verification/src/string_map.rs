//! A finite mapping from strings to strings, kept as a list of distinct keys.

use vstd::prelude::*;

verus! {

/// The mapping that a list of pairs denotes: pairs are inserted in order,
/// so of two pairs with one key the later one stands.
pub open spec fn pairs_map(pairs: Seq<(String, String)>) -> Map<Seq<char>, Seq<char>>
    decreases pairs.len(),
{
    if pairs.len() == 0 {
        Map::empty()
    } else {
        pairs_map(pairs.drop_last()).insert(pairs.last().0@, pairs.last().1@)
    }
}

/// No two pairs of the list share a key.
pub open spec fn distinct_keys(pairs: Seq<(String, String)>) -> bool {
    forall|i: int, j: int| 0 <= i < j < pairs.len() ==> pairs[i].0@ != pairs[j].0@
}

/// The keys of `pairs_map` are the keys of the list.
pub proof fn lemma_pairs_map_dom(pairs: Seq<(String, String)>, key: Seq<char>)
    ensures
        pairs_map(pairs).contains_key(key) <==> exists|i: int|
            0 <= i < pairs.len() && #[trigger] pairs[i].0@ == key,
    decreases pairs.len(),
{
    if pairs.len() > 0 {
        let front = pairs.drop_last();
        lemma_pairs_map_dom(front, key);
        if pairs_map(pairs).contains_key(key) {
            if pairs.last().0@ == key {
                assert(pairs[pairs.len() - 1].0@ == key);
            } else {
                let i = choose|i: int| 0 <= i < front.len() && #[trigger] front[i].0@ == key;
                assert(pairs[i].0@ == key);
            }
        }
        if exists|i: int| 0 <= i < pairs.len() && #[trigger] pairs[i].0@ == key {
            let i = choose|i: int| 0 <= i < pairs.len() && #[trigger] pairs[i].0@ == key;
            if i < pairs.len() - 1 {
                assert(front[i].0@ == key);
            }
        }
    }
}

/// With distinct keys, every pair of the list is an entry of `pairs_map`.
pub proof fn lemma_pairs_map_value(pairs: Seq<(String, String)>, i: int)
    requires
        distinct_keys(pairs),
        0 <= i < pairs.len(),
    ensures
        pairs_map(pairs).contains_key(pairs[i].0@),
        pairs_map(pairs)[pairs[i].0@] == pairs[i].1@,
    decreases pairs.len(),
{
    let front = pairs.drop_last();
    if i < pairs.len() - 1 {
        assert(distinct_keys(front)) by {
            assert forall|a: int, b: int| 0 <= a < b < front.len() implies front[a].0@
                != front[b].0@ by {
                assert(pairs[a].0@ != pairs[b].0@);
            }
        }
        lemma_pairs_map_value(front, i);
        assert(front[i] == pairs[i]);
        assert(pairs[i].0@ != pairs[pairs.len() - 1].0@);
    }
}

/// With distinct keys, `pairs_map` is finite and has one entry for each pair.
pub proof fn lemma_pairs_map_len(pairs: Seq<(String, String)>)
    requires
        distinct_keys(pairs),
    ensures
        pairs_map(pairs).dom().finite(),
        pairs_map(pairs).len() == pairs.len(),
    decreases pairs.len(),
{
    if pairs.len() > 0 {
        let front = pairs.drop_last();
        assert(distinct_keys(front)) by {
            assert forall|a: int, b: int| 0 <= a < b < front.len() implies front[a].0@
                != front[b].0@ by {
                assert(pairs[a].0@ != pairs[b].0@);
            }
        }
        lemma_pairs_map_len(front);
        lemma_pairs_map_dom(front, pairs.last().0@);
        if pairs_map(front).contains_key(pairs.last().0@) {
            let key = pairs.last().0@;
            let i = choose|i: int| 0 <= i < front.len() && #[trigger] front[i].0@ == key;
            assert(pairs[i].0@ == pairs[pairs.len() - 1].0@);
        }
    }
}

/// Replacing the value of a key that the list holds is an insertion into
/// `pairs_map`.
pub proof fn lemma_pairs_map_update(pairs: Seq<(String, String)>, i: int, pair: (String, String))
    requires
        distinct_keys(pairs),
        0 <= i < pairs.len(),
        pairs[i].0@ == pair.0@,
    ensures
        distinct_keys(pairs.update(i, pair)),
        pairs_map(pairs.update(i, pair)) == pairs_map(pairs).insert(pair.0@, pair.1@),
{
    let updated = pairs.update(i, pair);
    assert(distinct_keys(updated)) by {
        assert forall|a: int, b: int| 0 <= a < b < updated.len() implies updated[a].0@
            != updated[b].0@ by {
            assert(pairs[a].0@ != pairs[b].0@);
        }
    }
    let left = pairs_map(updated);
    let right = pairs_map(pairs).insert(pair.0@, pair.1@);
    assert forall|q: Seq<char>| left.contains_key(q) <==> right.contains_key(q) by {
        lemma_pairs_map_dom(updated, q);
        lemma_pairs_map_dom(pairs, q);
        if left.contains_key(q) {
            let j = choose|j: int| 0 <= j < updated.len() && #[trigger] updated[j].0@ == q;
            assert(pairs[j].0@ == q);
        }
        if right.contains_key(q) && q != pair.0@ {
            let j = choose|j: int| 0 <= j < pairs.len() && #[trigger] pairs[j].0@ == q;
            assert(updated[j].0@ == q);
        }
        if q == pair.0@ {
            assert(updated[i].0@ == q);
        }
    }
    assert forall|q: Seq<char>| left.contains_key(q) implies left[q] == right[q] by {
        lemma_pairs_map_dom(updated, q);
        let j = choose|j: int| 0 <= j < updated.len() && #[trigger] updated[j].0@ == q;
        lemma_pairs_map_value(updated, j);
        if j != i {
            assert(pairs[j].0@ != pairs[i].0@);
            lemma_pairs_map_value(pairs, j);
        }
    }
    assert(left =~= right);
}

/// A finite mapping from strings to strings.
#[derive(Debug)]
pub struct StringMap {
    entries: Vec<(String, String)>,
}

impl View for StringMap {
    type V = Map<Seq<char>, Seq<char>>;

    closed spec fn view(&self) -> Map<Seq<char>, Seq<char>> {
        pairs_map(self.entries@)
    }
}

impl StringMap {
    #[verifier::type_invariant]
    spec fn keys_are_distinct(self) -> bool {
        distinct_keys(self.entries@)
    }

    /// The empty mapping.
    pub fn new() -> (r: StringMap)
        ensures
            r@ == Map::<Seq<char>, Seq<char>>::empty(),
    {
        StringMap { entries: Vec::new() }
    }

    /// The number of keys.
    pub fn len(&self) -> (r: usize)
        ensures
            self@.dom().finite(),
            r == self@.len(),
    {
        proof {
            use_type_invariant(self);
            lemma_pairs_map_len(self.entries@);
        }
        self.entries.len()
    }

    /// Whether the mapping has no key.
    pub fn is_empty(&self) -> (r: bool)
        ensures
            r == (self@ == Map::<Seq<char>, Seq<char>>::empty()),
    {
        proof {
            use_type_invariant(self);
            lemma_pairs_map_len(self.entries@);
            if self.entries@.len() == 0 {
                assert(self@ =~= Map::<Seq<char>, Seq<char>>::empty());
            }
        }
        self.entries.len() == 0
    }

    /// The value stored under `key`.
    pub fn get(&self, key: &str) -> (r: Option<&String>)
        ensures
            match r {
                Some(v) => self@.contains_key(key@) && self@[key@] == v@,
                None => !self@.contains_key(key@),
            },
    {
        proof {
            use_type_invariant(self);
        }
        let wanted = key.to_string();
        let mut i: usize = 0;
        while i < self.entries.len()
            invariant
                i <= self.entries.len(),
                wanted@ == key@,
                distinct_keys(self.entries@),
                forall|k: int| 0 <= k < i ==> self.entries@[k].0@ != key@,
            decreases self.entries.len() - i,
        {
            if self.entries[i].0 == wanted {
                proof {
                    lemma_pairs_map_value(self.entries@, i as int);
                }
                return Some(&self.entries[i].1);
            }
            i = i + 1;
        }
        proof {
            lemma_pairs_map_dom(self.entries@, key@);
        }
        None
    }

    /// Whether the mapping has the key `key`.
    pub fn contains_key(&self, key: &str) -> (r: bool)
        ensures
            r == self@.contains_key(key@),
    {
        self.get(key).is_some()
    }

    /// Stores `value` under `key`, in place of the value that the key had.
    pub fn insert(&mut self, key: String, value: String)
        ensures
            final(self)@ == old(self)@.insert(key@, value@),
    {
        proof {
            use_type_invariant(&*self);
        }
        let mut i: usize = 0;
        while i < self.entries.len()
            invariant
                i <= self.entries.len(),
                self.entries == old(self).entries,
                distinct_keys(self.entries@),
                forall|k: int| 0 <= k < i ==> self.entries@[k].0@ != key@,
            decreases self.entries.len() - i,
        {
            if self.entries[i].0 == key {
                proof {
                    lemma_pairs_map_update(self.entries@, i as int, (key, value));
                }
                let mut entries: Vec<(String, String)> = Vec::new();
                core::mem::swap(&mut self.entries, &mut entries);
                entries.set(i, (key, value));
                self.entries = entries;
                return ;
            }
            i = i + 1;
        }
        proof {
            let pair = (key, value);
            let extended = self.entries@.push(pair);
            assert(extended.drop_last() =~= self.entries@);
            assert(distinct_keys(extended));
        }
        let mut entries: Vec<(String, String)> = Vec::new();
        core::mem::swap(&mut self.entries, &mut entries);
        entries.push((key, value));
        self.entries = entries;
    }

    /// Adds the entries of `other`; where both have a key, the value of
    /// `other` stands.
    pub fn extend(&mut self, other: &StringMap)
        ensures
            final(self)@ == old(self)@.union_prefer_right(other@),
    {
        let mut i: usize = 0;
        assert(other.entries@.subrange(0, 0) =~= Seq::<(String, String)>::empty());
        assert(self@ =~= old(self)@.union_prefer_right(pairs_map(other.entries@.subrange(0, 0))));
        while i < other.entries.len()
            invariant
                i <= other.entries.len(),
                self@ == old(self)@.union_prefer_right(
                    pairs_map(other.entries@.subrange(0, i as int)),
                ),
            decreases other.entries.len() - i,
        {
            let key = other.entries[i].0.clone();
            let value = other.entries[i].1.clone();
            proof {
                let upto = other.entries@.subrange(0, i as int + 1);
                assert(upto.drop_last() =~= other.entries@.subrange(0, i as int));
                assert(upto.last() == other.entries@[i as int]);
                assert(old(self)@.union_prefer_right(pairs_map(upto)) =~= old(
                    self,
                )@.union_prefer_right(pairs_map(upto.drop_last())).insert(key@, value@));
            }
            self.insert(key, value);
            i = i + 1;
        }
        assert(other.entries@.subrange(0, i as int) =~= other.entries@);
    }

    /// The mapping that a list of pairs denotes; of two pairs with one key
    /// the later one stands.
    pub fn from_pairs(pairs: &Vec<(String, String)>) -> (r: StringMap)
        ensures
            r@ == pairs_map(pairs@),
    {
        let mut out = StringMap::new();
        let mut i: usize = 0;
        assert(pairs@.subrange(0, 0) =~= Seq::<(String, String)>::empty());
        while i < pairs.len()
            invariant
                i <= pairs.len(),
                out@ == pairs_map(pairs@.subrange(0, i as int)),
            decreases pairs.len() - i,
        {
            let key = pairs[i].0.clone();
            let value = pairs[i].1.clone();
            proof {
                let upto = pairs@.subrange(0, i as int + 1);
                assert(upto.drop_last() =~= pairs@.subrange(0, i as int));
                assert(upto.last() == pairs@[i as int]);
            }
            out.insert(key, value);
            i = i + 1;
        }
        assert(pairs@.subrange(0, i as int) =~= pairs@);
        out
    }

    /// The entries as a list of pairs with distinct keys.
    pub fn pairs(&self) -> (r: &Vec<(String, String)>)
        ensures
            distinct_keys(r@),
            pairs_map(r@) == self@,
    {
        proof {
            use_type_invariant(self);
        }
        &self.entries
    }
}

impl Clone for StringMap {
    fn clone(&self) -> (r: StringMap)
        ensures
            r@ == self@,
    {
        let mut out = StringMap::new();
        out.extend(self);
        assert(out@ =~= self@);
        out
    }
}

} // verus!
