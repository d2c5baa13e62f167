//! The key/value text map that configuration is read from.
use crate::text::same_text;
use vstd::prelude::*;

verus! {

/// What a list of key/value pairs says as a map: of two pairs with one key the later one counts.
pub open spec fn pairs_map(pairs: Seq<(String, String)>) -> Map<Seq<char>, Seq<char>>
    decreases pairs.len(),
{
    if pairs.len() == 0 {
        Map::empty()
    } else {
        pairs_map(pairs.drop_last()).insert(pairs.last().0@, pairs.last().1@)
    }
}

/// No pair from position `from` on has the key `key`.
pub open spec fn absent_from(pairs: Seq<(String, String)>, from: int, key: Seq<char>) -> bool {
    forall|j: int| from <= j < pairs.len() ==> (#[trigger] pairs[j]).0@ != key
}

/// A key that no pair has is not in the map.
pub proof fn lemma_absent_key(pairs: Seq<(String, String)>, key: Seq<char>)
    requires
        absent_from(pairs, 0, key),
    ensures
        !pairs_map(pairs).contains_key(key),
    decreases pairs.len(),
{
    if pairs.len() > 0 {
        assert(pairs.last() == pairs[pairs.len() - 1]);
        assert forall|j: int| 0 <= j < pairs.drop_last().len() implies (
        #[trigger] pairs.drop_last()[j]).0@ != key by {
            assert(pairs.drop_last()[j] == pairs[j]);
        }
        lemma_absent_key(pairs.drop_last(), key);
    }
}

/// The map gives a key the value of the last pair that has it.
pub proof fn lemma_last_pair_counts(pairs: Seq<(String, String)>, i: int)
    requires
        0 <= i < pairs.len(),
        absent_from(pairs, i + 1, pairs[i].0@),
    ensures
        pairs_map(pairs).contains_key(pairs[i].0@),
        pairs_map(pairs)[pairs[i].0@] == pairs[i].1@,
    decreases pairs.len(),
{
    if i < pairs.len() - 1 {
        let front = pairs.drop_last();
        assert(front[i] == pairs[i]);
        assert(pairs.last() == pairs[pairs.len() - 1]);
        assert forall|j: int| i + 1 <= j < front.len() implies (#[trigger] front[j]).0@
            != front[i].0@ by {
            assert(front[j] == pairs[j]);
        }
        lemma_last_pair_counts(front, i);
    }
}

/// Putting a new pair in the place of the last pair that has its key changes the map as
/// an insertion does.
pub proof fn lemma_replace_last_pair(pairs: Seq<(String, String)>, i: int, pair: (String, String))
    requires
        0 <= i < pairs.len(),
        pairs[i].0@ == pair.0@,
        absent_from(pairs, i + 1, pair.0@),
    ensures
        pairs_map(pairs.update(i, pair)) == pairs_map(pairs).insert(pair.0@, pair.1@),
    decreases pairs.len(),
{
    let changed = pairs.update(i, pair);
    let front = pairs.drop_last();
    if i == pairs.len() - 1 {
        assert(changed.drop_last() =~= front);
        assert(pairs_map(changed) =~= pairs_map(pairs).insert(pair.0@, pair.1@));
    } else {
        assert(changed.drop_last() =~= front.update(i, pair));
        assert(changed.last() == pairs.last());
        assert(pairs.last() == pairs[pairs.len() - 1]);
        assert(front[i] == pairs[i]);
        assert forall|j: int| i + 1 <= j < front.len() implies (#[trigger] front[j]).0@
            != pair.0@ by {
            assert(front[j] == pairs[j]);
        }
        lemma_replace_last_pair(front, i, pair);
        assert(pairs_map(changed) =~= pairs_map(pairs).insert(pair.0@, pair.1@));
    }
}

/// No two of the pairs have the same key.
pub open spec fn distinct_keys(pairs: Seq<(String, String)>) -> bool {
    forall|i: int, j: int|
        0 <= i < j < pairs.len() ==> (#[trigger] pairs[i]).0@ != (#[trigger] pairs[j]).0@
}

/// A finite map from text keys to text values. It is kept as a list of pairs in which no
/// key occurs twice.
pub struct ConfigMap {
    pairs: Vec<(String, String)>,
}

impl View for ConfigMap {
    type V = Map<Seq<char>, Seq<char>>;

    closed spec fn view(&self) -> Map<Seq<char>, Seq<char>> {
        pairs_map(self.pairs@)
    }
}

impl ConfigMap {
    #[verifier::type_invariant]
    spec fn well_formed(self) -> bool {
        distinct_keys(self.pairs@)
    }

    /// The map without any key.
    pub fn new() -> (map: ConfigMap)
        ensures
            map@ == Map::<Seq<char>, Seq<char>>::empty(),
    {
        ConfigMap { pairs: Vec::new() }
    }

    /// The position of the last pair with the key `key`, if any pair has it.
    fn position(&self, key: &str) -> (found: Option<usize>)
        ensures
            match found {
                Some(i) => i < self.pairs@.len() && self.pairs@[i as int].0@ == key@ && absent_from(
                    self.pairs@,
                    i + 1,
                    key@,
                ),
                None => absent_from(self.pairs@, 0, key@),
            },
    {
        let mut i: usize = self.pairs.len();
        while i > 0
            invariant
                i <= self.pairs@.len(),
                absent_from(self.pairs@, i as int, key@),
            decreases i,
        {
            i -= 1;
            if same_text(self.pairs[i].0.as_str(), key) {
                return Some(i);
            }
        }
        None
    }

    /// Gives `key` the value `value`, whether or not the key had one.
    pub fn insert(&mut self, key: String, value: String)
        ensures
            final(self)@ == old(self)@.insert(key@, value@),
    {
        proof {
            use_type_invariant(&*self);
        }
        let found = self.position(key.as_str());
        let mut pairs: Vec<(String, String)> = Vec::new();
        core::mem::swap(&mut self.pairs, &mut pairs);
        match found {
            Some(i) => {
                proof {
                    lemma_replace_last_pair(pairs@, i as int, (key, value));
                }
                pairs[i] = (key, value);
            },
            None => {
                proof {
                    assert(pairs@.push((key, value)).drop_last() =~= pairs@);
                }
                pairs.push((key, value));
            },
        }
        self.pairs = pairs;
    }

    /// The value of `key`, if the map has the key.
    pub fn get(&self, key: &str) -> (value: Option<&String>)
        ensures
            match value {
                Some(v) => self@.contains_key(key@) && v@ == self@[key@],
                None => !self@.contains_key(key@),
            },
    {
        match self.position(key) {
            Some(i) => {
                proof {
                    lemma_last_pair_counts(self.pairs@, i as int);
                }
                Some(&self.pairs[i].1)
            },
            None => {
                proof {
                    lemma_absent_key(self.pairs@, key@);
                }
                None
            },
        }
    }
}

} // verus!
