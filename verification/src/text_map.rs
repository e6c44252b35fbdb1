//! A map from text to text, kept as a list of pairs in which the last pair
//! with a key decides its value.

use vstd::prelude::*;

verus! {

/// The map that a list of pairs stands for: later pairs override earlier
/// ones.
pub open spec fn pairs_map(pairs: Seq<(Seq<char>, Seq<char>)>) -> Map<Seq<char>, Seq<char>>
    decreases pairs.len(),
{
    if pairs.len() == 0 {
        Map::empty()
    } else {
        pairs_map(pairs.drop_last()).insert(pairs.last().0, pairs.last().1)
    }
}

/// A key is in the map exactly if some pair holds it.
pub proof fn lemma_pairs_map_domain(pairs: Seq<(Seq<char>, Seq<char>)>, key: Seq<char>)
    ensures
        pairs_map(pairs).dom().contains(key) <==> exists|i: int|
            0 <= i < pairs.len() && (#[trigger] pairs[i]).0 == key,
    decreases pairs.len(),
{
    if pairs.len() > 0 {
        let front = pairs.drop_last();
        lemma_pairs_map_domain(front, key);
        if exists|i: int| 0 <= i < pairs.len() && (#[trigger] pairs[i]).0 == key {
            let i = choose|i: int| 0 <= i < pairs.len() && (#[trigger] pairs[i]).0 == key;
            if i < pairs.len() - 1 {
                assert(front[i].0 == key);
            }
        }
    }
}

/// The last pair with a key gives the key's value.
pub proof fn lemma_pairs_map_value(pairs: Seq<(Seq<char>, Seq<char>)>, i: int)
    requires
        0 <= i < pairs.len(),
        forall|j: int| i < j < pairs.len() ==> (#[trigger] pairs[j]).0 != pairs[i].0,
    ensures
        pairs_map(pairs).dom().contains(pairs[i].0),
        pairs_map(pairs)[pairs[i].0] == pairs[i].1,
    decreases pairs.len(),
{
    if i < pairs.len() - 1 {
        let front = pairs.drop_last();
        assert forall|j: int| i < j < front.len() implies (#[trigger] front[j]).0 != front[i].0 by {}
        lemma_pairs_map_value(front, i);
    }
}

/// Giving the last pair with a key a new value is an insertion into the map.
pub proof fn lemma_pairs_map_update(
    pairs: Seq<(Seq<char>, Seq<char>)>,
    i: int,
    value: Seq<char>,
)
    requires
        0 <= i < pairs.len(),
        forall|j: int| i < j < pairs.len() ==> (#[trigger] pairs[j]).0 != pairs[i].0,
    ensures
        pairs_map(pairs.update(i, (pairs[i].0, value))) == pairs_map(pairs).insert(
            pairs[i].0,
            value,
        ),
    decreases pairs.len(),
{
    let changed = pairs.update(i, (pairs[i].0, value));
    if i == pairs.len() - 1 {
        assert(changed.drop_last() =~= pairs.drop_last());
    } else {
        let front = pairs.drop_last();
        assert forall|j: int| i < j < front.len() implies (#[trigger] front[j]).0 != front[i].0 by {}
        lemma_pairs_map_update(front, i, value);
        assert(changed.drop_last() =~= front.update(i, (front[i].0, value)));
    }
}

/// A finite map from text to text.
#[derive(Debug)]
pub struct TextMap {
    pairs: Vec<(String, String)>,
}

impl View for TextMap {
    type V = Map<Seq<char>, Seq<char>>;

    closed spec fn view(&self) -> Map<Seq<char>, Seq<char>> {
        pairs_map(self.pairs.deep_view())
    }
}

impl TextMap {
    /// The empty map.
    pub fn new() -> (r: TextMap)
        ensures
            r@ == Map::<Seq<char>, Seq<char>>::empty(),
    {
        let r = TextMap { pairs: Vec::new() };
        r
    }

    /// The position of the last pair that holds `key`.
    fn position(&self, key: &String) -> (r: Option<usize>)
        ensures
            match r {
                Some(i) => i < self.pairs.len() && self.pairs.deep_view()[i as int].0 == key@
                    && forall|j: int|
                    i < j < self.pairs.len() ==> (#[trigger] self.pairs.deep_view()[j]).0 != key@,
                None => forall|j: int|
                    0 <= j < self.pairs.len() ==> (#[trigger] self.pairs.deep_view()[j]).0 != key@,
            },
    {
        let mut i: usize = self.pairs.len();
        while i > 0
            invariant
                i <= self.pairs.len(),
                forall|j: int|
                    i <= j < self.pairs.len() ==> (#[trigger] self.pairs.deep_view()[j]).0 != key@,
            decreases i,
        {
            i -= 1;
            if self.pairs[i].0 == *key {
                return Some(i);
            }
        }
        None
    }

    /// The value that `key` maps to.
    pub fn get(&self, key: &String) -> (r: Option<String>)
        ensures
            match r {
                Some(value) => self@.dom().contains(key@) && self@[key@] == value@,
                None => !self@.dom().contains(key@),
            },
    {
        proof {
            lemma_pairs_map_domain(self.pairs.deep_view(), key@);
        }
        match self.position(key) {
            Some(i) => {
                proof {
                    lemma_pairs_map_value(self.pairs.deep_view(), i as int);
                }
                Some(self.pairs[i].1.clone())
            },
            None => None,
        }
    }

    /// Whether `key` maps to something.
    pub fn contains_key(&self, key: &String) -> (r: bool)
        ensures
            r == self@.dom().contains(key@),
    {
        proof {
            lemma_pairs_map_domain(self.pairs.deep_view(), key@);
        }
        self.position(key).is_some()
    }

    /// Maps `key` to `value`, whatever it mapped to before.
    pub fn insert(&mut self, key: String, value: String)
        ensures
            final(self)@ == old(self)@.insert(key@, value@),
    {
        let ghost before = self.pairs.deep_view();
        match self.position(&key) {
            Some(i) => {
                self.pairs.set(i, (key, value));
                proof {
                    lemma_pairs_map_update(before, i as int, value@);
                    assert(self.pairs.deep_view() =~= before.update(i as int, (key@, value@)));
                }
            },
            None => {
                self.pairs.push((key, value));
                proof {
                    assert(self.pairs.deep_view() =~= before.push((key@, value@)));
                    assert(before.push((key@, value@)).drop_last() =~= before);
                }
            },
        }
    }
}

} // verus!
