//! The ledger of the decision issues for which a bug has been asked: a set
//! of numbers that only grows.

use crate::state::snapshot::as_int;
use std::collections::HashSet;
use vstd::prelude::*;
use vstd::std_specs::hash::*;
use vstd::std_specs::iter::IteratorSpec;

verus! {

broadcast use group_hash_axioms;

/// A set of issue numbers.
#[derive(Debug)]
pub struct IssueLedger {
    numbers: HashSet<i64>,
}

impl View for IssueLedger {
    type V = Set<int>;

    closed spec fn view(&self) -> Set<int> {
        self.numbers@.map(as_int())
    }
}

/// A number is among the images of a set of numbers exactly if it is in
/// the set.
proof fn lemma_image_contains(numbers: Set<i64>, n: i64)
    ensures
        numbers.map(as_int()).contains(n as int) <==> numbers.contains(n),
{
    if numbers.map(as_int()).contains(n as int) {
        let x = choose|x: i64| numbers.contains(x) && as_int()(x) == n as int;
        assert(x == n);
    }
    if numbers.contains(n) {
        assert(as_int()(n) == n as int);
    }
}

/// The images of a set with one more number are the images of the set and
/// the image of that number.
proof fn lemma_image_insert(numbers: Set<i64>, n: i64)
    ensures
        numbers.insert(n).map(as_int()) == numbers.map(as_int()).insert(n as int),
{
    let more = numbers.insert(n);
    assert forall|y: int|
        more.map(as_int()).contains(y) <==> numbers.map(as_int()).insert(n as int).contains(
            y,
        ) by {
        if more.map(as_int()).contains(y) {
            let x = choose|x: i64| more.contains(x) && as_int()(x) == y;
            if x != n {
                assert(numbers.contains(x));
            }
        }
        if numbers.map(as_int()).contains(y) {
            let x = choose|x: i64| numbers.contains(x) && as_int()(x) == y;
            assert(more.contains(x));
        }
        if y == n as int {
            assert(more.contains(n));
            assert(as_int()(n) == y);
        }
    }
    assert(more.map(as_int()) =~= numbers.map(as_int()).insert(n as int));
}

/// The numbers of a sequence, as a set, are the images of the set of its
/// elements.
proof fn lemma_image_of_elements(numbers: Seq<i64>)
    ensures
        numbers.map_values(as_int()).to_set() == numbers.to_set().map(as_int()),
{
    let images = numbers.map_values(as_int());
    assert forall|y: int| images.to_set().contains(y) <==> numbers.to_set().map(
        as_int(),
    ).contains(y) by {
        if images.contains(y) {
            let i = choose|i: int| 0 <= i < images.len() && images[i] == y;
            assert(numbers.to_set().contains(numbers[i]));
            assert(as_int()(numbers[i]) == y);
        }
        if numbers.to_set().map(as_int()).contains(y) {
            let x = choose|x: i64| numbers.to_set().contains(x) && as_int()(x) == y;
            let i = choose|i: int| 0 <= i < numbers.len() && numbers[i] == x;
            assert(images[i] == y);
        }
    }
    assert(images.to_set() =~= numbers.to_set().map(as_int()));
}

impl IssueLedger {
    /// The empty ledger.
    pub fn new() -> (r: IssueLedger)
        ensures
            r@ == Set::<int>::empty(),
    {
        let r = IssueLedger { numbers: HashSet::new() };
        assert(r.numbers@.map(as_int()) =~= Set::<int>::empty());
        r
    }

    /// Whether `number` is in the ledger.
    pub fn contains(&self, number: i64) -> (r: bool)
        ensures
            r == self@.contains(number as int),
    {
        proof {
            lemma_image_contains(self.numbers@, number);
        }
        self.numbers.contains(&number)
    }

    /// Enters `number` into the ledger.
    pub fn insert(&mut self, number: i64)
        ensures
            final(self)@ == old(self)@.insert(number as int),
    {
        proof {
            lemma_image_insert(self.numbers@, number);
        }
        self.numbers.insert(number);
    }

    /// The numbers in the ledger, each once, in no particular order.
    pub fn numbers(&self) -> (r: Vec<i64>)
        ensures
            r@.map_values(as_int()).to_set() == self@,
            r@.no_duplicates(),
    {
        let mut r: Vec<i64> = Vec::new();
        let ghost whole = spec_hash_keys_iter(&self.numbers).remaining().unref();
        for n in it: self.numbers.iter()
            invariant
                it.seq().unref() == whole,
                r@ == whole.take(it.index() as int),
        {
            r.push(*n);
        }
        proof {
            assert(r@ =~= whole);
            lemma_image_of_elements(whole);
            let kept = spec_hash_keys_iter(&self.numbers).remaining();
            assert forall|i: int, j: int| 0 <= i < j < whole.len() implies whole[i] != whole[j] by {
                assert(kept[i] != kept[j]);
            }
        }
        r
    }

    /// The ledger that holds `numbers`.
    pub fn from_numbers(numbers: &Vec<i64>) -> (r: IssueLedger)
        ensures
            r@ == numbers@.map_values(as_int()).to_set(),
    {
        let mut r = IssueLedger::new();
        let mut i: usize = 0;
        assert(numbers@.take(0).map_values(as_int()).to_set() =~= Set::<int>::empty());
        while i < numbers.len()
            invariant
                i <= numbers.len(),
                r@ == numbers@.take(i as int).map_values(as_int()).to_set(),
            decreases numbers.len() - i,
        {
            proof {
                crate::seqs::lemma_take_push(numbers@, i as int);
                crate::seqs::lemma_map_push(numbers@.take(i as int), numbers@[i as int], as_int());
                crate::seqs::lemma_push_to_set(
                    numbers@.take(i as int).map_values(as_int()),
                    numbers@[i as int] as int,
                );
            }
            r.insert(numbers[i]);
            i += 1;
        }
        proof {
            crate::seqs::lemma_take_all(numbers@);
        }
        r
    }
}

} // verus!
