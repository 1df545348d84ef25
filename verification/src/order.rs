//! Putting rows in order.
use vstd::prelude::*;
use vstd::multiset::lemma_multiset_empty_len;
use vstd::seq_lib::{to_multiset_build, to_multiset_insert, to_multiset_len};

verus! {

/// Rows that have an order in which any two can be placed.
pub trait Ranked: Sized {
    /// Whether `self` may stand directly before `other`.
    spec fn before(&self, other: &Self) -> bool;

    /// Whether `self` may stand directly before `other`.
    fn stands_before(&self, other: &Self) -> (r: bool)
        ensures
            r == self.before(other),
    ;

    /// Of two rows, one may stand before the other.
    proof fn lemma_either_way(a: &Self, b: &Self)
        ensures
            a.before(b) || b.before(a),
    ;
}

/// Whether every row may stand before the one that follows it.
pub open spec fn ordered<T: Ranked>(rows: Seq<T>) -> bool {
    forall|i: int, j: int|
        #![trigger rows[i], rows[j]]
        0 <= i && j == i + 1 && j < rows.len() ==> rows[i].before(&rows[j])
}

/// The same rows, in order.
pub fn sort<T: Ranked>(rows: Vec<T>) -> (sorted: Vec<T>)
    ensures
        ordered(sorted@),
        sorted@.to_multiset() == rows@.to_multiset(),
{
    let ghost all = rows@;
    let mut rest: Vec<T> = rows;
    let mut sorted: Vec<T> = Vec::new();
    assert(sorted@.to_multiset().add(rest@.to_multiset()) =~= all.to_multiset()) by {
        to_multiset_len(sorted@);
        lemma_multiset_empty_len(sorted@.to_multiset());
    }
    while rest.len() > 0
        invariant
            ordered(sorted@),
            sorted@.to_multiset().add(rest@.to_multiset()) == all.to_multiset(),
        decreases rest.len(),
    {
        let ghost rest_before = rest@;
        let ghost sorted_before = sorted@;
        let row: T = rest.pop().unwrap();
        let ghost shown = row;
        let mut at: usize = 0;
        while at < sorted.len() && sorted[at].stands_before(&row)
            invariant
                at <= sorted.len(),
                sorted@ == sorted_before,
                row == shown,
                forall|j: int| 0 <= j < at ==> (#[trigger] sorted@[j]).before(&row),
            decreases sorted.len() - at,
        {
            at += 1;
        }
        sorted.insert(at, row);
        proof {
            to_multiset_insert(sorted_before, at as int, shown);
            assert(rest_before =~= rest@.push(shown));
            to_multiset_build(rest@, shown);
            assert(sorted@.to_multiset().add(rest@.to_multiset()) =~= sorted_before.to_multiset().add(
                rest_before.to_multiset(),
            ));
            if at < sorted_before.len() {
                T::lemma_either_way(&sorted_before[at as int], &shown);
            }
            assert forall|i: int, j: int|
                #![trigger sorted@[i], sorted@[j]]
                0 <= i && j == i + 1 && j < sorted@.len() implies sorted@[i].before(
                &sorted@[j],
            ) by {
                if j < at {
                    assert(sorted@[i] == sorted_before[i]);
                    assert(sorted@[j] == sorted_before[j]);
                } else if j == at {
                    assert(sorted@[i] == sorted_before[i]);
                } else if i == at {
                    assert(sorted@[j] == sorted_before[at as int]);
                } else {
                    assert(sorted@[i] == sorted_before[i - 1]);
                    assert(sorted@[j] == sorted_before[j - 1]);
                }
            }
        }
    }
    assert(sorted@.to_multiset() =~= all.to_multiset()) by {
        to_multiset_len(rest@);
        lemma_multiset_empty_len(rest@.to_multiset());
    }
    sorted
}

} // verus!
