//! Putting things in order. What is put in order says of any two of its
//! values which stands before the other; the sort keeps every value and
//! hands them back with each standing before all that follow.

use vstd::prelude::*;
use vstd::seq_lib::{to_multiset_build, to_multiset_remove};

verus! {

/// Values that stand in an order: of any two, one stands at or before the
/// other, and what stands before a value that stands before a third stands
/// before the third.
pub trait Ranked: Sized {
    /// Whether `self` stands at or before `other`.
    spec fn stands_before(&self, other: &Self) -> bool;

    /// Whether `self` stands at or before `other`.
    fn goes_before(&self, other: &Self) -> (b: bool)
        ensures
            b == self.stands_before(other),
    ;

    proof fn lemma_total(a: &Self, b: &Self)
        ensures
            a.stands_before(b) || b.stands_before(a),
    ;

    proof fn lemma_transitive(a: &Self, b: &Self, c: &Self)
        requires
            a.stands_before(b),
            b.stands_before(c),
        ensures
            a.stands_before(c),
    ;
}

/// Whether every value of `s` stands at or before all that follow it.
pub open spec fn in_order<T: Ranked>(s: Seq<T>) -> bool {
    forall|i: int, j: int|
        #![trigger s[i], s[j]]
        0 <= i < j < s.len() ==> s[i].stands_before(&s[j])
}

/// The index of a value of `items` that stands at or before every other.
fn first_in_order<T: Ranked>(items: &Vec<T>) -> (k: usize)
    requires
        items.len() > 0,
    ensures
        k < items.len(),
        forall|j: int|
            #![trigger items@[j]]
            0 <= j < items.len() ==> items@[k as int].stands_before(&items@[j]),
{
    let mut k: usize = 0;
    let mut i: usize = 1;
    proof {
        T::lemma_total(&items@[0], &items@[0]);
    }
    while i < items.len()
        invariant
            1 <= i <= items.len(),
            k < i,
            forall|j: int|
                #![trigger items@[j]]
                0 <= j < i ==> items@[k as int].stands_before(&items@[j]),
        decreases items.len() - i,
    {
        if !items[k].goes_before(&items[i]) {
            proof {
                T::lemma_total(&items@[k as int], &items@[i as int]);
                T::lemma_total(&items@[i as int], &items@[i as int]);
                assert forall|j: int| #![trigger items@[j]] 0 <= j < i + 1 implies items@[i as int].stands_before(
                    &items@[j],
                ) by {
                    if j < i {
                        T::lemma_transitive(&items@[i as int], &items@[k as int], &items@[j]);
                    }
                }
            }
            k = i;
        }
        i += 1;
    }
    k
}

/// Puts `items` in order: the result holds the same values, each as often
/// as `items` does, and each stands at or before all that follow it.
pub fn sort<T: Ranked>(items: Vec<T>) -> (out: Vec<T>)
    ensures
        in_order(out@),
        out@.to_multiset() == items@.to_multiset(),
{
    let ghost all = items@;
    let mut rest = items;
    let mut out: Vec<T> = Vec::new();
    proof {
        assert(out@.to_multiset().add(all.to_multiset()) =~= all.to_multiset()) by {
            broadcast use vstd::seq_lib::group_to_multiset_ensures;

        }
    }
    while rest.len() > 0
        invariant
            out@.to_multiset().add(rest@.to_multiset()) == all.to_multiset(),
            in_order(out@),
            forall|i: int, j: int|
                #![trigger out@[i], rest@[j]]
                0 <= i < out.len() && 0 <= j < rest.len() ==> out@[i].stands_before(&rest@[j]),
        decreases rest.len(),
    {
        let k = first_in_order(&rest);
        let ghost before = rest@;
        let ghost done = out@;
        let item = rest.remove(k);
        proof {
            to_multiset_remove(before, k as int);
            to_multiset_build(done, item);
            assert(before.to_multiset().count(item) > 0) by {
                broadcast use vstd::seq_lib::group_to_multiset_ensures;

                assert(before[k as int] == item);
                assert(before.contains(item));
            }
            assert(done.push(item).to_multiset().add(rest@.to_multiset()) =~= done.to_multiset().add(
                before.to_multiset(),
            ));
            let next = done.push(item);
            assert forall|i: int, j: int|
                #![trigger next[i], rest@[j]]
                0 <= i < next.len() && 0 <= j < rest.len() implies next[i].stands_before(
                &rest@[j],
            ) by {
                let jj = if j < k {
                    j
                } else {
                    j + 1
                };
                assert(rest@[j] == before[jj]);
                if i < done.len() {
                    assert(next[i] == done[i]);
                } else {
                    assert(next[i] == before[k as int]);
                }
            }
            assert forall|i: int, j: int|
                #![trigger next[i], next[j]]
                0 <= i < j < next.len() implies next[i].stands_before(&next[j]) by {
                assert(next[i] == done[i]);
                if j == done.len() {
                    assert(next[j] == before[k as int]);
                } else {
                    assert(next[j] == done[j]);
                }
            }
        }
        out.push(item);
    }
    proof {
        assert(out@.to_multiset().add(rest@.to_multiset()) =~= out@.to_multiset()) by {
            broadcast use vstd::seq_lib::group_to_multiset_ensures;

        }
    }
    out
}

/// Two sequences that hold the same values as often hold, value for value,
/// the same images under any function.
pub proof fn lemma_same_values_same_images<A, B>(a: Seq<A>, b: Seq<A>, f: spec_fn(A) -> B)
    requires
        a.to_multiset() == b.to_multiset(),
    ensures
        a.map_values(f).to_multiset() == b.map_values(f).to_multiset(),
    decreases a.len(),
{
    broadcast use vstd::seq_lib::group_to_multiset_ensures;

    a.to_multiset_ensures();
    b.to_multiset_ensures();
    assert(a.len() == b.len());
    if a.len() == 0 {
        assert(a.map_values(f) =~= b.map_values(f));
    } else {
        let x = a.last();
        let rest_a = a.drop_last();
        assert(a == rest_a.push(x));
        assert(a.contains(x));
        assert(b.to_multiset().count(x) > 0);
        assert(b.contains(x));
        let i = choose|i: int| 0 <= i < b.len() && b[i] == x;
        let rest_b = b.remove(i);
        to_multiset_build(rest_a, x);
        to_multiset_remove(b, i);
        assert(rest_a.to_multiset() =~= a.to_multiset().remove(x));
        lemma_same_values_same_images(rest_a, rest_b, f);
        let ma = a.map_values(f);
        let mb = b.map_values(f);
        assert(ma == rest_a.map_values(f).push(f(x))) by {
            assert(ma =~= rest_a.map_values(f).push(f(x)));
        }
        assert(rest_b.map_values(f) =~= mb.remove(i));
        to_multiset_build(rest_a.map_values(f), f(x));
        to_multiset_remove(mb, i);
        assert(mb[i] == f(x));
        assert(mb.contains(f(x)));
        assert(mb.to_multiset().count(f(x)) > 0);
        assert(ma.to_multiset() =~= mb.to_multiset());
    }
}

} // verus!
