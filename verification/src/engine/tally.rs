//! The sum of the values of a finite map, whatever order its keys are
//! visited in.

use vstd::prelude::*;

verus! {

/// The sum of all values of `m`.
pub open spec fn map_total(m: Map<u32, nat>) -> nat
    decreases m.dom().len(),
    when m.dom().finite()
{
    if m.dom().len() == 0 {
        0
    } else {
        let k = m.dom().choose();
        m[k] + map_total(m.remove(k))
    }
}

/// The sum of the values that `m` holds under the keys `keys`, one after the other.
pub open spec fn listed_total(m: Map<u32, nat>, keys: Seq<u32>) -> nat
    decreases keys.len(),
{
    if keys.len() == 0 {
        0
    } else {
        listed_total(m, keys.drop_last()) + m[keys.last()]
    }
}

/// Any key can be taken out first: the total is its value plus the total
/// of the rest.
pub proof fn lemma_total_remove(m: Map<u32, nat>, k: u32)
    requires
        m.dom().finite(),
        m.contains_key(k),
    ensures
        map_total(m) == m[k] + map_total(m.remove(k)),
    decreases m.dom().len(),
{
    let c = m.dom().choose();
    if c != k {
        lemma_total_remove(m.remove(c), k);
        lemma_total_remove(m.remove(k), c);
        assert(m.remove(c).remove(k) =~= m.remove(k).remove(c));
    }
}

proof fn lemma_listed_total_agrees(m1: Map<u32, nat>, m2: Map<u32, nat>, keys: Seq<u32>)
    requires
        forall|i: int| 0 <= i < keys.len() ==> m1[#[trigger] keys[i]] == m2[keys[i]],
    ensures
        listed_total(m1, keys) == listed_total(m2, keys),
    decreases keys.len(),
{
    if keys.len() > 0 {
        let rest = keys.drop_last();
        assert forall|i: int| 0 <= i < rest.len() implies m1[#[trigger] rest[i]] == m2[rest[i]] by {
            assert(rest[i] == keys[i]);
        }
        lemma_listed_total_agrees(m1, m2, rest);
    }
}

/// Visiting every key once, in any order, adds up to the total.
pub proof fn lemma_listed_total(m: Map<u32, nat>, keys: Seq<u32>)
    requires
        m.dom().finite(),
        keys.no_duplicates(),
        keys.to_set() == m.dom(),
    ensures
        listed_total(m, keys) == map_total(m),
    decreases keys.len(),
{
    if keys.len() == 0 {
        assert(m.dom() =~= Set::<u32>::empty());
    } else {
        let k = keys.last();
        let rest = keys.drop_last();
        let less = m.remove(k);
        assert(keys.to_set().contains(k)) by {
            assert(keys[keys.len() - 1] == k);
        }
        assert(rest.no_duplicates());
        assert(rest.to_set() =~= less.dom()) by {
            assert forall|x: u32| rest.to_set().contains(x) <==> less.dom().contains(x) by {
                if rest.to_set().contains(x) {
                    let i = choose|i: int| 0 <= i < rest.len() && rest[i] == x;
                    assert(keys[i] == x);
                    assert(keys.to_set().contains(x));
                }
                if less.dom().contains(x) {
                    assert(keys.to_set().contains(x));
                    let i = choose|i: int| 0 <= i < keys.len() && keys[i] == x;
                    assert(rest[i] == x);
                }
            }
        }
        lemma_listed_total(less, rest);
        assert forall|i: int| 0 <= i < rest.len() implies less[#[trigger] rest[i]] == m[rest[i]] by {
            assert(rest[i] == keys[i]);
        }
        lemma_listed_total_agrees(less, m, rest);
        lemma_total_remove(m, k);
    }
}

} // verus!
