use std::collections::HashSet;
use vstd::prelude::*;
use itertools::Itertools;
use vstd::std_specs::iter::IteratorSpec;

verus! {

broadcast use vstd::std_specs::hash::group_hash_axioms;

/// The ids rise from first to last (ties allowed).
pub open spec fn ascending(s: Seq<usize>) -> bool {
    forall|i: int, j: int| 0 <= i < j < s.len() ==> #[trigger] s[i] <= #[trigger] s[j]
}

/// The ids rise strictly from first to last.
pub open spec fn strictly_ascending(s: Seq<usize>) -> bool {
    forall|i: int, j: int| 0 <= i < j < s.len() ==> #[trigger] s[i] < #[trigger] s[j]
}

/// `Itertools::sorted` on the ids, collected: the same ids, with the same
/// multiplicities, in ascending order.
#[verifier::external_body]
fn sorted_ids(ids: Vec<usize>) -> (r: Vec<usize>)
    ensures
        ascending(r@),
        r@.to_multiset() == ids@.to_multiset(),
{
    ids.into_iter().sorted().collect()
}

/// The ids of `ids` that are not in `skip`, each once, in ascending order.
fn ascending_ids_of(ids: &HashSet<usize>, skip: &HashSet<usize>) -> (r: Vec<usize>)
    ensures
        strictly_ascending(r@),
        r@.to_set() == ids@.difference(skip@),
{
    let mut listed: Vec<usize> = Vec::new();
    let ghost keys = ids.iter().remaining().unref();
    for x in it: ids.iter()
        invariant
            it.seq().unref() == keys,
            keys.no_duplicates(),
            keys.to_set() == ids@,
            listed@.no_duplicates(),
            forall|g: usize| #[trigger] listed@.contains(g) <==> (exists|k: int|
                0 <= k < it.index() && keys[k] == g) && !skip@.contains(g),
    {
        let g = *x;
        assert(g == keys[it.index()]);
        let ghost before = listed@;
        if !skip.contains(&g) {
            listed.push(g);
            assert forall|a: int, b: int| 0 <= a < listed@.len() && 0 <= b < listed@.len() && a != b implies listed@[a] != listed@[b] by {
                if a == listed@.len() - 1 {
                    assert(before.contains(listed@[b]));
                    assert(keys[it.index()] == g);
                    if listed@[a] == listed@[b] {
                        let k = choose|k: int| 0 <= k < it.index() && keys[k] == g;
                        assert(keys[k] == keys[it.index()]);
                    }
                } else if b == listed@.len() - 1 {
                    assert(before.contains(listed@[a]));
                    if listed@[a] == listed@[b] {
                        let k = choose|k: int| 0 <= k < it.index() && keys[k] == g;
                        assert(keys[k] == keys[it.index()]);
                    }
                }
            }
        }
        assert forall|g2: usize| #[trigger] listed@.contains(g2) <==> (exists|k: int|
            0 <= k < it.index() + 1 && keys[k] == g2) && !skip@.contains(g2) by {
            if listed@.contains(g2) && g2 != g {
                let a = choose|a: int| 0 <= a < listed@.len() && listed@[a] == g2;
                if a < before.len() {
                    assert(before[a] == g2);
                    assert(before.contains(g2));
                }
            }
            if listed@.contains(g2) && g2 == g {
                assert(keys[it.index() as int] == g2);
            }
            if (exists|k: int| 0 <= k < it.index() + 1 && keys[k] == g2) && !skip@.contains(g2) {
                let k = choose|k: int| 0 <= k < it.index() + 1 && keys[k] == g2;
                if k < it.index() {
                    assert(before.contains(g2));
                    let a = choose|a: int| 0 <= a < before.len() && before[a] == g2;
                    assert(listed@[a] == g2);
                } else {
                    assert(listed@[listed@.len() - 1] == g2);
                }
            }
        }
    }
    assert forall|g: usize| #[trigger] listed@.to_set().contains(g) <==> ids@.difference(skip@).contains(g) by {
        if ids@.contains(g) && !skip@.contains(g) {
            assert(keys.to_set().contains(g));
            assert(keys.contains(g));
        }
    }
    assert(listed@.to_set() =~= ids@.difference(skip@));
    let sorted = sorted_ids(listed);
    proof {
        broadcast use vstd::seq_lib::group_to_multiset_ensures;
        listed@.lemma_multiset_has_no_duplicates();
        sorted@.lemma_multiset_has_no_duplicates_conv();
        assert forall|g: usize| #[trigger] sorted@.to_set().contains(g) <==> listed@.to_set().contains(g) by {
            assert(sorted@.contains(g) <==> sorted@.to_multiset().count(g) > 0);
            assert(listed@.contains(g) <==> listed@.to_multiset().count(g) > 0);
        }
        assert(sorted@.to_set() =~= listed@.to_set());
        assert forall|i: int, j: int| 0 <= i < j < sorted@.len() implies #[trigger] sorted@[i] < #[trigger] sorted@[j] by {
            assert(sorted@[i] <= sorted@[j]);
            assert(sorted@[i] != sorted@[j]);
        }
    }
    sorted
}

/// # Good Trade Priority
///
/// The order buyers should use when looking at goods to offer in a market:
/// all monies first, in ID order, then every other good of the market, in ID
/// order.
pub fn good_trade_priority(monies: &HashSet<usize>, goods: &HashSet<usize>) -> (r: Vec<usize>)
    ensures
        strictly_ascending(r@.take(monies@.len() as int)),
        r@.take(monies@.len() as int).to_set() == monies@,
        strictly_ascending(r@.skip(monies@.len() as int)),
        r@.skip(monies@.len() as int).to_set() == goods@.difference(monies@),
        r@.no_duplicates(),
{
    let none: HashSet<usize> = HashSet::new();
    let mut first = ascending_ids_of(monies, &none);
    let rest = ascending_ids_of(goods, monies);
    let ghost a = first@;
    let ghost b = rest@;
    proof {
        assert(monies@.difference(none@) =~= monies@);
        assert(a.no_duplicates());
        a.unique_seq_to_set();
        assert(a.len() == monies@.len());
    }
    let mut rest = rest;
    first.append(&mut rest);
    proof {
        assert(first@ =~= a + b);
        assert(first@.take(monies@.len() as int) =~= a);
        assert(first@.skip(monies@.len() as int) =~= b);
        assert forall|i: int, j: int| 0 <= i < first@.len() && 0 <= j < first@.len() && i != j implies first@[i] != first@[j] by {
            if i < a.len() && j >= a.len() {
                assert(a.to_set().contains(first@[i]));
                assert(b.to_set().contains(first@[j]));
            } else if j < a.len() && i >= a.len() {
                assert(a.to_set().contains(first@[j]));
                assert(b.to_set().contains(first@[i]));
            } else if i < a.len() {
                assert(first@[i] != first@[j]);
            }
        }
    }
    first
}

} // verus!
