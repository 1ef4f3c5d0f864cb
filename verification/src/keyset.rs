//! Collecting the keys of a hash map, for the periodic reapers that
//! bound the growth of the per-chat maps.

use std::collections::HashMap;
use vstd::prelude::*;
use vstd::std_specs::iter::IteratorSpec;

verus! {

broadcast use vstd::std_specs::hash::group_hash_axioms;

/// One step of a standard iterator, restated from the iterator trait's
/// contract so concrete iterators can be driven by hand.
fn iter_next<I: Iterator>(it: &mut I) -> (ret: Option<I::Item>)
    requires
        (*old(it)).obeys_prophetic_iter_laws(),
    ensures
        (*final(it)).obeys_prophetic_iter_laws(),
        ((*final(it)).decrease() is Some <==> (*old(it)).decrease() is Some),
        ({
            if (*old(it)).remaining().len() > 0 {
                &&& (*final(it)).remaining() == (*old(it)).remaining().drop_first()
                &&& ret == Some((*old(it)).remaining()[0])
            } else {
                (*final(it)).remaining() == (*old(it)).remaining() && ret is None
            }
        }),
        (*old(it)).remaining().len() > 0 && (*final(it)).decrease() is Some ==> (decreases_to!(
            (*old(it)).decrease().unwrap() => (*final(it)).decrease().unwrap())),
{
    it.next()
}

/// The keys of `m`, each exactly once.
pub(crate) fn map_keys<V>(m: &HashMap<i64, V>) -> (ks: Vec<i64>)
    ensures
        ks@.to_set() == m@.dom(),
        ks@.no_duplicates(),
{
    let mut ks: Vec<i64> = Vec::new();
    let mut it = m.keys();
    loop
        invariant
            it.obeys_prophetic_iter_laws(),
            it.decrease() is Some,
            it.remaining().unref().no_duplicates(),
            ks@.no_duplicates(),
            forall|j: int|
                0 <= j < it.remaining().len() ==> !ks@.contains(
                    #[trigger] it.remaining().unref()[j],
                ),
            forall|x: i64|
                #[trigger] m@.dom().contains(x) <==> (ks@.contains(x)
                    || it.remaining().unref().contains(x)),
        ensures
            it.remaining().len() == 0,
        decreases it.decrease().unwrap(),
    {
        let ghost rem0 = it.remaining();
        let ghost ks0 = ks@;
        match iter_next(&mut it) {
            Some(k) => {
                let ghost h: i64 = *k;
                ks.push(*k);
                proof {
                    let rem1 = it.remaining();
                    let ksv = ks@;
                    assert(rem1 =~= rem0.drop_first());
                    assert(rem0.unref()[0] == h);
                    assert(ksv =~= ks0.push(h));
                    assert(ksv[ksv.len() - 1] == h);
                    assert(!ks0.contains(h));
                    // the shorter remainder keeps distinct entries
                    assert forall|i: int, j: int|
                        0 <= i < rem1.unref().len() && 0 <= j < rem1.unref().len() && i
                            != j implies rem1.unref()[i] != rem1.unref()[j] by {
                        assert(rem0.unref()[i + 1] == rem1.unref()[i]);
                        assert(rem0.unref()[j + 1] == rem1.unref()[j]);
                    };
                    assert(rem1.unref().no_duplicates());
                    assert(ksv.no_duplicates());
                    // the remainder stays disjoint from what was collected
                    assert forall|j: int| 0 <= j < rem1.len() implies !ksv.contains(
                        #[trigger] rem1.unref()[j],
                    ) by {
                        assert(rem0.unref()[j + 1] == rem1.unref()[j]);
                        assert(rem1.unref()[j] != h);
                        if ksv.contains(rem1.unref()[j]) {
                            let i = choose|i: int|
                                0 <= i < ksv.len() && ksv[i] == rem1.unref()[j];
                            assert(ks0[i] == rem1.unref()[j]);
                            assert(false);
                        }
                    };
                    // every key is either collected or still to come
                    assert forall|x: i64| #[trigger] m@.dom().contains(x) implies (ksv.contains(x)
                        || rem1.unref().contains(x)) by {
                        if ks0.contains(x) {
                            let i = choose|i: int| 0 <= i < ks0.len() && ks0[i] == x;
                            assert(ksv[i] == x);
                        } else {
                            assert(rem0.unref().contains(x));
                            let i = choose|i: int|
                                0 <= i < rem0.unref().len() && rem0.unref()[i] == x;
                            if i == 0 {
                                assert(ksv[ksv.len() - 1] == x);
                            } else {
                                assert(rem1.unref()[i - 1] == x);
                            }
                        }
                    };
                    assert forall|x: i64| ksv.contains(x) || rem1.unref().contains(
                        x,
                    ) implies #[trigger] m@.dom().contains(x) by {
                        if ksv.contains(x) {
                            let i = choose|i: int| 0 <= i < ksv.len() && ksv[i] == x;
                            if i < ks0.len() {
                                assert(ks0.contains(x));
                            } else {
                                assert(x == h);
                                assert(rem0.unref().contains(x));
                            }
                        } else {
                            let i = choose|i: int|
                                0 <= i < rem1.unref().len() && rem1.unref()[i] == x;
                            assert(rem0.unref()[i + 1] == x);
                            assert(rem0.unref().contains(x));
                        }
                    };
                }
            },
            None => {
                break ;
            },
        }
    }
    proof {
        assert(ks@.to_set() =~= m@.dom());
    }
    ks
}

} // verus!
