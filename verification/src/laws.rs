//! The laws of the transformation, stated over the model and proved once
//! for every segmented input.

use vstd::prelude::*;

use crate::digits::decimal_of;
use crate::digits::decimal_value;
use crate::digits::lemma_decimal_exact;
use crate::model::cluster_is_ws;
use crate::model::concat_of;
use crate::model::filtered;
use crate::model::numeronym_of;
use crate::model::retained;
use crate::unicode::lower_of;

verus! {

/// Every retained cluster is the lowercase form of the corresponding
/// whitespace-filtered cluster, whatever its original case pattern.
pub proof fn lemma_retained_lowercases_filtered(gs: Seq<Seq<char>>)
    ensures
        retained(gs).len() == filtered(gs).len(),
        forall|i: int|
            0 <= i < filtered(gs).len() ==> #[trigger] retained(gs)[i] == lower_of(
                filtered(gs)[i],
            ),
    decreases gs.len(),
{
    if gs.len() == 0 {
    } else {
        lemma_retained_lowercases_filtered(gs.drop_last());
        if !cluster_is_ws(gs.last()) {
            assert(forall|i: int|
                0 <= i < filtered(gs.drop_last()).len() ==> #[trigger] retained(gs)[i]
                    == retained(gs.drop_last())[i]);
        }
    }
}

/// A segmentation of one non-whitespace cluster transforms to exactly the
/// lowercase form of that cluster.  (A lone whitespace cluster is removed
/// instead, leaving the empty result.)
pub proof fn lemma_single_cluster(gs: Seq<Seq<char>>)
    requires
        gs.len() == 1,
        !cluster_is_ws(gs[0]),
    ensures
        numeronym_of(gs) == lower_of(gs[0]),
{
    assert(gs.drop_last() =~= Seq::<Seq<char>>::empty());
    assert(retained(Seq::<Seq<char>>::empty()) =~= Seq::<Seq<char>>::empty());
    assert(retained(gs) =~= seq![lower_of(gs[0])]);
    assert(concat_of(Seq::<Seq<char>>::empty()) =~= Seq::<char>::empty());
    assert(retained(gs).drop_last() =~= Seq::<Seq<char>>::empty());
    assert(concat_of(retained(gs)) =~= lower_of(gs[0]));
}

/// A segmentation of two non-whitespace clusters transforms to exactly the
/// lowercase form of the first followed by the lowercase form of the
/// second, in the original order.
pub proof fn lemma_two_clusters(gs: Seq<Seq<char>>)
    requires
        gs.len() == 2,
        !cluster_is_ws(gs[0]),
        !cluster_is_ws(gs[1]),
    ensures
        numeronym_of(gs) == lower_of(gs[0]) + lower_of(gs[1]),
{
    assert(gs.drop_last().drop_last() =~= Seq::<Seq<char>>::empty());
    assert(retained(Seq::<Seq<char>>::empty()) =~= Seq::<Seq<char>>::empty());
    assert(gs.drop_last().last() == gs[0]);
    assert(retained(gs.drop_last()) =~= seq![lower_of(gs[0])]);
    assert(retained(gs) =~= seq![lower_of(gs[0]), lower_of(gs[1])]);
    let ks = retained(gs);
    assert(ks.drop_last().drop_last() =~= Seq::<Seq<char>>::empty());
    assert(concat_of(Seq::<Seq<char>>::empty()) =~= Seq::<char>::empty());
    assert(ks.drop_last().last() == lower_of(gs[0]));
    assert(concat_of(ks.drop_last()) =~= lower_of(gs[0]));
    assert(concat_of(ks) =~= lower_of(gs[0]) + lower_of(gs[1]));
}

/// With more than two retained clusters, the result is exactly the first
/// retained cluster, the decimal numeral of the elided count, and the last
/// retained cluster; the numeral has no leading zero and denotes the count
/// of elided clusters exactly.
pub proof fn lemma_abbreviation(gs: Seq<Seq<char>>)
    requires
        filtered(gs).len() > 2,
    ensures
        numeronym_of(gs) == retained(gs).first() + decimal_of((retained(gs).len() - 2) as nat)
            + retained(gs).last(),
        decimal_of((retained(gs).len() - 2) as nat)[0] != '0',
        decimal_value(decimal_of((retained(gs).len() - 2) as nat)) == retained(gs).len() - 2,
{
    lemma_retained_lowercases_filtered(gs);
    lemma_decimal_exact((retained(gs).len() - 2) as nat);
}

proof fn lemma_retained_insert_ws(gs: Seq<Seq<char>>, i: int, w: Seq<char>)
    requires
        0 <= i <= gs.len(),
        cluster_is_ws(w),
    ensures
        retained(gs.insert(i, w)) == retained(gs),
    decreases gs.len(),
{
    let t = gs.insert(i, w);
    if i == gs.len() {
        assert(t.drop_last() =~= gs);
        assert(t.last() == w);
    } else {
        assert(t.last() == gs.last());
        assert(t.drop_last() =~= gs.drop_last().insert(i, w));
        lemma_retained_insert_ws(gs.drop_last(), i, w);
    }
}

/// Whitespace is removed wherever it occurs: inserting a whitespace-only
/// cluster at any position of the segmentation — leading, internal, or
/// trailing — leaves the transformation's result unchanged.
pub proof fn lemma_whitespace_removed(gs: Seq<Seq<char>>, i: int, w: Seq<char>)
    requires
        0 <= i <= gs.len(),
        cluster_is_ws(w),
    ensures
        numeronym_of(gs.insert(i, w)) == numeronym_of(gs),
{
    lemma_retained_insert_ws(gs, i, w);
}

} // verus!
