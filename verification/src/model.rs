//! The mathematical model of the numeronym transformation.
//!
//! A string is modelled by its sequence of characters; segmentation turns it
//! into a sequence of grapheme clusters, each itself a sequence of
//! characters.  The transformation filters out the clusters made of
//! whitespace, lowercases each remaining cluster, and either concatenates
//! them (two clusters or fewer) or abbreviates them to first cluster,
//! elided count, last cluster.

use vstd::prelude::*;

use crate::digits::decimal_of;
use crate::unicode::lower_of;

verus! {

/// Whether a character has the Unicode `White_Space` property.
pub open spec fn is_ws_char(c: char) -> bool {
    let u = c as u32;
    (0x09 <= u && u <= 0x0D) || u == 0x20 || u == 0x85 || u == 0xA0 || u == 0x1680 || (0x2000
        <= u && u <= 0x200A) || u == 0x2028 || u == 0x2029 || u == 0x202F || u == 0x205F || u
        == 0x3000
}

/// A grapheme cluster consisting solely of whitespace characters.
pub open spec fn cluster_is_ws(g: Seq<char>) -> bool {
    forall|i: int| 0 <= i < g.len() ==> is_ws_char(#[trigger] g[i])
}

/// The clusters that survive whitespace filtering, in order, unchanged.
pub open spec fn filtered(gs: Seq<Seq<char>>) -> Seq<Seq<char>>
    decreases gs.len(),
{
    if gs.len() == 0 {
        Seq::empty()
    } else {
        let rest = filtered(gs.drop_last());
        if cluster_is_ws(gs.last()) {
            rest
        } else {
            rest.push(gs.last())
        }
    }
}

/// The clusters that the transformation keeps: the filtered clusters, each
/// lowercased independently.
pub open spec fn retained(gs: Seq<Seq<char>>) -> Seq<Seq<char>>
    decreases gs.len(),
{
    if gs.len() == 0 {
        Seq::empty()
    } else {
        let rest = retained(gs.drop_last());
        if cluster_is_ws(gs.last()) {
            rest
        } else {
            rest.push(lower_of(gs.last()))
        }
    }
}

/// The concatenation of a sequence of clusters into one character sequence.
pub open spec fn concat_of(gs: Seq<Seq<char>>) -> Seq<char>
    decreases gs.len(),
{
    if gs.len() == 0 {
        Seq::empty()
    } else {
        concat_of(gs.drop_last()) + gs.last()
    }
}

/// The numeronym of a segmented input: with two retained clusters or fewer
/// there is nothing to elide and they are returned concatenated; otherwise
/// the result is first cluster, decimal count of the elided clusters, last
/// cluster.
pub open spec fn numeronym_of(gs: Seq<Seq<char>>) -> Seq<char> {
    let ks = retained(gs);
    if ks.len() <= 2 {
        concat_of(ks)
    } else {
        ks.first() + decimal_of((ks.len() - 2) as nat) + ks.last()
    }
}

} // verus!
