//! A numeronym generator: abbreviates a text to its first grapheme cluster,
//! the count of elided clusters, and its last cluster ("localization"
//! becomes "l10n").  Whitespace clusters are removed wherever they occur and
//! every retained cluster is lowercased before counting; an input with two
//! or fewer retained clusters is returned as they are, concatenated.

pub mod digits;
pub mod laws;
pub mod model;
pub mod unicode;

use vstd::prelude::*;
use vstd::string::StrSliceExecFns;
use vstd::string::StringExecFns;

use crate::digits::push_decimal;
use crate::model::cluster_is_ws;
use crate::model::concat_of;
use crate::model::is_ws_char;
use crate::model::numeronym_of;
use crate::model::retained;
use crate::unicode::char_is_whitespace;
use crate::unicode::graphemes_of;
use crate::unicode::lowercase_cluster;
use crate::unicode::split_graphemes;

verus! {

/// Whether every character of `g` is Unicode whitespace.
fn is_ws_cluster(g: &str) -> (r: bool)
    ensures
        r == cluster_is_ws(g@),
{
    let len = g.unicode_len();
    let mut i: usize = 0;
    while i < len
        invariant
            i <= len,
            g@.len() == len as nat,
            forall|j: int| 0 <= j < i ==> is_ws_char(#[trigger] g@[j]),
        decreases len - i,
    {
        let c = g.get_char(i);
        if !char_is_whitespace(c) {
            assert(!is_ws_char(g@[i as int]));
            return false;
        }
        i += 1;
    }
    true
}

/// The numeronym of `input`: its grapheme clusters are segmented, the
/// whitespace-only clusters are dropped, the rest are lowercased, and the
/// result is either the retained clusters themselves (two or fewer) or
/// first cluster, elided count, last cluster.
pub fn generate_numeronym(input: &str) -> (r: String)
    ensures
        r@ == numeronym_of(graphemes_of(input@)),
        input@.len() == 0 ==> r@.len() == 0,
{
    let gs = split_graphemes(input);
    let ghost gseq: Seq<Seq<char>> = gs.deep_view();
    let mut kept: Vec<String> = Vec::new();
    let mut i: usize = 0;
    while i < gs.len()
        invariant
            i <= gs.len(),
            gs.deep_view() == gseq,
            kept.deep_view() == retained(gseq.take(i as int)),
        decreases gs.len() - i,
    {
        let g = &gs[i];
        proof {
            assert(gseq[i as int] == g@);
            assert(gseq.take(i as int + 1).drop_last() =~= gseq.take(i as int));
            assert(gseq.take(i as int + 1).last() == g@);
        }
        if is_ws_cluster(g.as_str()) {
            proof {
                assert(kept.deep_view() =~= retained(gseq.take(i as int + 1)));
            }
        } else {
            let low = lowercase_cluster(g.as_str());
            kept.push(low);
            proof {
                assert(kept.deep_view() =~= retained(gseq.take(i as int + 1)));
            }
        }
        i += 1;
    }
    proof {
        assert(gseq.take(gs.len() as int) =~= gseq);
    }
    let n = kept.len();
    if n <= 2 {
        let mut out = String::new();
        let mut j: usize = 0;
        while j < kept.len()
            invariant
                j <= kept.len(),
                kept.deep_view() == retained(gseq),
                out@ == concat_of(kept.deep_view().take(j as int)),
            decreases kept.len() - j,
        {
            proof {
                assert(kept.deep_view().take(j as int + 1).drop_last() =~= kept.deep_view().take(
                    j as int,
                ));
                assert(kept.deep_view().take(j as int + 1).last() == kept[j as int]@);
            }
            out.append(kept[j].as_str());
            proof {
                assert(out@ =~= concat_of(kept.deep_view().take(j as int + 1)));
            }
            j += 1;
        }
        proof {
            assert(kept.deep_view().take(kept.len() as int) =~= kept.deep_view());
        }
        out
    } else {
        let mut out = kept[0].clone();
        proof {
            assert(out@ == retained(gseq).first());
        }
        push_decimal(&mut out, n - 2);
        out.append(kept[n - 1].as_str());
        proof {
            assert(kept.deep_view()[n - 1] == retained(gseq).last());
        }
        out
    }
}

} // verus!
