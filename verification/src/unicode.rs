//! Trusted boundary to the Unicode text facilities: grapheme segmentation,
//! lowercasing, and whitespace classification.

use vstd::prelude::*;

use unicode_segmentation::UnicodeSegmentation;

use crate::model::is_ws_char;

verus! {

/// The ordered extended grapheme clusters of a character sequence, per
/// Unicode Standard Annex #29.  The segmentation depends on the characters
/// alone.
pub uninterp spec fn graphemes_of(s: Seq<char>) -> Seq<Seq<char>>;

/// The Unicode lowercase mapping of a character sequence.  The mapping
/// depends on the characters alone; a cluster with no lowercase form is
/// left unchanged.
pub uninterp spec fn lower_of(s: Seq<char>) -> Seq<char>;

/// Relies on unicode_segmentation::UnicodeSegmentation::graphemes with
/// extended cluster boundaries: it yields the grapheme clusters of the
/// string in order, and yields nothing on the empty string.
#[verifier::external_body]
pub(crate) fn split_graphemes(s: &str) -> (r: Vec<String>)
    ensures
        r.deep_view() == graphemes_of(s@),
        s@.len() == 0 ==> r@.len() == 0,
{
    s.graphemes(true).map(|g| g.to_string()).collect()
}

/// Relies on str::to_lowercase: the Unicode lowercase mapping of the
/// string, depending on its characters alone.
#[verifier::external_body]
pub(crate) fn lowercase_cluster(s: &str) -> (r: String)
    ensures
        r@ == lower_of(s@),
{
    s.to_lowercase()
}

/// Relies on char::is_whitespace: true exactly for the characters with the
/// Unicode `White_Space` property, the set that `is_ws_char` lists.
#[verifier::external_body]
pub(crate) fn char_is_whitespace(c: char) -> (r: bool)
    ensures
        r == is_ws_char(c),
{
    c.is_whitespace()
}

} // verus!
