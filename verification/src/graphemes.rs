//! Segmentation of text into extended grapheme clusters.
//!
//! The segmentation itself is done by the `unicode-segmentation` crate and is
//! not proved here: this module names its result and states the one fact about
//! it that the rest of the library relies on.

use crate::text::texts;
use unicode_segmentation::UnicodeSegmentation;
use vstd::prelude::*;

verus! {

/// The extended grapheme clusters of `text`, in order, as
/// `unicode_segmentation::UnicodeSegmentation::graphemes(text, true)` yields them.
pub uninterp spec fn grapheme_clusters(text: Seq<char>) -> Seq<Seq<char>>;

/// Calls `UnicodeSegmentation::graphemes(text, true)` and collects what it yields.
///
/// Unproved: that the strings returned are the extended grapheme clusters of
/// `text`, and that they are consecutive slices of `text` that cover it from
/// its first byte to its last, so that their concatenation is `text`.
#[verifier::external_body]
pub(crate) fn graphemes(text: &str) -> (clusters: Vec<String>)
    ensures
        texts(clusters@) == grapheme_clusters(text@),
        texts(clusters@).flatten() == text@,
{
    text.graphemes(true).map(String::from).collect()
}

} // verus!
