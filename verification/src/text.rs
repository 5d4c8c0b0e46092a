//! A text taken apart into what a reader sees as its characters.

use vstd::prelude::*;
use vstd::string::StringExecFns;
use unicode_segmentation::UnicodeSegmentation;
use crate::scan::texts;

verus! {

/// The extended grapheme clusters of a text, in order: the pieces that a
/// reader takes for single characters, each of which may be made of several.
/// Where the boundaries lie is laid down by the Unicode standard, in tables
/// too long to state here, so the clusters go by this name.
pub uninterp spec fn grapheme_clusters(text: Seq<char>) -> Seq<Seq<char>>;

/// The pieces written one after the other, a space after each.
pub open spec fn spaced_out(parts: Seq<Seq<char>>) -> Seq<char>
    decreases parts.len(),
{
    if parts.len() == 0 {
        Seq::<char>::empty()
    } else {
        spaced_out(parts.drop_last()) + parts.last().push(' ')
    }
}

/// Takes a text apart into its extended grapheme clusters.
///
/// Trusted: this calls `UnicodeSegmentation::graphemes` with `is_extended`
/// set, and copies each piece that the iterator yields into a `String`. The
/// iterator cuts the text at one boundary after the other, from its start to
/// its end: each piece begins where the one before it ended, none is empty,
/// and together they are the text. The pieces depend on the text alone.
#[verifier::external_body]
pub(crate) fn graphemes(text: &str) -> (parts: Vec<String>)
    ensures
        texts(parts@) == grapheme_clusters(text@),
        texts(parts@).flatten() == text@,
        forall|i: int| 0 <= i < parts.len() ==> (#[trigger] parts@[i])@.len() > 0,
{
    UnicodeSegmentation::graphemes(text, true).map(|part| part.to_string()).collect()
}

/// The extended grapheme clusters of a text, in order. None of them is
/// empty, and put together again they are the text.
pub fn clusters(text: &str) -> (parts: Vec<String>)
    ensures
        texts(parts@) == grapheme_clusters(text@),
        texts(parts@).flatten() == text@,
        forall|i: int| 0 <= i < parts.len() ==> (#[trigger] parts@[i])@.len() > 0,
{
    graphemes(text)
}

/// Writes the pieces one after the other, a space after each.
pub fn spaced(parts: &Vec<String>) -> (line: String)
    ensures
        line@ == spaced_out(texts(parts@)),
{
    let mut line: String = String::new();
    let mut i: usize = 0;
    while i < parts.len()
        invariant
            i <= parts.len(),
            line@ == spaced_out(texts(parts@).take(i as int)),
        decreases parts.len() - i,
    {
        proof {
            let seen = texts(parts@).take(i + 1);
            assert(seen.drop_last() == texts(parts@).take(i as int));
            assert(seen.last() == parts@[i as int]@);
            reveal_strlit(" ");
            assert(" "@ =~= seq![' ']);
        }
        line.append(parts[i].as_str());
        line.append(" ");
        i += 1;
    }
    assert(texts(parts@).take(parts.len() as int) == texts(parts@));
    line
}

/// Spells a text out: its extended grapheme clusters, a space after each.
pub fn spell_graphemes(text: &str) -> (line: String)
    ensures
        line@ == spaced_out(grapheme_clusters(text@)),
        line@.len() == text@.len() + grapheme_clusters(text@).len(),
{
    let parts: Vec<String> = graphemes(text);
    proof {
        lemma_spaced_out_len(texts(parts@));
    }
    spaced(&parts)
}

/// A line of spaced pieces is as long as the pieces together, and one more
/// for each piece.
pub proof fn lemma_spaced_out_len(parts: Seq<Seq<char>>)
    ensures
        spaced_out(parts).len() == parts.flatten().len() + parts.len(),
    decreases parts.len(),
{
    if parts.len() == 0 {
    } else {
        lemma_spaced_out_len(parts.drop_last());
        let before = parts.drop_last();
        assert(parts == before.push(parts.last()));
        before.lemma_flatten_push(parts.last());
    }
}

} // verus!
