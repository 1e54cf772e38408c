//! Splitting text into user-perceived characters.

use unicode_segmentation::UnicodeSegmentation;
use vstd::prelude::*;
use vstd::string::StrSliceExecFns;
use vstd::string::StringExecFns;

verus! {

/// The user-perceived characters of `text`, in order: its extended grapheme
/// clusters as `UnicodeSegmentation::graphemes` cuts them by Unicode's rules
/// of text segmentation. The rules fill pages, so the result only has this
/// name here; it depends on the text alone.
pub uninterp spec fn grapheme_clusters(text: Seq<char>) -> Seq<Seq<char>>;

/// The texts of a list of strings.
pub open spec fn texts(parts: Seq<String>) -> Seq<Seq<char>> {
    Seq::new(parts.len(), |i: int| parts[i]@)
}

/// Calls `UnicodeSegmentation::graphemes` with extended clusters switched on
/// and copies each cluster into a `String`. Trusted: the strings that come
/// back are the clusters of `text`, in the order of the text.
#[verifier::external_body]
pub(crate) fn split_graphemes(text: &str) -> (parts: Vec<String>)
    ensures
        texts(parts@) == grapheme_clusters(text@),
{
    text.graphemes(true).map(String::from).collect()
}

/// Whether the cluster at `index` consists of the one character `letter`.
pub open spec fn cluster_is(clusters: Seq<Seq<char>>, index: int, letter: char) -> bool {
    0 <= index < clusters.len() && clusters[index] == seq![letter]
}

/// Tests whether the part at `index` is exactly `letter`; an index past the
/// end matches nothing.
pub fn part_is(parts: &Vec<String>, index: usize, letter: char) -> (hit: bool)
    ensures
        hit == cluster_is(texts(parts@), index as int, letter),
{
    if index < parts.len() {
        let part = parts[index].as_str();
        if part.unicode_len() == 1 {
            let first = part.get_char(0);
            assert(part@ =~= seq![first]);
            first == letter
        } else {
            false
        }
    } else {
        false
    }
}

/// Tests whether `index` stands right behind the last part.
pub fn at_end(parts: &Vec<String>, index: usize) -> (end: bool)
    ensures
        end == (index == texts(parts@).len()),
{
    index == parts.len()
}

/// The clusters from `start` on; none where `start` lies past the end.
pub open spec fn rest_from(clusters: Seq<Seq<char>>, start: int) -> Seq<Seq<char>> {
    if 0 <= start <= clusters.len() {
        clusters.skip(start)
    } else {
        Seq::empty()
    }
}

/// Joins the parts from `start` on into one string.
pub fn join_from(parts: &Vec<String>, start: usize) -> (joined: String)
    ensures
        joined@ == rest_from(texts(parts@), start as int).flatten(),
{
    let mut joined = String::new();
    if start >= parts.len() {
        assert(rest_from(texts(parts@), start as int) =~= Seq::<Seq<char>>::empty());
        return joined;
    }
    let ghost all = texts(parts@);
    let mut i: usize = start;
    assert(all.subrange(start as int, i as int) =~= Seq::<Seq<char>>::empty());
    while i < parts.len()
        invariant
            start <= i <= parts.len(),
            all == texts(parts@),
            joined@ == all.subrange(start as int, i as int).flatten(),
        decreases parts.len() - i,
    {
        proof {
            let before = all.subrange(start as int, i as int);
            assert(all.subrange(start as int, i + 1) =~= before.push(all[i as int]));
            before.lemma_flatten_push(all[i as int]);
        }
        joined.append(parts[i].as_str());
        i += 1;
    }
    assert(all.subrange(start as int, i as int) =~= all.skip(start as int));
    joined
}

} // verus!
