//! Choosing the next word and the place where it starts to fall.

use crate::graphemes::{grapheme_clusters, split_graphemes, texts};
use crate::random::{draw_in_range, pick_one};
use crate::units::PIXEL;
use crate::word::{Position, Word, WordView};
use vstd::prelude::*;

verus! {

/// The width, in pixels, kept free at the right edge for the box of a word.
pub const WORD_BOX_WIDTH: u32 = 200;

/// Whether a text of `count` characters passes the limit.
pub open spec fn within(limit: Option<usize>, count: int) -> bool {
    match limit {
        Some(most) => count <= most,
        None => true,
    }
}

/// The number of user-perceived characters of each entry.
pub open spec fn cluster_counts(entries: Seq<Seq<char>>) -> Seq<int> {
    Seq::new(entries.len(), |i: int| grapheme_clusters(entries[i]).len() as int)
}

/// The entries whose count passes the limit, in their order. `counts` gives
/// the count of each entry.
pub open spec fn kept(entries: Seq<Seq<char>>, counts: Seq<int>, limit: Option<usize>) -> Seq<
    Seq<char>,
>
    recommends
        counts.len() == entries.len(),
    decreases entries.len(),
{
    if entries.len() == 0 {
        Seq::empty()
    } else {
        let before = kept(entries.drop_last(), counts.drop_last(), limit);
        if within(limit, counts.last()) {
            before.push(entries.last())
        } else {
            before
        }
    }
}

/// The entries to choose from, given the count of each: those that pass the
/// limit, or, where none does, all of them.
pub open spec fn selection(entries: Seq<Seq<char>>, counts: Seq<int>, limit: Option<usize>) -> Seq<
    Seq<char>,
> {
    let passing = kept(entries, counts, limit);
    if passing.len() > 0 {
        passing
    } else {
        entries
    }
}

/// The entries of the dictionary that a spawn under `limit` chooses from.
pub open spec fn candidates(dictionary: Seq<Seq<char>>, limit: Option<usize>) -> Seq<Seq<char>> {
    selection(dictionary, cluster_counts(dictionary), limit)
}

/// The horizontal positions at which a word may start on a screen of
/// `screen_width` pixels: from the left edge up to where its box still fits.
pub open spec fn spawn_span(screen_width: int) -> int {
    (screen_width - WORD_BOX_WIDTH) * PIXEL
}

/// `word` is a possible outcome of a spawn: one of the candidates, untyped,
/// at the top, and horizontally inside the span.
pub open spec fn spawned_from(
    word: WordView,
    dictionary: Seq<Seq<char>>,
    limit: Option<usize>,
    screen_width: int,
) -> bool {
    &&& candidates(dictionary, limit).contains(word.value)
    &&& word.progress_index == 0
    &&& word.position.y == 0
    &&& 0 <= word.position.x < spawn_span(screen_width)
}

/// Every kept entry is an entry whose count passes the limit.
pub proof fn lemma_kept_passes(
    entries: Seq<Seq<char>>,
    counts: Seq<int>,
    limit: Option<usize>,
    k: int,
)
    requires
        counts.len() == entries.len(),
        0 <= k < kept(entries, counts, limit).len(),
    ensures
        exists|i: int|
            0 <= i < entries.len() && #[trigger] entries[i] == kept(entries, counts, limit)[k]
                && within(limit, counts[i]),
    decreases entries.len(),
{
    let before = kept(entries.drop_last(), counts.drop_last(), limit);
    if k < before.len() {
        lemma_kept_passes(entries.drop_last(), counts.drop_last(), limit, k);
        let i = choose|i: int|
            0 <= i < entries.drop_last().len() && #[trigger] entries.drop_last()[i] == before[k]
                && within(limit, counts.drop_last()[i]);
        assert(entries[i] == kept(entries, counts, limit)[k]);
    } else {
        let i = entries.len() - 1;
        assert(entries[i] == kept(entries, counts, limit)[k]);
    }
}

/// An entry whose count passes the limit is kept.
pub proof fn lemma_passing_is_kept(
    entries: Seq<Seq<char>>,
    counts: Seq<int>,
    limit: Option<usize>,
    i: int,
)
    requires
        counts.len() == entries.len(),
        0 <= i < entries.len(),
        within(limit, counts[i]),
    ensures
        kept(entries, counts, limit).contains(entries[i]),
    decreases entries.len(),
{
    let before = kept(entries.drop_last(), counts.drop_last(), limit);
    if i < entries.len() - 1 {
        lemma_passing_is_kept(entries.drop_last(), counts.drop_last(), limit, i);
        let k = choose|k: int| 0 <= k < before.len() && before[k] == entries.drop_last()[i];
        assert(kept(entries, counts, limit)[k] == entries[i]);
    } else {
        assert(kept(entries, counts, limit)[before.len() as int] == entries[i]);
    }
}

/// Without a limit every entry is kept.
pub proof fn lemma_kept_without_limit(entries: Seq<Seq<char>>, counts: Seq<int>)
    requires
        counts.len() == entries.len(),
    ensures
        kept(entries, counts, None) == entries,
    decreases entries.len(),
{
    if entries.len() > 0 {
        lemma_kept_without_limit(entries.drop_last(), counts.drop_last());
        assert(entries.drop_last().push(entries.last()) =~= entries);
    } else {
        assert(entries =~= Seq::<Seq<char>>::empty());
    }
}

/// Selects the entries to choose from, given the count of each entry: those
/// whose count passes the limit, or all of them where none passes.
pub fn select(entries: &Vec<String>, counts: &Vec<usize>, limit: Option<usize>) -> (chosen: Vec<
    String,
>)
    requires
        counts.len() == entries.len(),
    ensures
        texts(chosen@) == selection(
            texts(entries@),
            Seq::new(counts@.len(), |i: int| counts@[i] as int),
            limit,
        ),
{
    let ghost all = texts(entries@);
    let ghost sizes = Seq::new(counts@.len(), |i: int| counts@[i] as int);
    let mut passing: Vec<String> = Vec::new();
    let mut i: usize = 0;
    assert(texts(passing@) =~= kept(all.take(0), sizes.take(0), limit));
    while i < entries.len()
        invariant
            i <= entries.len(),
            counts.len() == entries.len(),
            all == texts(entries@),
            sizes == Seq::new(counts@.len(), |i: int| counts@[i] as int),
            texts(passing@) == kept(all.take(i as int), sizes.take(i as int), limit),
        decreases entries.len() - i,
    {
        let passes = match limit {
            Some(most) => counts[i] <= most,
            None => true,
        };
        proof {
            assert(all.take(i + 1).drop_last() =~= all.take(i as int));
            assert(sizes.take(i + 1).drop_last() =~= sizes.take(i as int));
            assert(all.take(i + 1).last() == all[i as int]);
            assert(sizes.take(i + 1).last() == counts@[i as int]);
        }
        if passes {
            let ghost before = passing@;
            passing.push(entries[i].clone());
            assert(texts(passing@) =~= texts(before).push(all[i as int]));
        }
        i += 1;
    }
    assert(all.take(i as int) =~= all);
    assert(sizes.take(i as int) =~= sizes);
    if passing.len() > 0 {
        passing
    } else {
        let whole = entries.clone();
        assert(texts(whole@) =~= all) by {
            assert forall|k: int| 0 <= k < whole@.len() implies whole@[k]@ == entries@[k]@ by {
                assert(whole@[k] == entries@[k]);
            }
        }
        whole
    }
}

/// The entries of the dictionary to choose from under `limit`: those with at
/// most that many user-perceived characters, or the whole dictionary where
/// it has none so short.
pub fn candidates_of(dictionary: &Vec<String>, limit: Option<usize>) -> (chosen: Vec<String>)
    ensures
        texts(chosen@) == candidates(texts(dictionary@), limit),
        dictionary.len() > 0 ==> chosen.len() > 0,
{
    let mut counts: Vec<usize> = Vec::new();
    let mut i: usize = 0;
    while i < dictionary.len()
        invariant
            i <= dictionary.len(),
            counts.len() == i,
            forall|k: int|
                0 <= k < i ==> #[trigger] counts@[k] == grapheme_clusters(dictionary@[k]@).len(),
        decreases dictionary.len() - i,
    {
        let parts = split_graphemes(dictionary[i].as_str());
        counts.push(parts.len());
        i += 1;
    }
    assert(Seq::new(counts@.len(), |i: int| counts@[i] as int) =~= cluster_counts(
        texts(dictionary@),
    ));
    let chosen = select(dictionary, &counts, limit);
    assert(texts(chosen@).len() == chosen@.len());
    chosen
}

/// A new word for a screen of `screen_width` pixels: one of the candidates,
/// by a draw among them, at the top of the screen and at a drawn horizontal
/// position that leaves room for its box, with nothing typed yet.
pub fn spawn(dictionary: &Vec<String>, length_limit: Option<usize>, screen_width: u32) -> (word:
    Word)
    requires
        dictionary.len() > 0,
        screen_width > WORD_BOX_WIDTH,
    ensures
        spawned_from(word@, texts(dictionary@), length_limit, screen_width as int),
{
    let source_words = candidates_of(dictionary, length_limit);
    let text = pick_one(&source_words).unwrap();
    let span: i64 = (screen_width - WORD_BOX_WIDTH) as i64 * PIXEL;
    let x = draw_in_range(0, span);
    let word = Word::new(text.as_str(), Position { x, y: 0 }, 0);
    proof {
        let k = choose|k: int| 0 <= k < source_words@.len() && source_words@[k] == *text;
        assert(texts(source_words@)[k] == word@.value);
    }
    word
}

} // verus!
