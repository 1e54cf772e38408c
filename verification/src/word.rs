//! A falling word: its text, where it is, how much of it has been typed, and
//! the effect it carries.

use crate::color::Color;
use crate::graphemes::{
    at_end, cluster_is, grapheme_clusters, join_from, part_is, rest_from, split_graphemes,
};
use crate::random::{draw_in_range, pick_one};
use crate::units::{advance, advanced};
use vstd::prelude::*;
use vstd::string::StringExecFns;

verus! {

/// A point of the play area, in millionths of a pixel; `y` grows downwards.
#[derive(Clone, Copy, Debug, PartialEq, Eq, Structural)]
pub struct Position {
    pub x: i64,
    pub y: i64,
}

/// What completing a word does beyond the score.
#[derive(Clone, Copy, Debug, PartialEq, Eq, Structural)]
pub enum WordEffect {
    SlowDown,
    AddLife,
    SpawnOnlyShortWords,
}

/// A word on its way down the screen.
#[derive(Debug)]
pub struct Word {
    pub value: String,
    pub position: Position,
    pub progress_index: usize,
    pub effect: Option<WordEffect>,
}

/// A word as a value. `progress_index` counts the user-perceived characters
/// typed so far.
#[verifier::ext_equal]
pub struct WordView {
    pub value: Seq<char>,
    pub position: Position,
    pub progress_index: int,
    pub effect: Option<WordEffect>,
}

/// The highest draw, out of a hundred, on which a new word carries no effect.
pub const LAST_PLAIN_ROLL: i64 = 80;

impl WordView {
    /// The user-perceived characters of the text.
    pub open spec fn clusters(self) -> Seq<Seq<char>> {
        grapheme_clusters(self.value)
    }

    /// Every character of the text has been typed.
    pub open spec fn is_complete(self) -> bool {
        self.progress_index == self.clusters().len()
    }

    /// `letter` is the next character to type.
    pub open spec fn accepts(self, letter: char) -> bool {
        cluster_is(self.clusters(), self.progress_index, letter)
    }

    /// The word after `letter` was typed at it: one character further where
    /// the letter is the next one, unchanged otherwise.
    pub open spec fn typed(self, letter: char) -> WordView {
        if self.accepts(letter) {
            WordView { progress_index: self.progress_index + 1, ..self }
        } else {
            self
        }
    }

    /// The part of the text that is still to type.
    pub open spec fn displayed(self) -> Seq<char> {
        rest_from(self.clusters(), self.progress_index).flatten()
    }

    /// The word `delta` further down.
    pub open spec fn moved(self, delta: int) -> WordView {
        WordView {
            position: Position { x: self.position.x, y: advanced(self.position.y, delta) },
            ..self
        }
    }
}

impl View for Word {
    type V = WordView;

    open spec fn view(&self) -> WordView {
        WordView {
            value: self.value@,
            position: self.position,
            progress_index: self.progress_index as int,
            effect: self.effect,
        }
    }
}

/// The effects a word can carry.
pub open spec fn all_effects() -> Seq<WordEffect> {
    seq![WordEffect::SlowDown, WordEffect::AddLife, WordEffect::SpawnOnlyShortWords]
}

/// The effects to draw from.
pub fn effect_choices() -> (effects: Vec<WordEffect>)
    ensures
        effects@ == all_effects(),
{
    let mut effects: Vec<WordEffect> = Vec::new();
    effects.push(WordEffect::SlowDown);
    effects.push(WordEffect::AddLife);
    effects.push(WordEffect::SpawnOnlyShortWords);
    assert(effects@ =~= all_effects());
    effects
}

/// Whether a draw between 1 and 100 gives the new word an effect: the top
/// fifth of the draws does.
pub fn roll_carries_effect(roll: i64) -> (carries: bool)
    ensures
        carries == (roll > LAST_PLAIN_ROLL),
{
    roll > LAST_PLAIN_ROLL
}

impl Word {
    /// A word with the given effect; no draw is made.
    pub fn with_effect(
        value: &str,
        position: Position,
        progress_index: usize,
        effect: Option<WordEffect>,
    ) -> (word: Word)
        ensures
            word@ == (WordView {
                value: value@,
                position,
                progress_index: progress_index as int,
                effect,
            }),
    {
        Word { value: String::from_str(value), position, progress_index, effect }
    }

    /// A word whose effect is drawn once, here: one draw between 1 and 100,
    /// and above 80 a second draw among the three effects. Everything but the
    /// effect is as given.
    pub fn new(value: &str, position: Position, progress_index: usize) -> (word: Word)
        ensures
            word@ == (WordView {
                value: value@,
                position,
                progress_index: progress_index as int,
                effect: word.effect,
            }),
    {
        let roll = draw_in_range(1, 101);
        let effect = if roll_carries_effect(roll) {
            Some(*pick_one(&effect_choices()).unwrap())
        } else {
            None
        };
        Word::with_effect(value, position, progress_index, effect)
    }

    /// The part of the text that is still to type.
    pub fn get_display_value(&self) -> (shown: String)
        ensures
            shown@ == self@.displayed(),
    {
        let parts = split_graphemes(self.value.as_str());
        join_from(&parts, self.progress_index)
    }

    /// Moves the word `delta_y` down; it stops at the largest coordinate.
    pub fn update_position(&mut self, delta_y: u64)
        ensures
            final(self)@ == old(self)@.moved(delta_y as int),
    {
        self.position.y = advance(self.position.y, delta_y);
    }

    /// The colour that tells the word's effect.
    pub fn get_color(&self) -> (color: Color)
        ensures
            color == effect_color(self.effect),
    {
        match self.effect {
            Some(WordEffect::SlowDown) => Color::new(6, 90, 92, 65),
            Some(WordEffect::AddLife) => Color::green(),
            Some(WordEffect::SpawnOnlyShortWords) => Color::yellow(),
            None => Color::white(),
        }
    }

    /// The name of the typeface: the secondary one for a word with an effect.
    pub fn get_font(&self) -> (font: String)
        ensures
            font@ == if self.effect is Some {
                "SecondaryFont"@
            } else {
                "PrimaryFont"@
            },
    {
        if self.effect.is_some() {
            String::from_str("SecondaryFont")
        } else {
            String::from_str("PrimaryFont")
        }
    }

    /// Types `letter` at the word. Where it is the next character, progress
    /// moves on by one and the result is `true`; any other letter, and any
    /// letter at a complete word, changes nothing and gives `false`.
    pub fn handle_typed_letter(&mut self, letter: char) -> (hit: bool)
        ensures
            hit == old(self)@.accepts(letter),
            final(self)@ == old(self)@.typed(letter),
            hit ==> final(self)@.progress_index == old(self)@.progress_index + 1,
            !hit ==> final(self)@ == old(self)@,
            final(self)@.value == old(self)@.value,
    {
        let parts = split_graphemes(self.value.as_str());
        if part_is(&parts, self.progress_index, letter) {
            assert(self.progress_index < parts.len());
            self.progress_index += 1;
            true
        } else {
            false
        }
    }

    /// Whether as many characters were typed as the text has.
    pub fn is_completed(&self) -> (done: bool)
        ensures
            done == self@.is_complete(),
            done == (self.progress_index == grapheme_clusters(self.value@).len()),
    {
        let parts = split_graphemes(self.value.as_str());
        at_end(&parts, self.progress_index)
    }
}

/// The colour of a word with the given effect.
pub open spec fn effect_color(effect: Option<WordEffect>) -> Color {
    match effect {
        Some(WordEffect::SlowDown) => Color::rgba(6, 90, 92, 65),
        Some(WordEffect::AddLife) => Color::opaque_green(),
        Some(WordEffect::SpawnOnlyShortWords) => Color::opaque_yellow(),
        None => Color::opaque_white(),
    }
}

} // verus!
