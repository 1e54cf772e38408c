//! What holds of the game, whatever is typed and however the ticks fall.

use crate::graphemes::grapheme_clusters;
use crate::keys::KeyCode;
use crate::menu::{MenuMove, MenuView};
use crate::session::{
    tightened, GameView, INITIAL_TIME_UNTIL_NEXT_WORD, MIN_SPAWN_INTERVAL,
    SHORT_WORD_LENGTH, SLOW_GAME_SPEED, SPAWN_INTERVAL_STEP, SPEED_STEP, WORD_SCORE,
};
use crate::spawner::{
    candidates, cluster_counts, kept, lemma_kept_passes, lemma_kept_without_limit, spawned_from,
    within,
};
use crate::units::SECOND;
use crate::word::{WordEffect, WordView};
use vstd::prelude::*;

verus! {

// ----- words -----

/// A word is complete exactly when as many characters are typed as its text
/// has.
pub proof fn lemma_complete_means_all_typed(word: WordView)
    ensures
        word.is_complete() <==> word.progress_index == grapheme_clusters(word.value).len(),
{
}

/// Typing the next character moves the progress on by exactly one; typing
/// anything else changes nothing. The text and the effect never change.
pub proof fn lemma_typing_a_letter(word: WordView, letter: char)
    ensures
        word.accepts(letter) ==> word.typed(letter).progress_index == word.progress_index + 1,
        !word.accepts(letter) ==> word.typed(letter) == word,
        word.typed(letter).value == word.value,
        word.typed(letter).effect == word.effect,
        word.typed(letter).position == word.position,
{
}

/// Typing never takes the progress past the end of the text: a word with at
/// most as many characters typed as it has stays so.
pub proof fn lemma_progress_stays_within_the_text(word: WordView, letter: char)
    requires
        0 <= word.progress_index <= grapheme_clusters(word.value).len(),
    ensures
        0 <= word.typed(letter).progress_index <= grapheme_clusters(word.typed(letter).value).len(),
        word.is_complete() ==> word.typed(letter) == word,
{
}

/// A word with nothing typed shows all its characters, and a complete word
/// shows nothing.
pub proof fn lemma_displayed_at_the_ends(word: WordView)
    ensures
        word.progress_index == 0 ==> word.displayed() == word.clusters().flatten(),
        word.is_complete() ==> word.displayed() == Seq::<char>::empty(),
{
    if word.progress_index == 0 {
        assert(word.clusters().skip(0) =~= word.clusters());
    }
    if word.is_complete() {
        assert(word.clusters().skip(word.progress_index) =~= Seq::<Seq<char>>::empty());
    }
}

/// Falling changes the row of a word and nothing else.
pub proof fn lemma_falling(word: WordView, delta: int)
    requires
        delta >= 0,
    ensures
        word.moved(delta).position.x == word.position.x,
        word.moved(delta).position.y >= word.position.y,
        word.position.y + delta <= i64::MAX ==> word.moved(delta).position.y == word.position.y
            + delta,
        word.moved(delta).value == word.value,
        word.moved(delta).progress_index == word.progress_index,
        word.moved(delta).effect == word.effect,
{
}

// ----- typing -----

/// A letter goes to the first word and to no other. If it completes the
/// word, the word leaves and the others move up; if not, the others stay
/// where they are.
pub proof fn lemma_only_the_first_word_is_typed_at(game: GameView, letter: char)
    requires
        game.is_game_running,
        game.words.len() > 0,
    ensures
        game.words[0].typed(letter).is_complete() ==> game.keystroke(letter).words
            == game.words.drop_first(),
        !game.words[0].typed(letter).is_complete() ==> game.keystroke(letter) == (GameView {
            words: game.words.update(0, game.words[0].typed(letter)),
            ..game
        }),
{
    if game.words[0].typed(letter).is_complete() {
        assert(game.words.update(0, game.words[0].typed(letter)).drop_first()
            =~= game.words.drop_first());
    }
}

/// Between rounds, and while nothing falls, a letter changes nothing.
pub proof fn lemma_a_letter_without_a_target(game: GameView, letter: char)
    requires
        !game.is_game_running || game.words.len() == 0,
    ensures
        game.keystroke(letter) == game,
{
}

/// A letter that completes the first word scores it: the score and the speed
/// go up by their steps, and the spawn interval tightens.
pub proof fn lemma_a_letter_that_completes(game: GameView, letter: char)
    requires
        game.is_game_running,
        game.words.len() > 0,
        game.words[0].typed(letter).is_complete(),
    ensures
        game.keystroke(letter).current_score == game.current_score + WORD_SCORE,
        game.keystroke(letter).next_word_loop_length == tightened(game.next_word_loop_length),
        game.words[0].effect != Some(WordEffect::SlowDown) ==> game.keystroke(letter).game_speed
            == game.game_speed + SPEED_STEP,
{
}

// ----- completing a word -----

/// Completing a word without effect takes it off the queue, adds the word
/// score and the speed step, and leaves the lives and every timer alone.
pub proof fn lemma_completing_a_plain_word(game: GameView)
    requires
        game.words.len() > 0,
        game.words[0].effect is None,
    ensures
        game.completed_front() == (GameView {
            words: game.words.drop_first(),
            current_score: game.current_score + WORD_SCORE,
            game_speed: game.game_speed + SPEED_STEP,
            ..game
        }),
        game.completed_front().life_points == game.life_points,
{
}

/// Completing a word that adds a life gives one life, on top of the score
/// and the speed step.
pub proof fn lemma_completing_a_life_word(game: GameView)
    requires
        game.words.len() > 0,
        game.words[0].effect == Some(WordEffect::AddLife),
    ensures
        game.completed_front() == (GameView {
            words: game.words.drop_first(),
            current_score: game.current_score + WORD_SCORE,
            game_speed: game.game_speed + SPEED_STEP,
            life_points: game.life_points + 1,
            ..game
        }),
{
}

/// Completing a word that slows the game down sets the speed to the slow
/// speed, saves the speed that held just before (the old speed with the
/// step of this word), and starts the clock of the slow-down at five
/// seconds. A slow-down that already lasts is replaced in the same way.
pub proof fn lemma_completing_a_slow_down_word(game: GameView)
    requires
        game.words.len() > 0,
        game.words[0].effect == Some(WordEffect::SlowDown),
    ensures
        game.completed_front() == (GameView {
            words: game.words.drop_first(),
            current_score: game.current_score + WORD_SCORE,
            game_speed: SLOW_GAME_SPEED as int,
            game_speed_before_slow_down: Some(game.game_speed + SPEED_STEP),
            slow_down_time_left: Some(5 * SECOND),
            ..game
        }),
{
}

/// Completing a word that asks for short words starts the run of short
/// words at five seconds, on top of the score and the speed step.
pub proof fn lemma_completing_a_short_words_word(game: GameView)
    requires
        game.words.len() > 0,
        game.words[0].effect == Some(WordEffect::SpawnOnlyShortWords),
    ensures
        game.completed_front() == (GameView {
            words: game.words.drop_first(),
            current_score: game.current_score + WORD_SCORE,
            game_speed: game.game_speed + SPEED_STEP,
            spawn_only_short_words_time_left: Some(5 * SECOND),
            ..game
        }),
{
}

// ----- spawning -----

/// While the run of short words has time left, a spawn is held to the
/// short-word length.
pub proof fn lemma_short_words_limit_in_force(game: GameView)
    ensures
        game.spawn_limit() == Some(SHORT_WORD_LENGTH) <==> (
        game.spawn_only_short_words_time_left matches Some(left) && left > 0),
        game.spawn_limit() is None <==> !(game.spawn_only_short_words_time_left matches Some(left)
            && left > 0),
{
}

/// Where the dictionary has an entry that passes the limit, every candidate
/// passes it: a word spawned under the limit has at most that many
/// user-perceived characters.
pub proof fn lemma_spawn_keeps_the_limit(
    word: WordView,
    dictionary: Seq<Seq<char>>,
    most: usize,
    screen_width: int,
)
    requires
        exists|i: int|
            0 <= i < dictionary.len() && (#[trigger] grapheme_clusters(dictionary[i])).len()
                <= most,
        spawned_from(word, dictionary, Some(most), screen_width),
    ensures
        grapheme_clusters(word.value).len() <= most,
{
    let counts = cluster_counts(dictionary);
    let limit = Some(most);
    let i = choose|i: int|
        0 <= i < dictionary.len() && (#[trigger] grapheme_clusters(dictionary[i])).len() <= most;
    assert(within(limit, counts[i]));
    crate::spawner::lemma_passing_is_kept(dictionary, counts, limit, i);
    let passing = kept(dictionary, counts, limit);
    assert(passing.len() > 0);
    let k = choose|k: int| 0 <= k < passing.len() && passing[k] == word.value;
    lemma_kept_passes(dictionary, counts, limit, k);
}

/// While the run of short words has time left, and the dictionary has a
/// word that is short enough, a spawned word has at most three
/// user-perceived characters.
pub proof fn lemma_only_short_words_spawn(game: GameView, spawned: WordView)
    requires
        game.spawn_only_short_words_time_left matches Some(left) && left > 0,
        exists|i: int|
            0 <= i < game.dictionary.len() && (#[trigger] grapheme_clusters(
                game.dictionary[i],
            )).len() <= SHORT_WORD_LENGTH,
        spawned_from(spawned, game.dictionary, game.spawn_limit(), game.screen_width),
    ensures
        grapheme_clusters(spawned.value).len() <= 3,
{
    lemma_spawn_keeps_the_limit(spawned, game.dictionary, SHORT_WORD_LENGTH, game.screen_width);
}

/// Without a limit the candidates are the whole dictionary: a spawned word
/// is one of its entries.
pub proof fn lemma_spawn_without_limit(
    word: WordView,
    dictionary: Seq<Seq<char>>,
    screen_width: int,
)
    requires
        spawned_from(word, dictionary, None, screen_width),
    ensures
        dictionary.contains(word.value),
        candidates(dictionary, None) == dictionary,
{
    lemma_kept_without_limit(dictionary, cluster_counts(dictionary));
}

/// Whatever the limit, a spawned word is an entry of the dictionary.
pub proof fn lemma_spawn_is_from_the_dictionary(
    word: WordView,
    dictionary: Seq<Seq<char>>,
    limit: Option<usize>,
    screen_width: int,
)
    requires
        spawned_from(word, dictionary, limit, screen_width),
    ensures
        dictionary.contains(word.value),
{
    let counts = cluster_counts(dictionary);
    let passing = kept(dictionary, counts, limit);
    if passing.len() > 0 {
        let k = choose|k: int| 0 <= k < passing.len() && passing[k] == word.value;
        lemma_kept_passes(dictionary, counts, limit, k);
    }
}

// ----- the bottom of the screen -----

/// A first word that reached the bottom while a life is left costs that
/// life and leaves the queue. Nothing is scored, no effect applies, and a
/// running round goes on.
pub proof fn lemma_losing_a_word(game: GameView, elapsed: int, spawned: WordView)
    requires
        game.front_is_out(),
        game.life_points > 0,
    ensures
        game.boundary_checked() == (GameView {
            life_points: game.life_points - 1,
            words: game.words.drop_first(),
            ..game
        }),
        game.tick(elapsed, spawned).life_points == game.life_points - 1,
        game.tick(elapsed, spawned).current_score == game.current_score,
        game.tick(elapsed, spawned).is_game_running == game.is_game_running,
{
}

/// A first word that reached the bottom with no life left ends the round:
/// the session stops running, the queue is empty, and the end message shows
/// since zero. The rest of the tick is skipped.
pub proof fn lemma_losing_the_round(game: GameView, elapsed: int, spawned: WordView)
    requires
        game.front_is_out(),
        game.life_points == 0,
    ensures
        game.tick(elapsed, spawned) == game.ended(),
        !game.tick(elapsed, spawned).is_game_running,
        game.tick(elapsed, spawned).words.len() == 0,
        game.tick(elapsed, spawned).passed_time_since_game_end == Some(0int),
{
}

/// While no first word is at the bottom, a tick costs no life and ends no
/// round.
pub proof fn lemma_no_word_out(game: GameView, elapsed: int, spawned: WordView)
    requires
        !game.front_is_out(),
    ensures
        game.boundary_checked() == game,
        game.tick(elapsed, spawned).life_points == game.life_points,
        game.tick(elapsed, spawned).is_game_running == game.is_game_running,
{
}

/// Between rounds a tick does nothing beyond the boundary check.
pub proof fn lemma_idle_tick(game: GameView, elapsed: int, spawned: WordView)
    requires
        !game.is_game_running,
    ensures
        game.tick(elapsed, spawned) == game.boundary_checked(),
{
}

// ----- the end message -----

/// The end message shows from the end of a round on, and its clock never
/// passes four seconds: a frame moves it on by the elapsed time, up to four
/// seconds, and the frame that finds it there clears it.
pub proof fn lemma_end_message_clock(game: GameView, elapsed: nat)
    ensures
        game.ended().shows_end_message(),
        game.shows_end_message() ==> (game.end_message_aged(
            elapsed as int,
        ).passed_time_since_game_end matches Some(passed) && passed <= 4 * SECOND && (passed
            == game.passed_time_since_game_end->0 + elapsed || passed == 4 * SECOND)),
        !game.shows_end_message() ==> game.end_message_aged(
            elapsed as int,
        ).passed_time_since_game_end is None,
        game.started().passed_time_since_game_end is None,
{
}

// ----- the menus -----

/// Moving the selection never leaves the menu: a selection that points at
/// an option still does after any move, and the options stay as they are.
pub proof fn lemma_moves_keep_the_selection_valid(menu: MenuView, step: MenuMove)
    requires
        menu.valid(),
    ensures
        menu.moved(step).valid(),
        menu.moved(step).labels == menu.labels,
{
}

/// No key makes a menu point beside its options: menus that are valid stay
/// valid over every key and every tick.
pub proof fn lemma_menus_stay_valid(game: GameView, key: KeyCode, elapsed: int, spawned: WordView)
    requires
        game.menus_valid(),
    ensures
        game.key_pressed(key).menus_valid(),
        game.tick(elapsed, spawned).menus_valid(),
{
}

// ----- the spawn interval -----

/// Tightening the spawn interval never lengthens it and never takes it
/// below the floor.
pub proof fn lemma_tightened_keeps_the_floor(interval: int)
    ensures
        tightened(interval) <= interval,
        interval >= MIN_SPAWN_INTERVAL ==> tightened(interval) >= MIN_SPAWN_INTERVAL,
        interval >= MIN_SPAWN_INTERVAL + SPAWN_INTERVAL_STEP ==> tightened(interval) == interval
            - SPAWN_INTERVAL_STEP,
{
}

/// The spawn interval starts above the floor, and no step of the game takes
/// it below: not a tick, not a key, not the start or the end of a round.
pub proof fn lemma_spawn_interval_keeps_the_floor(
    game: GameView,
    elapsed: int,
    spawned: WordView,
    key: KeyCode,
    letter: char,
)
    requires
        game.next_word_loop_length >= MIN_SPAWN_INTERVAL,
    ensures
        game.started().next_word_loop_length == game.next_word_loop_length,
        game.ended().next_word_loop_length == game.next_word_loop_length,
        game.tick(elapsed, spawned).next_word_loop_length == game.next_word_loop_length,
        game.key_pressed(key).next_word_loop_length >= MIN_SPAWN_INTERVAL,
        game.key_pressed(key).next_word_loop_length <= game.next_word_loop_length,
        game.keystroke(letter).next_word_loop_length >= MIN_SPAWN_INTERVAL,
        game.keystroke(letter).next_word_loop_length <= game.next_word_loop_length,
{
}

/// A new session has its spawn interval above the floor.
pub proof fn lemma_initial_spawn_interval(
    screen_width: int,
    screen_height: int,
    dictionary: Seq<Seq<char>>,
)
    ensures
        GameView::initial(screen_width, screen_height, dictionary).next_word_loop_length
            == INITIAL_TIME_UNTIL_NEXT_WORD,
        INITIAL_TIME_UNTIL_NEXT_WORD >= MIN_SPAWN_INTERVAL,
{
}

// ----- the slow-down over time -----

/// Something that happens to a session.
pub enum Event {
    /// A tick of `elapsed` microseconds, with the word that joins the queue
    /// if the tick spawns one.
    Tick { elapsed: nat, spawned: WordView },
    /// A typed letter.
    Key { letter: char },
}

/// The session after `event`.
pub open spec fn after_event(game: GameView, event: Event) -> GameView {
    match event {
        Event::Tick { elapsed, spawned } => game.tick(elapsed as int, spawned),
        Event::Key { letter } => game.keystroke(letter),
    }
}

/// The session after `events`, in their order.
pub open spec fn after_events(game: GameView, events: Seq<Event>) -> GameView
    decreases events.len(),
{
    if events.len() == 0 {
        game
    } else {
        after_event(after_events(game, events.drop_last()), events.last())
    }
}

/// The time that the ticks among `events` take together.
pub open spec fn elapsed_over(events: Seq<Event>) -> int
    decreases events.len(),
{
    if events.len() == 0 {
        0
    } else {
        elapsed_over(events.drop_last()) + match events.last() {
            Event::Tick { elapsed, .. } => elapsed as int,
            Event::Key { .. } => 0,
        }
    }
}

/// `letter` completes a word that slows the game down.
pub open spec fn completes_a_slow_down_word(game: GameView, letter: char) -> bool {
    &&& game.is_game_running
    &&& game.words.len() > 0
    &&& game.words[0].typed(letter).is_complete()
    &&& game.words[0].effect == Some(WordEffect::SlowDown)
}

/// `event` lets a slow-down run on: it is a tick through which the round
/// runs, or a letter that completes no word that slows the game down.
pub open spec fn lets_slow_down_run(game: GameView, event: Event) -> bool {
    match event {
        Event::Tick { .. } => game.boundary_checked().is_game_running,
        Event::Key { letter } => !completes_a_slow_down_word(game, letter),
    }
}

/// Every one of `events` lets a slow-down run on.
pub open spec fn slow_down_runs_on(game: GameView, events: Seq<Event>) -> bool
    decreases events.len(),
{
    events.len() == 0 || (slow_down_runs_on(game, events.drop_last()) && lets_slow_down_run(
        after_events(game, events.drop_last()),
        events.last(),
    ))
}

/// A tick through which the round runs takes its time off the clock of the
/// slow-down, and brings the saved speed back when the clock runs out.
pub proof fn lemma_slow_down_over_a_tick(
    game: GameView,
    elapsed: nat,
    spawned: WordView,
    left: int,
    speed: int,
)
    requires
        game.slow_down_time_left == Some(left),
        game.game_speed_before_slow_down == Some(speed),
        game.boundary_checked().is_game_running,
    ensures
        left > elapsed ==> game.tick(elapsed as int, spawned).slow_down_time_left == Some(
            left - elapsed,
        ) && game.tick(elapsed as int, spawned).game_speed_before_slow_down == Some(speed)
            && game.tick(elapsed as int, spawned).game_speed == game.game_speed,
        left <= elapsed ==> game.tick(elapsed as int, spawned).slow_down_time_left is None
            && game.tick(elapsed as int, spawned).game_speed_before_slow_down is None
            && game.tick(elapsed as int, spawned).game_speed == speed,
{
}

/// A letter that completes no word that slows the game down leaves the
/// clock of the slow-down and the saved speed as they are.
pub proof fn lemma_slow_down_over_a_key(game: GameView, letter: char)
    requires
        !completes_a_slow_down_word(game, letter),
    ensures
        game.keystroke(letter).slow_down_time_left == game.slow_down_time_left,
        game.keystroke(letter).game_speed_before_slow_down == game.game_speed_before_slow_down,
{
}

/// While the ticks have taken less than what the slow-down had left, its
/// clock shows the difference and the saved speed is still saved.
pub proof fn lemma_slow_down_still_runs(
    game: GameView,
    events: Seq<Event>,
    left: int,
    speed: int,
)
    requires
        game.slow_down_time_left == Some(left),
        game.game_speed_before_slow_down == Some(speed),
        slow_down_runs_on(game, events),
        elapsed_over(events) < left,
    ensures
        after_events(game, events).slow_down_time_left == Some(left - elapsed_over(events)),
        after_events(game, events).game_speed_before_slow_down == Some(speed),
    decreases events.len(),
{
    if events.len() > 0 {
        let before = after_events(game, events.drop_last());
        lemma_elapsed_is_not_negative(events.drop_last());
        lemma_slow_down_still_runs(game, events.drop_last(), left, speed);
        match events.last() {
            Event::Tick { elapsed, spawned } => {
                lemma_slow_down_over_a_tick(
                    before,
                    elapsed,
                    spawned,
                    left - elapsed_over(events.drop_last()),
                    speed,
                );
            },
            Event::Key { letter } => {
                lemma_slow_down_over_a_key(before, letter);
            },
        }
    }
}

/// The ticks of a run of events take no negative time.
pub proof fn lemma_elapsed_is_not_negative(events: Seq<Event>)
    ensures
        elapsed_over(events) >= 0,
    decreases events.len(),
{
    if events.len() > 0 {
        lemma_elapsed_is_not_negative(events.drop_last());
    }
}

/// A slow-down ends on the tick with which the ticks since its start have
/// taken as long as it had left, five seconds for a fresh one, and on that
/// tick the game has the saved speed again. This holds whatever was typed in
/// between, as long as no other word that slows the game down was completed
/// and the round ran through every tick.
pub proof fn lemma_slow_down_runs_out(game: GameView, events: Seq<Event>, left: int, speed: int)
    requires
        game.slow_down_time_left == Some(left),
        game.game_speed_before_slow_down == Some(speed),
        slow_down_runs_on(game, events),
        events.len() > 0,
        events.last() is Tick,
        elapsed_over(events.drop_last()) < left <= elapsed_over(events),
    ensures
        after_events(game, events).game_speed == speed,
        after_events(game, events).slow_down_time_left is None,
        after_events(game, events).game_speed_before_slow_down is None,
{
    let before = after_events(game, events.drop_last());
    lemma_slow_down_still_runs(game, events.drop_last(), left, speed);
    match events.last() {
        Event::Tick { elapsed, spawned } => {
            lemma_slow_down_over_a_tick(
                before,
                elapsed,
                spawned,
                left - elapsed_over(events.drop_last()),
                speed,
            );
        },
        Event::Key { letter } => {},
    }
}

} // verus!
