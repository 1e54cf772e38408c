use std::collections::VecDeque;

use typing_tutor::game::{
    create_key_codes_map, Game, INITIAL_GAME_SPEED, INITIAL_TIME_UNTIL_NEXT_WORD,
};
use typing_tutor::units::{PIXEL, SECOND};
use typing_tutor::word::{Position, Word, WordEffect};
use unicode_segmentation::UnicodeSegmentation;

fn source_words() -> Vec<String> {
    [
        "cat", "dog", "sun", "жар", "climate", "window", "keyboard", "mountain",
        "e\u{301}te\u{301}",
    ]
    .iter()
    .map(|word| word.to_string())
    .collect()
}

fn create_game() -> Game {
    Game::new(1200, 1000, source_words())
}

#[test]
fn it_initializes_game_with_defautl_state() {
    let game = create_game();

    assert_eq!(game.screen_height, 1000);
    assert_eq!(game.screen_width, 1200);
    assert_eq!(game.key_codes_map, create_key_codes_map());
    assert_eq!(game.is_game_running, false);
    assert_eq!(game.words.len(), 0);
    assert_eq!(game.next_word_loop_length, INITIAL_TIME_UNTIL_NEXT_WORD);
    assert_eq!(game.current_score, 0);
    assert_eq!(game.life_points, 0);
    assert_eq!(game.game_speed, INITIAL_GAME_SPEED);
    assert!(game.time_until_next_word.is_none());
    assert!(game.game_speed_before_slow_down.is_none());
    assert!(game.passed_time_since_game_end.is_none());
    assert!(game.slow_down_time_left.is_none());
    assert!(game.spawn_only_short_words_time_left.is_none());
}

#[test]
fn it_starts_the_game_correctly() {
    let mut game = create_game();

    let start_res = game.start_game();
    assert_eq!(start_res, ());

    assert!(game.is_game_running);
    assert_eq!(game.current_score, 0);
    assert_eq!(game.life_points, 0);
    assert_eq!(
        game.time_until_next_word,
        Some(INITIAL_TIME_UNTIL_NEXT_WORD)
    );
    assert_eq!(game.game_speed, INITIAL_GAME_SPEED);
    assert_eq!(game.passed_time_since_game_end, None);
}

#[test]
fn it_ends_the_game_correctly() {
    let mut game = create_game();

    game.is_game_running = true;

    let word = Word::new("word", Position { x: 0, y: 0 }, 0);
    game.words = VecDeque::from([word]);

    let end_res = game.end_game();

    assert_eq!(end_res, ());

    assert_eq!(game.is_game_running, false);
    assert_eq!(game.words.len(), 0);
    assert_eq!(game.passed_time_since_game_end, Some(0))
}

#[test]
fn it_updates_words_positions_correctly() {
    let mut game = create_game();

    let word_1 = Word::new("word1", Position { x: PIXEL, y: PIXEL }, 0);
    let word_2 = Word::new("word2", Position { x: 3 * PIXEL / 10, y: 2 * PIXEL }, 0);
    game.words = VecDeque::from([word_1, word_2]);

    game.update_words_positions(2 * PIXEL as u64 / 10);

    assert_eq!(game.words.front().unwrap().position.y, 12 * PIXEL / 10);
    assert_eq!(game.words.back().unwrap().position.y, 22 * PIXEL / 10);
}

#[test]
fn it_spawns_a_new_word_correctly() {
    let mut game = create_game();

    let word_1 = Word::new("word1", Position { x: PIXEL, y: PIXEL }, 0);
    let word_2 = Word::new("word2", Position { x: 3 * PIXEL / 10, y: 2 * PIXEL }, 0);
    game.words = VecDeque::from([word_1, word_2]);

    game.spawn_new_word(None);
    assert_eq!(game.words.len(), 3);
    assert!(game.words.back().unwrap().position.x < 1000 * PIXEL)
}

#[test]
fn it_spawns_a_new_word_with_len_limit_correctly() {
    let mut game = create_game();

    let word_1 = Word::new("word1", Position { x: PIXEL, y: PIXEL }, 0);
    let word_2 = Word::new("word2", Position { x: 3 * PIXEL / 10, y: 2 * PIXEL }, 0);
    game.words = VecDeque::from([word_1, word_2]);

    game.spawn_new_word(Some(3));
    assert_eq!(game.words.len(), 3);
    assert!(game.words.back().unwrap().position.x < 1000 * PIXEL);
    assert!(game.words.back().unwrap().value.graphemes(true).count() <= 3);
}

#[test]
fn it_completes_a_word_without_effect_correctly() {
    let mut game = create_game();

    game.current_score = 10;
    game.game_speed = INITIAL_GAME_SPEED;
    let mut word_1 = Word::new("word1", Position { x: PIXEL, y: PIXEL }, 0);
    word_1.effect = None;
    let mut word_2 = Word::new("word2", Position { x: 3 * PIXEL / 10, y: 2 * PIXEL }, 0);
    word_2.effect = None;

    game.words = VecDeque::from([word_1, word_2]);

    game.complete_word();

    assert_eq!(game.words.len(), 1);
    assert_eq!(game.current_score, 20);
    assert_eq!(game.game_speed, INITIAL_GAME_SPEED + 5);
}

#[test]
fn it_completes_a_word_with_add_life_effect_correctly() {
    let mut game = create_game();

    game.current_score = 10;
    game.game_speed = INITIAL_GAME_SPEED;
    game.life_points = 0;
    let mut word_1 = Word::new("word1", Position { x: PIXEL, y: PIXEL }, 0);
    word_1.effect = Some(WordEffect::AddLife);
    let word_2 = Word::new("word2", Position { x: 3 * PIXEL / 10, y: 2 * PIXEL }, 0);
    game.words = VecDeque::from([word_1, word_2]);

    game.complete_word();

    assert_eq!(game.words.len(), 1);
    assert_eq!(game.current_score, 20);
    assert_eq!(game.game_speed, INITIAL_GAME_SPEED + 5);
    assert_eq!(game.life_points, 1);
}

#[test]
fn it_completes_a_word_with_slow_down_effect_correctly() {
    let mut game = create_game();

    game.current_score = 10;
    game.game_speed = INITIAL_GAME_SPEED;
    game.life_points = 0;
    let mut word_1 = Word::new("word1", Position { x: PIXEL, y: PIXEL }, 0);
    word_1.effect = Some(WordEffect::SlowDown);
    let word_2 = Word::new("word2", Position { x: 3 * PIXEL / 10, y: 2 * PIXEL }, 0);
    game.words = VecDeque::from([word_1, word_2]);

    game.complete_word();

    assert_eq!(game.words.len(), 1);
    assert_eq!(game.current_score, 20);
    assert_eq!(game.game_speed, 25);
    assert_eq!(
        game.game_speed_before_slow_down,
        Some(INITIAL_GAME_SPEED + 5)
    );
    assert_eq!(game.slow_down_time_left, Some(5 * SECOND));
}

#[test]
fn it_completes_a_word_with_short_words_spawn_effect_correctly() {
    let mut game = create_game();

    game.current_score = 10;
    game.game_speed = INITIAL_GAME_SPEED;
    game.life_points = 0;
    let mut word_1 = Word::new("word1", Position { x: PIXEL, y: PIXEL }, 0);
    word_1.effect = Some(WordEffect::SpawnOnlyShortWords);
    let word_2 = Word::new("word2", Position { x: 3 * PIXEL / 10, y: 2 * PIXEL }, 0);
    game.words = VecDeque::from([word_1, word_2]);

    game.complete_word();

    assert_eq!(game.words.len(), 1);
    assert_eq!(game.current_score, 20);
    assert_eq!(game.game_speed, INITIAL_GAME_SPEED + 5);
    assert_eq!(game.spawn_only_short_words_time_left, Some(5 * SECOND));
}
