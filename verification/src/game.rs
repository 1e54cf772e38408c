//! The session of the game: the falling words, score, lives and speed, the
//! timers of the effects, and the menus that show between rounds.

use crate::color::Color;
use crate::graphemes::texts;
pub use crate::keys::create_key_codes_map;
use crate::keys::{typed_letter, KeyCode};
use crate::menu::{Menu, MenuOption};
use crate::session::{color_named, fresh_menu, GameView};
pub use crate::session::{
    MenuType, EFFECT_DURATION, END_SCREEN_DURATION, INITIAL_GAME_SPEED,
    INITIAL_TIME_UNTIL_NEXT_WORD, MIN_SPAWN_INTERVAL, SHORT_WORD_LENGTH, SLOW_GAME_SPEED,
    SPAWN_INTERVAL_STEP, SPEED_STEP, WORD_SCORE,
};
use crate::spawner::{spawn, spawned_from, WORD_BOX_WIDTH};
use crate::units::{travel, PIXEL};
use crate::word::{Word, WordEffect, WordView};
use std::collections::VecDeque;
use vstd::prelude::*;
use vstd::string::StringExecFns;

verus! {

/// The session. Times are in microseconds, the screen in pixels, the speed
/// in pixels per second.
#[derive(Debug)]
pub struct Game {
    pub screen_height: u32,
    pub screen_width: u32,
    pub bg_color: Color,
    pub key_codes_map: Vec<(KeyCode, char)>,
    pub is_game_running: bool,
    pub words: VecDeque<Word>,
    pub words_font: String,
    pub next_word_loop_length: u64,
    pub current_score: u32,
    pub life_points: u32,
    pub game_speed: u32,
    pub current_menu_type: MenuType,
    pub main_menu: Menu,
    pub settings_menu: Menu,
    pub fonts_menu: Menu,
    pub bg_colors_menu: Menu,
    pub time_until_next_word: Option<u64>,
    pub game_speed_before_slow_down: Option<u32>,
    pub passed_time_since_game_end: Option<u64>,
    pub slow_down_time_left: Option<u64>,
    pub spawn_only_short_words_time_left: Option<u64>,
    pub dictionary: Vec<String>,
}

/// The words of a queue as values.
pub open spec fn word_views(words: Seq<Word>) -> Seq<WordView> {
    Seq::new(words.len(), |i: int| words[i]@)
}

/// A timer as a value.
pub open spec fn clock(timer: Option<u64>) -> Option<int> {
    match timer {
        Some(left) => Some(left as int),
        None => None,
    }
}

/// A saved speed as a value.
pub open spec fn saved(speed: Option<u32>) -> Option<int> {
    match speed {
        Some(speed) => Some(speed as int),
        None => None,
    }
}

impl View for Game {
    type V = GameView;

    open spec fn view(&self) -> GameView {
        GameView {
            screen_height: self.screen_height as int,
            screen_width: self.screen_width as int,
            bg_color: self.bg_color,
            key_codes_map: self.key_codes_map@,
            is_game_running: self.is_game_running,
            words: word_views(self.words@),
            words_font: self.words_font@,
            next_word_loop_length: self.next_word_loop_length as int,
            current_score: self.current_score as int,
            life_points: self.life_points as int,
            game_speed: self.game_speed as int,
            current_menu_type: self.current_menu_type,
            main_menu: self.main_menu@,
            settings_menu: self.settings_menu@,
            fonts_menu: self.fonts_menu@,
            bg_colors_menu: self.bg_colors_menu@,
            time_until_next_word: clock(self.time_until_next_word),
            game_speed_before_slow_down: saved(self.game_speed_before_slow_down),
            passed_time_since_game_end: clock(self.passed_time_since_game_end),
            slow_down_time_left: clock(self.slow_down_time_left),
            spawn_only_short_words_time_left: clock(self.spawn_only_short_words_time_left),
            dictionary: texts(self.dictionary@),
        }
    }
}

/// A menu of two options with the first one selected.
fn two_option_menu(first: &str, second: &str) -> (menu: Menu)
    ensures
        menu@ == fresh_menu(seq![first@, second@]),
{
    let mut options: Vec<MenuOption> = Vec::new();
    options.push(MenuOption { label: String::from_str(first) });
    options.push(MenuOption { label: String::from_str(second) });
    let menu = Menu { options, selected_option_index: 0 };
    assert(menu@.labels =~= seq![first@, second@]);
    menu
}

/// The menu that shows first: play, or go to the settings.
pub fn create_main_menu() -> (menu: Menu)
    ensures
        menu@ == fresh_menu(seq!["PLAY"@, "SETTINGS"@]),
{
    two_option_menu("PLAY", "SETTINGS")
}

/// The settings: the typeface of the words, or the background colour.
pub fn create_settings_menu() -> (menu: Menu)
    ensures
        menu@ == fresh_menu(seq!["CHANGE FONT"@, "CHANGE BG COLOR"@]),
{
    two_option_menu("CHANGE FONT", "CHANGE BG COLOR")
}

/// The typefaces to choose from.
pub fn create_fonts_menu() -> (menu: Menu)
    ensures
        menu@ == fresh_menu(seq!["GravitasOne"@, "Creepster"@]),
{
    two_option_menu("GravitasOne", "Creepster")
}

/// The background colours to choose from.
pub fn create_bg_colors_menu() -> (menu: Menu)
    ensures
        menu@ == fresh_menu(seq!["PURPLE"@, "GREEN"@]),
{
    two_option_menu("PURPLE", "GREEN")
}

/// The background colour that a label of the colour menu names; white for
/// any other label.
pub fn get_color_by_label(label: String) -> (color: Color)
    ensures
        color == color_named(label@),
{
    if label == String::from_str("PURPLE") {
        Color::new(19, 20, 45, 65)
    } else if label == String::from_str("GREEN") {
        Color::new(20, 40, 25, 85)
    } else {
        Color::white()
    }
}

/// Moves every word of the queue `delta_y` down, keeping their order.
fn lower_words(words: &mut VecDeque<Word>, delta_y: u64)
    ensures
        word_views(final(words)@) == Seq::new(
            old(words)@.len(),
            |i: int| old(words)@[i]@.moved(delta_y as int),
        ),
{
    let ghost before = word_views(words@);
    let ghost after = Seq::new(before.len(), |i: int| before[i].moved(delta_y as int));
    let count = words.len();
    let mut moved: usize = 0;
    assert(word_views(words@) =~= before.skip(0) + after.take(0));
    while moved < count
        invariant
            moved <= count,
            count == before.len(),
            after == Seq::new(before.len(), |i: int| before[i].moved(delta_y as int)),
            word_views(words@) == before.skip(moved as int) + after.take(moved as int),
        decreases count - moved,
    {
        let ghost queue = words@;
        assert(word_views(queue).len() == queue.len());
        match words.pop_front() {
            Some(mut word) => {
                assert(word@ == word_views(queue)[0]);
                word.update_position(delta_y);
                words.push_back(word);
                assert(word_views(words@) =~= before.skip(moved + 1) + after.take(moved + 1)) by {
                    let shifted = word_views(words@);
                    let target = before.skip(moved + 1) + after.take(moved + 1);
                    assert(shifted.len() == target.len());
                    assert forall|k: int| 0 <= k < shifted.len() implies shifted[k]
                        == target[k] by {
                        if k < shifted.len() - 1 {
                            assert(words@[k] == queue[k + 1]);
                            assert(shifted[k] == word_views(queue)[k + 1]);
                        }
                    }
                }
            },
            None => {
                assert(false);
            },
        }
        moved += 1;
    }
    assert(word_views(words@) =~= after);
    assert(after =~= Seq::new(
        old(words)@.len(),
        |i: int| old(words)@[i]@.moved(delta_y as int),
    ));
}

impl Game {
    /// Tells whether a tick can be taken: whether, if a round runs, there is
    /// a dictionary to draw from and the screen is wide enough to place a
    /// word on.
    pub fn is_ready_for_tick(&self) -> (ready: bool)
        ensures
            ready == self@.can_tick(),
    {
        assert(self@.dictionary.len() == self.dictionary@.len());
        !self.is_game_running || (self.dictionary.len() > 0 && self.screen_width
            > WORD_BOX_WIDTH)
    }

    /// Tells whether a letter can be typed: whether, if a round runs and a
    /// word falls, the score, the speed and, for a word that adds a life,
    /// the lives have room for its completion.
    pub fn is_ready_for_letter(&self) -> (ready: bool)
        ensures
            ready == self@.can_type(),
    {
        assert(word_views(self.words@).len() == self.words@.len());
        if self.is_game_running && self.words.len() > 0 {
            assert(word_views(self.words@)[0] == self.words@[0]@);
            let adds_life = match self.words[0].effect {
                Some(WordEffect::AddLife) => true,
                _ => false,
            };
            self.current_score <= u32::MAX - WORD_SCORE && self.game_speed <= u32::MAX
                - SPEED_STEP && (!adds_life || self.life_points < u32::MAX)
        } else {
            true
        }
    }

    /// Tells whether a key can be taken: whether a letter can be typed and,
    /// between rounds, every menu has its selection on one of its options.
    pub fn is_ready_for_key(&self) -> (ready: bool)
        ensures
            ready == self@.can_take_key(),
    {
        self.is_ready_for_letter() && (self.is_game_running || (self.main_menu.is_valid()
            && self.settings_menu.is_valid() && self.fonts_menu.is_valid()
            && self.bg_colors_menu.is_valid()))
    }

    /// The session as the program starts, for a screen of the given size in
    /// pixels and the given dictionary.
    pub fn new(screen_width: u32, screen_height: u32, dictionary: Vec<String>) -> (game: Game)
        ensures
            game@ == GameView::initial(
                screen_width as int,
                screen_height as int,
                texts(dictionary@),
            ),
    {
        let game = Game {
            is_game_running: false,
            key_codes_map: create_key_codes_map(),
            next_word_loop_length: INITIAL_TIME_UNTIL_NEXT_WORD,
            words: VecDeque::new(),
            words_font: String::from_str("GravitasOne"),
            screen_height,
            screen_width,
            bg_color: Color::new(19, 20, 45, 65),
            current_score: 0,
            life_points: 0,
            game_speed: INITIAL_GAME_SPEED,
            current_menu_type: MenuType::Main,
            main_menu: create_main_menu(),
            settings_menu: create_settings_menu(),
            fonts_menu: create_fonts_menu(),
            bg_colors_menu: create_bg_colors_menu(),
            time_until_next_word: None,
            game_speed_before_slow_down: None,
            passed_time_since_game_end: None,
            slow_down_time_left: None,
            spawn_only_short_words_time_left: None,
            dictionary,
        };
        assert(game@.words =~= Seq::<WordView>::empty());
        game
    }

    /// Starts a round.
    pub fn start_game(&mut self)
        ensures
            final(self)@ == old(self)@.started(),
    {
        self.is_game_running = true;
        self.current_score = 0;
        self.life_points = 0;
        self.time_until_next_word = Some(INITIAL_TIME_UNTIL_NEXT_WORD);
        self.game_speed = INITIAL_GAME_SPEED;
        self.passed_time_since_game_end = None;
    }

    /// Ends the round: the words in flight are lost and the end message
    /// starts to show.
    pub fn end_game(&mut self)
        ensures
            final(self)@ == old(self)@.ended(),
    {
        self.is_game_running = false;
        self.words.clear();
        self.passed_time_since_game_end = Some(0);
        assert(self@.words =~= Seq::<WordView>::empty());
    }

    /// Moves every word `delta_y` down.
    pub fn update_words_positions(&mut self, delta_y: u64)
        ensures
            final(self)@ == old(self)@.words_lowered(delta_y as int),
    {
        lower_words(&mut self.words, delta_y);
        assert(self@.words =~= old(self)@.words_lowered(delta_y as int).words);
    }

    /// Spawns a word under `length_limit` and puts it at the end of the
    /// queue. Which word, where and with which effect is drawn; whatever the
    /// draw, the new word is a possible outcome of a spawn and nothing else
    /// changes.
    pub fn spawn_new_word(&mut self, length_limit: Option<usize>)
        requires
            old(self)@.can_spawn(),
        ensures
            final(self)@ == old(self)@.with_spawned(final(self)@.words.last()),
            spawned_from(
                final(self)@.words.last(),
                old(self)@.dictionary,
                length_limit,
                old(self)@.screen_width,
            ),
    {
        assert(self@.dictionary.len() == self.dictionary@.len());
        let word = spawn(&self.dictionary, length_limit, self.screen_width);
        self.words.push_back(word);
        assert(self@.words =~= old(self)@.words.push(word@));
    }

    /// Steps a slow-down that has `current_time_left` on its clock by
    /// `last_frame_length`. When its time is up it ends and the saved speed
    /// comes back.
    pub fn update_slow_down_time_left(&mut self, current_time_left: u64, last_frame_length: u64)
        ensures
            final(self)@ == old(self)@.slow_down_stepped(
                current_time_left as int,
                last_frame_length as int,
            ),
    {
        if current_time_left <= last_frame_length {
            self.slow_down_time_left = None;
            if let Some(game_speed_before_slow_down) = self.game_speed_before_slow_down {
                self.game_speed = game_speed_before_slow_down;
                self.game_speed_before_slow_down = None;
            }
        } else {
            self.slow_down_time_left = Some(current_time_left - last_frame_length);
        }
    }

    /// The first step of a tick: a first word at or below the bottom of the
    /// screen is lost, or ends the round where no life is left.
    pub fn check_boundary(&mut self)
        ensures
            final(self)@ == old(self)@.boundary_checked(),
    {
        if self.words.len() > 0 {
            let bottom: i64 = self.screen_height as i64 * PIXEL;
            assert(word_views(self.words@)[0] == self.words@[0]@);
            if self.words[0].position.y >= bottom {
                if self.life_points > 0 {
                    self.life_points -= 1;
                    self.words.pop_front();
                    assert(self@.words =~= old(self)@.words.drop_first());
                } else {
                    self.end_game();
                }
            }
        }
    }

    /// The part of a tick before the spawn: the boundary check and, in a
    /// round, the ageing of the slow-down and the fall of the words. Tells
    /// whether a round still runs.
    fn begin_tick(&mut self, elapsed: u64) -> (running: bool)
        ensures
            running == old(self)@.boundary_checked().is_game_running,
            running ==> final(self)@ == old(self)@.boundary_checked().slow_down_aged(
                elapsed as int,
            ).words_advanced(elapsed as int),
            !running ==> final(self)@ == old(self)@.boundary_checked(),
    {
        self.check_boundary();
        if !self.is_game_running {
            return false;
        }
        if let Some(slow_down_time_left) = self.slow_down_time_left {
            self.update_slow_down_time_left(slow_down_time_left, elapsed);
        }
        let delta_y = travel(self.game_speed, elapsed);
        let ghost aged = self@;
        self.update_words_positions(delta_y);
        assert(self@.words =~= aged.words_advanced(elapsed as int).words);
        true
    }

    /// The limit for a spawn that is due now; clears a run of short words
    /// whose time is up.
    fn take_spawn_limit(&mut self) -> (limit: Option<usize>)
        ensures
            limit == old(self)@.spawn_limit(),
            final(self)@ == (GameView {
                spawn_only_short_words_time_left: if limit is Some {
                    old(self)@.spawn_only_short_words_time_left
                } else {
                    None
                },
                ..old(self)@
            }),
    {
        match self.spawn_only_short_words_time_left {
            Some(short_words_time_left) => {
                if short_words_time_left > 0 {
                    Some(SHORT_WORD_LENGTH)
                } else {
                    self.spawn_only_short_words_time_left = None;
                    None
                }
            },
            None => None,
        }
    }

    /// Ages the run of short words, if one lasts.
    fn age_short_words(&mut self, elapsed: u64)
        ensures
            final(self)@ == old(self)@.short_words_aged(elapsed as int),
    {
        if let Some(short_words_time_left) = self.spawn_only_short_words_time_left {
            self.spawn_only_short_words_time_left = Some(
                short_words_time_left.saturating_sub(elapsed),
            );
        }
    }

    /// One tick of `elapsed` microseconds. A first word that reached the
    /// bottom is lost or ends the round; in a round the slow-down ages, the
    /// words fall, a word spawns when the countdown runs out, and the run of
    /// short words ages.
    ///
    /// The spawned word is drawn. Whatever the draw, the session after the
    /// tick is the one that `tick` gives for the word that now stands last,
    /// and that word is a possible outcome of a spawn under the limit in
    /// force.
    pub fn update(&mut self, elapsed: u64)
        requires
            old(self)@.can_tick(),
        ensures
            final(self)@ == old(self)@.tick(elapsed as int, final(self)@.words.last()),
            old(self)@.tick_spawns(elapsed as int) ==> spawned_from(
                final(self)@.words.last(),
                old(self)@.dictionary,
                old(self)@.spawn_limit(),
                old(self)@.screen_width,
            ),
    {
        if !self.begin_tick(elapsed) {
            return ;
        }
        if let Some(time_until_next_word) = self.time_until_next_word {
            if time_until_next_word <= elapsed {
                let new_word_limit = self.take_spawn_limit();
                self.spawn_new_word(new_word_limit);
                self.time_until_next_word = Some(self.next_word_loop_length);
            } else {
                self.time_until_next_word = Some(time_until_next_word - elapsed);
            }
        }
        self.age_short_words(elapsed);
    }

    /// One tick of `elapsed` microseconds in which `spawned`, and no drawn
    /// word, joins the queue if the countdown runs out.
    pub fn update_with_spawn(&mut self, elapsed: u64, spawned: Word)
        ensures
            final(self)@ == old(self)@.tick(elapsed as int, spawned@),
    {
        if !self.begin_tick(elapsed) {
            return ;
        }
        if let Some(time_until_next_word) = self.time_until_next_word {
            if time_until_next_word <= elapsed {
                self.take_spawn_limit();
                let ghost queue = self@.words;
                self.words.push_back(spawned);
                assert(self@.words =~= queue.push(spawned@));
                self.time_until_next_word = Some(self.next_word_loop_length);
            } else {
                self.time_until_next_word = Some(time_until_next_word - elapsed);
            }
        }
        self.age_short_words(elapsed);
    }
    /// Applies the effect of a completed word.
    pub fn apply_word_effect(&mut self, effect: WordEffect)
        requires
            effect == WordEffect::AddLife ==> old(self).life_points < u32::MAX,
        ensures
            final(self)@ == old(self)@.with_effect(effect),
    {
        match effect {
            WordEffect::AddLife => self.life_points += 1,
            WordEffect::SlowDown => {
                self.slow_down_time_left = Some(EFFECT_DURATION);
                self.game_speed_before_slow_down = Some(self.game_speed);
                self.game_speed = SLOW_GAME_SPEED;
            },
            WordEffect::SpawnOnlyShortWords => {
                self.spawn_only_short_words_time_left = Some(EFFECT_DURATION);
            },
        }
    }

    /// Completes the first word: it leaves the queue, the score and the
    /// speed go up, and its effect, if it has one, applies.
    pub fn complete_word(&mut self)
        requires
            old(self)@.can_complete_front(),
        ensures
            final(self)@ == old(self)@.completed_front(),
    {
        assert(word_views(self.words@).len() == self.words@.len());
        assert(word_views(self.words@)[0] == self.words@[0]@);
        let word = self.words.pop_front();
        assert(self@.words =~= old(self)@.words.drop_first());
        self.current_score += WORD_SCORE;
        self.game_speed += SPEED_STEP;
        if let Some(word) = word {
            if let Some(effect) = word.effect {
                self.apply_word_effect(effect)
            }
        }
    }

    /// Sends a key to the first word: the letter, if the key has one, is
    /// typed at it, and a word that is then complete is completed and
    /// tightens the spawn interval.
    fn type_at_front(&mut self, letter: Option<char>)
        requires
            old(self)@.words.len() > 0 ==> old(self)@.can_complete_front(),
        ensures
            final(self)@ == old(self)@.typed_at_front(letter),
    {
        assert(word_views(self.words@).len() == self.words@.len());
        if let Some(mut current_word) = self.words.pop_front() {
            assert(current_word@ == old(self)@.words[0]);
            if let Some(typed_letter) = letter {
                current_word.handle_typed_letter(typed_letter);
            }
            let done = current_word.is_completed();
            let ghost word = current_word@;
            self.words.push_front(current_word);
            assert(self@.words =~= old(self)@.words.update(0, word));
            if done {
                self.complete_word();
                if self.next_word_loop_length >= MIN_SPAWN_INTERVAL + SPAWN_INTERVAL_STEP {
                    self.next_word_loop_length -= SPAWN_INTERVAL_STEP;
                } else if self.next_word_loop_length > MIN_SPAWN_INTERVAL {
                    self.next_word_loop_length = MIN_SPAWN_INTERVAL;
                }
            }
        }
    }

    /// Types `letter`. Nothing happens unless a round runs and a word falls;
    /// then the letter goes to the first word, and completing that word
    /// scores, speeds the game up, applies the word's effect and tightens the
    /// spawn interval.
    pub fn handle_keystroke(&mut self, letter: char)
        requires
            old(self)@.can_type(),
        ensures
            final(self)@ == old(self)@.keystroke(letter),
    {
        if self.is_game_running {
            self.type_at_front(Some(letter));
        }
    }

    /// A key in the main menu: up and down move the selection, space starts
    /// a round or opens the settings.
    pub fn handle_input_key_in_main_menu(&mut self, input_key_code: KeyCode)
        requires
            old(self)@.main_menu.valid(),
        ensures
            final(self)@ == old(self)@.main_menu_key(input_key_code),
    {
        match input_key_code {
            KeyCode::Up => self.main_menu.handle_move_up(),
            KeyCode::Down => self.main_menu.handle_move_down(),
            KeyCode::Space => {
                let selected_option = self.main_menu.get_selected_option();
                if selected_option.label == String::from_str("PLAY") {
                    self.start_game()
                } else if selected_option.label == String::from_str("SETTINGS") {
                    self.current_menu_type = MenuType::Settings
                }
            },
            _ => (),
        }
    }

    /// A key in the settings menu: up and down move the selection, left goes
    /// back to the main menu, space opens the chosen setting.
    pub fn handle_input_key_in_settings_menu(&mut self, input_key_code: KeyCode)
        requires
            old(self)@.settings_menu.valid(),
        ensures
            final(self)@ == old(self)@.settings_menu_key(input_key_code),
    {
        match input_key_code {
            KeyCode::Up => self.settings_menu.handle_move_up(),
            KeyCode::Down => self.settings_menu.handle_move_down(),
            KeyCode::Left => self.current_menu_type = MenuType::Main,
            KeyCode::Space => {
                let selected_option = self.settings_menu.get_selected_option();
                if selected_option.label == String::from_str("CHANGE FONT") {
                    self.current_menu_type = MenuType::Fonts;
                } else if selected_option.label == String::from_str("CHANGE BG COLOR") {
                    self.current_menu_type = MenuType::BgColors;
                }
            },
            _ => (),
        }
    }

    /// A key in the menu of typefaces: up and down move the selection, left
    /// goes back to the settings, space takes the selected typeface for the
    /// words.
    pub fn handle_input_key_in_fonts_menu(&mut self, input_key_code: KeyCode)
        requires
            old(self)@.fonts_menu.valid(),
        ensures
            final(self)@ == old(self)@.fonts_menu_key(input_key_code),
    {
        match input_key_code {
            KeyCode::Up => self.fonts_menu.handle_move_up(),
            KeyCode::Down => self.fonts_menu.handle_move_down(),
            KeyCode::Left => self.current_menu_type = MenuType::Settings,
            KeyCode::Space => {
                self.words_font = self.fonts_menu.get_selected_option().label.clone()
            },
            _ => (),
        }
    }

    /// A key in the menu of background colours: up and down move the
    /// selection, left goes back to the settings, space takes the selected
    /// colour for the background.
    pub fn handle_input_key_in_bg_colors_menu(&mut self, input_key_code: KeyCode)
        requires
            old(self)@.bg_colors_menu.valid(),
        ensures
            final(self)@ == old(self)@.bg_colors_menu_key(input_key_code),
    {
        match input_key_code {
            KeyCode::Up => self.bg_colors_menu.handle_move_up(),
            KeyCode::Down => self.bg_colors_menu.handle_move_down(),
            KeyCode::Left => self.current_menu_type = MenuType::Settings,
            KeyCode::Space => {
                self.bg_color =
                get_color_by_label(self.bg_colors_menu.get_selected_option().label.clone())
            },
            _ => (),
        }
    }

    /// A key went down. In a round it goes to the first word, with the
    /// letter that the key table gives it; between rounds it goes to the menu
    /// that shows.
    pub fn key_down_event(&mut self, input_key_code: KeyCode)
        requires
            old(self)@.can_take_key(),
        ensures
            final(self)@ == old(self)@.key_pressed(input_key_code),
    {
        if self.is_game_running {
            let typed = typed_letter(&self.key_codes_map, input_key_code);
            self.type_at_front(typed);
        } else {
            match self.current_menu_type {
                MenuType::Main => self.handle_input_key_in_main_menu(input_key_code),
                MenuType::Settings => self.handle_input_key_in_settings_menu(input_key_code),
                MenuType::Fonts => self.handle_input_key_in_fonts_menu(input_key_code),
                MenuType::BgColors => self.handle_input_key_in_bg_colors_menu(input_key_code),
                MenuType::Hidden => (),
            }
        }
    }
}

} // verus!
