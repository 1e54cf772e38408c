//! The session as a value, and every step of the game as a function from the
//! session before to the session after.
//!
//! All numbers are mathematical integers here, so a step is total: the
//! executable session states separately where a machine integer must have
//! room.

use crate::color::Color;
use crate::keys::{letter_for, letter_keys, KeyCode};
use crate::menu::MenuView;
use crate::spawner::WORD_BOX_WIDTH;
use crate::units::{distance, remaining, PIXEL, SECOND};
use crate::word::{WordEffect, WordView};
use vstd::prelude::*;

verus! {

/// The points a completed word scores.
pub const WORD_SCORE: u32 = 10;

/// The time until the first word of a round, and the first spawn interval:
/// one second.
pub const INITIAL_TIME_UNTIL_NEXT_WORD: u64 = SECOND;

/// The speed at which a round starts, in pixels per second.
pub const INITIAL_GAME_SPEED: u32 = 50;

/// What every completed word adds to the speed.
pub const SPEED_STEP: u32 = 5;

/// The speed while a slow-down lasts.
pub const SLOW_GAME_SPEED: u32 = 25;

/// How long a slow-down and a run of short words last: five seconds.
pub const EFFECT_DURATION: u64 = 5 * SECOND;

/// The most user-perceived characters a word has while only short words
/// spawn.
pub const SHORT_WORD_LENGTH: usize = 3;

/// What every completed word takes off the spawn interval.
pub const SPAWN_INTERVAL_STEP: u64 = 300;

/// The spawn interval that completed words never push below: a fifth of a
/// second.
pub const MIN_SPAWN_INTERVAL: u64 = SECOND / 5;

/// How long the end message stays on screen: four seconds.
pub const END_SCREEN_DURATION: u64 = 4 * SECOND;

/// The menu that shows while no round runs.
#[derive(Clone, Copy, Debug, PartialEq, Eq, Structural)]
pub enum MenuType {
    Main,
    Settings,
    Fonts,
    BgColors,
    Hidden,
}

/// The background colour that a label of the colour menu names; white for
/// any other label.
pub open spec fn color_named(label: Seq<char>) -> Color {
    if label == "PURPLE"@ {
        Color::rgba(19, 20, 45, 65)
    } else if label == "GREEN"@ {
        Color::rgba(20, 40, 25, 85)
    } else {
        Color::opaque_white()
    }
}

/// The spawn interval after one more completed word: a step shorter, but
/// never pushed below the floor.
pub open spec fn tightened(interval: int) -> int {
    if interval >= MIN_SPAWN_INTERVAL + SPAWN_INTERVAL_STEP {
        interval - SPAWN_INTERVAL_STEP
    } else if interval > MIN_SPAWN_INTERVAL {
        MIN_SPAWN_INTERVAL as int
    } else {
        interval
    }
}

/// The session as a value.
#[verifier::ext_equal]
pub struct GameView {
    pub screen_height: int,
    pub screen_width: int,
    pub bg_color: Color,
    pub key_codes_map: Seq<(KeyCode, char)>,
    pub is_game_running: bool,
    /// The falling words, oldest first. The first one is the one typed at.
    pub words: Seq<WordView>,
    pub words_font: Seq<char>,
    /// The spawn interval.
    pub next_word_loop_length: int,
    pub current_score: int,
    pub life_points: int,
    pub game_speed: int,
    pub current_menu_type: MenuType,
    pub main_menu: MenuView,
    pub settings_menu: MenuView,
    pub fonts_menu: MenuView,
    pub bg_colors_menu: MenuView,
    /// The countdown to the next spawn.
    pub time_until_next_word: Option<int>,
    pub game_speed_before_slow_down: Option<int>,
    /// The time the end message has been showing.
    pub passed_time_since_game_end: Option<int>,
    pub slow_down_time_left: Option<int>,
    pub spawn_only_short_words_time_left: Option<int>,
    pub dictionary: Seq<Seq<char>>,
}

/// A menu of the given labels with the first one selected.
pub open spec fn fresh_menu(labels: Seq<Seq<char>>) -> MenuView {
    MenuView { labels, selected: 0 }
}

impl GameView {
    // ----- rounds -----

    /// The session as the program starts: no round runs, nothing falls, no
    /// effect lasts, and the main menu shows.
    pub open spec fn initial(
        screen_width: int,
        screen_height: int,
        dictionary: Seq<Seq<char>>,
    ) -> GameView {
        GameView {
            screen_height,
            screen_width,
            bg_color: Color::rgba(19, 20, 45, 65),
            key_codes_map: letter_keys(),
            is_game_running: false,
            words: Seq::empty(),
            words_font: "GravitasOne"@,
            next_word_loop_length: INITIAL_TIME_UNTIL_NEXT_WORD as int,
            current_score: 0,
            life_points: 0,
            game_speed: INITIAL_GAME_SPEED as int,
            current_menu_type: MenuType::Main,
            main_menu: fresh_menu(seq!["PLAY"@, "SETTINGS"@]),
            settings_menu: fresh_menu(seq!["CHANGE FONT"@, "CHANGE BG COLOR"@]),
            fonts_menu: fresh_menu(seq!["GravitasOne"@, "Creepster"@]),
            bg_colors_menu: fresh_menu(seq!["PURPLE"@, "GREEN"@]),
            time_until_next_word: None,
            game_speed_before_slow_down: None,
            passed_time_since_game_end: None,
            slow_down_time_left: None,
            spawn_only_short_words_time_left: None,
            dictionary,
        }
    }

    /// The session with a round started: running, score and lives at zero,
    /// speed and spawn countdown at their initial values, no end message.
    /// The spawn interval, the words and the running effects stay.
    pub open spec fn started(self) -> GameView {
        GameView {
            is_game_running: true,
            current_score: 0,
            life_points: 0,
            time_until_next_word: Some(INITIAL_TIME_UNTIL_NEXT_WORD as int),
            game_speed: INITIAL_GAME_SPEED as int,
            passed_time_since_game_end: None,
            ..self
        }
    }

    /// The session with the round ended: not running, no words, and the end
    /// message showing since zero.
    pub open spec fn ended(self) -> GameView {
        GameView {
            is_game_running: false,
            words: Seq::empty(),
            passed_time_since_game_end: Some(0),
            ..self
        }
    }

    // ----- completing a word -----

    /// The session with `effect` applied.
    pub open spec fn with_effect(self, effect: WordEffect) -> GameView {
        match effect {
            WordEffect::AddLife => GameView { life_points: self.life_points + 1, ..self },
            WordEffect::SlowDown => GameView {
                slow_down_time_left: Some(EFFECT_DURATION as int),
                game_speed_before_slow_down: Some(self.game_speed),
                game_speed: SLOW_GAME_SPEED as int,
                ..self
            },
            WordEffect::SpawnOnlyShortWords => GameView {
                spawn_only_short_words_time_left: Some(EFFECT_DURATION as int),
                ..self
            },
        }
    }

    /// The session with its first word completed: the word leaves the queue,
    /// the score and the speed go up, and then the word's effect applies.
    pub open spec fn completed_front(self) -> GameView
        recommends
            self.words.len() > 0,
    {
        let scored = GameView {
            words: self.words.drop_first(),
            current_score: self.current_score + WORD_SCORE,
            game_speed: self.game_speed + SPEED_STEP,
            ..self
        };
        match self.words[0].effect {
            Some(effect) => scored.with_effect(effect),
            None => scored,
        }
    }

    /// There is a first word, and the score, the speed and, if the word adds
    /// a life, the lives have room for its completion in the integers that
    /// hold them.
    pub open spec fn can_complete_front(self) -> bool {
        &&& self.words.len() > 0
        &&& self.current_score + WORD_SCORE <= u32::MAX
        &&& self.game_speed + SPEED_STEP <= u32::MAX
        &&& self.words[0].effect == Some(WordEffect::AddLife) ==> self.life_points + 1
            <= u32::MAX
    }

    /// A letter can be typed: if a round runs and a word falls, that word can
    /// be completed.
    pub open spec fn can_type(self) -> bool {
        self.is_game_running && self.words.len() > 0 ==> self.can_complete_front()
    }

    /// A key can be taken: in a round a letter can be typed, and between
    /// rounds every menu has its selection on one of its options.
    pub open spec fn can_take_key(self) -> bool {
        &&& self.can_type()
        &&& !self.is_game_running ==> self.menus_valid()
    }

    /// A tick can be taken: a round that runs can spawn.
    pub open spec fn can_tick(self) -> bool {
        self.is_game_running ==> self.can_spawn()
    }

    // ----- keys -----

    /// The session after a key went to its first word: the letter, if the key
    /// has one, is typed at the word, and a word that is then complete is
    /// completed and tightens the spawn interval. Without words nothing
    /// happens.
    pub open spec fn typed_at_front(self, letter: Option<char>) -> GameView {
        if self.words.len() == 0 {
            self
        } else {
            let word = match letter {
                Some(c) => self.words[0].typed(c),
                None => self.words[0],
            };
            let typed = GameView { words: self.words.update(0, word), ..self };
            if word.is_complete() {
                let done = typed.completed_front();
                GameView {
                    next_word_loop_length: tightened(done.next_word_loop_length),
                    ..done
                }
            } else {
                typed
            }
        }
    }

    /// The session after `letter` was typed: nothing happens unless a round
    /// runs and a word falls.
    pub open spec fn keystroke(self, letter: char) -> GameView {
        if self.is_game_running {
            self.typed_at_front(Some(letter))
        } else {
            self
        }
    }

    /// The session after `key` in the main menu.
    pub open spec fn main_menu_key(self, key: KeyCode) -> GameView {
        match key {
            KeyCode::Up => GameView { main_menu: self.main_menu.moved_up(), ..self },
            KeyCode::Down => GameView { main_menu: self.main_menu.moved_down(), ..self },
            KeyCode::Space => {
                if self.main_menu.selected_label() == "PLAY"@ {
                    self.started()
                } else if self.main_menu.selected_label() == "SETTINGS"@ {
                    GameView { current_menu_type: MenuType::Settings, ..self }
                } else {
                    self
                }
            },
            _ => self,
        }
    }

    /// The session after `key` in the settings menu.
    pub open spec fn settings_menu_key(self, key: KeyCode) -> GameView {
        match key {
            KeyCode::Up => GameView { settings_menu: self.settings_menu.moved_up(), ..self },
            KeyCode::Down => GameView { settings_menu: self.settings_menu.moved_down(), ..self },
            KeyCode::Left => GameView { current_menu_type: MenuType::Main, ..self },
            KeyCode::Space => {
                if self.settings_menu.selected_label() == "CHANGE FONT"@ {
                    GameView { current_menu_type: MenuType::Fonts, ..self }
                } else if self.settings_menu.selected_label() == "CHANGE BG COLOR"@ {
                    GameView { current_menu_type: MenuType::BgColors, ..self }
                } else {
                    self
                }
            },
            _ => self,
        }
    }

    /// The session after `key` in the menu of typefaces.
    pub open spec fn fonts_menu_key(self, key: KeyCode) -> GameView {
        match key {
            KeyCode::Up => GameView { fonts_menu: self.fonts_menu.moved_up(), ..self },
            KeyCode::Down => GameView { fonts_menu: self.fonts_menu.moved_down(), ..self },
            KeyCode::Left => GameView { current_menu_type: MenuType::Settings, ..self },
            KeyCode::Space => GameView { words_font: self.fonts_menu.selected_label(), ..self },
            _ => self,
        }
    }

    /// The session after `key` in the menu of background colours.
    pub open spec fn bg_colors_menu_key(self, key: KeyCode) -> GameView {
        match key {
            KeyCode::Up => GameView { bg_colors_menu: self.bg_colors_menu.moved_up(), ..self },
            KeyCode::Down => GameView {
                bg_colors_menu: self.bg_colors_menu.moved_down(),
                ..self
            },
            KeyCode::Left => GameView { current_menu_type: MenuType::Settings, ..self },
            KeyCode::Space => GameView {
                bg_color: color_named(self.bg_colors_menu.selected_label()),
                ..self
            },
            _ => self,
        }
    }

    /// The session after `key` in whichever menu shows.
    pub open spec fn menu_key(self, key: KeyCode) -> GameView {
        match self.current_menu_type {
            MenuType::Main => self.main_menu_key(key),
            MenuType::Settings => self.settings_menu_key(key),
            MenuType::Fonts => self.fonts_menu_key(key),
            MenuType::BgColors => self.bg_colors_menu_key(key),
            MenuType::Hidden => self,
        }
    }

    /// The session after `key` went down: in a round the key goes to the
    /// first word, with the letter the key table gives it; otherwise it goes
    /// to the menu.
    pub open spec fn key_pressed(self, key: KeyCode) -> GameView {
        if self.is_game_running {
            self.typed_at_front(letter_for(self.key_codes_map, key))
        } else {
            self.menu_key(key)
        }
    }

    /// Every menu has its selection on one of its options.
    pub open spec fn menus_valid(self) -> bool {
        &&& self.main_menu.valid()
        &&& self.settings_menu.valid()
        &&& self.fonts_menu.valid()
        &&& self.bg_colors_menu.valid()
    }

    // ----- ticks -----

    /// The height of the screen in the unit of the coordinates.
    pub open spec fn bottom(self) -> int {
        self.screen_height * PIXEL
    }

    /// The first word has reached the bottom of the screen.
    pub open spec fn front_is_out(self) -> bool {
        self.words.len() > 0 && self.words[0].position.y >= self.bottom()
    }

    /// The first step of a tick. A first word at or below the bottom is
    /// lost: it costs a life and leaves the queue, without score or effect;
    /// with no life left the round ends instead.
    pub open spec fn boundary_checked(self) -> GameView {
        if self.front_is_out() {
            if self.life_points > 0 {
                GameView {
                    life_points: self.life_points - 1,
                    words: self.words.drop_first(),
                    ..self
                }
            } else {
                self.ended()
            }
        } else {
            self
        }
    }

    /// A slow-down with `left` on its clock, `elapsed` later. When its time
    /// is up it ends, and the speed saved at its start comes back; else its
    /// clock shows what is left.
    pub open spec fn slow_down_stepped(self, left: int, elapsed: int) -> GameView {
        if left <= elapsed {
            match self.game_speed_before_slow_down {
                Some(speed) => GameView {
                    slow_down_time_left: None,
                    game_speed: speed,
                    game_speed_before_slow_down: None,
                    ..self
                },
                None => GameView { slow_down_time_left: None, ..self },
            }
        } else {
            GameView { slow_down_time_left: Some(left - elapsed), ..self }
        }
    }

    /// The slow-down, if one lasts, aged by `elapsed`.
    pub open spec fn slow_down_aged(self, elapsed: int) -> GameView {
        match self.slow_down_time_left {
            Some(left) => self.slow_down_stepped(left, elapsed),
            None => self,
        }
    }

    /// Every word moved down by `delta`.
    pub open spec fn words_lowered(self, delta: int) -> GameView {
        GameView {
            words: Seq::new(self.words.len(), |i: int| self.words[i].moved(delta)),
            ..self
        }
    }

    /// Every word moved down by what the speed covers in `elapsed`.
    pub open spec fn words_advanced(self, elapsed: int) -> GameView {
        self.words_lowered(distance(self.game_speed, elapsed))
    }

    /// The spawn countdown runs out within `elapsed`.
    pub open spec fn spawn_is_due(self, elapsed: int) -> bool {
        match self.time_until_next_word {
            Some(left) => left <= elapsed,
            None => false,
        }
    }

    /// The limit on the length of the next word: the short-word length while
    /// the run of short words has time left.
    pub open spec fn spawn_limit(self) -> Option<usize> {
        match self.spawn_only_short_words_time_left {
            Some(left) => if left > 0 {
                Some(SHORT_WORD_LENGTH)
            } else {
                None
            },
            None => None,
        }
    }

    /// There is a dictionary to draw from and the screen is wide enough to
    /// place a word on.
    pub open spec fn can_spawn(self) -> bool {
        self.dictionary.len() > 0 && self.screen_width > WORD_BOX_WIDTH
    }

    /// The session with `spawned` at the end of the queue.
    pub open spec fn with_spawned(self, spawned: WordView) -> GameView {
        GameView { words: self.words.push(spawned), ..self }
    }

    /// The spawn countdown aged by `elapsed`. When it runs out, `spawned`
    /// joins the queue at its end, the countdown starts again from the spawn
    /// interval, and a run of short words whose time is up is cleared.
    pub open spec fn spawn_countdown_aged(self, elapsed: int, spawned: WordView) -> GameView {
        match self.time_until_next_word {
            Some(left) => {
                if left <= elapsed {
                    GameView {
                        words: self.words.push(spawned),
                        time_until_next_word: Some(self.next_word_loop_length),
                        spawn_only_short_words_time_left: if self.spawn_limit() is Some {
                            self.spawn_only_short_words_time_left
                        } else {
                            None
                        },
                        ..self
                    }
                } else {
                    GameView { time_until_next_word: Some(left - elapsed), ..self }
                }
            },
            None => self,
        }
    }

    /// The run of short words aged by `elapsed`; at zero its time is up.
    pub open spec fn short_words_aged(self, elapsed: int) -> GameView {
        match self.spawn_only_short_words_time_left {
            Some(left) => GameView {
                spawn_only_short_words_time_left: Some(remaining(left, elapsed)),
                ..self
            },
            None => self,
        }
    }

    /// What a tick does to a running session once the boundary is checked.
    pub open spec fn aged(self, elapsed: int, spawned: WordView) -> GameView {
        self.slow_down_aged(elapsed).words_advanced(elapsed).spawn_countdown_aged(
            elapsed,
            spawned,
        ).short_words_aged(elapsed)
    }

    /// Whether a tick of `elapsed` spawns a word.
    pub open spec fn tick_spawns(self, elapsed: int) -> bool {
        self.boundary_checked().is_game_running && self.boundary_checked().spawn_is_due(elapsed)
    }

    /// The session after a tick of `elapsed`, with `spawned` as the word
    /// that joins if the tick spawns one.
    pub open spec fn tick(self, elapsed: int, spawned: WordView) -> GameView {
        let checked = self.boundary_checked();
        if checked.is_game_running {
            checked.aged(elapsed, spawned)
        } else {
            checked
        }
    }

    // ----- the end message -----

    /// The end message shows.
    pub open spec fn shows_end_message(self) -> bool {
        match self.passed_time_since_game_end {
            Some(passed) => passed < END_SCREEN_DURATION,
            None => false,
        }
    }

    /// The time of the end message `elapsed` later: it counts up to the
    /// duration of the message and is cleared once it stands there.
    pub open spec fn end_message_aged(self, elapsed: int) -> GameView {
        match self.passed_time_since_game_end {
            Some(passed) => {
                if passed < END_SCREEN_DURATION {
                    GameView {
                        passed_time_since_game_end: Some(
                            if passed + elapsed > END_SCREEN_DURATION {
                                END_SCREEN_DURATION as int
                            } else {
                                passed + elapsed
                            },
                        ),
                        ..self
                    }
                } else {
                    GameView { passed_time_since_game_end: None, ..self }
                }
            },
            None => self,
        }
    }
}

} // verus!
