//! What a frame shows: the texts to draw, each with its typeface, size,
//! colour and place. Drawing them is left to the presentation layer, which
//! also measures how wide a text comes out.

use crate::color::Color;
use crate::game::Game;
use crate::menu::{Menu, MenuView};
use crate::session::{MenuType, END_SCREEN_DURATION};
use crate::units::PIXEL;
use crate::word::{effect_color, Position, WordView};
use vstd::prelude::*;
use vstd::string::StringExecFns;

verus! {

/// A text to draw.
#[derive(Debug)]
pub struct TextSprite {
    pub text: String,
    pub font: String,
    /// The size of the type, in pixels.
    pub scale: u32,
    pub color: Color,
    pub position: Position,
}

/// A text to draw, as a value.
#[verifier::ext_equal]
pub struct SpriteView {
    pub text: Seq<char>,
    pub font: Seq<char>,
    pub scale: int,
    pub color: Color,
    pub position: Position,
}

impl View for TextSprite {
    type V = SpriteView;

    open spec fn view(&self) -> SpriteView {
        SpriteView {
            text: self.text@,
            font: self.font@,
            scale: self.scale as int,
            color: self.color,
            position: self.position,
        }
    }
}

/// The sprites of a list as values.
pub open spec fn sprite_views(sprites: Seq<TextSprite>) -> Seq<SpriteView> {
    Seq::new(sprites.len(), |i: int| sprites[i]@)
}

/// A number of the heads-up display: what it is called and its value, with
/// the typeface, size, colour and place of the line that shows both.
#[derive(Debug)]
pub struct Stat {
    pub caption: String,
    pub value: u32,
    pub font: String,
    /// The size of the type, in pixels.
    pub scale: u32,
    pub color: Color,
    pub position: Position,
}

/// What a frame shows on its background.
#[derive(Clone, Copy, Debug, PartialEq, Eq, Structural)]
pub struct Frame {
    pub background: Color,
    /// The end message shows.
    pub end_message: bool,
    /// The menu shows; otherwise the round does, with its words and numbers.
    pub home_screen: bool,
}

/// The size of the type of a menu option.
pub const MENU_SCALE: u32 = 50;

/// The size of the type of the heads-up display.
pub const STATS_SCALE: u32 = 50;

/// The size of the type of a falling word.
pub const WORD_SCALE: u32 = 40;

/// The size of the type of the end message.
pub const END_MESSAGE_SCALE: u32 = 100;

/// The row of the first menu option, in pixels from the top.
pub const MENU_TOP: u32 = 200;

/// The distance between two menu options, in pixels.
pub const MENU_ROW_HEIGHT: u32 = 70;

/// The most options a menu can have for its last row to lie within the
/// range of the coordinates.
pub const MOST_MENU_ROWS: u64 = 131_762_457_666;

/// The row of the end message, in pixels from the top.
pub const END_MESSAGE_TOP: i64 = 100;

/// The column of the heads-up display, in pixels from the left.
pub const STATS_LEFT: i64 = 30;

/// How far above the bottom the score stands, in pixels.
pub const SCORE_RISE: i64 = 100;

/// How far above the bottom the lives stand, in pixels.
pub const LIVES_RISE: i64 = 175;

/// The left edge of a text of width `text_width` that stands in the middle
/// of a screen `screen_width` pixels wide.
pub open spec fn centered(screen_width: int, text_width: int) -> int {
    screen_width * (PIXEL / 2) - text_width / 2
}

/// The row of menu option `index`.
pub open spec fn menu_row(index: int) -> int {
    (MENU_TOP + MENU_ROW_HEIGHT * index) * PIXEL
}

/// The sprite of option `index` of `menu`, whose label comes out
/// `text_width` wide: centred, one row per option, and yellow where it is
/// the selected one.
pub open spec fn option_sprite(menu: MenuView, index: int, screen_width: int, text_width: int)
    -> SpriteView {
    SpriteView {
        text: menu.labels[index],
        font: "BungeeShade"@,
        scale: MENU_SCALE as int,
        color: if index == menu.selected {
            Color::opaque_yellow()
        } else {
            Color::opaque_white()
        },
        position: Position {
            x: centered(screen_width, text_width) as i64,
            y: menu_row(index) as i64,
        },
    }
}

/// The sprite of a falling word: what is left to type, at the word's place,
/// in the colour of its effect, and in the chosen typeface unless the word
/// has an effect.
pub open spec fn word_sprite(word: WordView, words_font: Seq<char>) -> SpriteView {
    SpriteView {
        text: word.displayed(),
        font: if word.effect is Some {
            "BungeeShade"@
        } else {
            words_font
        },
        scale: WORD_SCALE as int,
        color: effect_color(word.effect),
        position: word.position,
    }
}

/// The left edge of a text of width `text_width` in the middle of the
/// screen.
pub fn center(screen_width: u32, text_width: u64) -> (x: i64)
    ensures
        x == centered(screen_width as int, text_width as int),
{
    screen_width as i64 * (PIXEL / 2) - (text_width / 2) as i64
}

impl Menu {
    /// Tells whether the menu can be drawn with these widths: whether there
    /// is one width for each option, and a row for each option within the
    /// range of the coordinates.
    pub fn can_draw(&self, text_widths: &Vec<u64>) -> (drawable: bool)
        ensures
            drawable == (text_widths.len() == self.options.len() && menu_row(
                self.options.len() as int,
            ) <= i64::MAX),
    {
        let count = self.options.len();
        assert((MENU_TOP + MENU_ROW_HEIGHT * count) * PIXEL == 200_000_000 + 70_000_000 * count)
            by (nonlinear_arith)
            requires
                MENU_TOP == 200,
                MENU_ROW_HEIGHT == 70,
                PIXEL == 1_000_000,
        ;
        text_widths.len() == count && count as u64 <= MOST_MENU_ROWS
    }

    /// The sprites of the options, top to bottom. `text_widths` gives the
    /// width at which each label comes out, in the order of the options.
    pub fn draw(&self, screen_width: u32, text_widths: &Vec<u64>) -> (sprites: Vec<TextSprite>)
        requires
            text_widths.len() == self.options.len(),
            menu_row(self.options.len() as int) <= i64::MAX,
        ensures
            sprite_views(sprites@) == Seq::new(
                self.options@.len(),
                |i: int| option_sprite(self@, i, screen_width as int, text_widths@[i] as int),
            ),
    {
        let mut sprites: Vec<TextSprite> = Vec::new();
        let mut idx: usize = 0;
        while idx < self.options.len()
            invariant
                idx <= self.options.len(),
                text_widths.len() == self.options.len(),
                menu_row(self.options.len() as int) <= i64::MAX,
                sprites.len() == idx,
                forall|i: int|
                    0 <= i < idx ==> (#[trigger] sprites@[i])@ == option_sprite(
                        self@,
                        i,
                        screen_width as int,
                        text_widths@[i] as int,
                    ),
            decreases self.options.len() - idx,
        {
            let color = if idx == self.selected_option_index {
                Color::yellow()
            } else {
                Color::white()
            };
            assert(0 <= menu_row(idx as int) <= menu_row(self.options.len() as int))
                by (nonlinear_arith)
                requires
                    0 <= idx <= self.options.len(),
            ;
            let row: i64 = (MENU_TOP as i64 + MENU_ROW_HEIGHT as i64 * idx as i64) * PIXEL;
            sprites.push(
                TextSprite {
                    text: self.options[idx].label.clone(),
                    font: String::from_str("BungeeShade"),
                    scale: MENU_SCALE,
                    color,
                    position: Position { x: center(screen_width, text_widths[idx]), y: row },
                },
            );
            idx += 1;
        }
        assert(sprite_views(sprites@) =~= Seq::new(
            self.options@.len(),
            |i: int| option_sprite(self@, i, screen_width as int, text_widths@[i] as int),
        ));
        sprites
    }
}

impl Game {
    /// What this frame shows, and the clock of the end message moved on by
    /// `elapsed`: the message shows while its clock stands below four
    /// seconds, and the clock is cleared once it stands there.
    pub fn draw(&mut self, elapsed: u64) -> (frame: Frame)
        ensures
            final(self)@ == old(self)@.end_message_aged(elapsed as int),
            frame == (Frame {
                background: old(self).bg_color,
                end_message: old(self)@.shows_end_message(),
                home_screen: !old(self).is_game_running,
            }),
    {
        let mut end_message = false;
        if let Some(time_passed) = self.passed_time_since_game_end {
            if time_passed < END_SCREEN_DURATION {
                end_message = true;
                self.passed_time_since_game_end = Some(
                    if elapsed > END_SCREEN_DURATION - time_passed {
                        END_SCREEN_DURATION
                    } else {
                        time_passed + elapsed
                    },
                );
            } else {
                self.passed_time_since_game_end = None
            }
        }
        Frame { background: self.bg_color, end_message, home_screen: !self.is_game_running }
    }

    /// The menu that the home screen shows, if it shows one.
    pub fn draw_home_screen(&self) -> (menu: Option<&Menu>)
        ensures
            menu == match self.current_menu_type {
                MenuType::Main => Some(&self.main_menu),
                MenuType::Settings => Some(&self.settings_menu),
                MenuType::Fonts => Some(&self.fonts_menu),
                MenuType::BgColors => Some(&self.bg_colors_menu),
                MenuType::Hidden => None,
            },
    {
        match self.current_menu_type {
            MenuType::Main => Some(&self.main_menu),
            MenuType::Settings => Some(&self.settings_menu),
            MenuType::Fonts => Some(&self.fonts_menu),
            MenuType::BgColors => Some(&self.bg_colors_menu),
            MenuType::Hidden => None,
        }
    }

    /// The score and the lives as the heads-up display shows them, one above
    /// the other in the lower left corner.
    pub fn draw_player_stats(&self) -> (stats: (Stat, Stat))
        ensures
            stats.0.caption@ == "SCORE"@,
            stats.0.value == self.current_score,
            stats.0.font@ == "BungeeShade"@,
            stats.0.scale == STATS_SCALE,
            stats.0.color == Color::rgba(80, 40, 17, 88),
            stats.0.position == (Position {
                x: (STATS_LEFT * PIXEL) as i64,
                y: ((self.screen_height - SCORE_RISE) * PIXEL) as i64,
            }),
            stats.1.caption@ == "LIFES"@,
            stats.1.value == self.life_points,
            stats.1.font@ == "BungeeShade"@,
            stats.1.scale == STATS_SCALE,
            stats.1.color == Color::opaque_green(),
            stats.1.position == (Position {
                x: (STATS_LEFT * PIXEL) as i64,
                y: ((self.screen_height - LIVES_RISE) * PIXEL) as i64,
            }),
    {
        let score = Stat {
            caption: String::from_str("SCORE"),
            value: self.current_score,
            font: String::from_str("BungeeShade"),
            scale: STATS_SCALE,
            color: Color::new(80, 40, 17, 88),
            position: Position {
                x: STATS_LEFT * PIXEL,
                y: (self.screen_height as i64 - SCORE_RISE) * PIXEL,
            },
        };
        let lives = Stat {
            caption: String::from_str("LIFES"),
            value: self.life_points,
            font: String::from_str("BungeeShade"),
            scale: STATS_SCALE,
            color: Color::green(),
            position: Position {
                x: STATS_LEFT * PIXEL,
                y: (self.screen_height as i64 - LIVES_RISE) * PIXEL,
            },
        };
        (score, lives)
    }

    /// The sprites of the falling words, oldest first.
    pub fn draw_words(&self) -> (sprites: Vec<TextSprite>)
        ensures
            sprite_views(sprites@) == Seq::new(
                self@.words.len(),
                |i: int| word_sprite(self@.words[i], self@.words_font),
            ),
    {
        let mut sprites: Vec<TextSprite> = Vec::new();
        let mut i: usize = 0;
        assert(self@.words.len() == self.words@.len());
        while i < self.words.len()
            invariant
                i <= self.words@.len(),
                sprites.len() == i,
                forall|k: int|
                    0 <= k < i ==> (#[trigger] sprites@[k])@ == word_sprite(
                        self.words@[k]@,
                        self.words_font@,
                    ),
            decreases self.words@.len() - i,
        {
            let word = &self.words[i];
            let font = match word.effect {
                Some(_effect) => String::from_str("BungeeShade"),
                None => self.words_font.clone(),
            };
            sprites.push(
                TextSprite {
                    text: word.get_display_value(),
                    font,
                    scale: WORD_SCALE,
                    color: word.get_color(),
                    position: word.position,
                },
            );
            i += 1;
        }
        assert(sprite_views(sprites@) =~= Seq::new(
            self@.words.len(),
            |i: int| word_sprite(self@.words[i], self@.words_font),
        ));
        sprites
    }

    /// The end message, centred near the top. `text_width` is the width at
    /// which it comes out.
    pub fn draw_end_game_message(&self, text_width: u64) -> (sprite: TextSprite)
        ensures
            sprite@ == (SpriteView {
                text: "YOU LOST"@,
                font: "Creepster"@,
                scale: END_MESSAGE_SCALE as int,
                color: Color::opaque_red(),
                position: Position {
                    x: centered(self.screen_width as int, text_width as int) as i64,
                    y: (END_MESSAGE_TOP * PIXEL) as i64,
                },
            }),
    {
        TextSprite {
            text: String::from_str("YOU LOST"),
            font: String::from_str("Creepster"),
            scale: END_MESSAGE_SCALE,
            color: Color::red(),
            position: Position {
                x: center(self.screen_width, text_width),
                y: END_MESSAGE_TOP * PIXEL,
            },
        }
    }
}

} // verus!
