use std::collections::VecDeque;

use typing_tutor::color::Color;
use typing_tutor::game::{
    create_bg_colors_menu, create_fonts_menu, create_key_codes_map, create_main_menu,
    create_settings_menu, get_color_by_label, Game, MenuType,
};
use typing_tutor::keys::{typed_letter, KeyCode};
use typing_tutor::menu::Menu;
use typing_tutor::units::SECOND;
use typing_tutor::word::{Position, Word, WordEffect};

fn new_game() -> Game {
    Game::new(1200, 1000, vec!["cat".to_string(), "keyboard".to_string()])
}

fn plain(text: &str) -> Word {
    Word::with_effect(text, Position { x: 0, y: 0 }, 0, None)
}

fn labels(menu: &Menu) -> Vec<String> {
    menu.options.iter().map(|option| option.label.clone()).collect()
}

#[test]
fn the_key_table_has_the_twenty_six_letters() {
    let table = create_key_codes_map();
    assert_eq!(table.len(), 26);
    let letters: String = table.iter().map(|entry| entry.1).collect();
    assert_eq!(letters, "abcdefghijklmnopqrstuvwxyz");
    assert_eq!(table[0], (KeyCode::A, 'a'));
    assert_eq!(table[12], (KeyCode::M, 'm'));
    assert_eq!(table[25], (KeyCode::Z, 'z'));
    for (i, first) in table.iter().enumerate() {
        for second in table.iter().skip(i + 1) {
            assert_ne!(first.0, second.0);
        }
    }
}

#[test]
fn a_letter_key_types_its_letter_and_other_keys_none() {
    let table = create_key_codes_map();
    assert_eq!(typed_letter(&table, KeyCode::A), Some('a'));
    assert_eq!(typed_letter(&table, KeyCode::C), Some('c'));
    assert_eq!(typed_letter(&table, KeyCode::Q), Some('q'));
    assert_eq!(typed_letter(&table, KeyCode::Z), Some('z'));
    assert_eq!(typed_letter(&table, KeyCode::Up), None);
    assert_eq!(typed_letter(&table, KeyCode::Down), None);
    assert_eq!(typed_letter(&table, KeyCode::Left), None);
    assert_eq!(typed_letter(&table, KeyCode::Space), None);
    assert_eq!(typed_letter(&table, KeyCode::Other), None);
    assert_eq!(typed_letter(&Vec::new(), KeyCode::A), None);
}

#[test]
fn the_first_entry_of_a_key_counts() {
    let table = vec![(KeyCode::A, 'x'), (KeyCode::B, 'y'), (KeyCode::A, 'z')];
    assert_eq!(typed_letter(&table, KeyCode::A), Some('x'));
    assert_eq!(typed_letter(&table, KeyCode::B), Some('y'));
    assert_eq!(typed_letter(&table, KeyCode::C), None);
}

#[test]
fn the_menus_start_on_their_first_option() {
    let main = create_main_menu();
    assert_eq!(labels(&main), vec!["PLAY", "SETTINGS"]);
    assert_eq!(main.selected_option_index, 0);
    let settings = create_settings_menu();
    assert_eq!(labels(&settings), vec!["CHANGE FONT", "CHANGE BG COLOR"]);
    assert_eq!(settings.selected_option_index, 0);
    let fonts = create_fonts_menu();
    assert_eq!(labels(&fonts), vec!["GravitasOne", "Creepster"]);
    assert_eq!(fonts.selected_option_index, 0);
    let colors = create_bg_colors_menu();
    assert_eq!(labels(&colors), vec!["PURPLE", "GREEN"]);
    assert_eq!(colors.selected_option_index, 0);
}

#[test]
fn a_new_game_shows_the_main_menu() {
    let game = new_game();
    assert_eq!(game.current_menu_type, MenuType::Main);
    assert_eq!(labels(&game.main_menu), vec!["PLAY", "SETTINGS"]);
    assert_eq!(labels(&game.settings_menu), vec!["CHANGE FONT", "CHANGE BG COLOR"]);
    assert_eq!(labels(&game.fonts_menu), vec!["GravitasOne", "Creepster"]);
    assert_eq!(labels(&game.bg_colors_menu), vec!["PURPLE", "GREEN"]);
    assert_eq!(game.words_font, "GravitasOne");
    assert_eq!(game.bg_color, Color::new(19, 20, 45, 65));
    assert_eq!(game.dictionary, vec!["cat".to_string(), "keyboard".to_string()]);
}

#[test]
fn the_background_colours_go_by_their_labels() {
    assert_eq!(get_color_by_label("PURPLE".to_string()), Color::new(19, 20, 45, 65));
    assert_eq!(get_color_by_label("GREEN".to_string()), Color::new(20, 40, 25, 85));
    assert_eq!(get_color_by_label("RED".to_string()), Color::white());
    assert_eq!(get_color_by_label("green".to_string()), Color::white());
    assert_eq!(get_color_by_label(String::new()), Color::white());
}

#[test]
fn space_on_play_starts_a_round() {
    let mut game = new_game();
    game.key_down_event(KeyCode::Space);
    assert!(game.is_game_running);
    assert_eq!(game.time_until_next_word, Some(SECOND));
    assert_eq!(game.current_menu_type, MenuType::Main);
}

#[test]
fn the_menus_lead_to_the_typeface() {
    let mut game = new_game();
    game.key_down_event(KeyCode::Up);
    assert_eq!(game.main_menu.selected_option_index, 0);
    game.key_down_event(KeyCode::Down);
    assert_eq!(game.main_menu.selected_option_index, 1);
    game.key_down_event(KeyCode::Left);
    assert_eq!(game.current_menu_type, MenuType::Main);
    game.key_down_event(KeyCode::Space);
    assert_eq!(game.current_menu_type, MenuType::Settings);
    assert!(!game.is_game_running);

    game.key_down_event(KeyCode::Space);
    assert_eq!(game.current_menu_type, MenuType::Fonts);
    game.key_down_event(KeyCode::Down);
    game.key_down_event(KeyCode::Down);
    assert_eq!(game.fonts_menu.selected_option_index, 1);
    game.key_down_event(KeyCode::Space);
    assert_eq!(game.words_font, "Creepster");
    assert_eq!(game.current_menu_type, MenuType::Fonts);
    game.key_down_event(KeyCode::Up);
    game.key_down_event(KeyCode::Space);
    assert_eq!(game.words_font, "GravitasOne");

    game.key_down_event(KeyCode::Left);
    assert_eq!(game.current_menu_type, MenuType::Settings);
    game.key_down_event(KeyCode::Left);
    assert_eq!(game.current_menu_type, MenuType::Main);
    // the main menu still stands on the settings
    assert_eq!(game.main_menu.selected_option_index, 1);
}

#[test]
fn the_menus_lead_to_the_background_colour() {
    let mut game = new_game();
    game.current_menu_type = MenuType::Settings;
    game.key_down_event(KeyCode::Down);
    assert_eq!(game.settings_menu.selected_option_index, 1);
    game.key_down_event(KeyCode::Space);
    assert_eq!(game.current_menu_type, MenuType::BgColors);
    game.key_down_event(KeyCode::Down);
    game.key_down_event(KeyCode::Space);
    assert_eq!(game.bg_color, Color::new(20, 40, 25, 85));
    game.key_down_event(KeyCode::Up);
    game.key_down_event(KeyCode::Space);
    assert_eq!(game.bg_color, Color::new(19, 20, 45, 65));
    game.bg_colors_menu.options[0].label = "ORANGE".to_string();
    game.key_down_event(KeyCode::Space);
    assert_eq!(game.bg_color, Color::white());
    game.key_down_event(KeyCode::Left);
    assert_eq!(game.current_menu_type, MenuType::Settings);
}

#[test]
fn each_menu_handler_answers_its_keys() {
    let mut game = new_game();
    game.handle_input_key_in_main_menu(KeyCode::Down);
    assert_eq!(game.main_menu.selected_option_index, 1);
    game.handle_input_key_in_main_menu(KeyCode::A);
    game.handle_input_key_in_main_menu(KeyCode::Other);
    assert_eq!(game.main_menu.selected_option_index, 1);
    assert_eq!(game.current_menu_type, MenuType::Main);
    game.main_menu.options[1].label = "CREDITS".to_string();
    game.handle_input_key_in_main_menu(KeyCode::Space);
    assert_eq!(game.current_menu_type, MenuType::Main);
    assert!(!game.is_game_running);

    game.handle_input_key_in_settings_menu(KeyCode::Down);
    assert_eq!(game.settings_menu.selected_option_index, 1);
    game.handle_input_key_in_settings_menu(KeyCode::Up);
    assert_eq!(game.settings_menu.selected_option_index, 0);
    game.handle_input_key_in_settings_menu(KeyCode::Space);
    assert_eq!(game.current_menu_type, MenuType::Fonts);
    game.handle_input_key_in_settings_menu(KeyCode::Left);
    assert_eq!(game.current_menu_type, MenuType::Main);

    game.handle_input_key_in_fonts_menu(KeyCode::Down);
    game.handle_input_key_in_fonts_menu(KeyCode::Space);
    assert_eq!(game.words_font, "Creepster");
    game.handle_input_key_in_fonts_menu(KeyCode::Left);
    assert_eq!(game.current_menu_type, MenuType::Settings);

    game.handle_input_key_in_bg_colors_menu(KeyCode::Down);
    game.handle_input_key_in_bg_colors_menu(KeyCode::Space);
    assert_eq!(game.bg_color, Color::new(20, 40, 25, 85));
    game.current_menu_type = MenuType::BgColors;
    game.handle_input_key_in_bg_colors_menu(KeyCode::Left);
    assert_eq!(game.current_menu_type, MenuType::Settings);
}

#[test]
fn with_the_menu_hidden_keys_do_nothing_between_rounds() {
    let mut game = new_game();
    game.current_menu_type = MenuType::Hidden;
    for key in [KeyCode::Up, KeyCode::Down, KeyCode::Left, KeyCode::Space, KeyCode::A] {
        game.key_down_event(key);
    }
    assert!(!game.is_game_running);
    assert_eq!(game.current_menu_type, MenuType::Hidden);
    assert_eq!(game.main_menu.selected_option_index, 0);
}

#[test]
fn in_a_round_the_keys_type_and_the_menus_rest() {
    let mut game = new_game();
    game.start_game();
    game.words = VecDeque::from([plain("cab"), plain("dog")]);

    game.key_down_event(KeyCode::Down);
    game.key_down_event(KeyCode::Space);
    assert_eq!(game.main_menu.selected_option_index, 0);
    assert_eq!(game.words[0].progress_index, 0);

    game.key_down_event(KeyCode::A);
    assert_eq!(game.words[0].progress_index, 0);
    game.key_down_event(KeyCode::C);
    assert_eq!(game.words[0].progress_index, 1);
    // only the first word is typed at
    game.key_down_event(KeyCode::D);
    assert_eq!(game.words[0].progress_index, 1);
    assert_eq!(game.words[1].progress_index, 0);
    game.key_down_event(KeyCode::A);
    game.key_down_event(KeyCode::B);

    assert_eq!(game.words.len(), 1);
    assert_eq!(game.words[0].value, "dog");
    assert_eq!(game.words[0].progress_index, 0);
    assert_eq!(game.current_score, 10);
    assert_eq!(game.game_speed, 55);
    assert_eq!(game.life_points, 0);
    assert_eq!(game.next_word_loop_length, SECOND - 300);
}

#[test]
fn a_letter_typed_between_rounds_or_without_words_is_dropped() {
    let mut game = new_game();
    game.words = VecDeque::from([plain("cat")]);
    game.handle_keystroke('c');
    assert_eq!(game.words[0].progress_index, 0);
    assert_eq!(game.current_score, 0);

    game.words.clear();
    game.start_game();
    game.handle_keystroke('c');
    game.key_down_event(KeyCode::C);
    assert_eq!(game.words.len(), 0);
    assert_eq!(game.current_score, 0);
    assert_eq!(game.game_speed, 50);
    assert_eq!(game.next_word_loop_length, SECOND);
}

#[test]
fn typing_a_word_to_its_end_completes_it_with_its_effect() {
    let mut game = new_game();
    game.start_game();
    game.life_points = 3;
    game.words = VecDeque::from([
        Word::with_effect("hi", Position { x: 0, y: 0 }, 0, Some(WordEffect::AddLife)),
        plain("yo"),
    ]);
    game.handle_keystroke('h');
    assert_eq!(game.words.len(), 2);
    assert_eq!(game.current_score, 0);
    game.handle_keystroke('x');
    assert_eq!(game.words[0].progress_index, 1);
    game.handle_keystroke('i');
    assert_eq!(game.words.len(), 1);
    assert_eq!(game.current_score, 10);
    assert_eq!(game.game_speed, 55);
    assert_eq!(game.life_points, 4);
    assert_eq!(game.next_word_loop_length, SECOND - 300);
    game.handle_keystroke('y');
    game.handle_keystroke('o');
    assert_eq!(game.words.len(), 0);
    assert_eq!(game.current_score, 20);
    assert_eq!(game.game_speed, 60);
    assert_eq!(game.life_points, 4);
    assert_eq!(game.next_word_loop_length, SECOND - 600);
}

#[test]
fn upper_case_letters_never_match() {
    let mut game = new_game();
    game.start_game();
    game.words = VecDeque::from([plain("cat")]);
    game.handle_keystroke('C');
    assert_eq!(game.words[0].progress_index, 0);
    game.handle_keystroke('c');
    game.handle_keystroke('A');
    assert_eq!(game.words[0].progress_index, 1);
}

#[test]
fn a_word_that_is_complete_as_it_stands_goes_with_the_next_key() {
    let mut game = new_game();
    game.start_game();
    game.words = VecDeque::from([plain(""), plain("cat")]);
    game.key_down_event(KeyCode::Up);
    assert_eq!(game.words.len(), 1);
    assert_eq!(game.current_score, 10);
    assert_eq!(game.words[0].value, "cat");
    assert_eq!(game.words[0].progress_index, 0);
}

#[test]
fn the_spawn_interval_tightens_down_to_its_floor_and_no_further() {
    let mut game = new_game();
    game.start_game();

    game.next_word_loop_length = 200_700;
    game.words = VecDeque::from([plain("a"), plain("a"), plain("a"), plain("a")]);
    game.handle_keystroke('a');
    assert_eq!(game.next_word_loop_length, 200_400);
    game.handle_keystroke('a');
    assert_eq!(game.next_word_loop_length, 200_100);
    // less than a full step above the floor: down to the floor
    game.handle_keystroke('a');
    assert_eq!(game.next_word_loop_length, 200_000);
    game.handle_keystroke('a');
    assert_eq!(game.next_word_loop_length, 200_000);

    game.next_word_loop_length = 200_300;
    game.words = VecDeque::from([plain("a")]);
    game.handle_keystroke('a');
    assert_eq!(game.next_word_loop_length, 200_000);

    // an interval set below the floor is left alone
    game.next_word_loop_length = 1_000;
    game.words = VecDeque::from([plain("a")]);
    game.handle_keystroke('a');
    assert_eq!(game.next_word_loop_length, 1_000);
}

#[test]
fn a_whole_round_of_typing_never_takes_the_interval_below_the_floor() {
    let mut game = new_game();
    game.start_game();
    for _ in 0..3_000 {
        game.words.push_back(plain("a"));
        game.handle_keystroke('a');
        assert!(game.next_word_loop_length >= 200_000);
    }
    assert_eq!(game.next_word_loop_length, 200_000);
    assert_eq!(game.current_score, 30_000);
    assert_eq!(game.game_speed, 50 + 15_000);
}

#[test]
fn applying_an_effect_changes_only_what_the_effect_is_about() {
    let mut game = new_game();
    game.game_speed = 85;
    game.life_points = 2;
    game.apply_word_effect(WordEffect::AddLife);
    assert_eq!(game.life_points, 3);
    assert_eq!(game.game_speed, 85);
    assert_eq!(game.slow_down_time_left, None);
    assert_eq!(game.spawn_only_short_words_time_left, None);

    game.apply_word_effect(WordEffect::SpawnOnlyShortWords);
    assert_eq!(game.spawn_only_short_words_time_left, Some(5 * SECOND));
    assert_eq!(game.life_points, 3);
    assert_eq!(game.game_speed, 85);
    assert_eq!(game.slow_down_time_left, None);

    game.apply_word_effect(WordEffect::SlowDown);
    assert_eq!(game.slow_down_time_left, Some(5 * SECOND));
    assert_eq!(game.game_speed_before_slow_down, Some(85));
    assert_eq!(game.game_speed, 25);
    assert_eq!(game.life_points, 3);
    assert_eq!(game.current_score, 0);
}
