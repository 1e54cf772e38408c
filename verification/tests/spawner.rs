use typing_tutor::graphemes::{at_end, join_from, part_is};
use typing_tutor::spawner::{candidates_of, select, spawn, WORD_BOX_WIDTH};
use typing_tutor::units::{advance, travel, PIXEL};
use unicode_segmentation::UnicodeSegmentation;

fn words_of(list: &[&str]) -> Vec<String> {
    list.iter().map(|word| word.to_string()).collect()
}

#[test]
fn a_spawn_from_two_words_on_a_narrow_screen() {
    let dictionary = words_of(&["cat", "dog"]);
    let mut cats = 0;
    let mut dogs = 0;
    let mut left_half = 0;
    for _ in 0..2_000 {
        let word = spawn(&dictionary, None, 300);
        assert!(word.value == "cat" || word.value == "dog");
        if word.value == "cat" {
            cats += 1;
        } else {
            dogs += 1;
        }
        assert!(0 <= word.position.x);
        assert!(word.position.x < (300 - 200) * PIXEL);
        if word.position.x < 50 * PIXEL {
            left_half += 1;
        }
        assert_eq!(word.position.y, 0);
        assert_eq!(word.progress_index, 0);
    }
    // both words and both halves of the span come up
    assert!(cats > 700 && dogs > 700);
    assert!(left_half > 700 && left_half < 1_300);
}

#[test]
fn the_margin_for_the_box_is_two_hundred_pixels() {
    assert_eq!(WORD_BOX_WIDTH, 200);
    let dictionary = words_of(&["cat"]);
    for _ in 0..200 {
        // one pixel of room
        let word = spawn(&dictionary, None, 201);
        assert!(0 <= word.position.x && word.position.x < PIXEL);
        assert_eq!(word.value, "cat");
    }
}

#[test]
fn a_limit_keeps_the_long_words_out() {
    let dictionary = words_of(&["climate", "cat", "keyboard", "жар", "window", "it"]);
    for _ in 0..500 {
        let word = spawn(&dictionary, Some(3), 1200);
        assert!(word.value == "cat" || word.value == "жар" || word.value == "it");
        assert!(word.value.graphemes(true).count() <= 3);
    }
}

#[test]
fn a_limit_that_no_word_passes_falls_back_to_all_words() {
    let dictionary = words_of(&["climate", "keyboard"]);
    let mut climate = 0;
    for _ in 0..500 {
        let word = spawn(&dictionary, Some(3), 1200);
        assert!(word.value == "climate" || word.value == "keyboard");
        if word.value == "climate" {
            climate += 1;
        }
    }
    assert!(climate > 100 && climate < 400);
}

#[test]
fn the_candidates_are_the_short_words_in_their_order() {
    let dictionary = words_of(&["climate", "cat", "keyboard", "dog", "sun", "window"]);
    assert_eq!(candidates_of(&dictionary, Some(3)), words_of(&["cat", "dog", "sun"]));
    assert_eq!(candidates_of(&dictionary, Some(6)), words_of(&["cat", "dog", "sun", "window"]));
    assert_eq!(
        candidates_of(&dictionary, Some(7)),
        words_of(&["climate", "cat", "dog", "sun", "window"])
    );
    assert_eq!(candidates_of(&dictionary, Some(8)), dictionary);
    assert_eq!(candidates_of(&dictionary, Some(usize::MAX)), dictionary);
    assert_eq!(candidates_of(&dictionary, None), dictionary);
}

#[test]
fn without_a_short_word_the_candidates_are_all_words() {
    let dictionary = words_of(&["climate", "keyboard"]);
    assert_eq!(candidates_of(&dictionary, Some(3)), dictionary);
    assert_eq!(candidates_of(&dictionary, Some(0)), dictionary);
    assert_eq!(candidates_of(&Vec::new(), Some(3)), Vec::<String>::new());
    assert_eq!(candidates_of(&Vec::new(), None), Vec::<String>::new());
    // the empty word passes every limit
    let with_empty = words_of(&["climate", ""]);
    assert_eq!(candidates_of(&with_empty, Some(0)), words_of(&[""]));
}

#[test]
fn the_limit_counts_characters_not_bytes_or_code_points() {
    // three characters of two bytes each; two characters of two code points each
    let dictionary = words_of(&["жар", "e\u{301}te\u{301}", "abcd"]);
    assert_eq!(candidates_of(&dictionary, Some(3)), words_of(&["жар", "e\u{301}te\u{301}"]));
    assert_eq!(candidates_of(&dictionary, Some(2)), dictionary);
    let longer = words_of(&["жар", "e\u{301}te\u{301}s", "abcd"]);
    assert_eq!(candidates_of(&longer, Some(3)), words_of(&["жар"]));
    assert_eq!(candidates_of(&longer, Some(4)), longer);
}

#[test]
fn select_goes_by_the_counts_it_is_given() {
    let entries = words_of(&["one", "two", "three", "four"]);
    assert_eq!(select(&entries, &vec![9, 1, 9, 2], Some(2)), words_of(&["two", "four"]));
    assert_eq!(select(&entries, &vec![9, 1, 9, 2], Some(1)), words_of(&["two"]));
    assert_eq!(select(&entries, &vec![9, 1, 9, 2], Some(0)), entries);
    assert_eq!(select(&entries, &vec![9, 1, 9, 2], Some(9)), entries);
    assert_eq!(select(&entries, &vec![9, 1, 9, 2], None), entries);
    assert_eq!(select(&entries, &vec![0, 0, 0, 0], Some(0)), entries);
    assert_eq!(select(&Vec::new(), &Vec::new(), Some(2)), Vec::<String>::new());
}

#[test]
fn parts_are_compared_and_joined_as_they_are_given() {
    let parts = words_of(&["c", "li", "m", "", "é"]);
    assert!(part_is(&parts, 0, 'c'));
    assert!(!part_is(&parts, 0, 'l'));
    assert!(!part_is(&parts, 1, 'l'));
    assert!(part_is(&parts, 2, 'm'));
    assert!(!part_is(&parts, 3, 'm'));
    assert!(part_is(&parts, 4, 'é'));
    assert!(!part_is(&parts, 5, 'c'));
    assert!(!part_is(&parts, usize::MAX, 'c'));

    assert_eq!(join_from(&parts, 0), "climé");
    assert_eq!(join_from(&parts, 1), "limé");
    assert_eq!(join_from(&parts, 2), "mé");
    assert_eq!(join_from(&parts, 4), "é");
    assert_eq!(join_from(&parts, 5), "");
    assert_eq!(join_from(&parts, 6), "");
    assert_eq!(join_from(&parts, usize::MAX), "");
    assert_eq!(join_from(&Vec::new(), 0), "");

    assert!(at_end(&parts, 5));
    assert!(!at_end(&parts, 4));
    assert!(!at_end(&parts, 6));
    assert!(at_end(&Vec::new(), 0));
}

#[test]
fn distances_are_speed_times_time() {
    assert_eq!(travel(50, 1_000_000), 50_000_000);
    assert_eq!(travel(50, 20_000), 1_000_000);
    assert_eq!(travel(0, u64::MAX), 0);
    assert_eq!(travel(u32::MAX, 0), 0);
    assert_eq!(travel(1, u64::MAX), u64::MAX);
    assert_eq!(travel(2, u64::MAX), u64::MAX);
    assert_eq!(travel(u32::MAX, u32::MAX as u64), 18_446_744_065_119_617_025);
    assert_eq!(travel(u32::MAX, u64::MAX), u64::MAX);
}

#[test]
fn a_coordinate_moves_on_until_the_largest_one() {
    assert_eq!(advance(0, 0), 0);
    assert_eq!(advance(5, 7), 12);
    assert_eq!(advance(-5, 7), 2);
    assert_eq!(advance(-5, 3), -2);
    assert_eq!(advance(i64::MAX - 1, 1), i64::MAX);
    assert_eq!(advance(i64::MAX - 1, 2), i64::MAX);
    assert_eq!(advance(i64::MAX, u64::MAX), i64::MAX);
    assert_eq!(advance(i64::MIN, u64::MAX), i64::MAX);
    assert_eq!(advance(i64::MIN, u64::MAX - 1), i64::MAX - 1);
    assert_eq!(advance(i64::MIN, 0), i64::MIN);
}
