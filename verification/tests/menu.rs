use typing_tutor::menu::{Menu, MenuMove, MenuOption};

fn two_options() -> Vec<MenuOption> {
    Vec::from([
        MenuOption { label: "opt1".to_string() },
        MenuOption { label: "opt2".to_string() },
    ])
}

#[test]
fn it_returns_the_selected_option() {
    let menu = Menu {
        options: two_options(),
        selected_option_index: 0,
    };

    assert_eq!(menu.get_selected_option().label, "opt1".to_string());
}

#[test]
fn it_navigates_correctly() {
    let mut menu = Menu {
        options: two_options(),
        selected_option_index: 0,
    };

    menu.navigate(MenuMove::Up);
    assert_eq!(menu.get_selected_option().label, "opt1".to_string());

    menu.navigate(MenuMove::Down);
    assert_eq!(menu.get_selected_option().label, "opt2".to_string());

    menu.navigate(MenuMove::Down);
    assert_eq!(menu.get_selected_option().label, "opt2".to_string());

    menu.navigate(MenuMove::Up);
    assert_eq!(menu.get_selected_option().label, "opt1".to_string());
}

#[test]
fn the_moves_stop_at_both_ends() {
    let mut menu = Menu {
        options: Vec::from([
            MenuOption { label: "a".to_string() },
            MenuOption { label: "b".to_string() },
            MenuOption { label: "c".to_string() },
        ]),
        selected_option_index: 1,
    };
    menu.handle_move_down();
    assert_eq!(menu.selected_option_index, 2);
    menu.handle_move_down();
    assert_eq!(menu.selected_option_index, 2);
    menu.handle_move_up();
    menu.handle_move_up();
    assert_eq!(menu.selected_option_index, 0);
    menu.handle_move_up();
    assert_eq!(menu.selected_option_index, 0);
    assert_eq!(menu.options.len(), 3);
    assert_eq!(menu.get_selected_option().label, "a");
}

#[test]
fn an_empty_menu_does_not_move() {
    let mut menu = Menu { options: Vec::new(), selected_option_index: 0 };
    menu.handle_move_down();
    assert_eq!(menu.selected_option_index, 0);
    menu.handle_move_up();
    assert_eq!(menu.selected_option_index, 0);
    menu.navigate(MenuMove::Down);
    assert_eq!(menu.selected_option_index, 0);
}

#[test]
fn a_selection_beyond_the_menu_only_moves_up() {
    let mut menu = Menu { options: two_options(), selected_option_index: usize::MAX };
    menu.handle_move_down();
    assert_eq!(menu.selected_option_index, usize::MAX);
    menu.handle_move_up();
    assert_eq!(menu.selected_option_index, usize::MAX - 1);
}

#[test]
fn a_menu_is_valid_while_its_selection_is_one_of_its_options() {
    let mut menu = Menu { options: two_options(), selected_option_index: 0 };
    assert!(menu.is_valid());
    menu.selected_option_index = 1;
    assert!(menu.is_valid());
    menu.selected_option_index = 2;
    assert!(!menu.is_valid());
    menu.options.clear();
    menu.selected_option_index = 0;
    assert!(!menu.is_valid());
}
