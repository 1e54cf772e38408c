//! A vertical menu: a list of labelled options, one of them selected.

use vstd::prelude::*;

verus! {

/// One entry of a menu.
#[derive(Debug)]
pub struct MenuOption {
    pub label: String,
}

/// A list of options and the index of the selected one.
#[derive(Debug)]
pub struct Menu {
    pub options: Vec<MenuOption>,
    pub selected_option_index: usize,
}

/// A step of the selection.
#[derive(Clone, Copy, Debug, PartialEq, Eq, Structural)]
pub enum MenuMove {
    Up,
    Down,
}

/// A menu as a value: the labels from top to bottom and the selected index.
#[verifier::ext_equal]
pub struct MenuView {
    pub labels: Seq<Seq<char>>,
    pub selected: int,
}

impl MenuView {
    /// The selected index points at an option.
    pub open spec fn valid(self) -> bool {
        0 <= self.selected < self.labels.len()
    }

    /// The label of the selected option.
    pub open spec fn selected_label(self) -> Seq<char>
        recommends
            self.valid(),
    {
        self.labels[self.selected]
    }

    /// The selection one step up; at the top it stays.
    pub open spec fn moved_up(self) -> MenuView {
        if self.selected > 0 {
            MenuView { selected: self.selected - 1, ..self }
        } else {
            self
        }
    }

    /// The selection one step down; at the last option, or beyond it, it
    /// stays.
    pub open spec fn moved_down(self) -> MenuView {
        if self.selected + 1 < self.labels.len() {
            MenuView { selected: self.selected + 1, ..self }
        } else {
            self
        }
    }

    /// The selection after `step`.
    pub open spec fn moved(self, step: MenuMove) -> MenuView {
        match step {
            MenuMove::Up => self.moved_up(),
            MenuMove::Down => self.moved_down(),
        }
    }
}

impl View for Menu {
    type V = MenuView;

    open spec fn view(&self) -> MenuView {
        MenuView {
            labels: Seq::new(self.options@.len(), |i: int| self.options@[i].label@),
            selected: self.selected_option_index as int,
        }
    }
}

impl Menu {
    /// Tells whether the selected index points at an option.
    pub fn is_valid(&self) -> (valid: bool)
        ensures
            valid == self@.valid(),
    {
        self.selected_option_index < self.options.len()
    }

    /// The selected option.
    pub fn get_selected_option(&self) -> (option: &MenuOption)
        requires
            self@.valid(),
        ensures
            *option == self.options@[self.selected_option_index as int],
            option.label@ == self@.selected_label(),
    {
        &self.options[self.selected_option_index]
    }

    /// Moves the selection one step in the given direction.
    pub fn navigate(&mut self, menu_move: MenuMove)
        ensures
            final(self)@ == old(self)@.moved(menu_move),
            final(self).options == old(self).options,
    {
        match menu_move {
            MenuMove::Up => self.handle_move_up(),
            MenuMove::Down => self.handle_move_down(),
        }
    }

    /// Moves the selection one option up, unless it is at the top.
    pub fn handle_move_up(&mut self)
        ensures
            final(self)@ == old(self)@.moved_up(),
            final(self).options == old(self).options,
    {
        if self.selected_option_index > 0 {
            self.selected_option_index -= 1;
        }
    }

    /// Moves the selection one option down, unless it is at the last option.
    pub fn handle_move_down(&mut self)
        ensures
            final(self)@ == old(self)@.moved_down(),
            final(self).options == old(self).options,
    {
        if self.options.len() > 0 && self.selected_option_index < self.options.len() - 1 {
            self.selected_option_index += 1;
        }
    }
}

} // verus!
