//! The keys the game listens to, and the table from letter keys to letters.

use vstd::prelude::*;

verus! {

/// A key of the keyboard: the letter keys, the keys that steer the menus,
/// and `Other` for all the rest.
#[derive(Clone, Copy, Debug, PartialEq, Eq, Structural)]
pub enum KeyCode {
    A,
    B,
    C,
    D,
    E,
    F,
    G,
    H,
    I,
    J,
    K,
    L,
    M,
    N,
    O,
    P,
    Q,
    R,
    S,
    T,
    U,
    V,
    W,
    X,
    Y,
    Z,
    Up,
    Down,
    Left,
    Space,
    Other,
}

/// The letter keys with the lower-case letter each one types.
pub open spec fn letter_keys() -> Seq<(KeyCode, char)> {
    seq![
        (KeyCode::A, 'a'),
        (KeyCode::B, 'b'),
        (KeyCode::C, 'c'),
        (KeyCode::D, 'd'),
        (KeyCode::E, 'e'),
        (KeyCode::F, 'f'),
        (KeyCode::G, 'g'),
        (KeyCode::H, 'h'),
        (KeyCode::I, 'i'),
        (KeyCode::J, 'j'),
        (KeyCode::K, 'k'),
        (KeyCode::L, 'l'),
        (KeyCode::M, 'm'),
        (KeyCode::N, 'n'),
        (KeyCode::O, 'o'),
        (KeyCode::P, 'p'),
        (KeyCode::Q, 'q'),
        (KeyCode::R, 'r'),
        (KeyCode::S, 's'),
        (KeyCode::T, 't'),
        (KeyCode::U, 'u'),
        (KeyCode::V, 'v'),
        (KeyCode::W, 'w'),
        (KeyCode::X, 'x'),
        (KeyCode::Y, 'y'),
        (KeyCode::Z, 'z'),
    ]
}

/// No key stands twice in the table.
pub open spec fn keys_distinct(table: Seq<(KeyCode, char)>) -> bool {
    forall|i: int, j: int|
        0 <= i < j < table.len() ==> (#[trigger] table[i]).0 != (#[trigger] table[j]).0
}

/// The letter that the table gives for `key`: that of the first entry with
/// this key, if there is one.
pub open spec fn letter_for(table: Seq<(KeyCode, char)>, key: KeyCode) -> Option<char>
    decreases table.len(),
{
    if table.len() == 0 {
        None
    } else if table[0].0 == key {
        Some(table[0].1)
    } else {
        letter_for(table.drop_first(), key)
    }
}

/// Builds the table of the twenty-six letter keys.
pub fn create_key_codes_map() -> (table: Vec<(KeyCode, char)>)
    ensures
        table@ == letter_keys(),
        keys_distinct(table@),
{
    let mut table: Vec<(KeyCode, char)> = Vec::new();
    table.push((KeyCode::A, 'a'));
    table.push((KeyCode::B, 'b'));
    table.push((KeyCode::C, 'c'));
    table.push((KeyCode::D, 'd'));
    table.push((KeyCode::E, 'e'));
    table.push((KeyCode::F, 'f'));
    table.push((KeyCode::G, 'g'));
    table.push((KeyCode::H, 'h'));
    table.push((KeyCode::I, 'i'));
    table.push((KeyCode::J, 'j'));
    table.push((KeyCode::K, 'k'));
    table.push((KeyCode::L, 'l'));
    table.push((KeyCode::M, 'm'));
    table.push((KeyCode::N, 'n'));
    table.push((KeyCode::O, 'o'));
    table.push((KeyCode::P, 'p'));
    table.push((KeyCode::Q, 'q'));
    table.push((KeyCode::R, 'r'));
    table.push((KeyCode::S, 's'));
    table.push((KeyCode::T, 't'));
    table.push((KeyCode::U, 'u'));
    table.push((KeyCode::V, 'v'));
    table.push((KeyCode::W, 'w'));
    table.push((KeyCode::X, 'x'));
    table.push((KeyCode::Y, 'y'));
    table.push((KeyCode::Z, 'z'));
    assert(table@ =~= letter_keys());
    proof {
        lemma_letter_keys_distinct();
    }
    table
}

/// Looks `key` up in the table.
pub fn typed_letter(table: &Vec<(KeyCode, char)>, key: KeyCode) -> (letter: Option<char>)
    ensures
        letter == letter_for(table@, key),
{
    let mut i: usize = 0;
    assert(table@.skip(0) =~= table@);
    while i < table.len()
        invariant
            i <= table.len(),
            letter_for(table@, key) == letter_for(table@.skip(i as int), key),
        decreases table.len() - i,
    {
        let entry = table[i];
        if entry.0 == key {
            return Some(entry.1);
        }
        assert(table@.skip(i as int).drop_first() =~= table@.skip(i + 1));
        i += 1;
    }
    None
}

/// In the table of the letter keys every key stands once.
pub proof fn lemma_letter_keys_distinct()
    ensures
        keys_distinct(letter_keys()),
{
}

} // verus!
