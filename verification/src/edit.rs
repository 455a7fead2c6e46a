//! Editing a line of text under a cursor, as the input popups do:
//! key presses insert, delete and move within a character buffer,
//! optionally filtered by a character set, uppercased, and bounded in
//! length.

use vstd::prelude::*;

use crate::keys::{KeyCode, KeyEvent, KeyKind};

verus! {

/// ASCII uppercasing of one character.
pub open spec fn spec_to_upper(c: char) -> char {
    if c == 'a' { 'A' }
    else if c == 'b' { 'B' }
    else if c == 'c' { 'C' }
    else if c == 'd' { 'D' }
    else if c == 'e' { 'E' }
    else if c == 'f' { 'F' }
    else if c == 'g' { 'G' }
    else if c == 'h' { 'H' }
    else if c == 'i' { 'I' }
    else if c == 'j' { 'J' }
    else if c == 'k' { 'K' }
    else if c == 'l' { 'L' }
    else if c == 'm' { 'M' }
    else if c == 'n' { 'N' }
    else if c == 'o' { 'O' }
    else if c == 'p' { 'P' }
    else if c == 'q' { 'Q' }
    else if c == 'r' { 'R' }
    else if c == 's' { 'S' }
    else if c == 't' { 'T' }
    else if c == 'u' { 'U' }
    else if c == 'v' { 'V' }
    else if c == 'w' { 'W' }
    else if c == 'x' { 'X' }
    else if c == 'y' { 'Y' }
    else if c == 'z' { 'Z' }
    else { c }
}

/// ASCII uppercasing of one character.
pub fn to_upper(c: char) -> (r: char)
    ensures
        r == spec_to_upper(c),
{
    if 'a' <= c && c <= 'z' {
        match c {
            'a' => 'A', 'b' => 'B', 'c' => 'C', 'd' => 'D', 'e' => 'E', 'f' => 'F',
            'g' => 'G', 'h' => 'H', 'i' => 'I', 'j' => 'J', 'k' => 'K', 'l' => 'L',
            'm' => 'M', 'n' => 'N', 'o' => 'O', 'p' => 'P', 'q' => 'Q', 'r' => 'R',
            's' => 'S', 't' => 'T', 'u' => 'U', 'v' => 'V', 'w' => 'W', 'x' => 'X',
            'y' => 'Y', _ => 'Z',
        }
    } else {
        c
    }
}

/// Does the buffer hold this character?
pub open spec fn seq_has_char(s: Seq<char>, c: char) -> bool {
    exists|i: int| 0 <= i < s.len() && s[i] == c
}

/// Does the buffer hold this character?
pub fn vec_has_char(s: &Vec<char>, c: char) -> (r: bool)
    ensures
        r == seq_has_char(s@, c),
{
    let mut i: usize = 0;
    while i < s.len()
        invariant
            i <= s@.len(),
            forall|j: int| 0 <= j < i ==> s@[j] != c,
        decreases s@.len() - i,
    {
        if s[i] == c {
            return true;
        }
        i = i + 1;
    }
    false
}

/// What one key press does to a text buffer and its cursor:
/// Backspace and Delete remove around the cursor, Left/Right/Home/End
/// move it, and a character key inserts at the cursor when the buffer
/// is not full and the character is in the allowed set.  Anything
/// else, and any non-press event, changes nothing.
pub open spec fn spec_string_edit(
    text: Seq<char>,
    cursor: int,
    ev: KeyEvent,
    charset: Option<Seq<char>>,
    capitalize: bool,
    max_len: Option<usize>,
) -> (Seq<char>, int) {
    if ev.kind != KeyKind::Press {
        (text, cursor)
    } else {
        match ev.code {
            KeyCode::Backspace => if cursor > 0 {
                (text.remove(cursor - 1), cursor - 1)
            } else {
                (text, cursor)
            },
            KeyCode::Delete => if cursor < text.len() {
                (text.remove(cursor), cursor)
            } else {
                (text, cursor)
            },
            KeyCode::Left => if cursor > 0 {
                (text, cursor - 1)
            } else {
                (text, cursor)
            },
            KeyCode::Right => if cursor < text.len() {
                (text, cursor + 1)
            } else {
                (text, cursor)
            },
            KeyCode::End => (text, text.len() as int),
            KeyCode::Home => (text, 0),
            KeyCode::Char(cs) => if cs@.len() == 1 {
                let c = if capitalize {
                    spec_to_upper(cs@[0])
                } else {
                    cs@[0]
                };
                if (match max_len {
                    Some(m) => text.len() < m,
                    None => true,
                }) && (match charset {
                    Some(allowed) => seq_has_char(allowed, c),
                    None => true,
                }) {
                    (text.insert(cursor, c), cursor + 1)
                } else {
                    (text, cursor)
                }
            } else {
                (text, cursor)
            },
            _ => (text, cursor),
        }
    }
}

/// Apply one key press to a text buffer and its cursor.
pub fn handle_string_edit(
    text: &mut Vec<char>,
    cursor: &mut usize,
    event: &KeyEvent,
    charset: Option<&Vec<char>>,
    capitalize: bool,
    max_len: Option<usize>,
)
    requires
        *old(cursor) <= old(text)@.len(),
        old(text)@.len() < usize::MAX,
    ensures
        (final(text)@, *final(cursor) as int) == spec_string_edit(
            old(text)@,
            *old(cursor) as int,
            *event,
            match charset {
                Some(cs) => Some(cs@),
                None => None,
            },
            capitalize,
            max_len,
        ),
        *final(cursor) <= final(text)@.len(),
{
    if event.kind != KeyKind::Press {
        return;
    }
    match &event.code {
        KeyCode::Backspace => {
            if *cursor > 0 {
                let _ = text.remove(*cursor - 1);
                *cursor = *cursor - 1;
            }
        },
        KeyCode::Delete => {
            if *cursor < text.len() {
                let _ = text.remove(*cursor);
            }
        },
        KeyCode::Left => {
            if *cursor > 0 {
                *cursor = *cursor - 1;
            }
        },
        KeyCode::Right => {
            if *cursor < text.len() {
                *cursor = *cursor + 1;
            }
        },
        KeyCode::End => {
            *cursor = text.len();
        },
        KeyCode::Home => {
            *cursor = 0;
        },
        KeyCode::Char(cs) => {
            if cs.unicode_len() == 1 {
                let c0 = cs.as_str().get_char(0);
                let c = if capitalize {
                    to_upper(c0)
                } else {
                    c0
                };
                let room = match max_len {
                    Some(m) => text.len() < m,
                    None => true,
                };
                let allowed = match charset {
                    Some(set) => vec_has_char(set, c),
                    None => true,
                };
                if room && allowed {
                    text.insert(*cursor, c);
                    *cursor = *cursor + 1;
                }
            }
        },
        _ => {},
    }
}

} // verus!
