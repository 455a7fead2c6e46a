//! Host-side model of key and mouse input: a structured
//! {code, modifiers, kind, state} description that round-trips exactly
//! through the guest.  Codes are symbolic names, plus single-character
//! codes for literal keys.

use vstd::prelude::*;

use crate::text::{all_digits, dec_digits, dec_val, str_eq};

verus! {

/// Symbolic key code: a named key, a function key, or a literal
/// character (held as its one-character spelling).
#[derive(Debug, Clone, PartialEq, Eq)]
pub enum KeyCode {
    Backspace,
    Enter,
    Left,
    Right,
    Up,
    Down,
    Home,
    End,
    PageUp,
    PageDown,
    Tab,
    BackTab,
    Delete,
    Insert,
    Esc,
    Null,
    F(u8),
    Char(String),
}

/// Press, release or auto-repeat.
#[derive(Debug, Clone, Copy, PartialEq, Eq, Structural)]
pub enum KeyKind {
    Press,
    Release,
    Repeat,
}

/// One key event or key binding.
#[derive(Debug, Clone, PartialEq, Eq)]
pub struct KeyEvent {
    pub code: KeyCode,
    pub modifiers: u8,
    pub kind: KeyKind,
    pub state: u8,
}

impl KeyEvent {
    /// A plain press of `code` with no modifiers or state.
    pub fn plain(code: KeyCode) -> (r: KeyEvent)
        ensures
            r.code == code,
            r.modifiers == 0,
            r.kind == KeyKind::Press,
            r.state == 0,
    {
        KeyEvent { code, modifiers: 0, kind: KeyKind::Press, state: 0 }
    }
}

/// Mouse buttons.
#[derive(Debug, Clone, Copy, PartialEq, Eq, Structural)]
pub enum MouseButton {
    Left,
    Right,
    Middle,
}

/// What the mouse did.
#[derive(Debug, Clone, Copy, PartialEq, Eq, Structural)]
pub enum MouseKind {
    Down(MouseButton),
    Up(MouseButton),
    Drag(MouseButton),
    Moved,
    ScrollDown,
    ScrollUp,
    ScrollLeft,
    ScrollRight,
}

/// One mouse event.
#[derive(Debug, Clone, PartialEq, Eq)]
pub struct MouseEvent {
    pub kind: MouseKind,
    pub column: u16,
    pub row: u16,
    pub modifiers: u8,
}

/// The spelling of a key code.
pub open spec fn spec_key_code_name(c: KeyCode) -> Seq<char> {
    match c {
        KeyCode::Backspace => "Backspace"@,
        KeyCode::Enter => "Enter"@,
        KeyCode::Left => "Left"@,
        KeyCode::Right => "Right"@,
        KeyCode::Up => "Up"@,
        KeyCode::Down => "Down"@,
        KeyCode::Home => "Home"@,
        KeyCode::End => "End"@,
        KeyCode::PageUp => "PageUp"@,
        KeyCode::PageDown => "PageDown"@,
        KeyCode::Tab => "Tab"@,
        KeyCode::BackTab => "BackTab"@,
        KeyCode::Delete => "Delete"@,
        KeyCode::Insert => "Insert"@,
        KeyCode::Esc => "Esc"@,
        KeyCode::Null => "Null"@,
        KeyCode::F(n) => "F"@ + dec_digits(n as nat),
        KeyCode::Char(s) => s@,
    }
}

/// Spell a key code for the wire.
pub fn key_code_name(c: &KeyCode) -> (r: String)
    ensures
        r@ == spec_key_code_name(*c),
{
    match c {
        KeyCode::Backspace => String::from_str("Backspace"),
        KeyCode::Enter => String::from_str("Enter"),
        KeyCode::Left => String::from_str("Left"),
        KeyCode::Right => String::from_str("Right"),
        KeyCode::Up => String::from_str("Up"),
        KeyCode::Down => String::from_str("Down"),
        KeyCode::Home => String::from_str("Home"),
        KeyCode::End => String::from_str("End"),
        KeyCode::PageUp => String::from_str("PageUp"),
        KeyCode::PageDown => String::from_str("PageDown"),
        KeyCode::Tab => String::from_str("Tab"),
        KeyCode::BackTab => String::from_str("BackTab"),
        KeyCode::Delete => String::from_str("Delete"),
        KeyCode::Insert => String::from_str("Insert"),
        KeyCode::Esc => String::from_str("Esc"),
        KeyCode::Null => String::from_str("Null"),
        KeyCode::F(n) => String::from_str("F").concat(crate::text::fmt_u64(*n as u64).as_str()),
        KeyCode::Char(s) => s.clone(),
    }
}

/// The key code a spelling denotes: a known name, `F` followed by a
/// number up to 255, or any single character.
pub open spec fn spec_parse_key_code(s: String) -> Option<KeyCode> {
    if s@ == "Backspace"@ { Some(KeyCode::Backspace) }
    else if s@ == "Enter"@ { Some(KeyCode::Enter) }
    else if s@ == "Left"@ { Some(KeyCode::Left) }
    else if s@ == "Right"@ { Some(KeyCode::Right) }
    else if s@ == "Up"@ { Some(KeyCode::Up) }
    else if s@ == "Down"@ { Some(KeyCode::Down) }
    else if s@ == "Home"@ { Some(KeyCode::Home) }
    else if s@ == "End"@ { Some(KeyCode::End) }
    else if s@ == "PageUp"@ { Some(KeyCode::PageUp) }
    else if s@ == "PageDown"@ { Some(KeyCode::PageDown) }
    else if s@ == "Tab"@ { Some(KeyCode::Tab) }
    else if s@ == "BackTab"@ { Some(KeyCode::BackTab) }
    else if s@ == "Delete"@ { Some(KeyCode::Delete) }
    else if s@ == "Insert"@ { Some(KeyCode::Insert) }
    else if s@ == "Esc"@ { Some(KeyCode::Esc) }
    else if s@ == "Null"@ { Some(KeyCode::Null) }
    else if s@.len() >= 2 && s@[0] == 'F' && all_digits(s@.subrange(1, s@.len() as int))
        && dec_val(s@.subrange(1, s@.len() as int)) <= 255 {
        Some(KeyCode::F(dec_val(s@.subrange(1, s@.len() as int)) as u8))
    } else if s@.len() == 1 {
        Some(KeyCode::Char(s))
    } else {
        None
    }
}

/// Parse a key-code spelling from the wire.
pub fn parse_key_code(s: &String) -> (r: Option<KeyCode>)
    ensures
        r == spec_parse_key_code(*s),
{
    let t = s.as_str();
    if str_eq(t, "Backspace") { return Some(KeyCode::Backspace); }
    if str_eq(t, "Enter") { return Some(KeyCode::Enter); }
    if str_eq(t, "Left") { return Some(KeyCode::Left); }
    if str_eq(t, "Right") { return Some(KeyCode::Right); }
    if str_eq(t, "Up") { return Some(KeyCode::Up); }
    if str_eq(t, "Down") { return Some(KeyCode::Down); }
    if str_eq(t, "Home") { return Some(KeyCode::Home); }
    if str_eq(t, "End") { return Some(KeyCode::End); }
    if str_eq(t, "PageUp") { return Some(KeyCode::PageUp); }
    if str_eq(t, "PageDown") { return Some(KeyCode::PageDown); }
    if str_eq(t, "Tab") { return Some(KeyCode::Tab); }
    if str_eq(t, "BackTab") { return Some(KeyCode::BackTab); }
    if str_eq(t, "Delete") { return Some(KeyCode::Delete); }
    if str_eq(t, "Insert") { return Some(KeyCode::Insert); }
    if str_eq(t, "Esc") { return Some(KeyCode::Esc); }
    if str_eq(t, "Null") { return Some(KeyCode::Null); }
    let len = t.unicode_len();
    if len >= 2 && t.get_char(0) == 'F' {
        let digits = t.substring_char(1, len);
        match crate::text::parse_u64(digits) {
            Some(n) => {
                if n <= 255 {
                    return Some(KeyCode::F(n as u8));
                }
                return None;
            },
            None => {
                return None;
            },
        }
    }
    if len == 1 && !(len >= 2 && t.get_char(0) == 'F') {
        return Some(KeyCode::Char(s.clone()));
    }
    None
}

/// The spelling of a key kind.
pub open spec fn spec_kind_name(k: KeyKind) -> Seq<char> {
    match k {
        KeyKind::Press => "Press"@,
        KeyKind::Release => "Release"@,
        KeyKind::Repeat => "Repeat"@,
    }
}

/// Spell a key kind for the wire.
pub fn kind_name(k: &KeyKind) -> (r: String)
    ensures
        r@ == spec_kind_name(*k),
{
    match k {
        KeyKind::Press => String::from_str("Press"),
        KeyKind::Release => String::from_str("Release"),
        KeyKind::Repeat => String::from_str("Repeat"),
    }
}

/// The key kind a spelling denotes.
pub open spec fn spec_parse_kind(s: Seq<char>) -> Option<KeyKind> {
    if s == "Press"@ { Some(KeyKind::Press) }
    else if s == "Release"@ { Some(KeyKind::Release) }
    else if s == "Repeat"@ { Some(KeyKind::Repeat) }
    else { None }
}

/// Parse a key-kind spelling from the wire.
pub fn parse_kind(s: &str) -> (r: Option<KeyKind>)
    ensures
        r == spec_parse_kind(s@),
{
    if str_eq(s, "Press") { return Some(KeyKind::Press); }
    if str_eq(s, "Release") { return Some(KeyKind::Release); }
    if str_eq(s, "Repeat") { return Some(KeyKind::Repeat); }
    None
}

/// The spelling of a mouse kind (the button is spelled separately).
pub open spec fn spec_mouse_kind_name(k: MouseKind) -> Seq<char> {
    match k {
        MouseKind::Down(_) => "Down"@,
        MouseKind::Up(_) => "Up"@,
        MouseKind::Drag(_) => "Drag"@,
        MouseKind::Moved => "Moved"@,
        MouseKind::ScrollDown => "ScrollDown"@,
        MouseKind::ScrollUp => "ScrollUp"@,
        MouseKind::ScrollLeft => "ScrollLeft"@,
        MouseKind::ScrollRight => "ScrollRight"@,
    }
}

/// Spell a mouse kind for the wire.
pub fn mouse_kind_name(k: &MouseKind) -> (r: String)
    ensures
        r@ == spec_mouse_kind_name(*k),
{
    match k {
        MouseKind::Down(_) => String::from_str("Down"),
        MouseKind::Up(_) => String::from_str("Up"),
        MouseKind::Drag(_) => String::from_str("Drag"),
        MouseKind::Moved => String::from_str("Moved"),
        MouseKind::ScrollDown => String::from_str("ScrollDown"),
        MouseKind::ScrollUp => String::from_str("ScrollUp"),
        MouseKind::ScrollLeft => String::from_str("ScrollLeft"),
        MouseKind::ScrollRight => String::from_str("ScrollRight"),
    }
}

/// The spelling of a mouse button.
pub open spec fn spec_button_name(k: MouseKind) -> Seq<char> {
    match k {
        MouseKind::Down(MouseButton::Left) => "Left"@,
        MouseKind::Up(MouseButton::Left) => "Left"@,
        MouseKind::Drag(MouseButton::Left) => "Left"@,
        MouseKind::Down(MouseButton::Right) => "Right"@,
        MouseKind::Up(MouseButton::Right) => "Right"@,
        MouseKind::Drag(MouseButton::Right) => "Right"@,
        MouseKind::Down(MouseButton::Middle) => "Middle"@,
        MouseKind::Up(MouseButton::Middle) => "Middle"@,
        MouseKind::Drag(MouseButton::Middle) => "Middle"@,
        _ => ""@,
    }
}

/// Spell the button of a mouse kind for the wire (empty when none).
pub fn button_name(k: &MouseKind) -> (r: String)
    ensures
        r@ == spec_button_name(*k),
{
    match k {
        MouseKind::Down(MouseButton::Left) => String::from_str("Left"),
        MouseKind::Up(MouseButton::Left) => String::from_str("Left"),
        MouseKind::Drag(MouseButton::Left) => String::from_str("Left"),
        MouseKind::Down(MouseButton::Right) => String::from_str("Right"),
        MouseKind::Up(MouseButton::Right) => String::from_str("Right"),
        MouseKind::Drag(MouseButton::Right) => String::from_str("Right"),
        MouseKind::Down(MouseButton::Middle) => String::from_str("Middle"),
        MouseKind::Up(MouseButton::Middle) => String::from_str("Middle"),
        MouseKind::Drag(MouseButton::Middle) => String::from_str("Middle"),
        _ => String::from_str(""),
    }
}

} // verus!
