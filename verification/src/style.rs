//! Host-side model of color styles: a foreground/background pair where
//! each side is unset, a 24-bit RGB literal (spelled `#rrggbb`), a
//! named palette color, or a numeric palette index.

use vstd::prelude::*;

use crate::text::{hex_of, str_eq};
use crate::wire::{spec_scalar_kind, spec_scalar_payload, Scalar};

verus! {

/// The sixteen named palette colors.
#[derive(Debug, Clone, Copy, PartialEq, Eq, Structural)]
pub enum NamedColor {
    Black,
    Red,
    Green,
    Yellow,
    Blue,
    Magenta,
    Cyan,
    Gray,
    DarkGray,
    LightRed,
    LightGreen,
    LightYellow,
    LightBlue,
    LightMagenta,
    LightCyan,
    White,
}

/// One side of a style.
#[derive(Debug, Clone, Copy, PartialEq, Eq, Structural)]
pub enum ColorVal {
    Rgb(u8, u8, u8),
    Named(NamedColor),
    Indexed(u8),
}

/// A foreground/background pair; unset sides stay unset.
#[derive(Debug, Clone, Copy, PartialEq, Eq, Structural)]
pub struct StyleVal {
    pub fg: Option<ColorVal>,
    pub bg: Option<ColorVal>,
}

/// The spelling of a named color.
pub open spec fn spec_named_color_name(c: NamedColor) -> Seq<char> {
    match c {
        NamedColor::Black => "Black"@,
        NamedColor::Red => "Red"@,
        NamedColor::Green => "Green"@,
        NamedColor::Yellow => "Yellow"@,
        NamedColor::Blue => "Blue"@,
        NamedColor::Magenta => "Magenta"@,
        NamedColor::Cyan => "Cyan"@,
        NamedColor::Gray => "Gray"@,
        NamedColor::DarkGray => "DarkGray"@,
        NamedColor::LightRed => "LightRed"@,
        NamedColor::LightGreen => "LightGreen"@,
        NamedColor::LightYellow => "LightYellow"@,
        NamedColor::LightBlue => "LightBlue"@,
        NamedColor::LightMagenta => "LightMagenta"@,
        NamedColor::LightCyan => "LightCyan"@,
        NamedColor::White => "White"@,
    }
}

/// Spell a named color.
pub fn named_color_name(c: &NamedColor) -> (r: String)
    ensures
        r@ == spec_named_color_name(*c),
{
    match c {
        NamedColor::Black => String::from_str("Black"),
        NamedColor::Red => String::from_str("Red"),
        NamedColor::Green => String::from_str("Green"),
        NamedColor::Yellow => String::from_str("Yellow"),
        NamedColor::Blue => String::from_str("Blue"),
        NamedColor::Magenta => String::from_str("Magenta"),
        NamedColor::Cyan => String::from_str("Cyan"),
        NamedColor::Gray => String::from_str("Gray"),
        NamedColor::DarkGray => String::from_str("DarkGray"),
        NamedColor::LightRed => String::from_str("LightRed"),
        NamedColor::LightGreen => String::from_str("LightGreen"),
        NamedColor::LightYellow => String::from_str("LightYellow"),
        NamedColor::LightBlue => String::from_str("LightBlue"),
        NamedColor::LightMagenta => String::from_str("LightMagenta"),
        NamedColor::LightCyan => String::from_str("LightCyan"),
        NamedColor::White => String::from_str("White"),
    }
}

/// The named color a spelling denotes.
pub open spec fn spec_parse_named_color(s: Seq<char>) -> Option<NamedColor> {
    if s == "Black"@ { Some(NamedColor::Black) }
    else if s == "Red"@ { Some(NamedColor::Red) }
    else if s == "Green"@ { Some(NamedColor::Green) }
    else if s == "Yellow"@ { Some(NamedColor::Yellow) }
    else if s == "Blue"@ { Some(NamedColor::Blue) }
    else if s == "Magenta"@ { Some(NamedColor::Magenta) }
    else if s == "Cyan"@ { Some(NamedColor::Cyan) }
    else if s == "Gray"@ { Some(NamedColor::Gray) }
    else if s == "DarkGray"@ { Some(NamedColor::DarkGray) }
    else if s == "LightRed"@ { Some(NamedColor::LightRed) }
    else if s == "LightGreen"@ { Some(NamedColor::LightGreen) }
    else if s == "LightYellow"@ { Some(NamedColor::LightYellow) }
    else if s == "LightBlue"@ { Some(NamedColor::LightBlue) }
    else if s == "LightMagenta"@ { Some(NamedColor::LightMagenta) }
    else if s == "LightCyan"@ { Some(NamedColor::LightCyan) }
    else if s == "White"@ { Some(NamedColor::White) }
    else { None }
}

/// Parse a named color.
pub fn parse_named_color(s: &str) -> (r: Option<NamedColor>)
    ensures
        r == spec_parse_named_color(s@),
{
    if str_eq(s, "Black") { return Some(NamedColor::Black); }
    if str_eq(s, "Red") { return Some(NamedColor::Red); }
    if str_eq(s, "Green") { return Some(NamedColor::Green); }
    if str_eq(s, "Yellow") { return Some(NamedColor::Yellow); }
    if str_eq(s, "Blue") { return Some(NamedColor::Blue); }
    if str_eq(s, "Magenta") { return Some(NamedColor::Magenta); }
    if str_eq(s, "Cyan") { return Some(NamedColor::Cyan); }
    if str_eq(s, "Gray") { return Some(NamedColor::Gray); }
    if str_eq(s, "DarkGray") { return Some(NamedColor::DarkGray); }
    if str_eq(s, "LightRed") { return Some(NamedColor::LightRed); }
    if str_eq(s, "LightGreen") { return Some(NamedColor::LightGreen); }
    if str_eq(s, "LightYellow") { return Some(NamedColor::LightYellow); }
    if str_eq(s, "LightBlue") { return Some(NamedColor::LightBlue); }
    if str_eq(s, "LightMagenta") { return Some(NamedColor::LightMagenta); }
    if str_eq(s, "LightCyan") { return Some(NamedColor::LightCyan); }
    if str_eq(s, "White") { return Some(NamedColor::White); }
    None
}

/// Is `c` a hexadecimal digit?
pub open spec fn is_hex_digit(c: char) -> bool {
    ('0' <= c && c <= '9') || ('a' <= c && c <= 'f') || ('A' <= c && c <= 'F')
}

/// Numeric value of a hexadecimal digit.
pub open spec fn hex_digit_val(c: char) -> nat {
    if '0' <= c && c <= '9' {
        (c as int - '0' as int) as nat
    } else if 'a' <= c && c <= 'f' {
        (c as int - 'a' as int + 10) as nat
    } else {
        (c as int - 'A' as int + 10) as nat
    }
}

/// Read one hexadecimal digit.
fn hex_digit(c: char) -> (r: Option<u8>)
    ensures
        r matches Some(v) ==> is_hex_digit(c) && v as nat == hex_digit_val(c),
        r is None ==> !is_hex_digit(c),
{
    if '0' <= c && c <= '9' {
        Some(((c as u32) - ('0' as u32)) as u8)
    } else if 'a' <= c && c <= 'f' {
        Some(((c as u32) - ('a' as u32) + 10) as u8)
    } else if 'A' <= c && c <= 'F' {
        Some(((c as u32) - ('A' as u32) + 10) as u8)
    } else {
        None
    }
}

/// The color denoted by a `#rrggbb` or named spelling.
pub open spec fn spec_parse_color_str(s: Seq<char>) -> Option<ColorVal> {
    if s.len() == 7 && s[0] == '#' && is_hex_digit(s[1]) && is_hex_digit(s[2]) && is_hex_digit(
        s[3],
    ) && is_hex_digit(s[4]) && is_hex_digit(s[5]) && is_hex_digit(s[6]) {
        Some(
            ColorVal::Rgb(
                (hex_digit_val(s[1]) * 16 + hex_digit_val(s[2])) as u8,
                (hex_digit_val(s[3]) * 16 + hex_digit_val(s[4])) as u8,
                (hex_digit_val(s[5]) * 16 + hex_digit_val(s[6])) as u8,
            ),
        )
    } else if s.len() > 0 && s[0] == '#' {
        None
    } else {
        match spec_parse_named_color(s) {
            Some(c) => Some(ColorVal::Named(c)),
            None => None,
        }
    }
}

/// Parse a color spelled as a string.
pub fn parse_color_str(s: &str) -> (r: Option<ColorVal>)
    ensures
        r == spec_parse_color_str(s@),
{
    let len = s.unicode_len();
    if len > 0 && s.get_char(0) == '#' {
        if len != 7 {
            return None;
        }
        let d1 = hex_digit(s.get_char(1));
        let d2 = hex_digit(s.get_char(2));
        let d3 = hex_digit(s.get_char(3));
        let d4 = hex_digit(s.get_char(4));
        let d5 = hex_digit(s.get_char(5));
        let d6 = hex_digit(s.get_char(6));
        match (d1, d2, d3, d4, d5, d6) {
            (Some(a), Some(b), Some(c), Some(d), Some(e), Some(f)) => Some(
                ColorVal::Rgb(a * 16 + b, c * 16 + d, e * 16 + f),
            ),
            _ => None,
        }
    } else {
        match parse_named_color(s) {
            Some(c) => Some(ColorVal::Named(c)),
            None => None,
        }
    }
}

/// The color denoted by a wire scalar: a string spelling, or a palette
/// index between 0 and 255.
pub open spec fn spec_parse_color(s: Scalar) -> Option<ColorVal> {
    match s {
        Scalar::Str(t) => spec_parse_color_str(t@),
        Scalar::Int(n) => if 0 <= n <= 255 {
            Some(ColorVal::Indexed(n as u8))
        } else {
            None
        },
        _ => None,
    }
}

/// Parse a color from a wire scalar.
pub fn parse_color(s: &Scalar) -> (r: Option<ColorVal>)
    ensures
        r == spec_parse_color(*s),
{
    match s {
        Scalar::Str(t) => parse_color_str(t.as_str()),
        Scalar::Int(n) => {
            if 0 <= *n && *n <= 255 {
                Some(ColorVal::Indexed(*n as u8))
            } else {
                None
            }
        },
        _ => None,
    }
}

/// The wire scalar under which a color reads back: RGB literals as
/// their `#rrggbb` spelling, named colors as their name, palette
/// indexes as integers.
pub open spec fn spec_color_scalar_view(c: ColorVal) -> (Seq<char>, Seq<char>) {
    match c {
        ColorVal::Rgb(r, g, b) => ("s"@, seq!['#'] + hex_of(seq![r, g, b])),
        ColorVal::Named(n) => ("s"@, spec_named_color_name(n)),
        ColorVal::Indexed(n) => ("i"@, crate::text::dec_digits(n as nat)),
    }
}

/// Does the scalar read back as exactly this color?
pub open spec fn scalar_is_color(s: Scalar, c: ColorVal) -> bool {
    spec_scalar_kind(s) == spec_color_scalar_view(c).0 && spec_scalar_payload(s)
        == spec_color_scalar_view(c).1
}

/// Encode a color as a wire scalar.
pub fn color_scalar(c: &ColorVal) -> (r: Scalar)
    ensures
        spec_scalar_kind(r) == spec_color_scalar_view(*c).0,
        spec_scalar_payload(r) == spec_color_scalar_view(*c).1,
{
    match c {
        ColorVal::Rgb(r, g, b) => {
            let mut v: Vec<u8> = Vec::new();
            v.push(*r);
            v.push(*g);
            v.push(*b);
            let hex = crate::text::bytes_to_hex(&v);
            let out = String::from_str("#").concat(hex.as_str());
            proof {
                reveal_strlit("#");
                assert(v@ =~= seq![*r, *g, *b]);
                assert(out@ =~= seq!['#'] + hex_of(seq![*r, *g, *b]));
            }
            Scalar::Str(out)
        },
        ColorVal::Named(n) => Scalar::Str(named_color_name(n)),
        ColorVal::Indexed(n) => Scalar::Int(*n as i64),
    }
}

} // verus!
