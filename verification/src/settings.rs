//! The settings store exposed to the guest: typed fields for key
//! bindings (names starting with `key_`) and color styles (names
//! starting with `color_`), plus an open-ended custom key/value store
//! of dynamically-typed values.  Writing the absent value to a custom
//! key removes it; every stored value reads back with the type and
//! content it was written with.

use vstd::prelude::*;

use crate::alist::{
    del_pair, distinct_keys, has_key, key_idx, lookup_pair, pairs_view, set_pair, spec_del,
    spec_set,
};
use crate::keys::{
    kind_name, key_code_name, parse_key_code, parse_kind, spec_parse_key_code, spec_parse_kind,
    KeyEvent, KeyCode, KeyKind,
};
use crate::style::{color_scalar, parse_color, spec_parse_color, ColorVal, StyleVal};
use crate::wire::{Scalar, WireArg};

verus! {

/// A plain press of a key code, as spec value.
pub open spec fn spec_plain_key(code: KeyCode) -> KeyEvent {
    KeyEvent { code, modifiers: 0u8, kind: KeyKind::Press, state: 0u8 }
}

/// A dynamically-typed settings value.  Floats are carried by their
/// decimal spelling and never interpreted by the host.
#[derive(Debug, Clone, PartialEq, Eq)]
pub enum SettingsValue {
    Str(String),
    Int(i64),
    Float(String),
    Bool(bool),
    Style(StyleVal),
    Key(KeyEvent),
}

/// What a wire argument denotes as a settings value.
#[derive(Debug, Clone, PartialEq, Eq)]
pub enum ParsedValue {
    /// Not an acceptable value.
    Invalid,
    /// The absent value: removes the key it is written to.
    Absent,
    /// A proper value.
    Val(SettingsValue),
}

/// First value stored under `name` in a pair list, if any.
pub open spec fn spec_pair_lookup(s: Seq<(String, Scalar)>, name: Seq<char>) -> Option<Scalar>
    decreases s.len(),
{
    if s.len() == 0 {
        None
    } else if s[0].0@ == name {
        Some(s[0].1)
    } else {
        spec_pair_lookup(s.subrange(1, s.len() as int), name)
    }
}

/// Look a name up among decoded table pairs.
fn pair_lookup<'a>(pairs: &'a Vec<(String, Scalar)>, name: &str) -> (r: Option<&'a Scalar>)
    ensures
        match r {
            Some(s) => spec_pair_lookup(pairs@, name@) == Some(*s),
            None => spec_pair_lookup(pairs@, name@) is None,
        },
{
    let n = pairs.len();
    proof {
        assert(pairs@.subrange(0, n as int) =~= pairs@);
    }
    let mut i: usize = 0;
    while i < n
        invariant
            n == pairs@.len(),
            i <= n,
            spec_pair_lookup(pairs@, name@) == spec_pair_lookup(
                pairs@.subrange(i as int, n as int),
                name@,
            ),
        decreases n - i,
    {
        let ghost tail = pairs@.subrange(i as int, n as int);
        assert(tail[0] == pairs@[i as int]);
        if crate::text::str_eq(pairs[i].0.as_str(), name) {
            return Some(&pairs[i].1);
        }
        proof {
            assert(tail.subrange(1, tail.len() as int) =~= pairs@.subrange(
                i + 1,
                n as int,
            ));
        }
        i = i + 1;
    }
    proof {
        assert(pairs@.subrange(n as int, n as int) =~= Seq::<(String, Scalar)>::empty());
    }
    None
}

/// The key binding denoted by a table: a required `code` spelling, with
/// optional `modifiers`, `kind` and `state` (defaults 0, Press, 0).
pub open spec fn spec_key_from_pairs(s: Seq<(String, Scalar)>) -> Option<KeyEvent> {
    let code = match spec_pair_lookup(s, "code"@) {
        Some(Scalar::Str(cs)) => spec_parse_key_code(cs),
        _ => None,
    };
    let modifiers: Option<u8> = match spec_pair_lookup(s, "modifiers"@) {
        None => Some(0u8),
        Some(Scalar::Int(n)) => if 0 <= n <= 255 {
            Some(n as u8)
        } else {
            None
        },
        Some(_) => None,
    };
    let kind = match spec_pair_lookup(s, "kind"@) {
        None => Some(KeyKind::Press),
        Some(Scalar::Str(ks)) => spec_parse_kind(ks@),
        Some(_) => None,
    };
    let state: Option<u8> = match spec_pair_lookup(s, "state"@) {
        None => Some(0u8),
        Some(Scalar::Int(n)) => if 0 <= n <= 255 {
            Some(n as u8)
        } else {
            None
        },
        Some(_) => None,
    };
    match (code, modifiers, kind, state) {
        (Some(c), Some(m), Some(k), Some(st)) => Some(
            KeyEvent { code: c, modifiers: m, kind: k, state: st },
        ),
        _ => None,
    }
}

/// Parse a key binding from decoded table pairs.
pub fn key_from_pairs(pairs: &Vec<(String, Scalar)>) -> (r: Option<KeyEvent>)
    ensures
        r == spec_key_from_pairs(pairs@),
{
    let code = match pair_lookup(pairs, "code") {
        Some(Scalar::Str(cs)) => parse_key_code(cs),
        _ => None,
    };
    let modifiers: Option<u8> = match pair_lookup(pairs, "modifiers") {
        None => Some(0u8),
        Some(Scalar::Int(n)) => {
            if 0 <= *n && *n <= 255 {
                Some(*n as u8)
            } else {
                None
            }
        },
        Some(_) => None,
    };
    let kind = match pair_lookup(pairs, "kind") {
        None => Some(KeyKind::Press),
        Some(Scalar::Str(ks)) => parse_kind(ks.as_str()),
        Some(_) => None,
    };
    let state: Option<u8> = match pair_lookup(pairs, "state") {
        None => Some(0u8),
        Some(Scalar::Int(n)) => {
            if 0 <= *n && *n <= 255 {
                Some(*n as u8)
            } else {
                None
            }
        },
        Some(_) => None,
    };
    match (code, modifiers, kind, state) {
        (Some(c), Some(m), Some(k), Some(st)) => Some(
            KeyEvent { code: c, modifiers: m, kind: k, state: st },
        ),
        _ => None,
    }
}

/// The style denoted by a table: optional `fg` and `bg` colors, each a
/// spelling, a palette index, or nil for unset.
pub open spec fn spec_style_side(v: Option<Scalar>) -> Option<Option<ColorVal>> {
    match v {
        None => Some(None),
        Some(Scalar::Nil) => Some(None),
        Some(s) => match spec_parse_color(s) {
            Some(c) => Some(Some(c)),
            None => None,
        },
    }
}

/// The style denoted by a table of pairs; at least one of `fg`, `bg`
/// must be present.
pub open spec fn spec_style_from_pairs(s: Seq<(String, Scalar)>) -> Option<StyleVal> {
    if spec_pair_lookup(s, "fg"@) is None && spec_pair_lookup(s, "bg"@) is None {
        None
    } else {
        match (
            spec_style_side(spec_pair_lookup(s, "fg"@)),
            spec_style_side(spec_pair_lookup(s, "bg"@)),
        ) {
            (Some(fg), Some(bg)) => Some(StyleVal { fg, bg }),
            _ => None,
        }
    }
}

/// Parse one side of a style.
fn style_side(v: Option<&Scalar>) -> (r: Option<Option<ColorVal>>)
    ensures
        r == spec_style_side(
            match v {
                Some(s) => Some(*s),
                None => None,
            },
        ),
{
    match v {
        None => Some(None),
        Some(Scalar::Nil) => Some(None),
        Some(s) => match parse_color(s) {
            Some(c) => Some(Some(c)),
            None => None,
        },
    }
}

/// Parse a style from decoded table pairs.
pub fn style_from_pairs(pairs: &Vec<(String, Scalar)>) -> (r: Option<StyleVal>)
    ensures
        r == spec_style_from_pairs(pairs@),
{
    let fg_raw = pair_lookup(pairs, "fg");
    let bg_raw = pair_lookup(pairs, "bg");
    if fg_raw.is_none() && bg_raw.is_none() {
        return None;
    }
    let fg = style_side(fg_raw);
    let bg = style_side(bg_raw);
    match (fg, bg) {
        (Some(fg), Some(bg)) => Some(StyleVal { fg, bg }),
        _ => None,
    }
}

/// The settings value denoted by a wire argument: scalars map to their
/// type, nil is the absent value, and a table is a key binding when it
/// carries `code`, a style otherwise.
pub open spec fn spec_value_from_arg(a: crate::wire::ArgModel) -> ParsedValue {
    match a {
        crate::wire::ArgModel::One(s) => match s {
            Scalar::Nil => ParsedValue::Absent,
            Scalar::Bool(b) => ParsedValue::Val(SettingsValue::Bool(b)),
            Scalar::Int(n) => ParsedValue::Val(SettingsValue::Int(n)),
            Scalar::Float(p) => ParsedValue::Val(SettingsValue::Float(p)),
            Scalar::Str(p) => ParsedValue::Val(SettingsValue::Str(p)),
            Scalar::Other => ParsedValue::Invalid,
        },
        crate::wire::ArgModel::Table(pairs) => {
            if spec_pair_lookup(pairs, "code"@) is Some {
                match spec_key_from_pairs(pairs) {
                    Some(k) => ParsedValue::Val(SettingsValue::Key(k)),
                    None => ParsedValue::Invalid,
                }
            } else {
                match spec_style_from_pairs(pairs) {
                    Some(st) => ParsedValue::Val(SettingsValue::Style(st)),
                    None => ParsedValue::Invalid,
                }
            }
        },
    }
}

/// Decode a settings value from a wire argument.
pub fn value_from_arg(a: &WireArg) -> (r: ParsedValue)
    ensures
        r == spec_value_from_arg(a@),
{
    match a {
        WireArg::One(s) => match s {
            Scalar::Nil => ParsedValue::Absent,
            Scalar::Bool(b) => ParsedValue::Val(SettingsValue::Bool(*b)),
            Scalar::Int(n) => ParsedValue::Val(SettingsValue::Int(*n)),
            Scalar::Float(p) => ParsedValue::Val(SettingsValue::Float(p.clone())),
            Scalar::Str(p) => ParsedValue::Val(SettingsValue::Str(p.clone())),
            Scalar::Other => ParsedValue::Invalid,
        },
        WireArg::Table(pairs) => {
            if pair_lookup(pairs, "code").is_some() {
                match key_from_pairs(pairs) {
                    Some(k) => ParsedValue::Val(SettingsValue::Key(k)),
                    None => ParsedValue::Invalid,
                }
            } else {
                match style_from_pairs(pairs) {
                    Some(st) => ParsedValue::Val(SettingsValue::Style(st)),
                    None => ParsedValue::Invalid,
                }
            }
        },
    }
}

/// Do the pairs read back as exactly this key binding?
pub open spec fn key_pairs_ok(k: KeyEvent, p: Seq<(String, Scalar)>) -> bool {
    p.len() == 4 && p[0].0@ == "code"@ && (p[0].1 matches Scalar::Str(s) && s@
        == crate::keys::spec_key_code_name(k.code)) && p[1].0@ == "modifiers"@ && p[1].1
        == Scalar::Int(k.modifiers as i64) && p[2].0@ == "kind"@ && (p[2].1 matches Scalar::Str(
        s,
    ) && s@ == crate::keys::spec_kind_name(k.kind)) && p[3].0@ == "state"@ && p[3].1
        == Scalar::Int(k.state as i64)
}

/// Do the pairs read back as exactly this style?  Unset sides are
/// omitted.
pub open spec fn style_pairs_ok(st: StyleVal, p: Seq<(String, Scalar)>) -> bool {
    match (st.fg, st.bg) {
        (Some(f), Some(b)) => p.len() == 2 && p[0].0@ == "fg"@ && crate::style::scalar_is_color(
            p[0].1,
            f,
        ) && p[1].0@ == "bg"@ && crate::style::scalar_is_color(p[1].1, b),
        (Some(f), None) => p.len() == 1 && p[0].0@ == "fg"@ && crate::style::scalar_is_color(
            p[0].1,
            f,
        ),
        (None, Some(b)) => p.len() == 1 && p[0].0@ == "bg"@ && crate::style::scalar_is_color(
            p[0].1,
            b,
        ),
        (None, None) => p.len() == 0,
    }
}

/// The reply under which a stored settings value reads back: scalars
/// as themselves, styles and key bindings as their exact tables.
pub open spec fn reply_encodes_value(v: SettingsValue, r: crate::wire::Reply) -> bool {
    match v {
        SettingsValue::Str(s) => r == crate::wire::Reply::RScalar(Scalar::Str(s)),
        SettingsValue::Int(n) => r == crate::wire::Reply::RScalar(Scalar::Int(n)),
        SettingsValue::Float(p) => r == crate::wire::Reply::RScalar(Scalar::Float(p)),
        SettingsValue::Bool(b) => r == crate::wire::Reply::RScalar(Scalar::Bool(b)),
        SettingsValue::Style(st) => r matches crate::wire::Reply::RTable(p) && style_pairs_ok(
            st,
            p@,
        ),
        SettingsValue::Key(k) => r matches crate::wire::Reply::RTable(p) && key_pairs_ok(k, p@),
    }
}

/// Encode a key binding as reply table pairs.
pub fn key_pairs(k: &KeyEvent) -> (r: Vec<(String, Scalar)>)
    ensures
        key_pairs_ok(*k, r@),
{
    let mut r: Vec<(String, Scalar)> = Vec::new();
    r.push((String::from_str("code"), Scalar::Str(key_code_name(&k.code))));
    r.push((String::from_str("modifiers"), Scalar::Int(k.modifiers as i64)));
    r.push((String::from_str("kind"), Scalar::Str(kind_name(&k.kind))));
    r.push((String::from_str("state"), Scalar::Int(k.state as i64)));
    r
}

/// Encode a style as reply table pairs; unset sides are omitted and so
/// read back as unset.
pub fn style_pairs(st: &StyleVal) -> (r: Vec<(String, Scalar)>)
    ensures
        style_pairs_ok(*st, r@),
{
    let mut r: Vec<(String, Scalar)> = Vec::new();
    match &st.fg {
        Some(c) => {
            r.push((String::from_str("fg"), color_scalar(c)));
        },
        None => {},
    }
    match &st.bg {
        Some(c) => {
            r.push((String::from_str("bg"), color_scalar(c)));
        },
        None => {},
    }
    r
}

/// Writing a custom value and reading it back yields exactly the
/// value written; writing the absent value removes the key, and a
/// removed key reads back as not found.
pub proof fn lemma_custom_write_read(
    s: Seq<(Seq<char>, SettingsValue)>,
    key: Seq<char>,
    v: SettingsValue,
)
    requires
        distinct_keys(s),
    ensures
        has_key(spec_set(s, key, v), key),
        spec_set(s, key, v)[crate::alist::key_idx(spec_set(s, key, v), key)].1 == v,
        !has_key(spec_del(s, key), key),
{
    crate::alist::lemma_set_then_get(s, key, v);
    crate::alist::lemma_del_clears(s, key);
}

/// The settings store.
#[derive(Debug)]
pub struct Settings {
    custom: Vec<(String, SettingsValue)>,
    colors: Vec<(String, StyleVal)>,
    keys: Vec<(String, KeyEvent)>,
}

impl Settings {
    /// The custom store as an association list.
    pub closed spec fn customs(&self) -> Seq<(Seq<char>, SettingsValue)> {
        pairs_view(self.custom)
    }

    /// The color styles as an association list.
    pub closed spec fn color_styles(&self) -> Seq<(Seq<char>, StyleVal)> {
        pairs_view(self.colors)
    }

    /// The key bindings as an association list.
    pub closed spec fn key_binds(&self) -> Seq<(Seq<char>, KeyEvent)> {
        pairs_view(self.keys)
    }

    /// Keys are unique in every store.
    pub open spec fn wf(&self) -> bool {
        distinct_keys(self.customs()) && distinct_keys(self.color_styles()) && distinct_keys(
            self.key_binds(),
        )
    }

    /// A fresh store: no custom values, no colors, and the default
    /// arrow/confirm key bindings, in that order.
    pub fn new() -> (r: Settings)
        ensures
            r.wf(),
            r.customs() == Seq::<(Seq<char>, SettingsValue)>::empty(),
            r.color_styles() == Seq::<(Seq<char>, StyleVal)>::empty(),
            r.key_binds() == seq![
                ("key_up"@, spec_plain_key(KeyCode::Up)),
                ("key_down"@, spec_plain_key(KeyCode::Down)),
                ("key_left"@, spec_plain_key(KeyCode::Left)),
                ("key_right"@, spec_plain_key(KeyCode::Right)),
                ("key_confirm"@, spec_plain_key(KeyCode::Enter)),
            ],
    {
        let mut keys: Vec<(String, KeyEvent)> = Vec::new();
        proof {
            assert(pairs_view(keys) =~= Seq::<(Seq<char>, KeyEvent)>::empty());
        }
        let k_up = KeyEvent::plain(KeyCode::Up);
        let k_down = KeyEvent::plain(KeyCode::Down);
        let k_left = KeyEvent::plain(KeyCode::Left);
        let k_right = KeyEvent::plain(KeyCode::Right);
        let k_confirm = KeyEvent::plain(KeyCode::Enter);
        let ghost gk_up = k_up;
        let ghost gk_down = k_down;
        let ghost gk_left = k_left;
        let ghost gk_right = k_right;
        let ghost gk_confirm = k_confirm;
        let ghost g0 = pairs_view(keys);
        set_pair(&mut keys, String::from_str("key_up"), k_up);
        let ghost g1 = pairs_view(keys);
        set_pair(&mut keys, String::from_str("key_down"), k_down);
        let ghost g2 = pairs_view(keys);
        set_pair(&mut keys, String::from_str("key_left"), k_left);
        let ghost g3 = pairs_view(keys);
        set_pair(&mut keys, String::from_str("key_right"), k_right);
        let ghost g4 = pairs_view(keys);
        set_pair(&mut keys, String::from_str("key_confirm"), k_confirm);
        proof {
            reveal_strlit("key_up");
            reveal_strlit("key_down");
            reveal_strlit("key_left");
            reveal_strlit("key_right");
            reveal_strlit("key_confirm");
            assert("key_up"@.len() == 6);
            assert("key_down"@.len() == 8);
            assert("key_left"@.len() == 8);
            assert("key_right"@.len() == 9);
            assert("key_confirm"@.len() == 11);
            assert("key_down"@[4] != "key_left"@[4]);
            crate::alist::lemma_set_has(g0, "key_up"@, gk_up);
            crate::alist::lemma_set_has(g1, "key_down"@, gk_down);
            crate::alist::lemma_set_has(g2, "key_left"@, gk_left);
            crate::alist::lemma_set_has(g3, "key_right"@, gk_right);
            crate::alist::lemma_set_has(g4, "key_confirm"@, gk_confirm);
            assert(!has_key(g0, "key_up"@));
            assert(!has_key(g1, "key_down"@));
            assert(!has_key(g2, "key_left"@));
            assert(!has_key(g3, "key_right"@));
            assert(!has_key(g4, "key_confirm"@));
            assert(pairs_view(keys) =~= seq![
                ("key_up"@, gk_up),
                ("key_down"@, gk_down),
                ("key_left"@, gk_left),
                ("key_right"@, gk_right),
                ("key_confirm"@, gk_confirm),
            ]);
        }
        let r = Settings { custom: Vec::new(), colors: Vec::new(), keys };
        proof {
            assert(r.customs() =~= Seq::<(Seq<char>, SettingsValue)>::empty());
            assert(r.color_styles() =~= Seq::<(Seq<char>, StyleVal)>::empty());
        }
        r
    }

    /// Borrow the custom value stored under `key`, if any.
    pub fn get_custom(&self, key: &str) -> (r: Option<&SettingsValue>)
        requires
            self.wf(),
        ensures
            r matches Some(v) ==> has_key(self.customs(), key@) && *v == self.customs()[key_idx(
                self.customs(),
                key@,
            )].1,
            r is None ==> !has_key(self.customs(), key@),
    {
        lookup_pair(&self.custom, key)
    }

    /// Store a custom value under `key`: update in place or append.
    pub fn set_custom(&mut self, key: String, v: SettingsValue)
        requires
            old(self).wf(),
        ensures
            final(self).wf(),
            final(self).customs() == spec_set(old(self).customs(), key@, v),
            final(self).color_styles() == old(self).color_styles(),
            final(self).key_binds() == old(self).key_binds(),
    {
        set_pair(&mut self.custom, key, v);
    }

    /// Remove the custom value stored under `key`, if any.
    pub fn remove_custom(&mut self, key: &str)
        requires
            old(self).wf(),
        ensures
            final(self).wf(),
            final(self).customs() == spec_del(old(self).customs(), key@),
            final(self).color_styles() == old(self).color_styles(),
            final(self).key_binds() == old(self).key_binds(),
    {
        del_pair(&mut self.custom, key);
    }

    /// Borrow the style stored under `name`, if any.
    pub fn get_color(&self, name: &str) -> (r: Option<&StyleVal>)
        requires
            self.wf(),
        ensures
            r matches Some(v) ==> has_key(self.color_styles(), name@) && *v == self.color_styles()[
                key_idx(self.color_styles(), name@)].1,
            r is None ==> !has_key(self.color_styles(), name@),
    {
        lookup_pair(&self.colors, name)
    }

    /// Store a style under `name`.
    pub fn set_color(&mut self, name: String, st: StyleVal)
        requires
            old(self).wf(),
        ensures
            final(self).wf(),
            final(self).color_styles() == spec_set(old(self).color_styles(), name@, st),
            final(self).customs() == old(self).customs(),
            final(self).key_binds() == old(self).key_binds(),
    {
        set_pair(&mut self.colors, name, st);
    }

    /// Borrow the key binding stored under `name`, if any.
    pub fn get_key(&self, name: &str) -> (r: Option<&KeyEvent>)
        requires
            self.wf(),
        ensures
            r matches Some(v) ==> has_key(self.key_binds(), name@) && *v == self.key_binds()[
                key_idx(self.key_binds(), name@)].1,
            r is None ==> !has_key(self.key_binds(), name@),
    {
        lookup_pair(&self.keys, name)
    }

    /// Store a key binding under `name`.
    pub fn set_key(&mut self, name: String, k: KeyEvent)
        requires
            old(self).wf(),
        ensures
            final(self).wf(),
            final(self).key_binds() == spec_set(old(self).key_binds(), name@, k),
            final(self).customs() == old(self).customs(),
            final(self).color_styles() == old(self).color_styles(),
    {
        set_pair(&mut self.keys, name, k);
    }
}

} // verus!
