//! The host state a scoped context exposes to one guest call, and the
//! capability bridge: the handler that answers each capability request
//! a guest makes through the wire protocol.  Partial mutations are
//! direct and immediate; nothing is rolled back when a later step of
//! the same call fails.

use vstd::prelude::*;
use vstd::slice::SliceAdditionalExecFns;

use crate::alist::{has_key, spec_del, spec_set};
use crate::header::HeaderView;
use crate::log::{spec_level_from_int, LogEntry, Logger};
use crate::settings::{
    key_pairs, style_pairs, spec_value_from_arg, ParsedValue, Settings, SettingsValue,
    value_from_arg,
};
use crate::text::{fmt_i64, fmt_u64, has_prefix};
use crate::wire::{spec_scalar_payload, ArgModel, Reply, Scalar, WireArg};

verus! {

/// The host resources one guest call may touch: the byte buffer, the
/// cursor offset, the settings store, the log sink and the header
/// projection.  The command registry is checked out separately by the
/// dispatch that owns the call.
#[derive(Debug)]
pub struct HostState {
    pub data: Vec<u8>,
    pub offset: usize,
    pub settings: Settings,
    pub logger: Logger,
    pub header: HeaderView,
}

impl HostState {
    /// Settings keys unique; buffer and offset small enough to hand to
    /// the guest as integers.
    pub open spec fn wf(&self) -> bool {
        self.settings.wf() && self.data@.len() <= i64::MAX && self.offset <= i64::MAX
    }

    /// Fresh state over a buffer: default settings, an empty log, and
    /// the header detected from the buffer itself.
    pub fn new(data: Vec<u8>) -> (r: HostState)
        requires
            data@.len() <= i64::MAX,
        ensures
            r.wf(),
            r.data@ == data@,
            r.offset == 0,
            r.logger.log() == Seq::<LogEntry>::empty(),
            r.settings.customs() == Seq::<(Seq<char>, SettingsValue)>::empty(),
            r.settings.color_styles() == Seq::<(Seq<char>, crate::style::StyleVal)>::empty(),
            r.settings.key_binds() == seq![
                ("key_up"@, crate::settings::spec_plain_key(crate::keys::KeyCode::Up)),
                ("key_down"@, crate::settings::spec_plain_key(crate::keys::KeyCode::Down)),
                ("key_left"@, crate::settings::spec_plain_key(crate::keys::KeyCode::Left)),
                ("key_right"@, crate::settings::spec_plain_key(crate::keys::KeyCode::Right)),
                ("key_confirm"@, crate::settings::spec_plain_key(crate::keys::KeyCode::Enter)),
            ],
            r.header == crate::header::spec_header_view(crate::header::spec_parse_header(data@)),
            crate::header::spec_parse_header(data@) is None ==> r.header == (HeaderView {
                bitness: 64u32,
                architecture: crate::header::Arch::Unknown,
                entry_point: 0u64,
            }),
    {
        let header = HeaderView::from_bytes(data.as_slice());
        HostState {
            data,
            offset: 0,
            settings: Settings::new(),
            logger: Logger::new(),
            header,
        }
    }
}

/// The text under which a scalar is logged.
fn scalar_text(s: &Scalar) -> (r: String)
    ensures
        r@ == spec_scalar_payload(*s),
{
    match s {
        Scalar::Nil => String::from_str(""),
        Scalar::Bool(b) => {
            if *b {
                String::from_str("1")
            } else {
                String::from_str("0")
            }
        },
        Scalar::Int(n) => fmt_i64(*n),
        Scalar::Float(p) => p.clone(),
        Scalar::Str(p) => p.clone(),
        Scalar::Other => String::from_str(""),
    }
}

/// The reply under which a stored settings value reads back.
pub fn value_reply(v: &SettingsValue) -> (r: Reply)
    ensures
        crate::settings::reply_encodes_value(*v, r),
{
    match v {
        SettingsValue::Str(s) => Reply::RScalar(Scalar::Str(s.clone())),
        SettingsValue::Int(n) => Reply::RScalar(Scalar::Int(*n)),
        SettingsValue::Float(p) => Reply::RScalar(Scalar::Float(p.clone())),
        SettingsValue::Bool(b) => Reply::RScalar(Scalar::Bool(*b)),
        SettingsValue::Style(st) => Reply::RTable(style_pairs(st)),
        SettingsValue::Key(k) => Reply::RTable(key_pairs(k)),
    }
}

/// The view of a decoded argument list.
pub open spec fn sargs(args: Vec<WireArg>) -> Seq<ArgModel> {
    args@.map_values(|a: WireArg| a@)
}

/// Is argument `i` the integer scalar `n`?
pub open spec fn arg_is_int(args: Vec<WireArg>, i: int, n: i64) -> bool {
    0 <= i < sargs(args).len() && sargs(args)[i] == ArgModel::One(Scalar::Int(n))
}

/// Is argument `i` the string scalar `s`?
pub open spec fn arg_is_str(args: Vec<WireArg>, i: int, s: String) -> bool {
    0 <= i < sargs(args).len() && sargs(args)[i] == ArgModel::One(Scalar::Str(s))
}

/// The integer scalar at argument `i` (0 when it is something else).
pub open spec fn int_arg_at(args: Vec<WireArg>, i: int) -> int {
    match sargs(args)[i] {
        ArgModel::One(Scalar::Int(n)) => n as int,
        _ => 0,
    }
}

/// The view of the string scalar at argument `i` (empty otherwise).
pub open spec fn str_arg_at(args: Vec<WireArg>, i: int) -> Seq<char> {
    match sargs(args)[i] {
        ArgModel::One(Scalar::Str(s)) => s@,
        _ => Seq::empty(),
    }
}

/// The scalar at argument `i` (`Other` when it is a table).
pub open spec fn scalar_arg_at(args: Vec<WireArg>, i: int) -> Scalar {
    match sargs(args)[i] {
        ArgModel::One(x) => x,
        _ => Scalar::Other,
    }
}

/// Answer one capability request against the host state.  The tag
/// names the capability; the arguments were decoded from the wire.
///
/// Every tag leaves the parts of the state it does not govern
/// untouched; the buffer never changes length; `log` never raises.
pub fn handle_request(state: &mut HostState, tag: &String, args: &Vec<WireArg>) -> (r: Reply)
    requires
        old(state).wf(),
    ensures
        final(state).wf(),
        final(state).header == old(state).header,
        final(state).offset == old(state).offset,
        final(state).data@.len() == old(state).data@.len(),
        old(state).logger.log().len() <= final(state).logger.log().len(),
        tag@ != "data_set"@ ==> final(state).data@ == old(state).data@,
        tag@ != "log"@ ==> final(state).logger.log() == old(state).logger.log() && final(state).logger.current() == old(state).logger.current(),
        tag@ != "set_custom"@ ==> final(state).settings.customs() == old(state).settings.customs(),
        tag@ != "set_setting"@ ==> final(state).settings.color_styles() == old(state).settings.color_styles() && final(state).settings.key_binds() == old(state).settings.key_binds(),
        // a well-formed data_get answers exactly the named byte, and
        // raises on an index out of bounds
        tag@ == "data_get"@ && sargs(*args).len() == 1 && (sargs(*args)[0] matches ArgModel::One(
            Scalar::Int(_),
        )) ==> (if 0 <= int_arg_at(*args, 0) < old(state).data@.len() {
            r == Reply::RScalar(Scalar::Int(old(state).data@[int_arg_at(*args, 0)] as i64))
        } else {
            r is RRaise
        }),
        tag@ == "data_len"@ ==> r == Reply::RScalar(
            Scalar::Int(old(state).data@.len() as i64),
        ),
        tag@ == "get_offset"@ ==> r == Reply::RScalar(Scalar::Int(old(state).offset as i64)),
        tag@ == "header_bitness"@ ==> r == Reply::RScalar(
            Scalar::Int(old(state).header.bitness as i64),
        ),
        tag@ == "header_architecture"@ ==> (r matches Reply::RScalar(s) && (s matches Scalar::Str(
            t,
        ) && t@ == crate::header::spec_arch_name(old(state).header.architecture))),
        tag@ == "header_entry_point"@ && old(state).header.entry_point <= i64::MAX ==> r
            == Reply::RScalar(Scalar::Int(old(state).header.entry_point as i64)),
        // a well-formed data_set writes exactly the named byte
        tag@ == "data_set"@ && sargs(*args).len() == 2 && (sargs(*args)[0] matches ArgModel::One(
            Scalar::Int(_),
        )) && (sargs(*args)[1] matches ArgModel::One(Scalar::Int(_))) && 0 <= int_arg_at(*args, 0)
            < old(state).data@.len() && 0 <= int_arg_at(*args, 1) <= 255 ==> final(state).data@
            == old(state).data@.update(int_arg_at(*args, 0), int_arg_at(*args, 1) as u8) && r
            == Reply::RNil,
        // a well-formed log appends one entry and moves the marker
        tag@ == "log"@ && sargs(*args).len() == 2 && (sargs(*args)[0] matches ArgModel::One(
            Scalar::Int(_),
        )) && (sargs(*args)[1] matches ArgModel::One(_)) ==> final(state).logger.log().len()
            == old(state).logger.log().len() + 1 && final(state).logger.log().take(
            old(state).logger.log().len() as int,
        ) =~= old(state).logger.log() && final(state).logger.log().last().level
            == spec_level_from_int(int_arg_at(*args, 0)) && final(state).logger.log().last().message@ == spec_scalar_payload(scalar_arg_at(*args, 1)) && final(state).logger.current() == spec_level_from_int(int_arg_at(*args, 0)),
        tag@ == "log"@ ==> !(r is RRaise),
        // set_custom follows the store's upsert/remove semantics
        tag@ == "set_custom"@ && sargs(*args).len() == 2 && (sargs(*args)[0] matches ArgModel::One(
            Scalar::Str(_),
        )) ==> match spec_value_from_arg(sargs(*args)[1]) {
            ParsedValue::Val(v) => final(state).settings.customs() == spec_set(
                old(state).settings.customs(),
                str_arg_at(*args, 0),
                v,
            ) && r == Reply::RNil,
            ParsedValue::Absent => final(state).settings.customs() == spec_del(
                old(state).settings.customs(),
                str_arg_at(*args, 0),
            ) && r == Reply::RNil,
            ParsedValue::Invalid => final(state).settings.customs() == old(state).settings.customs() && r is RRaise,
        },
        // set_setting writes key bindings under key_ names and styles
        // under color_ names, and rejects everything else untouched
        tag@ == "set_setting"@ && sargs(*args).len() == 2 && (sargs(*args)[0] matches ArgModel::One(
            Scalar::Str(_),
        )) ==> (if crate::text::spec_has_prefix(str_arg_at(*args, 0), "key_"@) {
            match spec_value_from_arg(sargs(*args)[1]) {
                ParsedValue::Val(SettingsValue::Key(k)) => final(state).settings.key_binds()
                    == spec_set(old(state).settings.key_binds(), str_arg_at(*args, 0), k) && final(state).settings.color_styles() == old(state).settings.color_styles() && r
                    == Reply::RNil,
                _ => final(state).settings.key_binds() == old(state).settings.key_binds() && final(state).settings.color_styles() == old(state).settings.color_styles() && r is RRaise,
            }
        } else if crate::text::spec_has_prefix(str_arg_at(*args, 0), "color_"@) {
            match spec_value_from_arg(sargs(*args)[1]) {
                ParsedValue::Val(SettingsValue::Style(st)) => final(state).settings.color_styles()
                    == spec_set(old(state).settings.color_styles(), str_arg_at(*args, 0), st)
                    && final(state).settings.key_binds() == old(state).settings.key_binds() && r
                    == Reply::RNil,
                _ => final(state).settings.key_binds() == old(state).settings.key_binds() && final(state).settings.color_styles() == old(state).settings.color_styles() && r is RRaise,
            }
        } else {
            final(state).settings.key_binds() == old(state).settings.key_binds() && final(state).settings.color_styles() == old(state).settings.color_styles() && r is RRaise
        }),
        // get_setting answers nil exactly when nothing is stored under
        // the name's prefix
        tag@ == "get_setting"@ && sargs(*args).len() == 1 && (sargs(*args)[0] matches ArgModel::One(
            Scalar::Str(_),
        )) ==> (if crate::text::spec_has_prefix(str_arg_at(*args, 0), "key_"@) {
            (r == Reply::RNil <==> !has_key(
                old(state).settings.key_binds(),
                str_arg_at(*args, 0),
            )) && (has_key(old(state).settings.key_binds(), str_arg_at(*args, 0)) ==> (r matches
            Reply::RTable(p) && crate::settings::key_pairs_ok(
                old(state).settings.key_binds()[crate::alist::key_idx(
                    old(state).settings.key_binds(),
                    str_arg_at(*args, 0),
                )].1,
                p@,
            )))
        } else if crate::text::spec_has_prefix(str_arg_at(*args, 0), "color_"@) {
            (r == Reply::RNil <==> !has_key(
                old(state).settings.color_styles(),
                str_arg_at(*args, 0),
            )) && (has_key(old(state).settings.color_styles(), str_arg_at(*args, 0)) ==> (r
            matches Reply::RTable(p) && crate::settings::style_pairs_ok(
                old(state).settings.color_styles()[crate::alist::key_idx(
                    old(state).settings.color_styles(),
                    str_arg_at(*args, 0),
                )].1,
                p@,
            )))
        } else {
            r == Reply::RNil
        }),
        // get_custom answers nil exactly when the key is absent, and
        // otherwise the stored value, exactly as it was written
        tag@ == "get_custom"@ && sargs(*args).len() == 1 && (sargs(*args)[0] matches ArgModel::One(
            Scalar::Str(_),
        )) ==> (r == Reply::RNil <==> !has_key(
            old(state).settings.customs(),
            str_arg_at(*args, 0),
        )),
        tag@ == "get_custom"@ && sargs(*args).len() == 1 && (sargs(*args)[0] matches ArgModel::One(
            Scalar::Str(_),
        )) && has_key(old(state).settings.customs(), str_arg_at(*args, 0))
            ==> crate::settings::reply_encodes_value(
            old(state).settings.customs()[crate::alist::key_idx(
                old(state).settings.customs(),
                str_arg_at(*args, 0),
            )].1,
            r,
        ),
{
    proof {
        reveal_strlit("data_get");
        reveal_strlit("data_set");
        reveal_strlit("data_len");
        reveal_strlit("get_offset");
        reveal_strlit("log");
        reveal_strlit("get_custom");
        reveal_strlit("set_custom");
        reveal_strlit("get_setting");
        reveal_strlit("set_setting");
        reveal_strlit("header_bitness");
        reveal_strlit("header_architecture");
        reveal_strlit("header_entry_point");
        assert("data_get"@.len() == 8);
        assert("data_set"@.len() == 8);
        assert("data_len"@.len() == 8);
        assert("get_offset"@.len() == 10);
        assert("log"@.len() == 3);
        assert("get_custom"@.len() == 10);
        assert("set_custom"@.len() == 10);
        assert("get_setting"@.len() == 11);
        assert("set_setting"@.len() == 11);
        assert("header_bitness"@.len() == 14);
        assert("header_architecture"@.len() == 19);
        assert("header_entry_point"@.len() == 18);
        assert("data_get"@[5] != "data_set"@[5]);
        assert("data_len"@[5] != "data_set"@[5]);
        assert("get_offset"@[0] != "set_custom"@[0]);
        assert("get_custom"@[0] != "set_custom"@[0]);
        assert("get_offset"@[4] != "get_custom"@[4]);
        assert("get_setting"@[0] != "set_setting"@[0]);
    }
    let tag_s = tag.as_str();
    if crate::text::str_eq(tag_s, "data_get") {
        match one_int(args, 0) {
            Some(i) => {
                if 0 <= i && (i as u64) < (state.data.len() as u64) {
                    let b = state.data[i as usize];
                    Reply::RScalar(Scalar::Int(b as i64))
                } else {
                    Reply::RRaise(String::from_str("data index out of bounds"))
                }
            },
            None => Reply::RRaise(String::from_str("data:get expects an index")),
        }
    } else if crate::text::str_eq(tag_s, "data_set") {
        match (one_int(args, 0), one_int(args, 1)) {
            (Some(i), Some(v)) => {
                if 0 <= i && (i as u64) < (state.data.len() as u64) && 0 <= v && v <= 255 {
                    let buf = state.data.as_mut_slice();
                    buf.set(i as usize, v as u8);
                    Reply::RNil
                } else if !(0 <= i && (i as u64) < (state.data.len() as u64)) {
                    Reply::RRaise(String::from_str("data index out of bounds"))
                } else {
                    Reply::RRaise(String::from_str("data:set expects a byte value"))
                }
            },
            _ => Reply::RRaise(String::from_str("data:set expects an index and a byte")),
        }
    } else if crate::text::str_eq(tag_s, "data_len") {
        Reply::RScalar(Scalar::Int(state.data.len() as i64))
    } else if crate::text::str_eq(tag_s, "get_offset") {
        Reply::RScalar(Scalar::Int(state.offset as i64))
    } else if crate::text::str_eq(tag_s, "log") {
        let level = match one_int(args, 0) {
            Some(n) => crate::log::level_from_i64(n),
            None => crate::log::LogLevel::Silent,
        };
        let message = match one_scalar(args, 1) {
            Some(x) => scalar_text(x),
            None => String::from_str(""),
        };
        state.logger.log_message(level, message);
        Reply::RNil
    } else if crate::text::str_eq(tag_s, "get_custom") {
        match one_str(args, 0) {
            Some(key) => {
                let found = state.settings.get_custom(key.as_str());
                match found {
                    Some(v) => value_reply(v),
                    None => Reply::RNil,
                }
            },
            None => Reply::RRaise(String::from_str("get_custom expects a key")),
        }
    } else if crate::text::str_eq(tag_s, "set_custom") {
        if args.len() < 2 {
            return Reply::RRaise(String::from_str("set_custom expects a key and a value"));
        }
        match one_str(args, 0) {
            Some(key) => {
                let parsed = value_from_arg(&args[1]);
                match parsed {
                    ParsedValue::Val(v) => {
                        state.settings.set_custom(key.clone(), v);
                        Reply::RNil
                    },
                    ParsedValue::Absent => {
                        state.settings.remove_custom(key.as_str());
                        Reply::RNil
                    },
                    ParsedValue::Invalid => Reply::RRaise(
                        String::from_str("set_custom: unsupported value"),
                    ),
                }
            },
            None => Reply::RRaise(String::from_str("set_custom expects a key and a value")),
        }
    } else if crate::text::str_eq(tag_s, "get_setting") {
        match one_str(args, 0) {
            Some(name) => {
                if has_prefix(name.as_str(), "key_") {
                    match state.settings.get_key(name.as_str()) {
                        Some(k) => Reply::RTable(key_pairs(k)),
                        None => Reply::RNil,
                    }
                } else if has_prefix(name.as_str(), "color_") {
                    match state.settings.get_color(name.as_str()) {
                        Some(st) => Reply::RTable(style_pairs(st)),
                        None => Reply::RNil,
                    }
                } else {
                    Reply::RNil
                }
            },
            None => Reply::RRaise(String::from_str("unknown setting")),
        }
    } else if crate::text::str_eq(tag_s, "set_setting") {
        if args.len() < 2 {
            return Reply::RRaise(String::from_str("a setting needs a value"));
        }
        match one_str(args, 0) {
            Some(name) => {
                let parsed = value_from_arg(&args[1]);
                if has_prefix(name.as_str(), "key_") {
                    match parsed {
                        ParsedValue::Val(SettingsValue::Key(k)) => {
                            state.settings.set_key(name.clone(), k);
                            Reply::RNil
                        },
                        _ => Reply::RRaise(String::from_str("expected a key binding")),
                    }
                } else if has_prefix(name.as_str(), "color_") {
                    match parsed {
                        ParsedValue::Val(SettingsValue::Style(st)) => {
                            state.settings.set_color(name.clone(), st);
                            Reply::RNil
                        },
                        _ => Reply::RRaise(String::from_str("expected a style")),
                    }
                } else {
                    Reply::RRaise(String::from_str("unknown setting"))
                }
            },
            None => Reply::RRaise(String::from_str("a setting needs a name")),
        }
    } else if crate::text::str_eq(tag_s, "header_bitness") {
        Reply::RScalar(Scalar::Int(state.header.bitness as i64))
    } else if crate::text::str_eq(tag_s, "header_architecture") {
        Reply::RScalar(Scalar::Str(crate::header::arch_name(&state.header.architecture)))
    } else if crate::text::str_eq(tag_s, "header_entry_point") {
        if state.header.entry_point <= i64::MAX as u64 {
            Reply::RScalar(Scalar::Int(state.header.entry_point as i64))
        } else {
            Reply::RScalar(Scalar::Str(fmt_u64(state.header.entry_point)))
        }
    } else {
        Reply::RRaise(String::from_str("unknown capability"))
    }
}

/// Argument `i`, when it is an integer scalar.
pub(crate) fn one_int(args: &Vec<WireArg>, i: usize) -> (r: Option<i64>)
    ensures
        r matches Some(n) ==> arg_is_int(*args, i as int, n) && int_arg_at(*args, i as int)
            == n as int,
        r is None ==> !(0 <= i < sargs(*args).len() && (sargs(*args)[i as int] matches
            ArgModel::One(Scalar::Int(_)))),
{
    if i < args.len() {
        match &args[i] {
            WireArg::One(Scalar::Int(n)) => Some(*n),
            _ => None,
        }
    } else {
        None
    }
}

/// Argument `i`, when it is a string scalar.
fn one_str<'a>(args: &'a Vec<WireArg>, i: usize) -> (r: Option<&'a String>)
    ensures
        r matches Some(s) ==> arg_is_str(*args, i as int, *s) && str_arg_at(*args, i as int)
            == s@,
        r is None ==> !(0 <= i < sargs(*args).len() && (sargs(*args)[i as int] matches
            ArgModel::One(Scalar::Str(_)))),
{
    if i < args.len() {
        match &args[i] {
            WireArg::One(Scalar::Str(s)) => Some(s),
            _ => None,
        }
    } else {
        None
    }
}

/// Argument `i`, when it is any scalar.
fn one_scalar<'a>(args: &'a Vec<WireArg>, i: usize) -> (r: Option<&'a Scalar>)
    ensures
        r matches Some(x) ==> 0 <= i < sargs(*args).len() && sargs(*args)[i as int]
            == ArgModel::One(*x) && scalar_arg_at(*args, i as int) == *x,
        r is None ==> !(0 <= i < sargs(*args).len() && (sargs(*args)[i as int] matches
            ArgModel::One(_))),
{
    if i < args.len() {
        match &args[i] {
            WireArg::One(s) => Some(s),
            _ => None,
        }
    } else {
        None
    }
}

} // verus!
