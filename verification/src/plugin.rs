//! The plugin instance: loads a guest script into a fresh environment,
//! discovers its event handlers once, owns its command registry
//! between calls, and runs the setup / call / teardown cycle for every
//! dispatch.  Each guest call runs inside a coroutine; every
//! capability the scoped context exposes crosses the wire protocol and
//! is answered by the verified capability bridge, so nothing of the
//! context survives the call on the host side.

use vstd::prelude::*;
use vstd::slice::SliceAdditionalExecFns;

use crate::commands::{CommandInfo, CommandRegistry};
use crate::events::{spec_contains, Event, EventHandlerSet, EventKind};
use crate::host::{handle_request, HostState};
use crate::keys::{button_name, key_code_name, kind_name, mouse_kind_name};
use crate::log::LogLevel;
use crate::text::{fmt_u64, str_eq};
use crate::wire::{parse_args, reply_wire, tail_from, Reply, Scalar, WireArg};
use crate::PluginError;

verus! {

/// The guest-side half of the capability bridge.  It builds the scoped
/// context for one call, runs the call inside a coroutine, and turns
/// every capability use into a yielded request that the host answers
/// through the wire protocol.
///
/// This chunk is Lua and therefore outside what the verifier sees: it
/// is load-bearing marshalling glue, exercised by the integration
/// tests.  The host-side half — request decoding and the handlers that
/// answer each request — is verified and accepts any sequence of
/// well- or ill-formed requests.
const CAPABILITY_GLUE: &'static str = "
local function __cap_scalar(v)
  local t = type(v)
  if t == 'nil' then return 'n', ''
  elseif t == 'boolean' then
    if v then return 'b', '1' else return 'b', '0' end
  elseif t == 'number' then
    if math.type(v) == 'integer' then return 'i', string.format('%d', v)
    else return 'f', string.format('%.17g', v) end
  elseif t == 'string' then return 's', v
  else return 'x', '' end
end

local function __cap_enc(out, v)
  if type(v) == 'table' then
    local n = 0
    for _ in pairs(v) do n = n + 1 end
    out[#out+1] = 't'
    out[#out+1] = string.format('%d', n)
    for k, x in pairs(v) do
      local kk, pp = __cap_scalar(x)
      out[#out+1] = tostring(k)
      out[#out+1] = kk
      out[#out+1] = pp
    end
  else
    local kk, pp = __cap_scalar(v)
    out[#out+1] = 'v'
    out[#out+1] = kk
    out[#out+1] = pp
  end
end

local function __cap_dec_scalar(k, p)
  if k == 'n' then return nil end
  if k == 'b' then return p == '1' end
  if k == 'i' then return tonumber(p) end
  if k == 'f' then return tonumber(p) end
  if k == 's' then return p end
  return nil
end

local function __cap_dec(r, i)
  local m = r[i]
  if m == 'z' or m == nil then return nil end
  if m == 'v' then return __cap_dec_scalar(r[i+1], r[i+2]) end
  if m == 't' then
    local n = tonumber(r[i+1]) or 0
    local out = {}
    local p = i + 2
    for q = 1, n do
      out[r[p]] = __cap_dec_scalar(r[p+1], r[p+2])
      p = p + 3
    end
    return out
  end
  return nil
end

function __cap_call(tag, ...)
  local req = { tag }
  local n = select('#', ...)
  for i = 1, n do
    __cap_enc(req, (select(i, ...)))
  end
  local r = table.pack(coroutine.yield(table.unpack(req)))
  if r[1] == 'r' then error(r[2], 0) end
  return __cap_dec(r, 1)
end

local function __cap_context()
  local ctx = {}
  ctx.data = {
    get = function(_, i) return __cap_call('data_get', i) end,
    set = function(_, i, v) return __cap_call('data_set', i, v) end,
    len = function(_) return __cap_call('data_len') end,
  }
  ctx.log = function(level, msg) return __cap_call('log', level, msg) end
  ctx.add_command = function(name, desc) return __cap_call('add_command', name, desc) end
  ctx.remove_command = function(name) return __cap_call('remove_command', name) end
  ctx.header = {
    bitness = __cap_call('header_bitness'),
    architecture = __cap_call('header_architecture'),
    entry_point = __cap_call('header_entry_point'),
  }
  ctx.offset = __cap_call('get_offset')
  local settings = {}
  local mt = {}
  mt.__index = function(_, k)
    if k == 'get_custom' then
      return function(_, key) return __cap_call('get_custom', key) end
    end
    if k == 'set_custom' then
      return function(_, key, v) return __cap_call('set_custom', key, v) end
    end
    return __cap_call('get_setting', k)
  end
  mt.__newindex = function(_, k, v) return __cap_call('set_setting', k, v) end
  setmetatable(settings, mt)
  ctx.settings = settings
  return ctx
end

local function __cap_payload(ptype, a)
  if ptype == 'bytes' then
    return {
      get = function(_, i) return __cap_call('payload_get', i) end,
      set = function(_, i, v) return __cap_call('payload_set', i, v) end,
      len = function(_) return __cap_call('payload_len') end,
    }
  end
  local t = {}
  local i = 3
  while i + 2 <= #a do
    t[a[i]] = __cap_dec_scalar(a[i+1], a[i+2])
    i = i + 3
  end
  return t
end

function __cap_step(reply)
  if __cap_co == nil then return {'err', 'no call in progress'} end
  local r
  if reply == nil then
    r = table.pack(coroutine.resume(__cap_co))
  else
    r = table.pack(coroutine.resume(__cap_co, table.unpack(reply)))
  end
  if r[1] ~= true then
    __cap_co = nil
    return {'err', tostring(r[2])}
  end
  if coroutine.status(__cap_co) == 'dead' then
    __cap_co = nil
    return {'done'}
  end
  local out = {'req'}
  for i = 2, r.n do out[#out+1] = r[i] end
  return out
end

function __cap_start(a)
  local fname = a[1]
  local ptype = a[2]
  local f = _G[fname]
  if type(f) ~= 'function' then return {'missing'} end
  __cap_co = coroutine.create(function()
    local ctx = __cap_context()
    if ptype == 'none' then return f(ctx) end
    return f(__cap_payload(ptype, a), ctx)
  end)
  return __cap_step(nil)
end

function __cap_has_fn(a)
  if type(_G[a[1]]) == 'function' then return {'1'} end
  return {'0'}
end

function __cap_global_int(a)
  local v = _G[a[1]]
  if math.type(v) == 'integer' then return {'i', string.format('%d', v)} end
  return {'n', ''}
end
";

/// A loaded plugin: its guest environment, the commands it has
/// exported, and the handler set discovered at load time.
pub struct Plugin {
    lua: mlua::Lua,
    commands: CommandRegistry,
    handlers: EventHandlerSet,
}

impl Plugin {
    /// The registry keeps its invariant between calls.
    pub open spec fn wf(&self) -> bool {
        self.spec_commands_wf()
    }

    /// The exported commands, abstractly.
    pub closed spec fn commands_view(&self) -> Seq<(Seq<char>, Seq<char>)> {
        self.commands@
    }

    pub closed spec fn spec_commands_wf(&self) -> bool {
        self.commands.wf()
    }

    /// The handler set, abstractly.
    pub closed spec fn spec_handlers(&self) -> EventHandlerSet {
        self.handlers
    }

    /// Does the guest define a global function of this name?
    fn probe(lua: &mlua::Lua, name: &str) -> bool {
        let mut args: Vec<String> = Vec::new();
        args.push(name.to_owned());
        match crate::lua::lua_call_strings(lua, "__cap_has_fn", args) {
            Ok(v) => {
                if v.len() == 1 {
                    str_eq(v[0].as_str(), "1")
                } else {
                    false
                }
            },
            Err(_) => false,
        }
    }

    /// Load a plugin from source: run the script's top level, install
    /// the capability glue, call `init` with a fresh scoped context if
    /// it is defined, and probe the five well-known handler names.  A
    /// failing top level or a raising `init` fails the load as a
    /// whole: no instance is produced and no exported command is kept.
    pub fn new_from_source(source: &str, state: &mut HostState) -> (r: Result<Plugin, PluginError>)
        requires
            old(state).wf(),
        ensures
            final(state).wf(),
            r matches Ok(p) ==> p.wf(),
            r matches Err(e) ==> e is Load,
            final(state).header == old(state).header,
            final(state).offset == old(state).offset,
            final(state).data@.len() == old(state).data@.len(),
            old(state).logger.log().len() <= final(state).logger.log().len(),
    {
        let lua = crate::lua::lua_new();
        match crate::lua::lua_exec(&lua, source) {
            Ok(()) => {},
            Err(e) => {
                return Err(PluginError::Load(e));
            },
        }
        match crate::lua::lua_exec(&lua, CAPABILITY_GLUE) {
            Ok(()) => {},
            Err(e) => {
                return Err(PluginError::Load(e));
            },
        }
        let mut commands = CommandRegistry::new();
        if Self::probe(&lua, "init") {
            let mut start: Vec<String> = Vec::new();
            start.push(String::from_str("init"));
            start.push(String::from_str("none"));
            let mut no_payload: Vec<u8> = Vec::new();
            match drive_call(&lua, state, &mut commands, &mut no_payload, start) {
                Ok(()) => {},
                Err(e) => {
                    // the registry accumulated during `init` is
                    // discarded with the failed load
                    return Err(PluginError::Load(e.message()));
                },
            }
        }
        let handlers = EventHandlerSet::from_flags(
            Self::probe(&lua, "on_open"),
            Self::probe(&lua, "on_edit"),
            Self::probe(&lua, "on_save"),
            Self::probe(&lua, "on_key"),
            Self::probe(&lua, "on_mouse"),
        );
        Ok(Plugin { lua, commands, handlers })
    }

    /// The handler set discovered at load time.
    pub fn get_event_handlers(&self) -> (r: EventHandlerSet)
        ensures
            r == self.spec_handlers(),
    {
        self.handlers
    }

    /// Dispatch one event.  An event whose handler was not discovered
    /// fails with `HandlerMissing` and touches nothing; otherwise the
    /// guest handler runs against a fresh scoped context, and the
    /// command registry is taken back whether or not the call
    /// succeeded: mutations made before a failure are kept.  The
    /// event is the call's payload: for `Edit`, guest writes into
    /// `new_bytes` land in the event the caller passed in, whether or
    /// not the call succeeded, and its length never changes.
    pub fn handle_with_error(&mut self, event: &mut Event, state: &mut HostState) -> (r: Result<
        (),
        PluginError,
    >)
        requires
            old(state).wf(),
            old(self).wf(),
            *old(event) matches Event::Edit { new_bytes } ==> new_bytes@.len() <= i64::MAX,
        ensures
            final(state).wf(),
            final(self).wf(),
            final(self).spec_handlers() == old(self).spec_handlers(),
            !spec_contains(old(self).spec_handlers(), crate::events::spec_event_kind(*old(event)))
                <==> r == Err::<(), PluginError>(PluginError::HandlerMissing),
            r == Err::<(), PluginError>(PluginError::HandlerMissing) ==> *final(self)
                == *old(self) && *final(state) == *old(state) && *final(event) == *old(event),
            r matches Err(e) ==> e is HandlerMissing || e is Runtime,
            final(state).header == old(state).header,
            final(state).offset == old(state).offset,
            final(state).data@.len() == old(state).data@.len(),
            old(state).logger.log().len() <= final(state).logger.log().len(),
            !(*old(event) matches Event::Edit { .. }) ==> *final(event) == *old(event),
            *old(event) matches Event::Edit { new_bytes: nb0 } ==> (*final(event) matches
                Event::Edit { new_bytes: nb1 } && nb1@.len() == nb0@.len()),
    {
        let kind = event.kind();
        if !self.handlers.contains(kind) {
            return Err(PluginError::HandlerMissing);
        }
        let start = start_args(event);
        match event {
            Event::Edit { new_bytes } => {
                drive_call(&self.lua, state, &mut self.commands, new_bytes, start)
            },
            _ => {
                let mut no_payload: Vec<u8> = Vec::new();
                drive_call(&self.lua, state, &mut self.commands, &mut no_payload, start)
            },
        }
    }

    /// Dispatch one event, logging any error at severity Error instead
    /// of returning it; the log never shrinks.
    pub fn handle(&mut self, event: &mut Event, state: &mut HostState)
        requires
            old(state).wf(),
            old(self).wf(),
            *old(event) matches Event::Edit { new_bytes } ==> new_bytes@.len() <= i64::MAX,
        ensures
            final(state).wf(),
            final(self).wf(),
            final(self).spec_handlers() == old(self).spec_handlers(),
            final(state).header == old(state).header,
            final(state).offset == old(state).offset,
            final(state).data@.len() == old(state).data@.len(),
            old(state).logger.log().len() <= final(state).logger.log().len(),
            !(*old(event) matches Event::Edit { .. }) ==> *final(event) == *old(event),
            *old(event) matches Event::Edit { new_bytes: nb0 } ==> (*final(event) matches
                Event::Edit { new_bytes: nb1 } && nb1@.len() == nb0@.len()),
    {
        let r = self.handle_with_error(event, state);
        match r {
            Ok(()) => {},
            Err(e) => {
                let msg = String::from_str("In plugin: ").concat(e.message().as_str());
                state.logger.log_message(LogLevel::Error, msg);
            },
        }
    }

    /// Run an exported command by its identifier, with a fresh scoped
    /// context; the registry is taken back whether or not the call
    /// succeeded, and any failure is a runtime error.
    pub fn run_command(&mut self, command: &str, state: &mut HostState) -> (r: Result<
        (),
        PluginError,
    >)
        requires
            old(state).wf(),
            old(self).wf(),
        ensures
            final(state).wf(),
            final(self).wf(),
            final(self).spec_handlers() == old(self).spec_handlers(),
            r matches Err(e) ==> e is Runtime,
            final(state).header == old(state).header,
            final(state).offset == old(state).offset,
            final(state).data@.len() == old(state).data@.len(),
            old(state).logger.log().len() <= final(state).logger.log().len(),
    {
        let mut start: Vec<String> = Vec::new();
        start.push(command.to_owned());
        start.push(String::from_str("none"));
        let mut no_payload: Vec<u8> = Vec::new();
        drive_call(&self.lua, state, &mut self.commands, &mut no_payload, start)
    }

    /// The exported commands, in presentation order; on a well-formed
    /// plugin no two entries share an identifier.
    pub fn get_commands(&self) -> (r: &Vec<CommandInfo>)
        ensures
            r@.len() == self.commands_view().len(),
            forall|i: int|
                0 <= i < self.commands_view().len() ==> (#[trigger] r@[i])@
                    == self.commands_view()[i],
            self.wf() ==> crate::alist::distinct_keys(self.commands_view()),
    {
        self.commands.get_commands()
    }

    /// Read a global guest integer, for the host to observe guest
    /// state (chiefly in tests).  It carries no contract: what comes
    /// back is whatever the guest holds under that name.
    pub fn read_global_int(&self, name: &str) -> Option<i64> {
        let mut args: Vec<String> = Vec::new();
        args.push(name.to_owned());
        match crate::lua::lua_call_strings(&self.lua, "__cap_global_int", args) {
            Ok(v) => {
                if v.len() == 2 {
                    match crate::wire::parse_scalar(&v[0], &v[1]) {
                        Scalar::Int(n) => Some(n),
                        _ => None,
                    }
                } else {
                    None
                }
            },
            Err(_) => None,
        }
    }
}

/// The start-call arguments for an event: the entry point named by
/// the event's shape, the payload shape, and for key and mouse events
/// the encoded {code, modifiers, kind, state} payload fields.  Edit
/// payload bytes are not copied here: the guest reaches them through
/// the payload capabilities.
fn start_args(event: &Event) -> (r: Vec<String>)
    ensures
        r@.len() >= 2,
        r@[0]@ == crate::events::spec_handler_name(crate::events::spec_event_kind(*event)),
        *event matches Event::Open ==> r@.len() == 2 && r@[1]@ == "none"@,
        *event matches Event::Save ==> r@.len() == 2 && r@[1]@ == "none"@,
        *event matches Event::Edit { .. } ==> r@.len() == 2 && r@[1]@ == "bytes"@,
        *event matches Event::Key { event: k } ==> r@.len() == 14 && r@[1]@ == "kv"@ && r@[2]@
            == "code"@ && r@[3]@ == "s"@ && r@[4]@ == crate::keys::spec_key_code_name(k.code)
            && r@[5]@ == "modifiers"@ && r@[6]@ == "i"@ && r@[7]@ == crate::text::dec_digits(
            k.modifiers as nat,
        ) && r@[8]@ == "kind"@ && r@[9]@ == "s"@ && r@[10]@ == crate::keys::spec_kind_name(k.kind)
            && r@[11]@ == "state"@ && r@[12]@ == "i"@ && r@[13]@ == crate::text::dec_digits(
            k.state as nat,
        ),
        *event matches Event::Mouse { event: m } ==> r@.len() == 17 && r@[1]@ == "kv"@ && r@[2]@
            == "kind"@ && r@[3]@ == "s"@ && r@[4]@ == crate::keys::spec_mouse_kind_name(m.kind)
            && r@[5]@ == "button"@ && r@[6]@ == "s"@ && r@[7]@ == crate::keys::spec_button_name(
            m.kind,
        ) && r@[8]@ == "column"@ && r@[9]@ == "i"@ && r@[10]@ == crate::text::dec_digits(
            m.column as nat,
        ) && r@[11]@ == "row"@ && r@[12]@ == "i"@ && r@[13]@ == crate::text::dec_digits(
            m.row as nat,
        ) && r@[14]@ == "modifiers"@ && r@[15]@ == "i"@ && r@[16]@ == crate::text::dec_digits(
            m.modifiers as nat,
        ),
{
    let mut v: Vec<String> = Vec::new();
    match event {
        Event::Open => {
            v.push(crate::events::handler_name(EventKind::Open));
            v.push(String::from_str("none"));
        },
        Event::Save => {
            v.push(crate::events::handler_name(EventKind::Save));
            v.push(String::from_str("none"));
        },
        Event::Edit { .. } => {
            v.push(crate::events::handler_name(EventKind::Edit));
            v.push(String::from_str("bytes"));
        },
        Event::Key { event } => {
            v.push(crate::events::handler_name(EventKind::Key));
            v.push(String::from_str("kv"));
            v.push(String::from_str("code"));
            v.push(String::from_str("s"));
            v.push(key_code_name(&event.code));
            v.push(String::from_str("modifiers"));
            v.push(String::from_str("i"));
            v.push(fmt_u64(event.modifiers as u64));
            v.push(String::from_str("kind"));
            v.push(String::from_str("s"));
            v.push(kind_name(&event.kind));
            v.push(String::from_str("state"));
            v.push(String::from_str("i"));
            v.push(fmt_u64(event.state as u64));
        },
        Event::Mouse { event } => {
            v.push(crate::events::handler_name(EventKind::Mouse));
            v.push(String::from_str("kv"));
            v.push(String::from_str("kind"));
            v.push(String::from_str("s"));
            v.push(mouse_kind_name(&event.kind));
            v.push(String::from_str("button"));
            v.push(String::from_str("s"));
            v.push(button_name(&event.kind));
            v.push(String::from_str("column"));
            v.push(String::from_str("i"));
            v.push(fmt_u64(event.column as u64));
            v.push(String::from_str("row"));
            v.push(String::from_str("i"));
            v.push(fmt_u64(event.row as u64));
            v.push(String::from_str("modifiers"));
            v.push(String::from_str("i"));
            v.push(fmt_u64(event.modifiers as u64));
        },
    }
    v
}

/// Drive one guest call to completion: start it, then answer each
/// capability request it yields until it finishes or fails.  Registry
/// requests are validated against the guest's globals at the time of
/// the call, payload requests touch the event payload checked out for
/// the call, and everything else goes to the capability bridge.  No
/// request can change the header, the cursor offset, or the length of
/// the buffer or the payload, and the log only grows.  A guest that
/// never returns blocks the host, mirrored here by a request budget
/// far beyond reach.
fn drive_call(
    lua: &mlua::Lua,
    state: &mut HostState,
    reg: &mut CommandRegistry,
    payload: &mut Vec<u8>,
    start: Vec<String>,
) -> (r: Result<(), PluginError>)
    requires
        old(state).wf(),
        old(reg).wf(),
        old(payload)@.len() <= i64::MAX,
    ensures
        final(state).wf(),
        final(reg).wf(),
        r matches Err(e) ==> e is Runtime,
        final(state).header == old(state).header,
        final(state).offset == old(state).offset,
        final(state).data@.len() == old(state).data@.len(),
        old(state).logger.log().len() <= final(state).logger.log().len(),
        final(payload)@.len() == old(payload)@.len(),
{
    let ghost header0 = state.header;
    let ghost offset0 = state.offset;
    let ghost data_len0 = state.data@.len();
    let ghost log_len0 = state.logger.log().len();
    let ghost payload_len0 = payload@.len();
    let mut out = match crate::lua::lua_call_strings(lua, "__cap_start", start) {
        Ok(v) => v,
        Err(e) => {
            return Err(PluginError::Runtime(e));
        },
    };
    let mut fuel: u64 = u64::MAX;
    while fuel > 0
        invariant
            state.wf(),
            reg.wf(),
            header0 == old(state).header,
            offset0 == old(state).offset,
            data_len0 == old(state).data@.len(),
            log_len0 == old(state).logger.log().len(),
            payload_len0 == old(payload)@.len(),
            state.header == header0,
            state.offset == offset0,
            state.data@.len() == data_len0,
            log_len0 <= state.logger.log().len(),
            payload@.len() == payload_len0,
            payload@.len() <= i64::MAX,
        decreases fuel,
    {
        fuel = fuel - 1;
        if out.len() == 0 {
            return Err(PluginError::Runtime(String::from_str("empty protocol answer")));
        }
        if str_eq(out[0].as_str(), "done") {
            return Ok(());
        }
        if str_eq(out[0].as_str(), "missing") {
            return Err(
                PluginError::Runtime(String::from_str("no guest function of that name")),
            );
        }
        if str_eq(out[0].as_str(), "err") {
            let msg = if out.len() >= 2 {
                out[1].clone()
            } else {
                String::from_str("guest error")
            };
            return Err(PluginError::Runtime(msg));
        }
        if !(str_eq(out[0].as_str(), "req") && out.len() >= 2) {
            return Err(PluginError::Runtime(String::from_str("malformed protocol answer")));
        }
        let tag = out[1].clone();
        let rest = tail_from(&out, 2);
        let reply = match parse_args(&rest) {
            None => Reply::RRaise(String::from_str("malformed capability request")),
            Some(args) => {
                if str_eq(tag.as_str(), "add_command") {
                    add_command_request(lua, reg, &args)
                } else if str_eq(tag.as_str(), "remove_command") {
                    remove_command_request(reg, &args)
                } else if str_eq(tag.as_str(), "payload_get") || str_eq(
                    tag.as_str(),
                    "payload_set",
                ) || str_eq(tag.as_str(), "payload_len") {
                    payload_request(payload, &tag, &args)
                } else {
                    handle_request(state, &tag, &args)
                }
            },
        };
        out = match crate::lua::lua_call_strings(lua, "__cap_step", reply_wire(&reply)) {
            Ok(v) => v,
            Err(e) => {
                return Err(PluginError::Runtime(e));
            },
        };
    }
    Err(PluginError::Runtime(String::from_str("capability request budget exhausted")))
}

/// Answer a payload capability: bounds-checked reads and writes into
/// the byte payload of the event being dispatched.  Writes change one
/// byte and never the length, so the caller gets the mutated payload
/// back whatever the guest did.
fn payload_request(payload: &mut Vec<u8>, tag: &String, args: &Vec<WireArg>) -> (r: Reply)
    requires
        old(payload)@.len() <= i64::MAX,
    ensures
        final(payload)@.len() == old(payload)@.len(),
        tag@ != "payload_set"@ ==> final(payload)@ == old(payload)@,
        tag@ == "payload_len"@ ==> r == Reply::RScalar(
            Scalar::Int(old(payload)@.len() as i64),
        ),
        tag@ == "payload_get"@ && crate::host::sargs(*args).len() == 1 && (crate::host::sargs(
            *args,
        )[0] matches crate::wire::ArgModel::One(Scalar::Int(_))) ==> (if 0 <= crate::host::int_arg_at(
            *args,
            0,
        ) < old(payload)@.len() {
            r == Reply::RScalar(
                Scalar::Int(old(payload)@[crate::host::int_arg_at(*args, 0)] as i64),
            )
        } else {
            r is RRaise
        }),
        tag@ == "payload_set"@ && crate::host::sargs(*args).len() == 2 && (crate::host::sargs(
            *args,
        )[0] matches crate::wire::ArgModel::One(Scalar::Int(_))) && (crate::host::sargs(*args)[1]
            matches crate::wire::ArgModel::One(Scalar::Int(_))) && 0 <= crate::host::int_arg_at(
            *args,
            0,
        ) < old(payload)@.len() && 0 <= crate::host::int_arg_at(*args, 1) <= 255 ==> final(payload)@ == old(payload)@.update(
            crate::host::int_arg_at(*args, 0),
            crate::host::int_arg_at(*args, 1) as u8,
        ) && r == Reply::RNil,
{
    proof {
        reveal_strlit("payload_get");
        reveal_strlit("payload_set");
        reveal_strlit("payload_len");
        assert("payload_get"@.len() == 11);
        assert("payload_set"@.len() == 11);
        assert("payload_len"@.len() == 11);
        assert("payload_get"@[8] != "payload_set"@[8]);
        assert("payload_len"@[8] != "payload_set"@[8]);
        assert("payload_len"@[8] != "payload_get"@[8]);
    }
    if str_eq(tag.as_str(), "payload_len") {
        return Reply::RScalar(Scalar::Int(payload.len() as i64));
    }
    if str_eq(tag.as_str(), "payload_get") {
        return match crate::host::one_int(args, 0) {
            Some(i) => {
                if 0 <= i && (i as u64) < (payload.len() as u64) {
                    Reply::RScalar(Scalar::Int(payload[i as usize] as i64))
                } else {
                    Reply::RRaise(String::from_str("payload index out of bounds"))
                }
            },
            None => Reply::RRaise(String::from_str("payload access expects an index")),
        };
    }
    if str_eq(tag.as_str(), "payload_set") {
        return match (crate::host::one_int(args, 0), crate::host::one_int(args, 1)) {
            (Some(i), Some(v)) => {
                if 0 <= i && (i as u64) < (payload.len() as u64) && 0 <= v && v <= 255 {
                    let buf = payload.as_mut_slice();
                    buf.set(i as usize, v as u8);
                    Reply::RNil
                } else if !(0 <= i && (i as u64) < (payload.len() as u64)) {
                    Reply::RRaise(String::from_str("payload index out of bounds"))
                } else {
                    Reply::RRaise(String::from_str("payload write expects a byte value"))
                }
            },
            _ => Reply::RRaise(String::from_str("payload write expects an index and a byte")),
        };
    }
    Reply::RRaise(String::from_str("unknown payload capability"))
}

/// Answer `add_command`: the identifier must name a guest function
/// defined at the time of the call; otherwise this one mutation is
/// rejected and the guest sees the validation error.
fn add_command_request(lua: &mlua::Lua, reg: &mut CommandRegistry, args: &Vec<WireArg>) -> (r:
    Reply)
    requires
        old(reg).wf(),
    ensures
        final(reg).wf(),
        // whether the identifier names a defined guest function only
        // the guest can say: either the upsert happened and the call
        // succeeded, or the registry is untouched and the guest sees
        // the validation error
        crate::host::sargs(*args).len() >= 2 && (crate::host::sargs(*args)[0] matches
            crate::wire::ArgModel::One(Scalar::Str(_))) && (crate::host::sargs(*args)[1] matches
            crate::wire::ArgModel::One(Scalar::Str(_))) ==> (final(reg)@
            == crate::alist::spec_set(
            old(reg)@,
            crate::host::str_arg_at(*args, 0),
            crate::host::str_arg_at(*args, 1),
        ) && r == Reply::RNil) || (final(reg)@ == old(reg)@ && r is RRaise),
        !(crate::host::sargs(*args).len() >= 2 && (crate::host::sargs(*args)[0] matches
            crate::wire::ArgModel::One(Scalar::Str(_))) && (crate::host::sargs(*args)[1] matches
            crate::wire::ArgModel::One(Scalar::Str(_)))) ==> final(reg)@ == old(reg)@ && r
            is RRaise,
{
    if args.len() < 2 {
        return Reply::RRaise(String::from_str("add_command expects a name and a description"));
    }
    let (name, desc) = match (&args[0], &args[1]) {
        (WireArg::One(Scalar::Str(n)), WireArg::One(Scalar::Str(d))) => (n, d),
        _ => {
            return Reply::RRaise(
                String::from_str("add_command expects a name and a description"),
            );
        },
    };
    let defined = Plugin::probe(lua, name.as_str());
    match reg.add_checked(name.clone(), desc.clone(), defined) {
        Ok(()) => Reply::RNil,
        Err(_) => Reply::RRaise(
            String::from_str("cannot export a command with no function of that name"),
        ),
    }
}

/// Answer `remove_command`.
fn remove_command_request(reg: &mut CommandRegistry, args: &Vec<WireArg>) -> (r: Reply)
    requires
        old(reg).wf(),
    ensures
        final(reg).wf(),
        crate::host::sargs(*args).len() >= 1 && (crate::host::sargs(*args)[0] matches
            crate::wire::ArgModel::One(Scalar::Str(_))) ==> final(reg)@ == crate::alist::spec_del(
            old(reg)@,
            crate::host::str_arg_at(*args, 0),
        ) && r == Reply::RNil,
        !(crate::host::sargs(*args).len() >= 1 && (crate::host::sargs(*args)[0] matches
            crate::wire::ArgModel::One(Scalar::Str(_)))) ==> final(reg)@ == old(reg)@ && r
            is RRaise,
{
    if args.len() < 1 {
        return Reply::RRaise(String::from_str("remove_command expects a name"));
    }
    match &args[0] {
        WireArg::One(Scalar::Str(n)) => {
            reg.remove(n.as_str());
            Reply::RNil
        },
        _ => Reply::RRaise(String::from_str("remove_command expects a name")),
    }
}

} // verus!
