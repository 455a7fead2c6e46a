//! The trusted boundary to the embedded Lua runtime.  Three small
//! wrappers cover everything the library needs: create an environment,
//! run a chunk, and call a named global function with string arguments.
//! Everything that crosses this boundary is a plain string; the
//! verified wire protocol gives the strings their meaning.

use vstd::prelude::*;

verus! {

#[verifier::external_type_specification]
#[verifier::external_body]
pub struct ExLua(mlua::Lua);

/// Relies on mlua::Lua::new: a fresh, empty guest environment.
#[verifier::external_body]
pub(crate) fn lua_new() -> mlua::Lua {
    mlua::Lua::new()
}

/// Relies on mlua::Chunk::exec: runs a source chunk at the top level
/// of the guest environment; an error carries the Lua message.
#[verifier::external_body]
pub(crate) fn lua_exec(lua: &mlua::Lua, src: &str) -> Result<(), String> {
    match lua.load(src).exec() {
        Ok(()) => Ok(()),
        Err(e) => Err(e.to_string()),
    }
}

/// Relies on mlua::Function::call (after a globals lookup): calls the
/// named global with one list of strings and collects its one list of
/// string results.  What comes back depends entirely on the guest; the
/// caller handles every outcome.
#[verifier::external_body]
pub(crate) fn lua_call_strings(lua: &mlua::Lua, entry: &str, args: Vec<String>) -> Result<
    Vec<String>,
    String,
> {
    let f: mlua::Function = match lua.globals().get(entry) {
        Ok(f) => f,
        Err(e) => return Err(e.to_string()),
    };
    match f.call::<_, Vec<String>>(args) {
        Ok(vs) => Ok(vs),
        Err(e) => Err(e.to_string()),
    }
}

} // verus!
