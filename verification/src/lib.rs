//! Plugin runtime for a scriptable binary editor.
//!
//! A plugin is a Lua script loaded into a fresh guest environment.  The
//! host exposes a scoped capability surface to the guest (byte buffer,
//! settings, log sink, header projection, command registry) and routes
//! structured events to well-known guest entry points.  All host-side
//! bookkeeping — the command registry, the settings store, the log sink,
//! header detection and the wire protocol that carries capability calls —
//! is verified; only the thin calls into the Lua runtime are trusted.
//!
//! The surrounding editor's rendering, cursor and scroll arithmetic,
//! and popup input machinery are external collaborators of this
//! runtime and are not part of it; its popup-filling hook is likewise
//! left to the embedding application.

use vstd::prelude::*;

pub mod alist;
pub mod args;
pub mod commands;
pub mod edit;
pub mod events;
pub mod header;
pub mod host;
pub mod keys;
pub mod log;
pub mod lua;
pub mod plugin;
pub mod settings;
pub mod style;
pub mod text;
pub mod wire;

verus! {

/// Errors surfaced by the plugin runtime.
#[derive(Debug, Clone, PartialEq, Eq)]
pub enum PluginError {
    /// Top-level script execution failed, or `init` raised: no plugin
    /// instance is produced.
    Load(String),
    /// A dispatch was attempted for an event whose handler was not
    /// discovered at load time.
    HandlerMissing,
    /// `add_command` named an identifier with no matching guest function.
    CommandValidation(String),
    /// Any other guest-raised failure during a dispatch or command run.
    Runtime(String),
}

impl PluginError {
    /// A human-readable description of the error.
    pub fn message(&self) -> (r: String)
        ensures
            self matches PluginError::Load(m) ==> r@ == m@,
            self matches PluginError::Runtime(m) ==> r@ == m@,
    {
        match self {
            PluginError::Load(m) => m.clone(),
            PluginError::HandlerMissing => String::from_str(
                "no handler was discovered for this event",
            ),
            PluginError::CommandValidation(n) => String::from_str(
                "command is not defined: ",
            ).concat(n.as_str()),
            PluginError::Runtime(m) => m.clone(),
        }
    }
}

} // verus!
