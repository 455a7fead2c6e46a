//! Structured events the host raises at a plugin, and the handler set
//! discovered once at load time.

use vstd::prelude::*;

use crate::keys::{KeyEvent, MouseEvent};

verus! {

/// One event dispatched to a plugin.
#[derive(Debug, Clone, PartialEq, Eq)]
pub enum Event {
    /// A file was opened.
    Open,
    /// Bytes were edited; the changed bytes are the payload.
    Edit { new_bytes: Vec<u8> },
    /// The file was saved.
    Save,
    /// A key event.
    Key { event: KeyEvent },
    /// A mouse event.
    Mouse { event: MouseEvent },
}

/// The shape of an event, without its payload.
#[derive(Debug, Clone, Copy, PartialEq, Eq, Structural)]
pub enum EventKind {
    Open,
    Edit,
    Save,
    Key,
    Mouse,
}

impl Event {
    /// The event's shape.
    pub fn kind(&self) -> (r: EventKind)
        ensures
            r == spec_event_kind(*self),
    {
        match self {
            Event::Open => EventKind::Open,
            Event::Edit { .. } => EventKind::Edit,
            Event::Save => EventKind::Save,
            Event::Key { .. } => EventKind::Key,
            Event::Mouse { .. } => EventKind::Mouse,
        }
    }
}

/// The shape of an event, without its payload.
pub open spec fn spec_event_kind(e: Event) -> EventKind {
    match e {
        Event::Open => EventKind::Open,
        Event::Edit { .. } => EventKind::Edit,
        Event::Save => EventKind::Save,
        Event::Key { .. } => EventKind::Key,
        Event::Mouse { .. } => EventKind::Mouse,
    }
}

/// The well-known guest entry point for an event shape.
pub open spec fn spec_handler_name(k: EventKind) -> Seq<char> {
    match k {
        EventKind::Open => "on_open"@,
        EventKind::Edit => "on_edit"@,
        EventKind::Save => "on_save"@,
        EventKind::Key => "on_key"@,
        EventKind::Mouse => "on_mouse"@,
    }
}

/// The well-known guest entry point for an event shape.
pub fn handler_name(k: EventKind) -> (r: String)
    ensures
        r@ == spec_handler_name(k),
{
    match k {
        EventKind::Open => String::from_str("on_open"),
        EventKind::Edit => String::from_str("on_edit"),
        EventKind::Save => String::from_str("on_save"),
        EventKind::Key => String::from_str("on_key"),
        EventKind::Mouse => String::from_str("on_mouse"),
    }
}

/// The set of events a plugin observes, discovered once when the
/// plugin is loaded and immutable afterwards.
#[derive(Debug, Clone, Copy, PartialEq, Eq, Structural)]
pub struct EventHandlerSet {
    pub on_open: bool,
    pub on_edit: bool,
    pub on_save: bool,
    pub on_key: bool,
    pub on_mouse: bool,
}

/// Membership of an event shape in a handler set.
pub open spec fn spec_contains(s: EventHandlerSet, k: EventKind) -> bool {
    match k {
        EventKind::Open => s.on_open,
        EventKind::Edit => s.on_edit,
        EventKind::Save => s.on_save,
        EventKind::Key => s.on_key,
        EventKind::Mouse => s.on_mouse,
    }
}

impl EventHandlerSet {
    /// The empty set.
    pub fn none() -> (r: EventHandlerSet)
        ensures
            r == (EventHandlerSet {
                on_open: false,
                on_edit: false,
                on_save: false,
                on_key: false,
                on_mouse: false,
            }),
    {
        EventHandlerSet {
            on_open: false,
            on_edit: false,
            on_save: false,
            on_key: false,
            on_mouse: false,
        }
    }

    /// Build the set from one presence flag per well-known name.  The
    /// set holds an event exactly when the flag for its handler does.
    pub fn from_flags(on_open: bool, on_edit: bool, on_save: bool, on_key: bool, on_mouse: bool)
        -> (r: EventHandlerSet)
        ensures
            r.on_open == on_open,
            r.on_edit == on_edit,
            r.on_save == on_save,
            r.on_key == on_key,
            r.on_mouse == on_mouse,
            forall|k: EventKind| #[trigger]
                spec_contains(r, k) == match k {
                    EventKind::Open => on_open,
                    EventKind::Edit => on_edit,
                    EventKind::Save => on_save,
                    EventKind::Key => on_key,
                    EventKind::Mouse => on_mouse,
                },
    {
        EventHandlerSet { on_open, on_edit, on_save, on_key, on_mouse }
    }

    /// Does the set hold events of shape `k`?
    pub fn contains(&self, k: EventKind) -> (r: bool)
        ensures
            r == spec_contains(*self, k),
    {
        match k {
            EventKind::Open => self.on_open,
            EventKind::Edit => self.on_edit,
            EventKind::Save => self.on_save,
            EventKind::Key => self.on_key,
            EventKind::Mouse => self.on_mouse,
        }
    }
}

} // verus!
