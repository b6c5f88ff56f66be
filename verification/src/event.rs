//! The input events the controller dispatches on, and what each one requests.
//!
//! The event source (a terminal backend) lives outside the library; it hands
//! events over in this form. Only the press transition of a key is
//! actionable: repeat and release variants, pointer events and everything
//! else are dispatched as no-ops.

use vstd::prelude::*;

verus! {

/// The key a key event carries. Keys the dashboard never reacts to arrive as
/// `Other`.
#[derive(Clone, Copy, Debug, PartialEq, Eq, Structural)]
pub enum KeyCode {
    Char(char),
    Left,
    Right,
    Esc,
    Other,
}

/// Whether a key event is the press transition or a repeat/release.
#[derive(Clone, Copy, Debug, PartialEq, Eq, Structural)]
pub enum KeyKind {
    Press,
    Repeat,
    Release,
}

/// One input event: a key with its transition kind, a pointer event, or
/// anything else the event source produces.
#[derive(Clone, Copy, Debug, PartialEq, Eq, Structural)]
pub enum InputEvent {
    Key(KeyCode, KeyKind),
    Pointer,
    Other,
}

/// The event asks to advance the selection: `l` or the right arrow, pressed.
pub open spec fn advance_requested(ev: InputEvent) -> bool {
    match ev {
        InputEvent::Key(code, kind) => kind == KeyKind::Press && (code == KeyCode::Char('l')
            || code == KeyCode::Right),
        _ => false,
    }
}

/// The event asks to retreat the selection: `h` or the left arrow, pressed.
pub open spec fn retreat_requested(ev: InputEvent) -> bool {
    match ev {
        InputEvent::Key(code, kind) => kind == KeyKind::Press && (code == KeyCode::Char('h')
            || code == KeyCode::Left),
        _ => false,
    }
}

/// The event asks to quit: `q`, Esc, `/` or `?`, pressed.
pub open spec fn quit_requested(ev: InputEvent) -> bool {
    match ev {
        InputEvent::Key(code, kind) => kind == KeyKind::Press && (code == KeyCode::Char('q')
            || code == KeyCode::Esc || code == KeyCode::Char('/') || code == KeyCode::Char('?')),
        _ => false,
    }
}

} // verus!
