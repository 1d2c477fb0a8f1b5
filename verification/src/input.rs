//! Terminal input events as plain values.

use vstd::prelude::*;
use crate::geometry::Position;

verus! {

/// A key.
#[derive(Debug, Clone, Copy, PartialEq, Eq, Hash, Structural)]
pub enum KeyCode {
    /// A printable character.
    Char(char),
    /// Enter / Return.
    Enter,
    /// Escape.
    Esc,
    /// Tab.
    Tab,
    /// Shift+Tab.
    BackTab,
    /// Backspace.
    Backspace,
    /// Delete.
    Delete,
    /// Left arrow.
    Left,
    /// Right arrow.
    Right,
    /// Up arrow.
    Up,
    /// Down arrow.
    Down,
    /// Home.
    Home,
    /// End.
    End,
    /// Page up.
    PageUp,
    /// Page down.
    PageDown,
}

/// The modifier held with a key.
#[allow(non_camel_case_types)]
#[derive(Debug, Clone, Copy, PartialEq, Eq, Hash, Structural)]
pub enum KeyModifiers {
    /// No modifier.
    NONE,
    /// Shift.
    SHIFT,
    /// Control.
    CONTROL,
    /// Alt.
    ALT,
}

impl Default for KeyModifiers {
    /// `NONE`.
    fn default() -> (r: KeyModifiers)
        ensures
            r == KeyModifiers::NONE,
    {
        KeyModifiers::NONE
    }
}

/// Press, auto-repeat, or release.
#[derive(Debug, Clone, Copy, PartialEq, Eq, Hash, Structural)]
pub enum KeyEventKind {
    /// Key went down.
    Press,
    /// Key repeats while held.
    Repeat,
    /// Key went up.
    Release,
}

impl Default for KeyEventKind {
    /// `Press`.
    fn default() -> (r: KeyEventKind)
        ensures
            r == KeyEventKind::Press,
    {
        KeyEventKind::Press
    }
}

/// One key event.
#[derive(Debug, Clone, Copy, PartialEq, Eq, Hash, Structural)]
pub struct KeyEvent {
    /// The key.
    pub code: KeyCode,
    /// Held modifiers.
    pub modifiers: KeyModifiers,
    /// Press / repeat / release.
    pub kind: KeyEventKind,
}

impl KeyEvent {
    /// A key press.
    pub fn new(code: KeyCode, modifiers: KeyModifiers) -> (k: KeyEvent)
        ensures
            k == (KeyEvent { code, modifiers, kind: KeyEventKind::Press }),
    {
        KeyEvent { code, modifiers, kind: KeyEventKind::Press }
    }

    /// A key event of the given kind.
    pub fn with_kind(code: KeyCode, modifiers: KeyModifiers, kind: KeyEventKind) -> (k: KeyEvent)
        ensures
            k == (KeyEvent { code, modifiers, kind }),
    {
        KeyEvent { code, modifiers, kind }
    }

    /// Whether the key went down.
    pub fn is_press(&self) -> (b: bool)
        ensures
            b == (self.kind == KeyEventKind::Press),
    {
        self.kind == KeyEventKind::Press
    }

    /// Whether the key went up.
    pub fn is_release(&self) -> (b: bool)
        ensures
            b == (self.kind == KeyEventKind::Release),
    {
        self.kind == KeyEventKind::Release
    }
}

/// A mouse button.
#[derive(Debug, Clone, Copy, PartialEq, Eq, Hash, Structural)]
pub enum MouseButton {
    /// Left.
    Left,
    /// Right.
    Right,
    /// Middle.
    Middle,
}

/// What the pointer did.
#[derive(Debug, Clone, Copy, PartialEq, Eq, Hash, Structural)]
pub enum MouseEventKind {
    /// Button pressed.
    Down(MouseButton),
    /// Button released.
    Up(MouseButton),
    /// Moved with a button held.
    Drag(MouseButton),
    /// Moved.
    Moved,
    /// Wheel down.
    ScrollDown,
    /// Wheel up.
    ScrollUp,
}

/// One pointer event.
#[derive(Debug, Clone, Copy, PartialEq, Eq, Hash, Structural)]
pub struct MouseEvent {
    /// What happened.
    pub kind: MouseEventKind,
    /// Where.
    pub position: Position,
}

} // verus!
