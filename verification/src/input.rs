//! Keys and mouse events as the client interprets them.
use vstd::prelude::*;

verus! {

/// A key, apart from its modifiers.
#[derive(Clone, Copy, PartialEq, Eq, Structural, Debug)]
pub enum KeyCode {
    Char(char),
    Enter,
    Esc,
    Tab,
    BackTab,
    Backspace,
    Delete,
    Insert,
    Up,
    Down,
    Left,
    Right,
    Home,
    End,
    PageUp,
    PageDown,
    Function(u8),
    Other,
}

/// The modifiers held with a key or a mouse button.
#[derive(Clone, Copy, PartialEq, Eq, Structural, Debug)]
pub struct KeyModifiers {
    pub shift: bool,
    pub control: bool,
    pub alt: bool,
    /// Super, hyper or meta.
    pub extra: bool,
}

impl KeyModifiers {
    pub fn empty() -> (r: KeyModifiers)
        ensures
            r == (KeyModifiers { shift: false, control: false, alt: false, extra: false }),
    {
        KeyModifiers { shift: false, control: false, alt: false, extra: false }
    }

    pub fn control() -> (r: KeyModifiers)
        ensures
            r == (KeyModifiers { shift: false, control: true, alt: false, extra: false }),
    {
        KeyModifiers { shift: false, control: true, alt: false, extra: false }
    }

    pub fn shift() -> (r: KeyModifiers)
        ensures
            r == (KeyModifiers { shift: true, control: false, alt: false, extra: false }),
    {
        KeyModifiers { shift: true, control: false, alt: false, extra: false }
    }

    pub open spec fn none_held(self) -> bool {
        !self.shift && !self.control && !self.alt && !self.extra
    }

    pub fn is_empty(&self) -> (r: bool)
        ensures
            r == self.none_held(),
    {
        !self.shift && !self.control && !self.alt && !self.extra
    }
}

/// What happened to a key.
#[derive(Clone, Copy, PartialEq, Eq, Structural, Debug)]
pub enum KeyEventKind {
    Press,
    Repeat,
    Release,
}

/// One key event of the host terminal.
#[derive(Clone, Copy, PartialEq, Eq, Structural, Debug)]
pub struct TerminalKey {
    pub code: KeyCode,
    pub modifiers: KeyModifiers,
    pub kind: KeyEventKind,
}

impl TerminalKey {
    /// A press of a key.
    pub fn new(code: KeyCode, modifiers: KeyModifiers) -> (r: TerminalKey)
        ensures
            r == (TerminalKey { code, modifiers, kind: KeyEventKind::Press }),
    {
        TerminalKey { code, modifiers, kind: KeyEventKind::Press }
    }

    pub fn with_kind(self, kind: KeyEventKind) -> (r: TerminalKey)
        ensures
            r == (TerminalKey { code: self.code, modifiers: self.modifiers, kind }),
    {
        TerminalKey { code: self.code, modifiers: self.modifiers, kind }
    }
}

/// A mouse button.
#[derive(Clone, Copy, PartialEq, Eq, Structural, Debug)]
pub enum MouseButton {
    Left,
    Right,
    Middle,
}

/// What the mouse did.
#[derive(Clone, Copy, PartialEq, Eq, Structural, Debug)]
pub enum MouseEventKind {
    Down(MouseButton),
    Up(MouseButton),
    Drag(MouseButton),
    Moved,
    ScrollUp,
    ScrollDown,
    ScrollLeft,
    ScrollRight,
}

/// One mouse event, in cells of the host terminal.
#[derive(Clone, Copy, PartialEq, Eq, Structural, Debug)]
pub struct MouseEvent {
    pub kind: MouseEventKind,
    pub column: u16,
    pub row: u16,
    pub modifiers: KeyModifiers,
}

/// A rectangle of terminal cells on screen.
#[derive(Clone, Copy, PartialEq, Eq, Structural, Debug)]
pub struct Rect {
    pub x: u16,
    pub y: u16,
    pub width: u16,
    pub height: u16,
}

impl Rect {
    /// Whether the cell lies in the rectangle: left and top edges belong to
    /// it, the cells just past its width and height do not.
    pub open spec fn covers(self, column: u16, row: u16) -> bool {
        &&& self.x <= column < self.x + self.width
        &&& self.y <= row < self.y + self.height
    }

    pub fn contains(&self, column: u16, row: u16) -> (r: bool)
        ensures
            r == self.covers(column, row),
    {
        column >= self.x && column - self.x < self.width && row >= self.y && row - self.y
            < self.height
    }
}

} // verus!
