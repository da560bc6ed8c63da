//! Input events: key presses with their modifiers, and pointer events.
//!
//! These are plain values. The code that polls the terminal turns what it
//! reads into them, one for one.

use vstd::prelude::*;

verus! {

#[derive(Clone, Copy, Debug, PartialEq, Eq, Structural)]
pub enum MediaKeyCode {
    Play,
    Pause,
    PlayPause,
    Reverse,
    Stop,
    FastForward,
    Rewind,
    TrackNext,
    TrackPrevious,
    Record,
    LowerVolume,
    RaiseVolume,
    MuteVolume,
}

#[derive(Clone, Copy, Debug, PartialEq, Eq, Structural)]
pub enum ModifierKeyCode {
    LeftShift,
    LeftControl,
    LeftAlt,
    LeftSuper,
    LeftHyper,
    LeftMeta,
    RightShift,
    RightControl,
    RightAlt,
    RightSuper,
    RightHyper,
    RightMeta,
    IsoLevel3Shift,
    IsoLevel5Shift,
}

/// The key of a key event.
#[derive(Clone, Copy, Debug, PartialEq, Eq, Structural)]
pub enum KeyCode {
    Backspace,
    Enter,
    Left,
    Right,
    Up,
    Down,
    Home,
    End,
    PageUp,
    PageDown,
    Tab,
    BackTab,
    Delete,
    Insert,
    F(u8),
    Char(char),
    Null,
    Esc,
    CapsLock,
    ScrollLock,
    NumLock,
    PrintScreen,
    Pause,
    Menu,
    KeypadBegin,
    Media(MediaKeyCode),
    Modifier(ModifierKeyCode),
}

/// The modifier keys held with a key or a pointer event, one bit each.
#[derive(Clone, Copy, Debug, PartialEq, Eq, Structural)]
pub struct KeyModifiers {
    pub bits: u8,
}

pub const SHIFT: u8 = 0b0000_0001;

pub const CONTROL: u8 = 0b0000_0010;

pub const ALT: u8 = 0b0000_0100;

pub const SUPER: u8 = 0b0000_1000;

pub const HYPER: u8 = 0b0001_0000;

pub const META: u8 = 0b0010_0000;

impl KeyModifiers {
    /// No modifier.
    pub fn none() -> (m: KeyModifiers)
        ensures
            m.bits == 0,
    {
        KeyModifiers { bits: 0 }
    }

    /// The modifiers whose bits are set in `bits`.
    pub fn from_bits(bits: u8) -> (m: KeyModifiers)
        ensures
            m.bits == bits,
    {
        KeyModifiers { bits }
    }

    /// Whether shift is among the modifiers.
    pub open spec fn spec_has_shift(self) -> bool {
        self.bits & SHIFT == SHIFT
    }

    #[verifier::when_used_as_spec(spec_has_shift)]
    pub fn has_shift(self) -> (b: bool)
        ensures
            b == self.spec_has_shift(),
    {
        self.bits & SHIFT == SHIFT
    }

    /// The same modifiers with shift among them.
    pub open spec fn spec_with_shift(self) -> KeyModifiers {
        KeyModifiers { bits: self.bits | SHIFT }
    }

    #[verifier::when_used_as_spec(spec_with_shift)]
    pub fn with_shift(self) -> (m: KeyModifiers)
        ensures
            m == self.spec_with_shift(),
    {
        KeyModifiers { bits: self.bits | SHIFT }
    }
}

#[derive(Clone, Copy, Debug, PartialEq, Eq, Structural)]
pub enum KeyEventKind {
    Press,
    Repeat,
    Release,
}

/// What the keyboard reported beside the key, one bit each.
#[derive(Clone, Copy, Debug, PartialEq, Eq, Structural)]
pub struct KeyEventState {
    pub bits: u8,
}

/// A single key press with its modifiers: a chord.
#[derive(Clone, Copy, Debug, PartialEq, Eq, Structural)]
pub struct KeyEvent {
    pub code: KeyCode,
    pub modifiers: KeyModifiers,
    pub kind: KeyEventKind,
    pub state: KeyEventState,
}

/// Whether `c` is one of `A` to `Z`.
pub open spec fn is_ascii_upper(c: char) -> bool {
    'A' <= c <= 'Z'
}

/// Whether `c` is one of `a` to `z`.
pub open spec fn is_ascii_lower(c: char) -> bool {
    'a' <= c <= 'z'
}

/// The capital of a letter `a` to `z`; any other character unchanged.
pub open spec fn ascii_upper(c: char) -> char {
    if is_ascii_lower(c) {
        ((c as u8) - 32) as char
    } else {
        c
    }
}

fn to_ascii_upper(c: char) -> (u: char)
    ensures
        u == ascii_upper(c),
{
    if c >= 'a' && c <= 'z' {
        ((c as u8) - 32) as char
    } else {
        c
    }
}

impl KeyEvent {
    /// A press of `code` with `modifiers`.
    pub fn new(code: KeyCode, modifiers: KeyModifiers) -> (ev: KeyEvent)
        ensures
            ev == (KeyEvent {
                code,
                modifiers,
                kind: KeyEventKind::Press,
                state: KeyEventState { bits: 0 },
            }),
    {
        KeyEvent { code, modifiers, kind: KeyEventKind::Press, state: KeyEventState { bits: 0 } }
    }

    /// The event in the form in which chords are compared: a capital letter
    /// carries shift, and a letter typed with shift is a capital.
    pub open spec fn normalized(self) -> KeyEvent {
        match self.code {
            KeyCode::Char(c) => {
                if is_ascii_upper(c) {
                    KeyEvent { modifiers: self.modifiers.spec_with_shift(), ..self }
                } else if self.modifiers.spec_has_shift() {
                    KeyEvent { code: KeyCode::Char(ascii_upper(c)), ..self }
                } else {
                    self
                }
            },
            _ => self,
        }
    }

    /// Whether the two events are the same chord.
    pub open spec fn same_chord(self, other: KeyEvent) -> bool {
        self.normalized() == other.normalized()
    }

    fn normalize(self) -> (ev: KeyEvent)
        ensures
            ev == self.normalized(),
    {
        match self.code {
            KeyCode::Char(c) => {
                if c >= 'A' && c <= 'Z' {
                    KeyEvent {
                        code: self.code,
                        modifiers: self.modifiers.with_shift(),
                        kind: self.kind,
                        state: self.state,
                    }
                } else if self.modifiers.has_shift() {
                    KeyEvent {
                        code: KeyCode::Char(to_ascii_upper(c)),
                        modifiers: self.modifiers,
                        kind: self.kind,
                        state: self.state,
                    }
                } else {
                    self
                }
            },
            _ => self,
        }
    }

    /// Whether `self` and `other` are the same chord.
    pub fn matches(&self, other: &KeyEvent) -> (same: bool)
        ensures
            same == self.same_chord(*other),
    {
        let a = self.normalize();
        let b = other.normalize();
        a == b
    }
}

#[derive(Clone, Copy, Debug, PartialEq, Eq, Structural)]
pub enum MouseButton {
    Left,
    Right,
    Middle,
}

#[derive(Clone, Copy, Debug, PartialEq, Eq, Structural)]
pub enum MouseEventKind {
    Down(MouseButton),
    Up(MouseButton),
    Drag(MouseButton),
    Moved,
    ScrollDown,
    ScrollUp,
    ScrollLeft,
    ScrollRight,
}

/// A pointer event at a cell of the screen.
#[derive(Clone, Copy, Debug, PartialEq, Eq, Structural)]
pub struct MouseEvent {
    pub kind: MouseEventKind,
    pub column: u16,
    pub row: u16,
    pub modifiers: KeyModifiers,
}

/// An input event.
#[derive(Clone, Debug)]
pub enum Event {
    FocusGained,
    FocusLost,
    Key(KeyEvent),
    Mouse(MouseEvent),
    Paste(String),
    Resize(u16, u16),
}

} // verus!
