//! Keys, buttons and modifiers, independent of the window system.
use vstd::prelude::*;

pub mod laws;

verus! {

/// Whether a key or a button went down or up.
#[derive(Clone, Copy, Debug, PartialEq, Eq, Structural)]
pub enum KeyState {
    Pressed,
    Released,
}

impl KeyState {
    /// Whether it went down.
    pub fn is_pressed(self) -> (pressed: bool)
        ensures
            pressed == (self is Pressed),
    {
        match self {
            KeyState::Pressed => true,
            KeyState::Released => false,
        }
    }
}

/// The modifier keys that are held, one bit each.
#[derive(Clone, Copy, Debug, PartialEq, Eq, Structural)]
pub struct Modifiers(pub u8);

impl Modifiers {
    /// The bit of Shift.
    pub const SHIFT: u8 = 1;

    /// The bit of Control.
    pub const CONTROL: u8 = 2;

    /// The bit of Alt.
    pub const ALT: u8 = 4;

    /// The bit of Super.
    pub const SUPER: u8 = 8;

    /// Whether Shift is held.
    pub open spec fn has_shift(self) -> bool {
        self.0 & 1 != 0
    }

    /// Whether Control is held.
    pub open spec fn has_control(self) -> bool {
        self.0 & 2 != 0
    }

    /// Whether Alt is held.
    pub open spec fn has_alt(self) -> bool {
        self.0 & 4 != 0
    }

    /// Whether Super is held.
    pub open spec fn has_super(self) -> bool {
        self.0 & 8 != 0
    }

    /// No modifier.
    pub fn empty() -> (modifiers: Self)
        ensures
            modifiers == Modifiers(0),
    {
        Modifiers(0)
    }

    /// The modifiers given.
    pub fn new(shift: bool, control: bool, alt: bool, super_key: bool) -> (modifiers: Self)
        ensures
            modifiers.has_shift() == shift,
            modifiers.has_control() == control,
            modifiers.has_alt() == alt,
            modifiers.has_super() == super_key,
            modifiers.0 < 16,
    {
        let a: u8 = if shift {
            1
        } else {
            0
        };
        let b: u8 = if control {
            2
        } else {
            0
        };
        let c: u8 = if alt {
            4
        } else {
            0
        };
        let d: u8 = if super_key {
            8
        } else {
            0
        };
        let bits: u8 = a | b | c | d;
        assert(bits & 1 == a && bits & 2 == b && bits & 4 == c && bits & 8 == d && bits < 16)
            by (bit_vector)
            requires
                bits == a | b | c | d,
                a == 0 || a == 1,
                b == 0 || b == 2,
                c == 0 || c == 4,
                d == 0 || d == 8,
        ;
        Modifiers(bits)
    }

    /// Whether no modifier is held.
    pub fn is_empty(self) -> (empty: bool)
        ensures
            empty == (self == Modifiers(0)),
    {
        self.0 == 0
    }

    /// Whether Shift is held.
    pub fn shift_key(self) -> (held: bool)
        ensures
            held == self.has_shift(),
    {
        self.0 & 1 != 0
    }

    /// Whether Control is held.
    pub fn control_key(self) -> (held: bool)
        ensures
            held == self.has_control(),
    {
        self.0 & 2 != 0
    }

    /// Whether Alt is held.
    pub fn alt_key(self) -> (held: bool)
        ensures
            held == self.has_alt(),
    {
        self.0 & 4 != 0
    }

    /// Whether Super is held.
    pub fn super_key(self) -> (held: bool)
        ensures
            held == self.has_super(),
    {
        self.0 & 8 != 0
    }
}

impl Default for Modifiers {
    fn default() -> (modifiers: Self)
        ensures
            modifiers == Modifiers(0),
    {
        Modifiers(0)
    }
}

impl vstd::std_specs::ops::BitOrSpecImpl for Modifiers {
    open spec fn obeys_bitor_spec() -> bool {
        true
    }

    open spec fn bitor_req(self, rhs: Modifiers) -> bool {
        true
    }

    open spec fn bitor_spec(self, rhs: Modifiers) -> Modifiers {
        Modifiers(self.0 | rhs.0)
    }
}

impl std::ops::BitOr for Modifiers {
    type Output = Modifiers;

    fn bitor(self, rhs: Modifiers) -> (modifiers: Modifiers) {
        Modifiers(self.0 | rhs.0)
    }
}

impl std::ops::BitOrAssign for Modifiers {
    fn bitor_assign(&mut self, rhs: Modifiers)
        ensures
            *final(self) == Modifiers(old(self).0 | rhs.0),
    {
        self.0 = self.0 | rhs.0;
    }
}

/// A union holds the modifiers of both sides, and no others.
pub proof fn union_holds_both(left: Modifiers, right: Modifiers)
    ensures
        Modifiers(left.0 | right.0).has_shift() == (left.has_shift() || right.has_shift()),
        Modifiers(left.0 | right.0).has_control() == (left.has_control() || right.has_control()),
        Modifiers(left.0 | right.0).has_alt() == (left.has_alt() || right.has_alt()),
        Modifiers(left.0 | right.0).has_super() == (left.has_super() || right.has_super()),
{
    let a = left.0;
    let b = right.0;
    assert(((a | b) & 1 != 0) == (a & 1 != 0 || b & 1 != 0) && ((a | b) & 2 != 0) == (a & 2 != 0 || b
        & 2 != 0) && ((a | b) & 4 != 0) == (a & 4 != 0 || b & 4 != 0) && ((a | b) & 8 != 0) == (a & 8
        != 0 || b & 8 != 0)) by (bit_vector);
}

/// A key by its place on the keyboard.
#[derive(Clone, Copy, Debug, PartialEq, Eq, Structural)]
pub enum KeyCode {
    Enter,
    NumpadEnter,
    Backspace,
    Tab,
    Escape,
    Insert,
    Delete,
    PageUp,
    PageDown,
    Home,
    End,
    ArrowUp,
    ArrowDown,
    ArrowRight,
    ArrowLeft,
    F1,
    F2,
    F3,
    F4,
    F5,
    F6,
    F7,
    F8,
    F9,
    F10,
    F11,
    F12,
    Space,
    Digit2,
    Digit4,
    Digit6,
    Minus,
    Slash,
    BracketLeft,
    Backslash,
    BracketRight,
    KeyA,
    KeyB,
    KeyC,
    KeyD,
    KeyE,
    KeyF,
    KeyG,
    KeyH,
    KeyI,
    KeyJ,
    KeyK,
    KeyL,
    KeyM,
    KeyN,
    KeyO,
    KeyP,
    KeyQ,
    KeyR,
    KeyS,
    KeyT,
    KeyU,
    KeyV,
    KeyW,
    KeyX,
    KeyY,
    KeyZ,
}

/// The name of a key.
pub open spec fn key_name(code: KeyCode) -> Seq<char> {
    match code {
        KeyCode::Enter => "Enter"@,
        KeyCode::NumpadEnter => "NumpadEnter"@,
        KeyCode::Backspace => "Backspace"@,
        KeyCode::Tab => "Tab"@,
        KeyCode::Escape => "Escape"@,
        KeyCode::Insert => "Insert"@,
        KeyCode::Delete => "Delete"@,
        KeyCode::PageUp => "PageUp"@,
        KeyCode::PageDown => "PageDown"@,
        KeyCode::Home => "Home"@,
        KeyCode::End => "End"@,
        KeyCode::ArrowUp => "ArrowUp"@,
        KeyCode::ArrowDown => "ArrowDown"@,
        KeyCode::ArrowRight => "ArrowRight"@,
        KeyCode::ArrowLeft => "ArrowLeft"@,
        KeyCode::F1 => "F1"@,
        KeyCode::F2 => "F2"@,
        KeyCode::F3 => "F3"@,
        KeyCode::F4 => "F4"@,
        KeyCode::F5 => "F5"@,
        KeyCode::F6 => "F6"@,
        KeyCode::F7 => "F7"@,
        KeyCode::F8 => "F8"@,
        KeyCode::F9 => "F9"@,
        KeyCode::F10 => "F10"@,
        KeyCode::F11 => "F11"@,
        KeyCode::F12 => "F12"@,
        KeyCode::Space => "Space"@,
        KeyCode::Digit2 => "Digit2"@,
        KeyCode::Digit4 => "Digit4"@,
        KeyCode::Digit6 => "Digit6"@,
        KeyCode::Minus => "Minus"@,
        KeyCode::Slash => "Slash"@,
        KeyCode::BracketLeft => "BracketLeft"@,
        KeyCode::Backslash => "Backslash"@,
        KeyCode::BracketRight => "BracketRight"@,
        KeyCode::KeyA => "KeyA"@,
        KeyCode::KeyB => "KeyB"@,
        KeyCode::KeyC => "KeyC"@,
        KeyCode::KeyD => "KeyD"@,
        KeyCode::KeyE => "KeyE"@,
        KeyCode::KeyF => "KeyF"@,
        KeyCode::KeyG => "KeyG"@,
        KeyCode::KeyH => "KeyH"@,
        KeyCode::KeyI => "KeyI"@,
        KeyCode::KeyJ => "KeyJ"@,
        KeyCode::KeyK => "KeyK"@,
        KeyCode::KeyL => "KeyL"@,
        KeyCode::KeyM => "KeyM"@,
        KeyCode::KeyN => "KeyN"@,
        KeyCode::KeyO => "KeyO"@,
        KeyCode::KeyP => "KeyP"@,
        KeyCode::KeyQ => "KeyQ"@,
        KeyCode::KeyR => "KeyR"@,
        KeyCode::KeyS => "KeyS"@,
        KeyCode::KeyT => "KeyT"@,
        KeyCode::KeyU => "KeyU"@,
        KeyCode::KeyV => "KeyV"@,
        KeyCode::KeyW => "KeyW"@,
        KeyCode::KeyX => "KeyX"@,
        KeyCode::KeyY => "KeyY"@,
        KeyCode::KeyZ => "KeyZ"@,
    }
}

impl KeyCode {
    /// The name of the key.
    pub fn name(self) -> (name: &'static str)
        ensures
            name@ == key_name(self),
    {
        match self {
            KeyCode::Enter => "Enter",
            KeyCode::NumpadEnter => "NumpadEnter",
            KeyCode::Backspace => "Backspace",
            KeyCode::Tab => "Tab",
            KeyCode::Escape => "Escape",
            KeyCode::Insert => "Insert",
            KeyCode::Delete => "Delete",
            KeyCode::PageUp => "PageUp",
            KeyCode::PageDown => "PageDown",
            KeyCode::Home => "Home",
            KeyCode::End => "End",
            KeyCode::ArrowUp => "ArrowUp",
            KeyCode::ArrowDown => "ArrowDown",
            KeyCode::ArrowRight => "ArrowRight",
            KeyCode::ArrowLeft => "ArrowLeft",
            KeyCode::F1 => "F1",
            KeyCode::F2 => "F2",
            KeyCode::F3 => "F3",
            KeyCode::F4 => "F4",
            KeyCode::F5 => "F5",
            KeyCode::F6 => "F6",
            KeyCode::F7 => "F7",
            KeyCode::F8 => "F8",
            KeyCode::F9 => "F9",
            KeyCode::F10 => "F10",
            KeyCode::F11 => "F11",
            KeyCode::F12 => "F12",
            KeyCode::Space => "Space",
            KeyCode::Digit2 => "Digit2",
            KeyCode::Digit4 => "Digit4",
            KeyCode::Digit6 => "Digit6",
            KeyCode::Minus => "Minus",
            KeyCode::Slash => "Slash",
            KeyCode::BracketLeft => "BracketLeft",
            KeyCode::Backslash => "Backslash",
            KeyCode::BracketRight => "BracketRight",
            KeyCode::KeyA => "KeyA",
            KeyCode::KeyB => "KeyB",
            KeyCode::KeyC => "KeyC",
            KeyCode::KeyD => "KeyD",
            KeyCode::KeyE => "KeyE",
            KeyCode::KeyF => "KeyF",
            KeyCode::KeyG => "KeyG",
            KeyCode::KeyH => "KeyH",
            KeyCode::KeyI => "KeyI",
            KeyCode::KeyJ => "KeyJ",
            KeyCode::KeyK => "KeyK",
            KeyCode::KeyL => "KeyL",
            KeyCode::KeyM => "KeyM",
            KeyCode::KeyN => "KeyN",
            KeyCode::KeyO => "KeyO",
            KeyCode::KeyP => "KeyP",
            KeyCode::KeyQ => "KeyQ",
            KeyCode::KeyR => "KeyR",
            KeyCode::KeyS => "KeyS",
            KeyCode::KeyT => "KeyT",
            KeyCode::KeyU => "KeyU",
            KeyCode::KeyV => "KeyV",
            KeyCode::KeyW => "KeyW",
            KeyCode::KeyX => "KeyX",
            KeyCode::KeyY => "KeyY",
            KeyCode::KeyZ => "KeyZ",
        }
    }
}

/// The key of an event.
#[derive(Clone, Copy, Debug, PartialEq, Eq, Structural)]
pub enum PhysicalKey {
    Code(KeyCode),
    Unidentified,
}

/// A key that went down or up.
#[derive(Clone, Copy, Debug, PartialEq, Eq, Structural)]
pub struct KeyInput {
    pub state: KeyState,
    pub physical_key: PhysicalKey,
}

/// A button of the pointer.
#[derive(Clone, Copy, Debug, PartialEq, Eq, Structural)]
pub enum PointerButton {
    Left,
    Middle,
    Right,
    Back,
    Forward,
    Other(u16),
}

/// The shape of the pointer.
#[derive(Clone, Copy, Debug, PartialEq, Eq, Structural)]
pub enum CursorKind {
    Default,
    Pointer,
    Text,
}

impl Default for CursorKind {
    fn default() -> (kind: Self)
        ensures
            kind == CursorKind::Default,
    {
        CursorKind::Default
    }
}

} // verus!
