//! What a terminal is sent for keys, text, pointer events and pasted text.
use vstd::prelude::*;
use vstd::utf8::*;

use crate::bytes;
use crate::input_types::{KeyCode, KeyState, PhysicalKey, PointerButton};
use crate::terminal;
use crate::terminal::{MouseTrackingMode, TermGrid};
use crate::text;

pub mod laws;

verus! {

/// What the pointer holds on to between a press and the release.
#[derive(Clone, Copy, Debug, PartialEq, Eq, Structural)]
pub enum PointerCapture {
    /// Nothing.
    Free,
    /// The selection of the terminal.
    TerminalSelection,
    /// The scrollbar of the terminal.
    TerminalScrollbar,
    /// The query of the search.
    SearchInput,
    /// Another part of the search.
    SearchControl,
}

/// Lets go of what the pointer holds on to, and says what it was.
pub fn release_pointer_capture(capture: &mut PointerCapture) -> (released: PointerCapture)
    ensures
        released == *old(capture),
        *final(capture) == PointerCapture::Free,
{
    let released = *capture;
    *capture = PointerCapture::Free;
    released
}

/// What Ctrl+C does in a terminal.
#[derive(Clone, Copy, Debug, PartialEq, Eq, Structural)]
pub enum TerminalCtrlCAction {
    CopySelection,
    SendInterrupt,
}

/// What Ctrl+C does: it copies the selection where there is one, and interrupts otherwise.
pub fn terminal_ctrl_c_action(has_selection: bool) -> (action: TerminalCtrlCAction)
    ensures
        action == if has_selection {
            TerminalCtrlCAction::CopySelection
        } else {
            TerminalCtrlCAction::SendInterrupt
        },
{
    if has_selection {
        TerminalCtrlCAction::CopySelection
    } else {
        TerminalCtrlCAction::SendInterrupt
    }
}

/// The bytes of a key, after an escape where Alt is held.
pub open spec fn alt_prefixed(bytes: Seq<u8>, alt: bool) -> Seq<u8> {
    if alt {
        seq![0x1bu8] + bytes
    } else {
        bytes
    }
}

/// The number that stands for held modifiers in a sequence; none where none is held.
pub open spec fn modifier_number(shift: bool, alt: bool, ctrl: bool) -> Option<u8> {
    let number = 1 + (if shift {
        1int
    } else {
        0
    }) + (if alt {
        2int
    } else {
        0
    }) + (if ctrl {
        4int
    } else {
        0
    });
    if number == 1 {
        None
    } else {
        Some(number as u8)
    }
}

/// The sequence of a cursor key that ends in `final_byte`.
pub open spec fn cursor_key(final_byte: u8, app: bool, shift: bool, alt: bool, ctrl: bool) -> Seq<u8> {
    match modifier_number(shift, alt, ctrl) {
        Some(number) => seq![0x1bu8, 0x5b, 0x31, 0x3b, (0x30 + number) as u8, final_byte],
        None => seq![
            0x1bu8,
            if app {
                0x4f
            } else {
                0x5b
            },
            final_byte,
        ],
    }
}

/// The sequence of an editing key, which the byte of its digit tells apart.
pub open spec fn tilde_key(code: u8, shift: bool, alt: bool, ctrl: bool) -> Seq<u8> {
    match modifier_number(shift, alt, ctrl) {
        Some(number) => seq![
            0x1bu8,
            0x5b,
            (0x30 + code) as u8,
            0x3b,
            (0x30 + number) as u8,
            0x7e,
        ],
        None => seq![0x1bu8, 0x5b, (0x30 + code) as u8, 0x7e],
    }
}

/// The sequence of a function key: one of the first four, which end in `ss3`, or another by its
/// number, the tens in one byte.
pub open spec fn function_key(code: u8, ss3: u8, shift: bool, alt: bool, ctrl: bool) -> Seq<u8> {
    let number = if ss3 != 0 {
        seq![0x31u8]
    } else if code >= 10 {
        seq![(0x30 + code / 10) as u8, (0x30 + code % 10) as u8]
    } else {
        seq![(0x30 + code % 10) as u8]
    };
    let end = if ss3 != 0 {
        ss3
    } else {
        0x7e
    };
    match modifier_number(shift, alt, ctrl) {
        Some(modifier) => (seq![0x1bu8, 0x5b] + number).push(0x3b).push(
            (0x30 + modifier) as u8,
        ).push(end),
        None => if ss3 != 0 {
            seq![0x1bu8, 0x4f, ss3]
        } else {
            (seq![0x1bu8, 0x5b] + number).push(end)
        },
    }
}

/// The form of the bytes that a key sends.
#[derive(Clone, Copy, Debug, PartialEq, Eq, Structural)]
pub enum KeyForm {
    /// One byte, after an escape where Alt is held.
    Byte(u8),
    /// The escape alone.
    Escape,
    /// The backward tab.
    BackTab,
    /// A cursor key, by its last byte.
    Cursor(u8),
    /// An editing key, by its digit.
    Tilde(u8),
    /// A function key, by its number and, for the first four, its last byte.
    Function(u8, u8),
}

/// The control character of a key that is held with Ctrl.
pub open spec fn control_byte(code: KeyCode) -> Option<u8> {
    match code {
        KeyCode::Space => Some(0),
        KeyCode::Digit2 => Some(0),
        KeyCode::KeyA => Some(1),
        KeyCode::KeyB => Some(2),
        KeyCode::KeyC => Some(3),
        KeyCode::KeyD => Some(4),
        KeyCode::KeyE => Some(5),
        KeyCode::KeyG => Some(7),
        KeyCode::KeyH => Some(8),
        KeyCode::KeyI => Some(9),
        KeyCode::KeyJ => Some(10),
        KeyCode::KeyK => Some(11),
        KeyCode::KeyL => Some(12),
        KeyCode::KeyM => Some(13),
        KeyCode::KeyN => Some(14),
        KeyCode::KeyO => Some(15),
        KeyCode::KeyP => Some(16),
        KeyCode::KeyQ => Some(17),
        KeyCode::KeyR => Some(18),
        KeyCode::KeyS => Some(19),
        KeyCode::KeyT => Some(20),
        KeyCode::KeyU => Some(21),
        KeyCode::KeyW => Some(23),
        KeyCode::KeyX => Some(24),
        KeyCode::KeyY => Some(25),
        KeyCode::KeyZ => Some(26),
        KeyCode::BracketLeft => Some(27),
        KeyCode::Backslash => Some(28),
        KeyCode::BracketRight => Some(29),
        KeyCode::Digit6 => Some(30),
        KeyCode::Minus => Some(31),
        KeyCode::Slash => Some(31),
        _ => None,
    }
}

/// The form of the bytes that a key sends; none where it sends none of its own.
pub open spec fn key_form(code: KeyCode, shift: bool, ctrl: bool) -> Option<KeyForm> {
    match code {
        KeyCode::Enter => Some(KeyForm::Byte(0x0d)),
        KeyCode::NumpadEnter => Some(KeyForm::Byte(0x0d)),
        KeyCode::Backspace => Some(
            KeyForm::Byte(
                if ctrl {
                    0x17
                } else if shift {
                    0x08
                } else {
                    0x7f
                },
            ),
        ),
        KeyCode::Tab => if shift {
            Some(KeyForm::BackTab)
        } else {
            Some(KeyForm::Byte(0x09))
        },
        KeyCode::Escape => Some(KeyForm::Escape),
        KeyCode::Insert => Some(KeyForm::Tilde(2)),
        KeyCode::Delete => Some(KeyForm::Tilde(3)),
        KeyCode::PageUp => Some(KeyForm::Tilde(5)),
        KeyCode::PageDown => Some(KeyForm::Tilde(6)),
        KeyCode::Home => Some(KeyForm::Cursor(0x48)),
        KeyCode::End => Some(KeyForm::Cursor(0x46)),
        KeyCode::ArrowUp => Some(KeyForm::Cursor(0x41)),
        KeyCode::ArrowDown => Some(KeyForm::Cursor(0x42)),
        KeyCode::ArrowRight => Some(KeyForm::Cursor(0x43)),
        KeyCode::ArrowLeft => Some(KeyForm::Cursor(0x44)),
        KeyCode::F1 => Some(KeyForm::Function(11, 0x50)),
        KeyCode::F2 => Some(KeyForm::Function(12, 0x51)),
        KeyCode::F3 => Some(KeyForm::Function(13, 0x52)),
        KeyCode::F4 => Some(KeyForm::Function(14, 0x53)),
        KeyCode::F5 => Some(KeyForm::Function(15, 0)),
        KeyCode::F6 => Some(KeyForm::Function(17, 0)),
        KeyCode::F7 => Some(KeyForm::Function(18, 0)),
        KeyCode::F8 => Some(KeyForm::Function(19, 0)),
        KeyCode::F9 => Some(KeyForm::Function(20, 0)),
        KeyCode::F10 => Some(KeyForm::Function(21, 0)),
        KeyCode::F11 => Some(KeyForm::Function(23, 0)),
        KeyCode::F12 => Some(KeyForm::Function(24, 0)),
        _ => match control_byte(code) {
            Some(byte) => if ctrl {
                Some(KeyForm::Byte(byte))
            } else {
                None
            },
            None => None,
        },
    }
}

/// The bytes that a key sends with the modifiers given; none where it sends none of its own.
pub open spec fn key_sequence(
    key: PhysicalKey,
    shift: bool,
    ctrl: bool,
    alt: bool,
    app_cursor_keys: bool,
) -> Option<Seq<u8>> {
    match key {
        PhysicalKey::Unidentified => None,
        PhysicalKey::Code(code) => match key_form(code, shift, ctrl) {
            None => None,
            Some(KeyForm::Byte(byte)) => Some(alt_prefixed(seq![byte], alt)),
            Some(KeyForm::Escape) => Some(seq![0x1bu8]),
            Some(KeyForm::BackTab) => Some(seq![0x1bu8, 0x5b, 0x5a]),
            Some(KeyForm::Cursor(end)) => Some(cursor_key(end, app_cursor_keys, shift, alt, ctrl)),
            Some(KeyForm::Tilde(digit)) => Some(tilde_key(digit, shift, alt, ctrl)),
            Some(KeyForm::Function(number, end)) => Some(
                function_key(number, end, shift, alt, ctrl),
            ),
        },
    }
}

/// The bytes, after an escape where Alt is held.
pub fn terminal_alt_prefixed(bytes: &[u8], alt: bool) -> (out: Vec<u8>)
    ensures
        out@ == alt_prefixed(bytes@, alt),
{
    if !alt {
        return bytes::copy(bytes);
    }
    let mut out: Vec<u8> = Vec::new();
    out.push(0x1b);
    bytes::append(&mut out, bytes);
    assert(out@ =~= seq![0x1bu8] + bytes@);
    out
}

/// The number that stands for held modifiers.
pub fn terminal_modifier(shift: bool, alt: bool, ctrl: bool) -> (number: Option<u8>)
    ensures
        number == modifier_number(shift, alt, ctrl),
        number matches Some(value) ==> 2 <= value <= 8,
{
    let a: u8 = if shift {
        1
    } else {
        0
    };
    let b: u8 = if alt {
        2
    } else {
        0
    };
    let c: u8 = if ctrl {
        4
    } else {
        0
    };
    let number: u8 = 1 + a + b + c;
    if number != 1 {
        Some(number)
    } else {
        None
    }
}

/// The sequence of a cursor key.
pub fn terminal_cursor_key(final_byte: u8, app: bool, shift: bool, alt: bool, ctrl: bool) -> (out:
    Vec<u8>)
    ensures
        out@ == cursor_key(final_byte, app, shift, alt, ctrl),
{
    let mut out: Vec<u8> = Vec::new();
    out.push(0x1b);
    if let Some(modifier) = terminal_modifier(shift, alt, ctrl) {
        out.push(0x5b);
        out.push(0x31);
        out.push(0x3b);
        out.push(0x30 + modifier);
        out.push(final_byte);
    } else {
        out.push(
            if app {
                0x4f
            } else {
                0x5b
            },
        );
        out.push(final_byte);
    }
    assert(out@ =~= cursor_key(final_byte, app, shift, alt, ctrl));
    out
}

/// The sequence of an editing key.
pub fn terminal_tilde_key(code: u8, shift: bool, alt: bool, ctrl: bool) -> (out: Vec<u8>)
    requires
        code <= u8::MAX - 0x30,
    ensures
        out@ == tilde_key(code, shift, alt, ctrl),
{
    let mut out: Vec<u8> = Vec::new();
    out.push(0x1b);
    out.push(0x5b);
    out.push(0x30 + code);
    if let Some(modifier) = terminal_modifier(shift, alt, ctrl) {
        out.push(0x3b);
        out.push(0x30 + modifier);
    }
    out.push(0x7e);
    assert(out@ =~= tilde_key(code, shift, alt, ctrl));
    out
}

/// The sequence of a function key.
pub fn terminal_function_key(code: u8, ss3: u8, shift: bool, alt: bool, ctrl: bool) -> (out: Vec<u8>)
    ensures
        out@ == function_key(code, ss3, shift, alt, ctrl),
{
    let modifier = terminal_modifier(shift, alt, ctrl);
    let mut out: Vec<u8> = Vec::new();
    out.push(0x1b);
    if ss3 != 0 && modifier.is_none() {
        out.push(0x4f);
        out.push(ss3);
        assert(out@ =~= seq![0x1bu8, 0x4f, ss3]);
        return out;
    }
    out.push(0x5b);
    if ss3 != 0 {
        out.push(0x31);
    } else {
        if code >= 10 {
            out.push(0x30 + code / 10);
        }
        out.push(0x30 + code % 10);
    }
    if let Some(modifier) = modifier {
        out.push(0x3b);
        out.push(0x30 + modifier);
    }
    if ss3 != 0 {
        out.push(ss3);
    } else {
        out.push(0x7e);
    }
    assert(out@ =~= function_key(code, ss3, shift, alt, ctrl));
    out
}

/// The control character of a key that is held with Ctrl.
fn terminal_control_byte(code: KeyCode) -> (byte: Option<u8>)
    ensures
        byte == control_byte(code),
{
    let byte: u8 = match code {
        KeyCode::Space => 0,
        KeyCode::Digit2 => 0,
        KeyCode::KeyA => 1,
        KeyCode::KeyB => 2,
        KeyCode::KeyC => 3,
        KeyCode::KeyD => 4,
        KeyCode::KeyE => 5,
        KeyCode::KeyG => 7,
        KeyCode::KeyH => 8,
        KeyCode::KeyI => 9,
        KeyCode::KeyJ => 10,
        KeyCode::KeyK => 11,
        KeyCode::KeyL => 12,
        KeyCode::KeyM => 13,
        KeyCode::KeyN => 14,
        KeyCode::KeyO => 15,
        KeyCode::KeyP => 16,
        KeyCode::KeyQ => 17,
        KeyCode::KeyR => 18,
        KeyCode::KeyS => 19,
        KeyCode::KeyT => 20,
        KeyCode::KeyU => 21,
        KeyCode::KeyW => 23,
        KeyCode::KeyX => 24,
        KeyCode::KeyY => 25,
        KeyCode::KeyZ => 26,
        KeyCode::BracketLeft => 27,
        KeyCode::Backslash => 28,
        KeyCode::BracketRight => 29,
        KeyCode::Digit6 => 30,
        KeyCode::Minus => 31,
        KeyCode::Slash => 31,
        _ => {
            return None;
        },
    };
    Some(byte)
}

/// The form of the bytes that a key sends.
fn terminal_key_form(code: KeyCode, shift: bool, ctrl: bool) -> (form: Option<KeyForm>)
    ensures
        form == key_form(code, shift, ctrl),
{
    let form = match code {
        KeyCode::Enter => KeyForm::Byte(0x0d),
        KeyCode::NumpadEnter => KeyForm::Byte(0x0d),
        KeyCode::Backspace => {
            if ctrl {
                KeyForm::Byte(0x17)
            } else if shift {
                KeyForm::Byte(0x08)
            } else {
                KeyForm::Byte(0x7f)
            }
        },
        KeyCode::Tab => {
            if shift {
                KeyForm::BackTab
            } else {
                KeyForm::Byte(0x09)
            }
        },
        KeyCode::Escape => KeyForm::Escape,
        KeyCode::Insert => KeyForm::Tilde(2),
        KeyCode::Delete => KeyForm::Tilde(3),
        KeyCode::PageUp => KeyForm::Tilde(5),
        KeyCode::PageDown => KeyForm::Tilde(6),
        KeyCode::Home => KeyForm::Cursor(0x48),
        KeyCode::End => KeyForm::Cursor(0x46),
        KeyCode::ArrowUp => KeyForm::Cursor(0x41),
        KeyCode::ArrowDown => KeyForm::Cursor(0x42),
        KeyCode::ArrowRight => KeyForm::Cursor(0x43),
        KeyCode::ArrowLeft => KeyForm::Cursor(0x44),
        KeyCode::F1 => KeyForm::Function(11, 0x50),
        KeyCode::F2 => KeyForm::Function(12, 0x51),
        KeyCode::F3 => KeyForm::Function(13, 0x52),
        KeyCode::F4 => KeyForm::Function(14, 0x53),
        KeyCode::F5 => KeyForm::Function(15, 0),
        KeyCode::F6 => KeyForm::Function(17, 0),
        KeyCode::F7 => KeyForm::Function(18, 0),
        KeyCode::F8 => KeyForm::Function(19, 0),
        KeyCode::F9 => KeyForm::Function(20, 0),
        KeyCode::F10 => KeyForm::Function(21, 0),
        KeyCode::F11 => KeyForm::Function(23, 0),
        KeyCode::F12 => KeyForm::Function(24, 0),
        _ => {
            if !ctrl {
                return None;
            }
            match terminal_control_byte(code) {
                Some(byte) => KeyForm::Byte(byte),
                None => {
                    return None;
                },
            }
        },
    };
    Some(form)
}

/// The bytes that a key sends with the modifiers given; none where it sends none of its own.
pub fn terminal_key_sequence(
    physical_key: PhysicalKey,
    shift: bool,
    ctrl: bool,
    alt: bool,
    app_cursor_keys: bool,
) -> (sequence: Option<Vec<u8>>)
    ensures
        match key_sequence(physical_key, shift, ctrl, alt, app_cursor_keys) {
            Some(expected) => sequence is Some && sequence->0@ == expected,
            None => sequence is None,
        },
{
    let code = match physical_key {
        PhysicalKey::Code(code) => code,
        PhysicalKey::Unidentified => {
            return None;
        },
    };
    let mut out: Vec<u8> = Vec::new();
    match terminal_key_form(code, shift, ctrl) {
        None => None,
        Some(KeyForm::Byte(byte)) => {
            out.push(byte);
            assert(out@ =~= seq![byte]);
            Some(terminal_alt_prefixed(out.as_slice(), alt))
        },
        Some(KeyForm::Escape) => {
            out.push(0x1b);
            assert(out@ =~= seq![0x1bu8]);
            Some(out)
        },
        Some(KeyForm::BackTab) => {
            out.push(0x1b);
            out.push(0x5b);
            out.push(0x5a);
            assert(out@ =~= seq![0x1bu8, 0x5b, 0x5a]);
            Some(out)
        },
        Some(KeyForm::Cursor(end)) => Some(
            terminal_cursor_key(end, app_cursor_keys, shift, alt, ctrl),
        ),
        Some(KeyForm::Tilde(digit)) => Some(terminal_tilde_key(digit, shift, alt, ctrl)),
        Some(KeyForm::Function(number, end)) => Some(
            terminal_function_key(number, end, shift, alt, ctrl),
        ),
    }
}

/// Every sequence of a key that Alt changes by a prefix is the plain one after an escape.
pub proof fn alt_prefixes_single_bytes(code: KeyCode, shift: bool, ctrl: bool, app: bool, byte: u8)
    requires
        key_form(code, shift, ctrl) == Some(KeyForm::Byte(byte)),
    ensures
        key_sequence(PhysicalKey::Code(code), shift, ctrl, true, app) == Some(
            seq![0x1bu8] + key_sequence(PhysicalKey::Code(code), shift, ctrl, false, app)->0,
        ),
{
}

/// No key sends an empty sequence.
pub proof fn sequences_are_not_empty(key: PhysicalKey, shift: bool, ctrl: bool, alt: bool, app: bool)
    ensures
        key_sequence(key, shift, ctrl, alt, app) matches Some(sequence) ==> sequence.len() > 0,
{
}

/// The bytes that typed text sends; none with Ctrl or Super, whose keys are no text.
pub fn terminal_text_sequence(text: &str, ctrl: bool, alt: bool, super_key: bool) -> (sequence:
    Option<Vec<u8>>)
    ensures
        sequence is None <==> text@.len() == 0 || ctrl || super_key,
        sequence is Some ==> sequence->0@ == alt_prefixed(encode_utf8(text@), alt),
{
    if text.is_empty() || ctrl || super_key {
        return None;
    }
    Some(terminal_alt_prefixed(text.as_bytes(), alt))
}

/// The code of a button in pointer reports; none where the button is not reported.
pub open spec fn button_code(button: PointerButton) -> Option<u8> {
    match button {
        PointerButton::Left => Some(0),
        PointerButton::Middle => Some(1),
        PointerButton::Right => Some(2),
        _ => None,
    }
}

/// The code of a button in pointer reports.
pub fn terminal_mouse_button_code(button: PointerButton) -> (code: Option<u8>)
    ensures
        code == button_code(button),
{
    match button {
        PointerButton::Left => Some(0),
        PointerButton::Middle => Some(1),
        PointerButton::Right => Some(2),
        _ => None,
    }
}

/// The report of a pointer event: its code and its cell, counted from one. The older form has no
/// room for cells beyond the last that it can count, nor for the button of a release.
pub open spec fn mouse_report(code: u8, x: usize, y: usize, pressed: bool, sgr: bool) -> Seq<u8> {
    if sgr {
        encode_utf8(
            "\u{1b}[<"@ + text::decimal(code as nat) + ";"@ + text::decimal(x as nat) + ";"@
                + text::decimal(y as nat) + (if pressed {
                "M"@
            } else {
                "m"@
            }),
        )
    } else {
        seq![
            0x1bu8,
            0x5b,
            0x4d,
            legacy_number(
                if pressed {
                    code as nat
                } else {
                    3
                },
                255,
            ),
            legacy_number(x as nat, 223),
            legacy_number(y as nat, 223),
        ]
    }
}

/// A number in the older form of report.
pub open spec fn legacy_number(value: nat, largest: nat) -> u8 {
    let kept = if value < largest {
        value
    } else {
        largest
    };
    if kept + 32 <= 255 {
        (kept + 32) as u8
    } else {
        255
    }
}

fn legacy_byte(value: usize) -> (byte: u8)
    ensures
        byte == legacy_number(value as nat, 223),
{
    let kept: u8 = if value < 223 {
        value as u8
    } else {
        223
    };
    kept.saturating_add(32)
}

/// The report of a pointer event.
pub fn terminal_mouse_protocol_sequence(code: u8, x: usize, y: usize, pressed: bool, sgr: bool) -> (out:
    Vec<u8>)
    ensures
        out@ == mouse_report(code, x, y, pressed, sgr),
{
    if sgr {
        let mut report = "\u{1b}[<".to_owned();
        text::push_decimal(&mut report, code as u64);
        report.push_str(";");
        text::push_decimal(&mut report, x as u64);
        report.push_str(";");
        text::push_decimal(&mut report, y as u64);
        report.push_str(
            if pressed {
                "M"
            } else {
                "m"
            },
        );
        return bytes::copy(report.as_str().as_bytes());
    }
    let legacy_code: u8 = if pressed {
        code
    } else {
        3
    };
    let mut out: Vec<u8> = Vec::new();
    out.push(0x1b);
    out.push(0x5b);
    out.push(0x4d);
    out.push(legacy_code.saturating_add(32));
    out.push(legacy_byte(x));
    out.push(legacy_byte(y));
    assert(out@ =~= mouse_report(code, x, y, pressed, sgr));
    out
}

/// The bit of a button code.
pub open spec fn button_bit(code: u8) -> u8 {
    if code == 0 {
        1
    } else if code == 1 {
        2
    } else {
        4
    }
}

/// The held buttons after an event.
pub open spec fn buttons_after(buttons: u8, button: PointerButton, state: KeyState) -> u8 {
    match button_code(button) {
        None => buttons,
        Some(code) => if state is Pressed {
            buttons | button_bit(code)
        } else {
            buttons & !button_bit(code)
        },
    }
}

/// Notes a button that went down or up among the held ones. Buttons that are not reported are not
/// noted.
pub fn update_pressed_mouse_buttons(buttons: &mut u8, button: PointerButton, state: KeyState)
    ensures
        *final(buttons) == buttons_after(*old(buttons), button, state),
{
    let code: u8 = match terminal_mouse_button_code(button) {
        Some(code) => code,
        None => {
            return ;
        },
    };
    let bit: u8 = if code == 0 {
        1
    } else if code == 1 {
        2
    } else {
        4
    };
    if state.is_pressed() {
        *buttons = *buttons | bit;
    } else {
        *buttons = *buttons & !bit;
    }
}

/// A button that went down is held, one that went up is not, and the others stay as they were.
pub proof fn button_state_follows_events(
    buttons: u8,
    button: PointerButton,
    other: PointerButton,
    state: KeyState,
)
    requires
        button_code(button) is Some,
        button_code(other) is Some,
    ensures
        ({
            let after = buttons_after(buttons, button, state);
            let bit = button_bit(button_code(button)->0);
            let other_bit = button_bit(button_code(other)->0);
            &&& (after & bit != 0) == (state is Pressed)
            &&& other != button ==> (after & other_bit != 0) == (buttons & other_bit != 0)
        }),
{
    let bit = button_bit(button_code(button)->0);
    let other_bit = button_bit(button_code(other)->0);
    assert((bit == 1 || bit == 2 || bit == 4) && (other_bit == 1 || other_bit == 2 || other_bit
        == 4));
    assert((buttons | bit) & bit != 0 && (buttons & !bit) & bit == 0 && (bit != other_bit ==> (((
    buttons | bit) & other_bit != 0) == (buttons & other_bit != 0) && ((buttons & !bit) & other_bit
        != 0) == (buttons & other_bit != 0)))) by (bit_vector)
        requires
            bit == 1 || bit == 2 || bit == 4,
            other_bit == 1 || other_bit == 2 || other_bit == 4,
    ;
}

/// The code of the first held button, in the order left, middle, right.
pub open spec fn first_pressed(buttons: u8) -> Option<u8> {
    if buttons & 1 != 0 {
        Some(0)
    } else if buttons & 2 != 0 {
        Some(1)
    } else if buttons & 4 != 0 {
        Some(2)
    } else {
        None
    }
}

/// The code of the first held button.
pub fn terminal_first_pressed_button_code(buttons: u8) -> (code: Option<u8>)
    ensures
        code == first_pressed(buttons),
        code matches Some(code) ==> code <= 2,
{
    if buttons & 1 != 0 {
        Some(0)
    } else if buttons & 2 != 0 {
        Some(1)
    } else if buttons & 4 != 0 {
        Some(2)
    } else {
        None
    }
}

/// The report of a button event at a cell of the screen; none where the pointer holds on to something,
/// the terminal asked for none, the pointer is not over the text, or the button is not reported.
pub open spec fn button_report(
    capture: PointerCapture,
    tracking: MouseTrackingMode,
    sgr: bool,
    state: KeyState,
    button: PointerButton,
    cell: Option<(usize, usize)>,
) -> Option<Seq<u8>> {
    match (cell, button_code(button)) {
        (Some((x, y)), Some(code)) => if !(capture is Free) || tracking is Off {
            None
        } else {
            Some(mouse_report(code, x, y, state is Pressed, sgr))
        },
        _ => None,
    }
}

/// The report of a button event.
pub fn terminal_mouse_event_sequence(
    capture: PointerCapture,
    tracking: MouseTrackingMode,
    sgr: bool,
    state: KeyState,
    button: PointerButton,
    cell: Option<(usize, usize)>,
) -> (report: Option<Vec<u8>>)
    ensures
        match button_report(capture, tracking, sgr, state, button, cell) {
            Some(expected) => report is Some && report->0@ == expected,
            None => report is None,
        },
{
    if capture != PointerCapture::Free || !tracking.enabled() {
        return None;
    }
    match (cell, terminal_mouse_button_code(button)) {
        (Some((x, y)), Some(code)) => Some(
            terminal_mouse_protocol_sequence(code, x, y, state.is_pressed(), sgr),
        ),
        _ => None,
    }
}

/// The report of a motion to a cell of the screen; none where the terminal did not ask for it with the
/// buttons that are held, or the pointer is not over the text.
pub open spec fn motion_report(
    tracking: MouseTrackingMode,
    sgr: bool,
    buttons: u8,
    cell: Option<(usize, usize)>,
) -> Option<Seq<u8>> {
    let code = match tracking {
        MouseTrackingMode::AnyMotion => if buttons == 0 {
            Some(3u8)
        } else {
            first_pressed(buttons)
        },
        MouseTrackingMode::ButtonMotion => first_pressed(buttons),
        _ => None,
    };
    match (code, cell) {
        (Some(code), Some((x, y))) => Some(mouse_report((code + 32) as u8, x, y, true, sgr)),
        _ => None,
    }
}

/// The report of a motion.
pub fn terminal_mouse_motion_sequence(
    tracking: MouseTrackingMode,
    sgr: bool,
    pressed_buttons: u8,
    cell: Option<(usize, usize)>,
) -> (report: Option<Vec<u8>>)
    ensures
        match motion_report(tracking, sgr, pressed_buttons, cell) {
            Some(expected) => report is Some && report->0@ == expected,
            None => report is None,
        },
{
    let code: Option<u8> = match tracking {
        MouseTrackingMode::AnyMotion => {
            if pressed_buttons == 0 {
                Some(3)
            } else {
                terminal_first_pressed_button_code(pressed_buttons)
            }
        },
        MouseTrackingMode::ButtonMotion => terminal_first_pressed_button_code(pressed_buttons),
        _ => None,
    };
    match (code, cell) {
        (Some(code), Some((x, y))) => Some(
            terminal_mouse_protocol_sequence(code + 32, x, y, true, sgr),
        ),
        _ => None,
    }
}

/// The sequence `unit`, `count` times over.
pub open spec fn repeated(unit: Seq<u8>, count: nat) -> Seq<u8>
    decreases count,
{
    if count == 0 {
        Seq::empty()
    } else {
        repeated(unit, (count - 1) as nat) + unit
    }
}

/// How many times a turn of the wheel is reported.
pub open spec fn wheel_count(steps: usize) -> nat {
    if steps < 3 {
        steps as nat
    } else {
        3
    }
}

fn repeat(unit: &[u8], steps: usize) -> (out: Vec<u8>)
    ensures
        out@ == repeated(unit@, wheel_count(steps)),
{
    let count: usize = if steps < 3 {
        steps
    } else {
        3
    };
    let mut out: Vec<u8> = Vec::new();
    let mut i: usize = 0;
    assert(out@ =~= repeated(unit@, 0));
    while i < count
        invariant
            i <= count,
            out@ == repeated(unit@, i as nat),
        decreases count - i,
    {
        bytes::append(&mut out, unit);
        i += 1;
    }
    out
}

/// The report of a turn of the wheel by `steps`; none where the terminal asked for none or the pointer
/// is not over the text.
pub fn terminal_mouse_wheel_sequence(
    tracking: MouseTrackingMode,
    sgr: bool,
    cell: Option<(usize, usize)>,
    up: bool,
    steps: usize,
) -> (report: Option<Vec<u8>>)
    ensures
        report is Some <==> !(tracking is Off) && cell is Some,
        report is Some ==> (cell matches Some((x, y)) && report->0@ == repeated(
            mouse_report(
                if up {
                    64
                } else {
                    65
                },
                x,
                y,
                true,
                sgr,
            ),
            wheel_count(steps),
        )),
{
    if !tracking.enabled() {
        return None;
    }
    match cell {
        Some((x, y)) => {
            let button: u8 = if up {
                64
            } else {
                65
            };
            let unit = terminal_mouse_protocol_sequence(button, x, y, true, sgr);
            Some(repeat(unit.as_slice(), steps))
        },
        None => None,
    }
}

/// The cursor keys that a turn of the wheel sends to a program on the alternate screen.
pub fn terminal_wheel_cursor_keys(app_cursor: bool, up: bool, steps: usize) -> (keys: Vec<u8>)
    ensures
        keys@ == repeated(
            cursor_key(
                if up {
                    0x41
                } else {
                    0x42
                },
                app_cursor,
                false,
                false,
                false,
            ),
            wheel_count(steps),
        ),
{
    let unit = terminal_cursor_key(
        if up {
            0x41
        } else {
            0x42
        },
        app_cursor,
        false,
        false,
        false,
    );
    repeat(unit.as_slice(), steps)
}

/// Whether a shell gives a byte a meaning of its own that a backslash takes away.
pub open spec fn is_shell_special(byte: u8) -> bool {
    ||| byte == 0x20
    ||| byte == 0x09
    ||| byte == 0x5c
    ||| byte == 0x27
    ||| byte == 0x22
    ||| byte == 0x60
    ||| byte == 0x24
    ||| byte == 0x26
    ||| byte == 0x3b
    ||| byte == 0x7c
    ||| byte == 0x3c
    ||| byte == 0x3e
    ||| byte == 0x28
    ||| byte == 0x29
    ||| byte == 0x5b
    ||| byte == 0x5d
    ||| byte == 0x7b
    ||| byte == 0x7d
    ||| byte == 0x2a
    ||| byte == 0x3f
    ||| byte == 0x21
    ||| byte == 0x23
    ||| byte == 0x7e
    ||| byte == 0x5e
    ||| byte == 0x25
    ||| byte == 0x3d
}

/// A byte as a shell reads it for itself: a line break in quotes, a special byte after a backslash.
pub open spec fn shell_escaped_byte(byte: u8) -> Seq<u8> {
    if byte == 0x0a || byte == 0x0d {
        seq![0x27u8, byte, 0x27]
    } else if is_shell_special(byte) {
        seq![0x5cu8, byte]
    } else {
        seq![byte]
    }
}

/// The bytes of a path, each escaped.
pub open spec fn shell_escaped_bytes(path: Seq<u8>) -> Seq<u8>
    decreases path.len(),
{
    if path.len() == 0 {
        Seq::empty()
    } else {
        shell_escaped_bytes(path.drop_last()) + shell_escaped_byte(path.last())
    }
}

/// A path as one word of a shell.
pub open spec fn shell_escaped(path: Seq<u8>) -> Seq<u8> {
    if path.len() == 0 {
        seq![0x27u8, 0x27]
    } else {
        shell_escaped_bytes(path)
    }
}

fn shell_special(byte: u8) -> (special: bool)
    ensures
        special == is_shell_special(byte),
{
    byte == 0x20 || byte == 0x09 || byte == 0x5c || byte == 0x27 || byte == 0x22 || byte == 0x60
        || byte == 0x24 || byte == 0x26 || byte == 0x3b || byte == 0x7c || byte == 0x3c || byte == 0x3e
        || byte == 0x28 || byte == 0x29 || byte == 0x5b || byte == 0x5d || byte == 0x7b || byte == 0x7d
        || byte == 0x2a || byte == 0x3f || byte == 0x21 || byte == 0x23 || byte == 0x7e || byte == 0x5e
        || byte == 0x25 || byte == 0x3d
}

/// Appends a path as one word of a shell.
pub fn terminal_shell_escape_path(path: &[u8], out: &mut Vec<u8>)
    ensures
        final(out)@ == old(out)@ + shell_escaped(path@),
{
    let ghost before = out@;
    if path.len() == 0 {
        out.push(0x27);
        out.push(0x27);
        assert(out@ =~= before + seq![0x27u8, 0x27]);
        return ;
    }
    let mut i: usize = 0;
    assert(out@ =~= before + shell_escaped_bytes(path@.take(0)));
    while i < path.len()
        invariant
            i <= path@.len(),
            out@ == before + shell_escaped_bytes(path@.take(i as int)),
        decreases path@.len() - i,
    {
        let byte = path[i];
        if byte == 0x0a || byte == 0x0d {
            out.push(0x27);
            out.push(byte);
            out.push(0x27);
        } else {
            if shell_special(byte) {
                out.push(0x5c);
            }
            out.push(byte);
        }
        proof {
            assert(path@.take(i + 1).drop_last() =~= path@.take(i as int));
            assert(out@ =~= before + shell_escaped_bytes(path@.take(i + 1)));
        }
        i += 1;
    }
    assert(path@.take(i as int) =~= path@);
}

/// Whether a shell takes a byte of a word for itself: a letter, a digit, one of `+,-./:@_`, a byte
/// beyond ASCII or a control byte that neither separates words nor ends a line.
pub open spec fn shell_plain(byte: u8) -> bool {
    ||| 0x61 <= byte <= 0x7a
    ||| 0x41 <= byte <= 0x5a
    ||| 0x30 <= byte <= 0x39
    ||| 0x2b <= byte <= 0x2f
    ||| byte == 0x3a
    ||| byte == 0x40
    ||| byte == 0x5f
    ||| byte >= 0x7f
    ||| byte < 0x09
    ||| byte == 0x0b
    ||| byte == 0x0c
    ||| 0x0e <= byte < 0x20
}

/// What a shell reads from one word: a byte after a backslash, a byte in quotes or a plain byte stands
/// for itself. Nothing where the word would end before its last byte.
pub open spec fn shell_word(word: Seq<u8>) -> Option<Seq<u8>>
    decreases word.len(),
{
    if word.len() == 0 {
        Some(Seq::empty())
    } else if word[0] == 0x5c {
        if word.len() < 2 {
            None
        } else {
            match shell_word(word.skip(2)) {
                Some(rest) => Some(seq![word[1]] + rest),
                None => None,
            }
        }
    } else if word[0] == 0x27 {
        if word.len() >= 2 && word[1] == 0x27 {
            shell_word(word.skip(2))
        } else if word.len() >= 3 && word[2] == 0x27 {
            match shell_word(word.skip(3)) {
                Some(rest) => Some(seq![word[1]] + rest),
                None => None,
            }
        } else {
            None
        }
    } else if !shell_plain(word[0]) {
        None
    } else {
        match shell_word(word.skip(1)) {
            Some(rest) => Some(seq![word[0]] + rest),
            None => None,
        }
    }
}

proof fn shell_word_reads_byte(byte: u8, rest: Seq<u8>)
    ensures
        shell_word(shell_escaped_byte(byte) + rest) == match shell_word(rest) {
            Some(read) => Some(seq![byte] + read),
            None => None,
        },
{
    let word = shell_escaped_byte(byte) + rest;
    assert(word.skip(shell_escaped_byte(byte).len() as int) =~= rest);
}

proof fn shell_word_reads_bytes(path: Seq<u8>, rest: Seq<u8>)
    ensures
        shell_word(shell_escaped_bytes(path) + rest) == match shell_word(rest) {
            Some(read) => Some(path + read),
            None => None,
        },
    decreases path.len(),
{
    if path.len() == 0 {
        assert(shell_escaped_bytes(path) + rest =~= rest);
        if let Some(read) = shell_word(rest) {
            assert(path + read =~= read);
        }
    } else {
        let last = path.last();
        let tail = shell_escaped_byte(last) + rest;
        shell_word_reads_bytes(path.drop_last(), tail);
        shell_word_reads_byte(last, rest);
        assert(shell_escaped_bytes(path) + rest =~= shell_escaped_bytes(path.drop_last()) + tail);
        if let Some(read) = shell_word(rest) {
            assert(path.drop_last() + (seq![last] + read) =~= path + read);
        }
    }
}

/// A shell reads an escaped path as the path, byte for byte, whatever bytes it holds.
pub proof fn shell_reads_escaped_path(path: Seq<u8>)
    ensures
        shell_word(shell_escaped(path)) == Some(path),
{
    if path.len() == 0 {
        assert(seq![0x27u8, 0x27].skip(2) =~= Seq::empty());
        assert(path =~= Seq::empty());
    } else {
        shell_word_reads_bytes(path, Seq::empty());
        assert(shell_escaped_bytes(path) + Seq::empty() =~= shell_escaped_bytes(path));
        assert(path + Seq::empty() =~= path);
    }
}

/// Paths as the words of a shell, with a blank between them.
pub open spec fn shell_words(paths: Seq<Seq<u8>>) -> Seq<u8>
    decreases paths.len(),
{
    if paths.len() == 0 {
        Seq::empty()
    } else if paths.len() == 1 {
        shell_escaped(paths[0])
    } else {
        shell_words(paths.drop_last()).push(0x20) + shell_escaped(paths.last())
    }
}

/// What is pasted from the clipboard: its files as words of a shell where it holds any, its text
/// otherwise.
pub open spec fn pasted(files: Option<Seq<Seq<u8>>>, text: Option<Seq<char>>) -> Option<Seq<u8>> {
    if files is Some && files->0.len() > 0 {
        Some(shell_words(files->0))
    } else {
        match text {
            Some(text) => Some(encode_utf8(text)),
            None => None,
        }
    }
}

/// What is pasted from the clipboard.
pub fn terminal_clipboard_paste_bytes(file_list: Option<&Vec<Vec<u8>>>, text: Option<&str>) -> (paste:
    Option<Vec<u8>>)
    ensures
        match pasted(
            match file_list {
                Some(files) => Some(bytes::views(files@)),
                None => None,
            },
            match text {
                Some(text) => Some(text@),
                None => None,
            },
        ) {
            Some(expected) => paste is Some && paste->0@ == expected,
            None => paste is None,
        },
{
    if let Some(paths) = file_list {
        if paths.len() > 0 {
            let ghost all = bytes::views(paths@);
            let mut out: Vec<u8> = Vec::new();
            let mut i: usize = 0;
            assert(out@ =~= shell_words(all.take(0)));
            while i < paths.len()
                invariant
                    i <= paths@.len(),
                    all == bytes::views(paths@),
                    out@ == shell_words(all.take(i as int)),
                decreases paths@.len() - i,
            {
                let ghost before = out@;
                if i > 0 {
                    out.push(0x20);
                }
                terminal_shell_escape_path(paths[i].as_slice(), &mut out);
                proof {
                    assert(all.take(i + 1).drop_last() =~= all.take(i as int));
                    assert(all.take(i + 1).last() == paths@[i as int]@);
                    if i == 0 {
                        assert(before + shell_escaped(all[0]) =~= shell_escaped(all[0]));
                    }
                }
                i += 1;
            }
            assert(all.take(i as int) =~= all);
            return Some(out);
        }
    }
    match text {
        Some(text) => Some(bytes::copy(text.as_bytes())),
        None => None,
    }
}

/// What a terminal is sent for pasted bytes, marked where it asked for it.
pub open spec fn paste_sequence(payload: Seq<u8>, enabled: bool) -> Seq<u8> {
    if enabled {
        seq![0x1bu8, 0x5b, 0x32, 0x30, 0x30, 0x7e] + payload + seq![
            0x1bu8,
            0x5b,
            0x32,
            0x30,
            0x31,
            0x7e,
        ]
    } else {
        payload
    }
}

/// What a terminal is sent for pasted bytes.
pub fn terminal_bracketed_paste_bytes(payload: Vec<u8>, enabled: bool) -> (out: Vec<u8>)
    ensures
        out@ == paste_sequence(payload@, enabled),
{
    if !enabled {
        return payload;
    }
    let mut out: Vec<u8> = Vec::new();
    out.push(0x1b);
    out.push(0x5b);
    out.push(0x32);
    out.push(0x30);
    out.push(0x30);
    out.push(0x7e);
    bytes::append(&mut out, payload.as_slice());
    out.push(0x1b);
    out.push(0x5b);
    out.push(0x32);
    out.push(0x30);
    out.push(0x31);
    out.push(0x7e);
    assert(out@ =~= paste_sequence(payload@, enabled));
    out
}

/// What a terminal is sent when it gains or loses the focus, where it asked for it.
pub open spec fn focus_sequence(focused: bool, reporting: bool) -> Option<Seq<u8>> {
    if !reporting {
        None
    } else if focused {
        Some(seq![0x1bu8, 0x5b, 0x49])
    } else {
        Some(seq![0x1bu8, 0x5b, 0x4f])
    }
}

/// The cell of a selection at a column and a number of rows above the last: the last cell of the
/// screen where it would be outside, the first cell of a wide character where it is the second. None
/// where there are no rows.
pub open spec fn selection_cell(grid: TermGrid, column: usize, above_last: usize) -> Option<
    (usize, usize),
> {
    let rows = terminal::all_rows(grid);
    let row = if above_last < rows.len() {
        rows.len() - 1 - above_last
    } else {
        0
    };
    let shown = if column < grid.cols {
        column as int
    } else if grid.cols > 0 {
        grid.cols - 1
    } else {
        0
    };
    if rows.len() == 0 {
        None
    } else if shown > 0 && shown < rows[row]@.len() && rows[row]@[shown].wide_spacer {
        Some(((shown - 1) as usize, row as usize))
    } else {
        Some((shown as usize, row as usize))
    }
}

/// The cell of a selection at a column and a number of rows above the last.
pub fn terminal_cell_from_grid(grid: &TermGrid, column: usize, above_last: usize) -> (cell: Option<
    (usize, usize),
>)
    requires
        grid.wf(),
    ensures
        cell == selection_cell(*grid, column, above_last),
{
    let total_lines: usize = grid.total_lines();
    if total_lines == 0 {
        return None;
    }
    let row: usize = (total_lines - 1).saturating_sub(above_last);
    let last: usize = grid.cols.saturating_sub(1);
    let shown: usize = if column < last {
        column
    } else {
        last
    };
    match grid.row(row) {
        Some(cells) => {
            if shown > 0 && shown < cells.len() && cells[shown].wide_spacer {
                return Some((shown - 1, row));
            }
        },
        None => {},
    }
    Some((shown, row))
}

/// The cell of a pointer report, counted from one, at a column and a number of rows above the last
/// that is shown; the cell at the edge where it would be outside, and none where reports do not reach
/// the terminal.
pub open spec fn protocol_cell(
    target: bool,
    cols: usize,
    visible_rows: usize,
    column: usize,
    above_last: usize,
) -> Option<(usize, usize)> {
    if target && cols > 0 && visible_rows > 0 {
        Some(
            (
                if column < cols {
                    (column + 1) as usize
                } else {
                    cols
                },
                if above_last < visible_rows {
                    (visible_rows - above_last) as usize
                } else {
                    1
                },
            ),
        )
    } else {
        None
    }
}

/// The cell of a pointer report, where reports reach the terminal.
pub fn terminal_mouse_protocol_cell(
    target: bool,
    cols: usize,
    visible_rows: usize,
    column: usize,
    above_last: usize,
) -> (cell: Option<(usize, usize)>)
    ensures
        cell == protocol_cell(target, cols, visible_rows, column, above_last),
{
    if !target || cols == 0 || visible_rows == 0 {
        return None;
    }
    let x: usize = if column < cols {
        column + 1
    } else {
        cols
    };
    Some((x, (visible_rows - 1).saturating_sub(above_last) + 1))
}

} // verus!
