//! What holds of all that a terminal is sent, in the bytes of the protocols.
use vstd::prelude::*;
use vstd::utf8::*;

use crate::input;
use crate::input::PointerCapture;
use crate::input_types::{KeyCode, KeyState, PhysicalKey, PointerButton};
use crate::search;
use crate::terminal;
use crate::terminal::{MouseTrackingMode, TermGrid};
use crate::text;

verus! {

/// The digit that xterm's table gives to held modifier keys.
pub open spec fn modifier_digit(shift: bool, alt: bool, ctrl: bool) -> u8 {
    match (shift, alt, ctrl) {
        (false, false, false) => 0x31,
        (true, false, false) => 0x32,
        (false, true, false) => 0x33,
        (true, true, false) => 0x34,
        (false, false, true) => 0x35,
        (true, false, true) => 0x36,
        (false, true, true) => 0x37,
        (true, true, true) => 0x38,
    }
}

/// Whether a key sends `plain` without modifier keys, and with them `head`, a semicolon, their digit and
/// `end`.
pub open spec fn sends(key: KeyCode, app: bool, plain: Seq<u8>, head: Seq<u8>, end: u8) -> bool {
    &&& input::key_sequence(PhysicalKey::Code(key), false, false, false, app) == Some(plain)
    &&& forall|shift: bool, ctrl: bool, alt: bool|
        shift || ctrl || alt ==> #[trigger] input::key_sequence(
            PhysicalKey::Code(key),
            shift,
            ctrl,
            alt,
            app,
        ) == Some(head + seq![0x3bu8, modifier_digit(shift, alt, ctrl), end])
}

/// Whether a key sends one byte with these modifier keys, after an escape with Alt.
pub open spec fn sends_byte(key: KeyCode, shift: bool, ctrl: bool, byte: u8) -> bool {
    forall|alt: bool, app: bool|
        #[trigger] input::key_sequence(PhysicalKey::Code(key), shift, ctrl, alt, app) == Some(
            if alt {
                seq![0x1bu8, byte]
            } else {
                seq![byte]
            },
        )
}

/// Whether a key sends one byte with Ctrl, whatever else is held, and nothing of its own without.
pub open spec fn is_control(key: KeyCode, byte: u8) -> bool {
    forall|shift: bool|
        #[trigger] sends_byte(key, shift, true, byte) && sends_nothing(key, shift, false)
}

/// Whether a key sends nothing of its own with these modifier keys.
pub open spec fn sends_nothing(key: KeyCode, shift: bool, ctrl: bool) -> bool {
    forall|alt: bool, app: bool|
        #[trigger] input::key_sequence(PhysicalKey::Code(key), shift, ctrl, alt, app) is None
}

/// The cursor keys send ESC [ and their letter, or ESC O in the application's mode, and with modifier
/// keys ESC [ 1 ; with the digit and the letter.
pub proof fn cursor_keys_send_their_letters(app: bool)
    ensures
        sends(
            KeyCode::ArrowUp,
            app,
            if app {
                seq![0x1bu8, 0x4f, 0x41]
            } else {
                seq![0x1bu8, 0x5b, 0x41]
            },
            seq![0x1bu8, 0x5b, 0x31],
            0x41,
        ),
        sends(
            KeyCode::ArrowDown,
            app,
            if app {
                seq![0x1bu8, 0x4f, 0x42]
            } else {
                seq![0x1bu8, 0x5b, 0x42]
            },
            seq![0x1bu8, 0x5b, 0x31],
            0x42,
        ),
        sends(
            KeyCode::ArrowRight,
            app,
            if app {
                seq![0x1bu8, 0x4f, 0x43]
            } else {
                seq![0x1bu8, 0x5b, 0x43]
            },
            seq![0x1bu8, 0x5b, 0x31],
            0x43,
        ),
        sends(
            KeyCode::ArrowLeft,
            app,
            if app {
                seq![0x1bu8, 0x4f, 0x44]
            } else {
                seq![0x1bu8, 0x5b, 0x44]
            },
            seq![0x1bu8, 0x5b, 0x31],
            0x44,
        ),
        sends(
            KeyCode::Home,
            app,
            if app {
                seq![0x1bu8, 0x4f, 0x48]
            } else {
                seq![0x1bu8, 0x5b, 0x48]
            },
            seq![0x1bu8, 0x5b, 0x31],
            0x48,
        ),
        sends(
            KeyCode::End,
            app,
            if app {
                seq![0x1bu8, 0x4f, 0x46]
            } else {
                seq![0x1bu8, 0x5b, 0x46]
            },
            seq![0x1bu8, 0x5b, 0x31],
            0x46,
        ),
{
    modified_cursor_key(KeyCode::ArrowUp, 0x41, app);
    modified_cursor_key(KeyCode::ArrowDown, 0x42, app);
    modified_cursor_key(KeyCode::ArrowRight, 0x43, app);
    modified_cursor_key(KeyCode::ArrowLeft, 0x44, app);
    modified_cursor_key(KeyCode::Home, 0x48, app);
    modified_cursor_key(KeyCode::End, 0x46, app);
}

proof fn modified_cursor_key(key: KeyCode, letter: u8, app: bool)
    requires
        forall|shift: bool, ctrl: bool| #[trigger]
            input::key_form(key, shift, ctrl) == Some(input::KeyForm::Cursor(letter)),
    ensures
        sends(
            key,
            app,
            if app {
                seq![0x1bu8, 0x4f, letter]
            } else {
                seq![0x1bu8, 0x5b, letter]
            },
            seq![0x1bu8, 0x5b, 0x31],
            letter,
        ),
{
    assert(input::key_form(key, false, false) == Some(input::KeyForm::Cursor(letter)));
    assert(input::key_sequence(PhysicalKey::Code(key), false, false, false, app)->0 =~= if app {
        seq![0x1bu8, 0x4f, letter]
    } else {
        seq![0x1bu8, 0x5b, letter]
    });
    assert forall|shift: bool, ctrl: bool, alt: bool| shift || ctrl || alt implies
        #[trigger] input::key_sequence(PhysicalKey::Code(key), shift, ctrl, alt, app) == Some(
            seq![0x1bu8, 0x5b, 0x31] + seq![0x3bu8, modifier_digit(shift, alt, ctrl), letter],
        ) by {
        assert(input::key_form(key, shift, ctrl) == Some(input::KeyForm::Cursor(letter)));
        assert(input::key_sequence(PhysicalKey::Code(key), shift, ctrl, alt, app)->0 =~= seq![
            0x1bu8,
            0x5b,
            0x31,
        ] + seq![0x3bu8, modifier_digit(shift, alt, ctrl), letter]);
    }
}

/// The editing keys and the later function keys send ESC [, their number and a tilde.
pub proof fn numbered_keys_send_their_numbers(app: bool)
    ensures
        sends(KeyCode::Insert, app, seq![0x1bu8, 0x5b, 0x32, 0x7e], seq![0x1bu8, 0x5b, 0x32], 0x7e),
        sends(KeyCode::Delete, app, seq![0x1bu8, 0x5b, 0x33, 0x7e], seq![0x1bu8, 0x5b, 0x33], 0x7e),
        sends(KeyCode::PageUp, app, seq![0x1bu8, 0x5b, 0x35, 0x7e], seq![0x1bu8, 0x5b, 0x35], 0x7e),
        sends(KeyCode::PageDown, app, seq![0x1bu8, 0x5b, 0x36, 0x7e], seq![0x1bu8, 0x5b, 0x36], 0x7e),
        sends(KeyCode::F5, app, seq![0x1bu8, 0x5b, 0x31, 0x35, 0x7e], seq![0x1bu8, 0x5b, 0x31, 0x35], 0x7e),
        sends(KeyCode::F6, app, seq![0x1bu8, 0x5b, 0x31, 0x37, 0x7e], seq![0x1bu8, 0x5b, 0x31, 0x37], 0x7e),
        sends(KeyCode::F7, app, seq![0x1bu8, 0x5b, 0x31, 0x38, 0x7e], seq![0x1bu8, 0x5b, 0x31, 0x38], 0x7e),
        sends(KeyCode::F8, app, seq![0x1bu8, 0x5b, 0x31, 0x39, 0x7e], seq![0x1bu8, 0x5b, 0x31, 0x39], 0x7e),
        sends(KeyCode::F9, app, seq![0x1bu8, 0x5b, 0x32, 0x30, 0x7e], seq![0x1bu8, 0x5b, 0x32, 0x30], 0x7e),
        sends(KeyCode::F10, app, seq![0x1bu8, 0x5b, 0x32, 0x31, 0x7e], seq![0x1bu8, 0x5b, 0x32, 0x31], 0x7e),
        sends(KeyCode::F11, app, seq![0x1bu8, 0x5b, 0x32, 0x33, 0x7e], seq![0x1bu8, 0x5b, 0x32, 0x33], 0x7e),
        sends(KeyCode::F12, app, seq![0x1bu8, 0x5b, 0x32, 0x34, 0x7e], seq![0x1bu8, 0x5b, 0x32, 0x34], 0x7e),
{
    assert(sends(KeyCode::Insert, app, seq![0x1bu8, 0x5b, 0x32, 0x7e], seq![0x1bu8, 0x5b, 0x32], 0x7e)) by {
        assert(seq![0x1bu8, 0x5b, 0x32].push(0x7e) =~= seq![0x1bu8, 0x5b, 0x32, 0x7e]);
        numbered_key(KeyCode::Insert, seq![0x1bu8, 0x5b, 0x32], app);
    }
    assert(sends(KeyCode::Delete, app, seq![0x1bu8, 0x5b, 0x33, 0x7e], seq![0x1bu8, 0x5b, 0x33], 0x7e)) by {
        assert(seq![0x1bu8, 0x5b, 0x33].push(0x7e) =~= seq![0x1bu8, 0x5b, 0x33, 0x7e]);
        numbered_key(KeyCode::Delete, seq![0x1bu8, 0x5b, 0x33], app);
    }
    assert(sends(KeyCode::PageUp, app, seq![0x1bu8, 0x5b, 0x35, 0x7e], seq![0x1bu8, 0x5b, 0x35], 0x7e)) by {
        assert(seq![0x1bu8, 0x5b, 0x35].push(0x7e) =~= seq![0x1bu8, 0x5b, 0x35, 0x7e]);
        numbered_key(KeyCode::PageUp, seq![0x1bu8, 0x5b, 0x35], app);
    }
    assert(sends(KeyCode::PageDown, app, seq![0x1bu8, 0x5b, 0x36, 0x7e], seq![0x1bu8, 0x5b, 0x36], 0x7e)) by {
        assert(seq![0x1bu8, 0x5b, 0x36].push(0x7e) =~= seq![0x1bu8, 0x5b, 0x36, 0x7e]);
        numbered_key(KeyCode::PageDown, seq![0x1bu8, 0x5b, 0x36], app);
    }
    assert(sends(KeyCode::F5, app, seq![0x1bu8, 0x5b, 0x31, 0x35, 0x7e], seq![0x1bu8, 0x5b, 0x31, 0x35], 0x7e)) by {
        assert(seq![0x1bu8, 0x5b, 0x31, 0x35].push(0x7e) =~= seq![0x1bu8, 0x5b, 0x31, 0x35, 0x7e]);
        numbered_key(KeyCode::F5, seq![0x1bu8, 0x5b, 0x31, 0x35], app);
    }
    assert(sends(KeyCode::F6, app, seq![0x1bu8, 0x5b, 0x31, 0x37, 0x7e], seq![0x1bu8, 0x5b, 0x31, 0x37], 0x7e)) by {
        assert(seq![0x1bu8, 0x5b, 0x31, 0x37].push(0x7e) =~= seq![0x1bu8, 0x5b, 0x31, 0x37, 0x7e]);
        numbered_key(KeyCode::F6, seq![0x1bu8, 0x5b, 0x31, 0x37], app);
    }
    assert(sends(KeyCode::F7, app, seq![0x1bu8, 0x5b, 0x31, 0x38, 0x7e], seq![0x1bu8, 0x5b, 0x31, 0x38], 0x7e)) by {
        assert(seq![0x1bu8, 0x5b, 0x31, 0x38].push(0x7e) =~= seq![0x1bu8, 0x5b, 0x31, 0x38, 0x7e]);
        numbered_key(KeyCode::F7, seq![0x1bu8, 0x5b, 0x31, 0x38], app);
    }
    assert(sends(KeyCode::F8, app, seq![0x1bu8, 0x5b, 0x31, 0x39, 0x7e], seq![0x1bu8, 0x5b, 0x31, 0x39], 0x7e)) by {
        assert(seq![0x1bu8, 0x5b, 0x31, 0x39].push(0x7e) =~= seq![0x1bu8, 0x5b, 0x31, 0x39, 0x7e]);
        numbered_key(KeyCode::F8, seq![0x1bu8, 0x5b, 0x31, 0x39], app);
    }
    assert(sends(KeyCode::F9, app, seq![0x1bu8, 0x5b, 0x32, 0x30, 0x7e], seq![0x1bu8, 0x5b, 0x32, 0x30], 0x7e)) by {
        assert(seq![0x1bu8, 0x5b, 0x32, 0x30].push(0x7e) =~= seq![0x1bu8, 0x5b, 0x32, 0x30, 0x7e]);
        numbered_key(KeyCode::F9, seq![0x1bu8, 0x5b, 0x32, 0x30], app);
    }
    assert(sends(KeyCode::F10, app, seq![0x1bu8, 0x5b, 0x32, 0x31, 0x7e], seq![0x1bu8, 0x5b, 0x32, 0x31], 0x7e)) by {
        assert(seq![0x1bu8, 0x5b, 0x32, 0x31].push(0x7e) =~= seq![0x1bu8, 0x5b, 0x32, 0x31, 0x7e]);
        numbered_key(KeyCode::F10, seq![0x1bu8, 0x5b, 0x32, 0x31], app);
    }
    assert(sends(KeyCode::F11, app, seq![0x1bu8, 0x5b, 0x32, 0x33, 0x7e], seq![0x1bu8, 0x5b, 0x32, 0x33], 0x7e)) by {
        assert(seq![0x1bu8, 0x5b, 0x32, 0x33].push(0x7e) =~= seq![0x1bu8, 0x5b, 0x32, 0x33, 0x7e]);
        numbered_key(KeyCode::F11, seq![0x1bu8, 0x5b, 0x32, 0x33], app);
    }
    assert(sends(KeyCode::F12, app, seq![0x1bu8, 0x5b, 0x32, 0x34, 0x7e], seq![0x1bu8, 0x5b, 0x32, 0x34], 0x7e)) by {
        assert(seq![0x1bu8, 0x5b, 0x32, 0x34].push(0x7e) =~= seq![0x1bu8, 0x5b, 0x32, 0x34, 0x7e]);
        numbered_key(KeyCode::F12, seq![0x1bu8, 0x5b, 0x32, 0x34], app);
    }
}

proof fn numbered_key(key: KeyCode, head: Seq<u8>, app: bool)
    requires
        key is Insert || key is Delete || key is PageUp || key is PageDown || key is F5 || key is F6
            || key is F7 || key is F8 || key is F9 || key is F10 || key is F11 || key is F12,
        input::key_sequence(PhysicalKey::Code(key), false, false, false, false)->0 =~= head.push(0x7e),
    ensures
        sends(key, app, head.push(0x7e), head, 0x7e),
{
    let plain = input::key_sequence(PhysicalKey::Code(key), false, false, false, false)->0;
    assert(head =~= plain.drop_last());
    assert forall|shift: bool, ctrl: bool, alt: bool| shift || ctrl || alt implies
        #[trigger] input::key_sequence(PhysicalKey::Code(key), shift, ctrl, alt, app) == Some(
            head + seq![0x3bu8, modifier_digit(shift, alt, ctrl), 0x7e],
        ) by {
        assert(input::key_sequence(PhysicalKey::Code(key), shift, ctrl, alt, app)->0 =~= head + seq![
            0x3bu8,
            modifier_digit(shift, alt, ctrl),
            0x7e,
        ]);
    }
}

/// The first four function keys send ESC O and P, Q, R, S, and with modifier keys ESC [ 1 ; with the
/// digit and the letter.
pub proof fn first_function_keys_send_their_letters(app: bool)
    ensures
        sends(KeyCode::F1, app, seq![0x1bu8, 0x4f, 0x50], seq![0x1bu8, 0x5b, 0x31], 0x50),
        sends(KeyCode::F2, app, seq![0x1bu8, 0x4f, 0x51], seq![0x1bu8, 0x5b, 0x31], 0x51),
        sends(KeyCode::F3, app, seq![0x1bu8, 0x4f, 0x52], seq![0x1bu8, 0x5b, 0x31], 0x52),
        sends(KeyCode::F4, app, seq![0x1bu8, 0x4f, 0x53], seq![0x1bu8, 0x5b, 0x31], 0x53),
{
    assert forall|shift: bool, ctrl: bool, alt: bool| shift || ctrl || alt implies
        #[trigger] input::key_sequence(PhysicalKey::Code(KeyCode::F1), shift, ctrl, alt, app) == Some(
            seq![0x1bu8, 0x5b, 0x31] + seq![0x3bu8, modifier_digit(shift, alt, ctrl), 0x50],
        ) by {
        assert(input::key_sequence(PhysicalKey::Code(KeyCode::F1), shift, ctrl, alt, app)->0 =~= seq![
            0x1bu8,
            0x5b,
            0x31,
        ] + seq![0x3bu8, modifier_digit(shift, alt, ctrl), 0x50]);
    }
    assert forall|shift: bool, ctrl: bool, alt: bool| shift || ctrl || alt implies
        #[trigger] input::key_sequence(PhysicalKey::Code(KeyCode::F2), shift, ctrl, alt, app) == Some(
            seq![0x1bu8, 0x5b, 0x31] + seq![0x3bu8, modifier_digit(shift, alt, ctrl), 0x51],
        ) by {
        assert(input::key_sequence(PhysicalKey::Code(KeyCode::F2), shift, ctrl, alt, app)->0 =~= seq![
            0x1bu8,
            0x5b,
            0x31,
        ] + seq![0x3bu8, modifier_digit(shift, alt, ctrl), 0x51]);
    }
    assert forall|shift: bool, ctrl: bool, alt: bool| shift || ctrl || alt implies
        #[trigger] input::key_sequence(PhysicalKey::Code(KeyCode::F3), shift, ctrl, alt, app) == Some(
            seq![0x1bu8, 0x5b, 0x31] + seq![0x3bu8, modifier_digit(shift, alt, ctrl), 0x52],
        ) by {
        assert(input::key_sequence(PhysicalKey::Code(KeyCode::F3), shift, ctrl, alt, app)->0 =~= seq![
            0x1bu8,
            0x5b,
            0x31,
        ] + seq![0x3bu8, modifier_digit(shift, alt, ctrl), 0x52]);
    }
    assert forall|shift: bool, ctrl: bool, alt: bool| shift || ctrl || alt implies
        #[trigger] input::key_sequence(PhysicalKey::Code(KeyCode::F4), shift, ctrl, alt, app) == Some(
            seq![0x1bu8, 0x5b, 0x31] + seq![0x3bu8, modifier_digit(shift, alt, ctrl), 0x53],
        ) by {
        assert(input::key_sequence(PhysicalKey::Code(KeyCode::F4), shift, ctrl, alt, app)->0 =~= seq![
            0x1bu8,
            0x5b,
            0x31,
        ] + seq![0x3bu8, modifier_digit(shift, alt, ctrl), 0x53]);
    }
}

/// Enter sends CR, Tab HT and with Shift ESC [ Z, Escape itself; Backspace sends DEL, with Shift BS and
/// with Ctrl ETB.
pub proof fn typing_keys_send_their_bytes(shift: bool, ctrl: bool, alt: bool, app: bool)
    ensures
        sends_byte(KeyCode::Enter, shift, ctrl, 0x0d),
        sends_byte(KeyCode::NumpadEnter, shift, ctrl, 0x0d),
        sends_byte(KeyCode::Tab, false, ctrl, 0x09),
        input::key_sequence(PhysicalKey::Code(KeyCode::Tab), true, ctrl, alt, app) == Some(
            seq![0x1bu8, 0x5b, 0x5a],
        ),
        input::key_sequence(PhysicalKey::Code(KeyCode::Escape), shift, ctrl, alt, app) == Some(
            seq![0x1bu8],
        ),
        sends_byte(KeyCode::Backspace, false, false, 0x7f),
        sends_byte(KeyCode::Backspace, true, false, 0x08),
        sends_byte(KeyCode::Backspace, shift, true, 0x17),
        input::key_sequence(PhysicalKey::Unidentified, shift, ctrl, alt, app) is None,
{
    byte_is_sent(KeyCode::Enter, shift, ctrl, 0x0d);
    byte_is_sent(KeyCode::NumpadEnter, shift, ctrl, 0x0d);
    byte_is_sent(KeyCode::Tab, false, ctrl, 0x09);
    byte_is_sent(KeyCode::Backspace, false, false, 0x7f);
    byte_is_sent(KeyCode::Backspace, true, false, 0x08);
    byte_is_sent(KeyCode::Backspace, shift, true, 0x17);
}

proof fn byte_is_sent(key: KeyCode, shift: bool, ctrl: bool, byte: u8)
    requires
        input::key_form(key, shift, ctrl) == Some(input::KeyForm::Byte(byte)),
    ensures
        sends_byte(key, shift, ctrl, byte),
{
    assert forall|alt: bool, app: bool|
        #[trigger] input::key_sequence(PhysicalKey::Code(key), shift, ctrl, alt, app) == Some(
            if alt {
                seq![0x1bu8, byte]
            } else {
                seq![byte]
            },
        ) by {
        assert(input::key_sequence(PhysicalKey::Code(key), shift, ctrl, alt, app)->0 =~= if alt {
            seq![0x1bu8, byte]
        } else {
            seq![byte]
        });
    }
}

proof fn control_is_sent(key: KeyCode, byte: u8)
    requires
        forall|shift: bool| #[trigger]
            input::key_form(key, shift, true) == Some(input::KeyForm::Byte(byte)),
        forall|shift: bool| #[trigger] input::key_form(key, shift, false) is None,
    ensures
        is_control(key, byte),
{
    assert forall|shift: bool|
        #[trigger] sends_byte(key, shift, true, byte) && sends_nothing(key, shift, false) by {
        assert(input::key_form(key, shift, true) == Some(input::KeyForm::Byte(byte)));
        assert(input::key_form(key, shift, false) is None);
        byte_is_sent(key, shift, true, byte);
    }
}

/// With Ctrl a letter sends its number in the alphabet, and the keys of the other control characters
/// send these. Ctrl with F, V and 4 is for the window, and sends nothing.
pub proof fn control_keys_send_control_characters(shift: bool, ctrl: bool)
    ensures
        is_control(KeyCode::Space, 0x00),
        is_control(KeyCode::Digit2, 0x00),
        is_control(KeyCode::Digit6, 0x1e),
        is_control(KeyCode::Minus, 0x1f),
        is_control(KeyCode::Slash, 0x1f),
        is_control(KeyCode::BracketLeft, 0x1b),
        is_control(KeyCode::Backslash, 0x1c),
        is_control(KeyCode::BracketRight, 0x1d),
        is_control(KeyCode::KeyA, 0x01),
        is_control(KeyCode::KeyB, 0x02),
        is_control(KeyCode::KeyC, 0x03),
        is_control(KeyCode::KeyD, 0x04),
        is_control(KeyCode::KeyE, 0x05),
        is_control(KeyCode::KeyG, 0x07),
        is_control(KeyCode::KeyH, 0x08),
        is_control(KeyCode::KeyI, 0x09),
        is_control(KeyCode::KeyJ, 0x0a),
        is_control(KeyCode::KeyK, 0x0b),
        is_control(KeyCode::KeyL, 0x0c),
        is_control(KeyCode::KeyM, 0x0d),
        is_control(KeyCode::KeyN, 0x0e),
        is_control(KeyCode::KeyO, 0x0f),
        is_control(KeyCode::KeyP, 0x10),
        is_control(KeyCode::KeyQ, 0x11),
        is_control(KeyCode::KeyR, 0x12),
        is_control(KeyCode::KeyS, 0x13),
        is_control(KeyCode::KeyT, 0x14),
        is_control(KeyCode::KeyU, 0x15),
        is_control(KeyCode::KeyW, 0x17),
        is_control(KeyCode::KeyX, 0x18),
        is_control(KeyCode::KeyY, 0x19),
        is_control(KeyCode::KeyZ, 0x1a),
        sends_nothing(KeyCode::KeyF, shift, ctrl),
        sends_nothing(KeyCode::KeyV, shift, ctrl),
        sends_nothing(KeyCode::Digit4, shift, ctrl),
{
    control_is_sent(KeyCode::Space, 0x00);
    control_is_sent(KeyCode::Digit2, 0x00);
    control_is_sent(KeyCode::Digit6, 0x1e);
    control_is_sent(KeyCode::Minus, 0x1f);
    control_is_sent(KeyCode::Slash, 0x1f);
    control_is_sent(KeyCode::BracketLeft, 0x1b);
    control_is_sent(KeyCode::Backslash, 0x1c);
    control_is_sent(KeyCode::BracketRight, 0x1d);
    control_is_sent(KeyCode::KeyA, 0x01);
    control_is_sent(KeyCode::KeyB, 0x02);
    control_is_sent(KeyCode::KeyC, 0x03);
    control_is_sent(KeyCode::KeyD, 0x04);
    control_is_sent(KeyCode::KeyE, 0x05);
    control_is_sent(KeyCode::KeyG, 0x07);
    control_is_sent(KeyCode::KeyH, 0x08);
    control_is_sent(KeyCode::KeyI, 0x09);
    control_is_sent(KeyCode::KeyJ, 0x0a);
    control_is_sent(KeyCode::KeyK, 0x0b);
    control_is_sent(KeyCode::KeyL, 0x0c);
    control_is_sent(KeyCode::KeyM, 0x0d);
    control_is_sent(KeyCode::KeyN, 0x0e);
    control_is_sent(KeyCode::KeyO, 0x0f);
    control_is_sent(KeyCode::KeyP, 0x10);
    control_is_sent(KeyCode::KeyQ, 0x11);
    control_is_sent(KeyCode::KeyR, 0x12);
    control_is_sent(KeyCode::KeyS, 0x13);
    control_is_sent(KeyCode::KeyT, 0x14);
    control_is_sent(KeyCode::KeyU, 0x15);
    control_is_sent(KeyCode::KeyW, 0x17);
    control_is_sent(KeyCode::KeyX, 0x18);
    control_is_sent(KeyCode::KeyY, 0x19);
    control_is_sent(KeyCode::KeyZ, 0x1a);
}

/// Whether the held buttons include the one of a report's code: the left of code 0, the middle of code
/// 1, the right of code 2.
pub open spec fn is_held(buttons: u8, code: int) -> bool {
    ||| code == 0 && buttons & 1 != 0
    ||| code == 1 && buttons & 2 != 0
    ||| code == 2 && buttons & 4 != 0
}

/// With a reported button held, a motion is reported alike whether the terminal asked for every motion
/// or for those with a button: with the code of a held button, the left before the middle before the
/// right, and 32.
pub proof fn motion_reports_a_held_button(sgr: bool, buttons: u8, x: usize, y: usize) -> (code: u8)
    requires
        buttons & 1 != 0 || buttons & 2 != 0 || buttons & 4 != 0,
    ensures
        input::motion_report(MouseTrackingMode::AnyMotion, sgr, buttons, Some((x, y)))
            == input::motion_report(MouseTrackingMode::ButtonMotion, sgr, buttons, Some((x, y))),
        input::motion_report(MouseTrackingMode::AnyMotion, sgr, buttons, Some((x, y))) == Some(
            input::mouse_report(code, x, y, true, sgr),
        ),
        is_held(buttons, code - 32),
        forall|other: int| is_held(buttons, other) ==> code - 32 <= other,
{
    assert(buttons != 0) by (bit_vector)
        requires
            buttons & 1 != 0 || buttons & 2 != 0 || buttons & 4 != 0,
    ;
    if buttons & 1 != 0 {
        32
    } else if buttons & 2 != 0 {
        33
    } else {
        34
    }
}

/// With no button held, a motion is reported only where the terminal asked for every motion, and with
/// the code 3 and 32. A terminal that asked for presses alone, or for nothing, is sent no motion, and
/// none is sent away from the text.
pub proof fn motion_without_buttons(
    tracking: MouseTrackingMode,
    sgr: bool,
    buttons: u8,
    x: usize,
    y: usize,
)
    ensures
        input::motion_report(MouseTrackingMode::AnyMotion, sgr, 0, Some((x, y))) == Some(
            input::mouse_report(35, x, y, true, sgr),
        ),
        input::motion_report(MouseTrackingMode::ButtonMotion, sgr, 0, Some((x, y))) is None,
        input::motion_report(MouseTrackingMode::Press, sgr, buttons, Some((x, y))) is None,
        input::motion_report(MouseTrackingMode::Off, sgr, buttons, Some((x, y))) is None,
        input::motion_report(tracking, sgr, buttons, None) is None,
{
    assert(0u8 & 1 == 0 && 0u8 & 2 == 0 && 0u8 & 4 == 0) by (bit_vector);
}

/// A free pointer's press and release of the left, middle and right button are reported with 0, 1 and 2
/// to a terminal that asked for any reports; other buttons, a captured pointer and one away from the
/// text send nothing.
pub proof fn buttons_are_reported(
    capture: PointerCapture,
    tracking: MouseTrackingMode,
    sgr: bool,
    state: KeyState,
    button: PointerButton,
    x: usize,
    y: usize,
)
    ensures
        ({
            let report = input::button_report(capture, tracking, sgr, state, button, Some((x, y)));
            let pressed = state is Pressed;
            if !(capture is Free) || tracking is Off {
                report is None
            } else {
                match button {
                    PointerButton::Left => report == Some(
                        input::mouse_report(0, x, y, pressed, sgr),
                    ),
                    PointerButton::Middle => report == Some(
                        input::mouse_report(1, x, y, pressed, sgr),
                    ),
                    PointerButton::Right => report == Some(
                        input::mouse_report(2, x, y, pressed, sgr),
                    ),
                    _ => report is None,
                }
            }
        }),
        input::button_report(capture, tracking, sgr, state, button, None) is None,
{
}

/// A left, middle or right button that goes down sets the bit 1, 2 or 4 and no other, one that goes up
/// clears it, and other buttons change nothing.
pub proof fn buttons_have_their_bits(buttons: u8, button: PointerButton)
    ensures
        ({
            let down = input::buttons_after(buttons, button, KeyState::Pressed);
            let up = input::buttons_after(buttons, button, KeyState::Released);
            match button {
                PointerButton::Left => down == buttons | 1 && up == buttons & 0xfe,
                PointerButton::Middle => down == buttons | 2 && up == buttons & 0xfd,
                PointerButton::Right => down == buttons | 4 && up == buttons & 0xfb,
                _ => down == buttons && up == buttons,
            }
        }),
{
    assert(!1u8 == 0xfe && !2u8 == 0xfd && !4u8 == 0xfb) by (bit_vector);
}

/// Whether a program reads this code and this cell from a report of the newer form: ESC [ <, three
/// numbers with semicolons between them, and `M` for a press or `m` for a release.
pub open spec fn reads_report(report: Seq<u8>, code: nat, x: nat, y: nat, pressed: bool) -> bool {
    let numbers = text::pieces(report.subrange(3, report.len() - 1), 0x3b);
    &&& report.len() > 4
    &&& report.take(3) == seq![0x1bu8, 0x5b, 0x3c]
    &&& report.last() == if pressed {
        0x4du8
    } else {
        0x6du8
    }
    &&& numbers.len() == 3
    &&& text::parsed_unsigned(numbers[0], code as int) == Some(code as int)
    &&& text::parsed_unsigned(numbers[1], x as int) == Some(x as int)
    &&& text::parsed_unsigned(numbers[2], y as int) == Some(y as int)
}

/// A run without the separator, after a separator or at the start, is the last piece.
pub proof fn piece_without_separator(before: Seq<u8>, piece: Seq<u8>, separator: u8)
    requires
        before.len() == 0 || before.last() == separator,
        forall|i: int| 0 <= i < piece.len() ==> #[trigger] piece[i] != separator,
    ensures
        text::pieces(before + piece, separator) == text::pieces(
            before,
            separator,
        ).drop_last().push(piece),
        text::pieces(before, separator).len() > 0,
    decreases piece.len(),
{
    text::laws::pieces_join_to_the_text(before, separator);
    if piece.len() == 0 {
        assert(before + piece =~= before);
        assert(text::pieces(before, separator).last() =~= piece);
        assert(text::pieces(before, separator) =~= text::pieces(before, separator).drop_last().push(
            piece,
        ));
    } else {
        piece_without_separator(before, piece.drop_last(), separator);
        let start = text::pieces(before, separator).drop_last();
        assert((before + piece).drop_last() =~= before + piece.drop_last());
        assert((before + piece).last() == piece[piece.len() - 1]);
        assert(start.push(piece.drop_last()).drop_last() =~= start);
        assert(piece.drop_last().push(piece.last()) =~= piece);
    }
}

proof fn pieces_between(first: Seq<u8>, second: Seq<u8>, third: Seq<u8>, separator: u8)
    requires
        forall|i: int| 0 <= i < first.len() ==> #[trigger] first[i] != separator,
        forall|i: int| 0 <= i < second.len() ==> #[trigger] second[i] != separator,
        forall|i: int| 0 <= i < third.len() ==> #[trigger] third[i] != separator,
    ensures
        text::pieces(first.push(separator) + second.push(separator) + third, separator) == seq![
            first,
            second,
            third,
        ],
{
    let nothing = Seq::<u8>::empty();
    piece_without_separator(nothing, first, separator);
    assert(nothing + first =~= first);
    assert(text::pieces(first, separator) =~= seq![first]);
    let one = first.push(separator);
    assert(one.drop_last() =~= first);
    assert(text::pieces(one, separator) =~= seq![first, nothing]);
    piece_without_separator(one, second, separator);
    assert(text::pieces(one + second, separator) =~= seq![first, second]);
    let two = one + second.push(separator);
    assert(two.drop_last() =~= one + second);
    assert(text::pieces(two, separator) =~= seq![first, second, nothing]);
    piece_without_separator(two, third, separator);
    assert(text::pieces(two + third, separator) =~= seq![first, second, third]);
}

proof fn ascii_encodes(chars: Seq<char>, bytes: Seq<u8>)
    requires
        is_ascii_chars(chars),
        chars.len() == bytes.len(),
        forall|i: int| 0 <= i < chars.len() ==> #[trigger] chars[i] as u8 == bytes[i],
    ensures
        encode_utf8(chars) == bytes,
{
    is_ascii_chars_encode_utf8(chars);
    assert(encode_utf8(chars) =~= bytes);
}

proof fn newer_report_is_made_of(code: u8, x: usize, y: usize, pressed: bool)
    ensures
        input::mouse_report(code, x, y, pressed, true) == seq![0x1bu8, 0x5b, 0x3c] + encode_utf8(
            text::decimal(code as nat),
        ) + seq![0x3bu8] + encode_utf8(text::decimal(x as nat)) + seq![0x3bu8] + encode_utf8(
            text::decimal(y as nat),
        ) + seq![
            if pressed {
                0x4du8
            } else {
                0x6du8
            },
        ],
{
    let c = text::decimal(code as nat);
    let column = text::decimal(x as nat);
    let row = text::decimal(y as nat);
    reveal_strlit("\u{1b}[<");
    reveal_strlit(";");
    reveal_strlit("M");
    reveal_strlit("m");
    let head = "\u{1b}[<"@;
    let end = if pressed {
        "M"@
    } else {
        "m"@
    };
    ascii_encodes(head, seq![0x1bu8, 0x5b, 0x3c]);
    ascii_encodes(";"@, seq![0x3bu8]);
    ascii_encodes(
        end,
        seq![
            if pressed {
                0x4du8
            } else {
                0x6du8
            },
        ],
    );
    search::encode_utf8_concat(head, c);
    search::encode_utf8_concat(head + c, ";"@);
    search::encode_utf8_concat(head + c + ";"@, column);
    search::encode_utf8_concat(head + c + ";"@ + column, ";"@);
    search::encode_utf8_concat(head + c + ";"@ + column + ";"@, row);
    search::encode_utf8_concat(head + c + ";"@ + column + ";"@ + row, end);
}

/// A report of the newer form is read as its code, its cell and whether it is a press, whatever these
/// are.
pub proof fn newer_report_is_read_back(code: u8, x: usize, y: usize, pressed: bool)
    ensures
        reads_report(
            input::mouse_report(code, x, y, pressed, true),
            code as nat,
            x as nat,
            y as nat,
            pressed,
        ),
{
    newer_report_is_made_of(code, x, y, pressed);
    text::laws::decimal_is_read_back(code as nat, code as int);
    text::laws::decimal_is_read_back(x as nat, x as int);
    text::laws::decimal_is_read_back(y as nat, y as int);
    let report = input::mouse_report(code, x, y, pressed, true);
    let first = encode_utf8(text::decimal(code as nat));
    let second = encode_utf8(text::decimal(x as nat));
    let third = encode_utf8(text::decimal(y as nat));
    pieces_between(first, second, third, 0x3b);
    assert(report.subrange(3, report.len() - 1) =~= first.push(0x3b) + second.push(0x3b) + third);
    assert(report.take(3) =~= seq![0x1bu8, 0x5b, 0x3c]);
}

/// A report of the older form is ESC [ M and three bytes from which a program takes 32: the code, or 3
/// for every release, and the cell, or 223 where it lies beyond.
pub proof fn older_report_is_read_back(code: u8, x: usize, y: usize, pressed: bool)
    requires
        code < 224,
    ensures
        ({
            let report = input::mouse_report(code, x, y, pressed, false);
            &&& report.len() == 6
            &&& report.take(3) == seq![0x1bu8, 0x5b, 0x4d]
            &&& pressed ==> report[3] - 32 == code
            &&& !pressed ==> report[3] - 32 == 3
            &&& x < 224 ==> report[4] - 32 == x
            &&& x >= 224 ==> report[4] == 255
            &&& y < 224 ==> report[5] - 32 == y
            &&& y >= 224 ==> report[5] == 255
        }),
{
    assert(input::mouse_report(code, x, y, pressed, false).take(3) =~= seq![0x1bu8, 0x5b, 0x4d]);
}

/// A turn of the wheel is sent once for each step, and never more than three times.
pub proof fn wheel_turns_up_to_three_times(unit: Seq<u8>, steps: usize)
    ensures
        ({
            let sent = input::repeated(unit, input::wheel_count(steps));
            match steps {
                0 => sent == Seq::<u8>::empty(),
                1 => sent == unit,
                2 => sent == unit + unit,
                _ => sent == unit + unit + unit,
            }
        }),
{
    reveal_with_fuel(input::repeated, 4);
    assert(Seq::<u8>::empty() + unit =~= unit);
}

/// What a shell reads from a line, after the bytes of a word that it has read so far: a blank ends a
/// word, a byte after a backslash, a byte in quotes or a plain byte stands for itself, and anything else
/// is no list of words.
pub open spec fn shell_line(line: Seq<u8>, word: Seq<u8>) -> Option<Seq<Seq<u8>>>
    decreases line.len(),
{
    if line.len() == 0 {
        Some(seq![word])
    } else if line[0] == 0x20 {
        match shell_line(line.skip(1), Seq::empty()) {
            Some(rest) => Some(seq![word] + rest),
            None => None,
        }
    } else if line[0] == 0x5c && line.len() >= 2 {
        shell_line(line.skip(2), word.push(line[1]))
    } else if line[0] == 0x27 && line.len() >= 2 && line[1] == 0x27 {
        shell_line(line.skip(2), word)
    } else if line[0] == 0x27 && line.len() >= 3 && line[2] == 0x27 {
        shell_line(line.skip(3), word.push(line[1]))
    } else if input::shell_plain(line[0]) {
        shell_line(line.skip(1), word.push(line[0]))
    } else {
        None
    }
}

proof fn line_reads_bytes(path: Seq<u8>, rest: Seq<u8>, word: Seq<u8>)
    ensures
        shell_line(input::shell_escaped_bytes(path) + rest, word) == shell_line(rest, word + path),
    decreases path.len(),
{
    let bytes = input::shell_escaped_bytes(path);
    if path.len() == 0 {
        assert(bytes + rest =~= rest);
        assert(word + path =~= word);
    } else {
        let before = path.drop_last();
        let last = input::shell_escaped_byte(path.last());
        line_reads_bytes(before, last + rest, word);
        assert(bytes + rest =~= input::shell_escaped_bytes(before) + (last + rest));
        assert((last + rest).skip(last.len() as int) =~= rest);
        assert((word + before).push(path.last()) =~= word + path);
    }
}

proof fn line_reads_path(path: Seq<u8>, rest: Seq<u8>)
    ensures
        shell_line(input::shell_escaped(path) + rest, Seq::empty()) == shell_line(rest, path),
{
    let nothing = Seq::<u8>::empty();
    if path.len() == 0 {
        assert(path =~= nothing);
        assert((seq![0x27u8, 0x27] + rest).skip(2) =~= rest);
    } else {
        line_reads_bytes(path, rest, nothing);
        assert(nothing + path =~= path);
    }
}

proof fn line_reads_paths(paths: Seq<Seq<u8>>, rest: Seq<u8>)
    requires
        paths.len() > 0,
    ensures
        shell_line(input::shell_words(paths) + rest, Seq::empty()) == match shell_line(
            rest,
            paths.last(),
        ) {
            Some(words) => Some(paths.drop_last() + words),
            None => None,
        },
    decreases paths.len(),
{
    let last = input::shell_escaped(paths.last());
    if paths.len() == 1 {
        line_reads_path(paths[0], rest);
        if let Some(words) = shell_line(rest, paths.last()) {
            assert(paths.drop_last() + words =~= words);
        }
    } else {
        let before = paths.drop_last();
        let tail = seq![0x20u8] + (last + rest);
        line_reads_paths(before, tail);
        assert(input::shell_words(paths) + rest =~= input::shell_words(before) + tail);
        assert(tail.skip(1) =~= last + rest);
        line_reads_path(paths.last(), rest);
        if let Some(words) = shell_line(rest, paths.last()) {
            assert(before.drop_last() + (seq![before.last()] + words) =~= before + words);
        }
    }
}

/// A shell reads a pasted list of files as just these files: as many words, each of them a path byte for
/// byte, whatever bytes it holds.
pub proof fn shell_reads_pasted_files(paths: Seq<Seq<u8>>, text: Option<Seq<char>>)
    requires
        paths.len() > 0,
    ensures
        input::pasted(Some(paths), text) is Some,
        shell_line(input::pasted(Some(paths), text)->0, Seq::empty()) == Some(paths),
{
    let nothing = Seq::<u8>::empty();
    line_reads_paths(paths, nothing);
    assert(input::shell_words(paths) + nothing =~= input::shell_words(paths));
    assert(paths.drop_last() + seq![paths.last()] =~= paths);
}

/// A path of plain bytes is pasted as it stands; one other byte is pasted after a backslash, or in
/// quotes where it ends a line.
pub proof fn plain_paths_stay(path: Seq<u8>, byte: u8)
    requires
        path.len() > 0,
        forall|i: int| 0 <= i < path.len() ==> input::shell_plain(#[trigger] path[i]),
    ensures
        input::shell_escaped(path) == path,
        !input::shell_plain(byte) ==> input::shell_escaped(path.push(byte)) == path + (if byte
            == 0x0a || byte == 0x0d {
            seq![0x27u8, byte, 0x27]
        } else {
            seq![0x5cu8, byte]
        }),
    decreases path.len(),
{
    plain_bytes_stay(path);
    assert(path.push(byte).drop_last() =~= path);
}

proof fn plain_bytes_stay(path: Seq<u8>)
    requires
        forall|i: int| 0 <= i < path.len() ==> input::shell_plain(#[trigger] path[i]),
    ensures
        input::shell_escaped_bytes(path) == path,
    decreases path.len(),
{
    if path.len() > 0 {
        plain_bytes_stay(path.drop_last());
        assert(input::shell_plain(path[path.len() - 1]));
        assert(path.drop_last() + seq![path.last()] =~= path);
    } else {
        assert(input::shell_escaped_bytes(path) =~= path);
    }
}

/// Without files, or with an empty list of them, the text of the clipboard is pasted, all of it and in
/// UTF-8; without text nothing is.
pub proof fn text_is_pasted_without_files(text: Seq<char>)
    ensures
        input::pasted(None, Some(text)) is Some,
        decode_utf8(input::pasted(None, Some(text))->0) == text,
        input::pasted(Some(Seq::empty()), Some(text)) == input::pasted(None, Some(text)),
        input::pasted(None, None) is None,
        input::pasted(Some(Seq::empty()), None) is None,
{
    encode_utf8_decode_utf8(text);
}

/// What is pasted stands between the marks ESC [ 200 ~ and ESC [ 201 ~ where the terminal asked for
/// them, and alone otherwise.
pub proof fn paste_stands_between_marks(payload: Seq<u8>)
    ensures
        input::paste_sequence(payload, false) == payload,
        input::paste_sequence(payload, true).len() == payload.len() + 12,
        input::paste_sequence(payload, true).take(6) == seq![0x1bu8, 0x5b, 0x32, 0x30, 0x30, 0x7e],
        input::paste_sequence(payload, true).subrange(6, payload.len() as int + 6) == payload,
        input::paste_sequence(payload, true).skip(payload.len() as int + 6) == seq![
            0x1bu8,
            0x5b,
            0x32,
            0x30,
            0x31,
            0x7e,
        ],
{
    let sent = input::paste_sequence(payload, true);
    assert(sent.take(6) =~= seq![0x1bu8, 0x5b, 0x32, 0x30, 0x30, 0x7e]);
    assert(sent.subrange(6, payload.len() as int + 6) =~= payload);
    assert(sent.skip(payload.len() as int + 6) =~= seq![0x1bu8, 0x5b, 0x32, 0x30, 0x31, 0x7e]);
}

/// A terminal that asked for it is sent ESC [ I with the focus and ESC [ O without; another is sent
/// nothing.
pub proof fn focus_is_sent_as_a_letter(focused: bool)
    ensures
        input::focus_sequence(focused, false) is None,
        input::focus_sequence(focused, true) == Some(
            seq![
                0x1bu8,
                0x5b,
                if focused {
                    0x49
                } else {
                    0x4f
                },
            ],
        ),
{
}

/// A selection starts at a cell that is there: the column or the last one, in the row that many above
/// the last or in the first, and never at the second cell of a wide character.
pub proof fn selection_starts_at_a_cell(grid: TermGrid, column: usize, above_last: usize)
    requires
        grid.wf(),
        terminal::all_rows(grid).len() > 0,
        terminal::all_rows(grid).len() <= usize::MAX,
    ensures
        ({
            let rows = terminal::all_rows(grid);
            let (x, y) = input::selection_cell(grid, column, above_last)->0;
            let wanted = if column < grid.cols {
                column as int
            } else if grid.cols == 0 {
                0
            } else {
                grid.cols - 1
            };
            let before = wanted > 0 && wanted < rows[y as int]@.len()
                && rows[y as int]@[wanted].wide_spacer;
            &&& input::selection_cell(grid, column, above_last) is Some
            &&& y < rows.len()
            &&& above_last < rows.len() ==> y + above_last + 1 == rows.len()
            &&& above_last >= rows.len() ==> y == 0
            &&& before ==> x + 1 == wanted
            &&& !before ==> x == wanted
        }),
{
}

/// A pointer report's cell is counted from one: the column from the left and the row from the top, and
/// the last of either for a pointer beyond the edge.
pub proof fn report_cells_count_from_one(
    target: bool,
    cols: usize,
    rows: usize,
    column: usize,
    above_last: usize,
)
    ensures
        ({
            let cell = input::protocol_cell(target, cols, rows, column, above_last);
            if target && cols > 0 && rows > 0 {
                &&& cell is Some
                &&& 1 <= (cell->0).0 <= cols
                &&& 1 <= (cell->0).1 <= rows
                &&& column < cols ==> (cell->0).0 - 1 == column
                &&& column >= cols ==> (cell->0).0 == cols
                &&& above_last < rows ==> (cell->0).1 + above_last == rows
                &&& above_last >= rows ==> (cell->0).1 == 1
            } else {
                cell is None
            }
        }),
{
}

} // verus!
