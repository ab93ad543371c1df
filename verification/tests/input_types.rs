//! Keys and modifiers.
use ronsole::input_types::{CursorKind, KeyState, Modifiers};

#[test]
fn modifiers_keep_backend_independent_bit_semantics() {
    let modifiers = Modifiers(Modifiers::CONTROL) | Modifiers(Modifiers::SHIFT);
    assert!(modifiers.control_key());
    assert!(modifiers.shift_key());
    assert!(!modifiers.alt_key());
    assert!(!modifiers.super_key());
    assert!(!modifiers.is_empty());
    assert!(Modifiers::empty().is_empty());
}

#[test]
fn modifiers_are_made_of_their_keys() {
    assert_eq!(Modifiers::new(true, false, true, false), Modifiers(5));
    assert_eq!(Modifiers::new(false, true, false, true), Modifiers(10));
    assert_eq!(Modifiers::default(), Modifiers::empty());
    assert!(KeyState::Pressed.is_pressed());
    assert!(!KeyState::Released.is_pressed());
    assert_eq!(CursorKind::default(), CursorKind::Default);
}

#[test]
fn modifiers_are_added_to_others() {
    let mut modifiers = Modifiers(Modifiers::CONTROL);
    modifiers |= Modifiers(Modifiers::ALT);
    modifiers |= Modifiers(Modifiers::CONTROL);
    assert_eq!(modifiers, Modifiers::new(false, true, true, false));
}
