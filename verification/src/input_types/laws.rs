//! What holds of all keys and modifier keys.
use vstd::prelude::*;

use crate::input_types;
use crate::input_types::{KeyCode, Modifiers};

verus! {

/// Shift, Control, Alt and Super are the four lowest bits of the modifier keys, in this order from the
/// lowest.
pub proof fn modifiers_are_the_lowest_bits(modifiers: Modifiers)
    ensures
        modifiers.has_shift() == (modifiers.0 % 2 == 1),
        modifiers.has_control() == (modifiers.0 / 2 % 2 == 1),
        modifiers.has_alt() == (modifiers.0 / 4 % 2 == 1),
        modifiers.has_super() == (modifiers.0 / 8 % 2 == 1),
        Modifiers::SHIFT == 1,
        Modifiers::CONTROL == 2,
        Modifiers::ALT == 4,
        Modifiers::SUPER == 8,
{
    let bits = modifiers.0;
    assert((bits & 1 != 0) == (bits % 2 == 1) && (bits & 2 != 0) == (bits / 2 % 2 == 1) && (bits & 4
        != 0) == (bits / 4 % 2 == 1) && (bits & 8 != 0) == (bits / 8 % 2 == 1)) by (bit_vector);
}

/// The key of a letter is named after it.
pub proof fn letters_name_their_keys()
    ensures
        input_types::key_name(KeyCode::KeyA) == seq!['K', 'e', 'y', 'A'],
        input_types::key_name(KeyCode::KeyB) == seq!['K', 'e', 'y', 'B'],
        input_types::key_name(KeyCode::KeyC) == seq!['K', 'e', 'y', 'C'],
        input_types::key_name(KeyCode::KeyD) == seq!['K', 'e', 'y', 'D'],
        input_types::key_name(KeyCode::KeyE) == seq!['K', 'e', 'y', 'E'],
        input_types::key_name(KeyCode::KeyF) == seq!['K', 'e', 'y', 'F'],
        input_types::key_name(KeyCode::KeyG) == seq!['K', 'e', 'y', 'G'],
        input_types::key_name(KeyCode::KeyH) == seq!['K', 'e', 'y', 'H'],
        input_types::key_name(KeyCode::KeyI) == seq!['K', 'e', 'y', 'I'],
        input_types::key_name(KeyCode::KeyJ) == seq!['K', 'e', 'y', 'J'],
        input_types::key_name(KeyCode::KeyK) == seq!['K', 'e', 'y', 'K'],
        input_types::key_name(KeyCode::KeyL) == seq!['K', 'e', 'y', 'L'],
        input_types::key_name(KeyCode::KeyM) == seq!['K', 'e', 'y', 'M'],
        input_types::key_name(KeyCode::KeyN) == seq!['K', 'e', 'y', 'N'],
        input_types::key_name(KeyCode::KeyO) == seq!['K', 'e', 'y', 'O'],
        input_types::key_name(KeyCode::KeyP) == seq!['K', 'e', 'y', 'P'],
        input_types::key_name(KeyCode::KeyQ) == seq!['K', 'e', 'y', 'Q'],
        input_types::key_name(KeyCode::KeyR) == seq!['K', 'e', 'y', 'R'],
        input_types::key_name(KeyCode::KeyS) == seq!['K', 'e', 'y', 'S'],
        input_types::key_name(KeyCode::KeyT) == seq!['K', 'e', 'y', 'T'],
        input_types::key_name(KeyCode::KeyU) == seq!['K', 'e', 'y', 'U'],
        input_types::key_name(KeyCode::KeyV) == seq!['K', 'e', 'y', 'V'],
        input_types::key_name(KeyCode::KeyW) == seq!['K', 'e', 'y', 'W'],
        input_types::key_name(KeyCode::KeyX) == seq!['K', 'e', 'y', 'X'],
        input_types::key_name(KeyCode::KeyY) == seq!['K', 'e', 'y', 'Y'],
        input_types::key_name(KeyCode::KeyZ) == seq!['K', 'e', 'y', 'Z'],
{
    reveal_strlit("KeyA");
    reveal_strlit("KeyB");
    reveal_strlit("KeyC");
    reveal_strlit("KeyD");
    reveal_strlit("KeyE");
    reveal_strlit("KeyF");
    reveal_strlit("KeyG");
    reveal_strlit("KeyH");
    reveal_strlit("KeyI");
    reveal_strlit("KeyJ");
    reveal_strlit("KeyK");
    reveal_strlit("KeyL");
    reveal_strlit("KeyM");
    reveal_strlit("KeyN");
    reveal_strlit("KeyO");
    reveal_strlit("KeyP");
    reveal_strlit("KeyQ");
    reveal_strlit("KeyR");
    reveal_strlit("KeyS");
    reveal_strlit("KeyT");
    reveal_strlit("KeyU");
    reveal_strlit("KeyV");
    reveal_strlit("KeyW");
    reveal_strlit("KeyX");
    reveal_strlit("KeyY");
    reveal_strlit("KeyZ");
    assert("KeyA"@ =~= seq!['K', 'e', 'y', 'A']);
    assert("KeyB"@ =~= seq!['K', 'e', 'y', 'B']);
    assert("KeyC"@ =~= seq!['K', 'e', 'y', 'C']);
    assert("KeyD"@ =~= seq!['K', 'e', 'y', 'D']);
    assert("KeyE"@ =~= seq!['K', 'e', 'y', 'E']);
    assert("KeyF"@ =~= seq!['K', 'e', 'y', 'F']);
    assert("KeyG"@ =~= seq!['K', 'e', 'y', 'G']);
    assert("KeyH"@ =~= seq!['K', 'e', 'y', 'H']);
    assert("KeyI"@ =~= seq!['K', 'e', 'y', 'I']);
    assert("KeyJ"@ =~= seq!['K', 'e', 'y', 'J']);
    assert("KeyK"@ =~= seq!['K', 'e', 'y', 'K']);
    assert("KeyL"@ =~= seq!['K', 'e', 'y', 'L']);
    assert("KeyM"@ =~= seq!['K', 'e', 'y', 'M']);
    assert("KeyN"@ =~= seq!['K', 'e', 'y', 'N']);
    assert("KeyO"@ =~= seq!['K', 'e', 'y', 'O']);
    assert("KeyP"@ =~= seq!['K', 'e', 'y', 'P']);
    assert("KeyQ"@ =~= seq!['K', 'e', 'y', 'Q']);
    assert("KeyR"@ =~= seq!['K', 'e', 'y', 'R']);
    assert("KeyS"@ =~= seq!['K', 'e', 'y', 'S']);
    assert("KeyT"@ =~= seq!['K', 'e', 'y', 'T']);
    assert("KeyU"@ =~= seq!['K', 'e', 'y', 'U']);
    assert("KeyV"@ =~= seq!['K', 'e', 'y', 'V']);
    assert("KeyW"@ =~= seq!['K', 'e', 'y', 'W']);
    assert("KeyX"@ =~= seq!['K', 'e', 'y', 'X']);
    assert("KeyY"@ =~= seq!['K', 'e', 'y', 'Y']);
    assert("KeyZ"@ =~= seq!['K', 'e', 'y', 'Z']);
}

/// The function keys are named by their numbers.
pub proof fn function_keys_are_named_by_number()
    ensures
        input_types::key_name(KeyCode::F1) == seq!['F', '1'],
        input_types::key_name(KeyCode::F2) == seq!['F', '2'],
        input_types::key_name(KeyCode::F3) == seq!['F', '3'],
        input_types::key_name(KeyCode::F4) == seq!['F', '4'],
        input_types::key_name(KeyCode::F5) == seq!['F', '5'],
        input_types::key_name(KeyCode::F6) == seq!['F', '6'],
        input_types::key_name(KeyCode::F7) == seq!['F', '7'],
        input_types::key_name(KeyCode::F8) == seq!['F', '8'],
        input_types::key_name(KeyCode::F9) == seq!['F', '9'],
        input_types::key_name(KeyCode::F10) == seq!['F', '1', '0'],
        input_types::key_name(KeyCode::F11) == seq!['F', '1', '1'],
        input_types::key_name(KeyCode::F12) == seq!['F', '1', '2'],
{
    reveal_strlit("F1");
    reveal_strlit("F2");
    reveal_strlit("F3");
    reveal_strlit("F4");
    reveal_strlit("F5");
    reveal_strlit("F6");
    reveal_strlit("F7");
    reveal_strlit("F8");
    reveal_strlit("F9");
    reveal_strlit("F10");
    reveal_strlit("F11");
    reveal_strlit("F12");
    assert("F1"@ =~= seq!['F', '1']);
    assert("F2"@ =~= seq!['F', '2']);
    assert("F3"@ =~= seq!['F', '3']);
    assert("F4"@ =~= seq!['F', '4']);
    assert("F5"@ =~= seq!['F', '5']);
    assert("F6"@ =~= seq!['F', '6']);
    assert("F7"@ =~= seq!['F', '7']);
    assert("F8"@ =~= seq!['F', '8']);
    assert("F9"@ =~= seq!['F', '9']);
    assert("F10"@ =~= seq!['F', '1', '0']);
    assert("F11"@ =~= seq!['F', '1', '1']);
    assert("F12"@ =~= seq!['F', '1', '2']);
}

/// The other keys are named by what stands on them.
pub proof fn other_keys_are_named()
    ensures
        input_types::key_name(KeyCode::Enter) == seq!['E', 'n', 't', 'e', 'r'],
        input_types::key_name(KeyCode::NumpadEnter) == seq!['N', 'u', 'm', 'p', 'a', 'd', 'E', 'n', 't', 'e', 'r'],
        input_types::key_name(KeyCode::Backspace) == seq!['B', 'a', 'c', 'k', 's', 'p', 'a', 'c', 'e'],
        input_types::key_name(KeyCode::Tab) == seq!['T', 'a', 'b'],
        input_types::key_name(KeyCode::Escape) == seq!['E', 's', 'c', 'a', 'p', 'e'],
        input_types::key_name(KeyCode::Insert) == seq!['I', 'n', 's', 'e', 'r', 't'],
        input_types::key_name(KeyCode::Delete) == seq!['D', 'e', 'l', 'e', 't', 'e'],
        input_types::key_name(KeyCode::PageUp) == seq!['P', 'a', 'g', 'e', 'U', 'p'],
        input_types::key_name(KeyCode::PageDown) == seq!['P', 'a', 'g', 'e', 'D', 'o', 'w', 'n'],
        input_types::key_name(KeyCode::Home) == seq!['H', 'o', 'm', 'e'],
        input_types::key_name(KeyCode::End) == seq!['E', 'n', 'd'],
        input_types::key_name(KeyCode::ArrowUp) == seq!['A', 'r', 'r', 'o', 'w', 'U', 'p'],
        input_types::key_name(KeyCode::ArrowDown) == seq!['A', 'r', 'r', 'o', 'w', 'D', 'o', 'w', 'n'],
        input_types::key_name(KeyCode::ArrowRight) == seq!['A', 'r', 'r', 'o', 'w', 'R', 'i', 'g', 'h', 't'],
        input_types::key_name(KeyCode::ArrowLeft) == seq!['A', 'r', 'r', 'o', 'w', 'L', 'e', 'f', 't'],
        input_types::key_name(KeyCode::Space) == seq!['S', 'p', 'a', 'c', 'e'],
        input_types::key_name(KeyCode::Digit2) == seq!['D', 'i', 'g', 'i', 't', '2'],
        input_types::key_name(KeyCode::Digit4) == seq!['D', 'i', 'g', 'i', 't', '4'],
        input_types::key_name(KeyCode::Digit6) == seq!['D', 'i', 'g', 'i', 't', '6'],
        input_types::key_name(KeyCode::Minus) == seq!['M', 'i', 'n', 'u', 's'],
        input_types::key_name(KeyCode::Slash) == seq!['S', 'l', 'a', 's', 'h'],
        input_types::key_name(KeyCode::BracketLeft) == seq!['B', 'r', 'a', 'c', 'k', 'e', 't', 'L', 'e', 'f', 't'],
        input_types::key_name(KeyCode::Backslash) == seq!['B', 'a', 'c', 'k', 's', 'l', 'a', 's', 'h'],
        input_types::key_name(KeyCode::BracketRight) == seq!['B', 'r', 'a', 'c', 'k', 'e', 't', 'R', 'i', 'g', 'h', 't'],
{
    reveal_strlit("Enter");
    reveal_strlit("NumpadEnter");
    reveal_strlit("Backspace");
    reveal_strlit("Tab");
    reveal_strlit("Escape");
    reveal_strlit("Insert");
    reveal_strlit("Delete");
    reveal_strlit("PageUp");
    reveal_strlit("PageDown");
    reveal_strlit("Home");
    reveal_strlit("End");
    reveal_strlit("ArrowUp");
    reveal_strlit("ArrowDown");
    reveal_strlit("ArrowRight");
    reveal_strlit("ArrowLeft");
    reveal_strlit("Space");
    reveal_strlit("Digit2");
    reveal_strlit("Digit4");
    reveal_strlit("Digit6");
    reveal_strlit("Minus");
    reveal_strlit("Slash");
    reveal_strlit("BracketLeft");
    reveal_strlit("Backslash");
    reveal_strlit("BracketRight");
    assert("Enter"@ =~= seq!['E', 'n', 't', 'e', 'r']);
    assert("NumpadEnter"@ =~= seq!['N', 'u', 'm', 'p', 'a', 'd', 'E', 'n', 't', 'e', 'r']);
    assert("Backspace"@ =~= seq!['B', 'a', 'c', 'k', 's', 'p', 'a', 'c', 'e']);
    assert("Tab"@ =~= seq!['T', 'a', 'b']);
    assert("Escape"@ =~= seq!['E', 's', 'c', 'a', 'p', 'e']);
    assert("Insert"@ =~= seq!['I', 'n', 's', 'e', 'r', 't']);
    assert("Delete"@ =~= seq!['D', 'e', 'l', 'e', 't', 'e']);
    assert("PageUp"@ =~= seq!['P', 'a', 'g', 'e', 'U', 'p']);
    assert("PageDown"@ =~= seq!['P', 'a', 'g', 'e', 'D', 'o', 'w', 'n']);
    assert("Home"@ =~= seq!['H', 'o', 'm', 'e']);
    assert("End"@ =~= seq!['E', 'n', 'd']);
    assert("ArrowUp"@ =~= seq!['A', 'r', 'r', 'o', 'w', 'U', 'p']);
    assert("ArrowDown"@ =~= seq!['A', 'r', 'r', 'o', 'w', 'D', 'o', 'w', 'n']);
    assert("ArrowRight"@ =~= seq!['A', 'r', 'r', 'o', 'w', 'R', 'i', 'g', 'h', 't']);
    assert("ArrowLeft"@ =~= seq!['A', 'r', 'r', 'o', 'w', 'L', 'e', 'f', 't']);
    assert("Space"@ =~= seq!['S', 'p', 'a', 'c', 'e']);
    assert("Digit2"@ =~= seq!['D', 'i', 'g', 'i', 't', '2']);
    assert("Digit4"@ =~= seq!['D', 'i', 'g', 'i', 't', '4']);
    assert("Digit6"@ =~= seq!['D', 'i', 'g', 'i', 't', '6']);
    assert("Minus"@ =~= seq!['M', 'i', 'n', 'u', 's']);
    assert("Slash"@ =~= seq!['S', 'l', 'a', 's', 'h']);
    assert("BracketLeft"@ =~= seq!['B', 'r', 'a', 'c', 'k', 'e', 't', 'L', 'e', 'f', 't']);
    assert("Backslash"@ =~= seq!['B', 'a', 'c', 'k', 's', 'l', 'a', 's', 'h']);
    assert("BracketRight"@ =~= seq!['B', 'r', 'a', 'c', 'k', 'e', 't', 'R', 'i', 'g', 'h', 't']);
}

} // verus!
