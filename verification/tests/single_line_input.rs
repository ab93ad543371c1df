//! An edited line.
use ronsole::single_line_input::SingleLineInput;

#[test]
fn shared_editor_supports_selection_navigation_and_replacement() {
    let mut input = SingleLineInput::from_text("abcdef");
    assert!(input.move_cursor(2, false));
    assert!(input.move_right(true));
    assert!(input.move_right(true));
    assert_eq!(input.selection(), Some((2, 4)));
    assert_eq!(input.selected_text().as_deref(), Some("cd"));
    assert!(input.insert_text("XY"));
    assert_eq!(input.text, "abXYef");
    assert_eq!(input.cursor, 4);
    assert_eq!(input.selection(), None);
    assert!(input.move_home(true));
    assert_eq!(input.selection(), Some((0, 4)));
    assert!(input.move_end(false));
    assert_eq!(input.selection(), None);
}

#[test]
fn shared_editor_backspace_and_delete_replace_selected_ranges() {
    let mut input = SingleLineInput::from_text("abcdef");
    input.move_cursor(1, false);
    input.move_cursor(4, true);
    assert!(input.backspace());
    assert_eq!(input.text, "aef");
    input.set_text("abcdef");
    input.move_cursor(2, false);
    input.move_cursor(5, true);
    assert!(input.delete_forward());
    assert_eq!(input.text, "abf");
}

#[test]
fn backspace_takes_back_what_was_typed() {
    let mut input = SingleLineInput::from_text("a界b");
    input.move_cursor(2, false);
    let before = input.clone();
    assert!(input.insert_text("я"));
    assert_eq!(input.text, "a界яb");
    assert!(input.backspace());
    assert_eq!(input, before);
}

#[test]
fn edges_of_the_line_stop_the_cursor() {
    let mut input = SingleLineInput::default();
    assert!(!input.backspace());
    assert!(!input.delete_forward());
    assert!(!input.move_left(false));
    assert!(!input.move_right(false));
    assert!(!input.delete_selection());
    assert_eq!(input.selected_text(), None);
    input.insert_text("xy");
    input.select_all();
    assert_eq!(input.selected_char_count(), 2);
    assert_eq!(input.char_count(), 2);
    assert!(input.insert_text("z"));
    assert_eq!(input.text, "z");
}
