//! Keys in a terminal and its search.
use ronsole::input_types::{KeyCode, KeyInput, KeyState, Modifiers, PhysicalKey};
use ronsole::interaction::{remove_breaks, ClipboardContents, CopyRequest, TerminalInteraction};
use ronsole::search::SearchRefreshCause;
use ronsole::terminal::TermGrid;

fn key(code: KeyCode) -> KeyInput {
    KeyInput { state: KeyState::Pressed, physical_key: PhysicalKey::Code(code) }
}

fn clipboard(text: Option<&str>) -> ClipboardContents {
    ClipboardContents {
        available: true,
        file_list: None,
        text: text.map(|text| text.to_owned()),
    }
}

fn grid_with(text: &str) -> TermGrid {
    let mut grid = TermGrid::new(32, 2);
    for (x, c) in text.chars().enumerate() {
        grid.lines[0][x].text = c.to_string();
    }
    grid.content_generation += 1;
    grid
}

#[test]
fn interrupt_reaches_the_program_without_a_selection() {
    let mut ui = TerminalInteraction::default();
    let mut grid = grid_with("text");
    ui.set_modifiers(Modifiers(Modifiers::CONTROL));
    grid.selection = Some((0, 0, 3, 0));
    let first = ui.handle_key_event(&key(KeyCode::KeyC), &mut grid, &clipboard(None), 0);
    assert!(first.handled);
    assert_eq!(first.copy, CopyRequest::Cells((0, 0, 3, 0)));
    assert_eq!(first.send, None);
    let second = ui.handle_key_event(&key(KeyCode::KeyC), &mut grid, &clipboard(None), 0);
    assert_eq!(second.send, Some(vec![3]));
    assert_eq!(second.copy, CopyRequest::Nothing);
}

#[test]
fn paste_is_marked_where_the_program_asked_for_it() {
    let mut ui = TerminalInteraction::default();
    let mut grid = grid_with("");
    ui.set_modifiers(Modifiers(Modifiers::CONTROL));
    assert!(ui.pastes(&key(KeyCode::KeyV)));
    let plain = ui.handle_key_event(&key(KeyCode::KeyV), &mut grid, &clipboard(Some("x")), 0);
    assert_eq!(plain.send, Some(b"x".to_vec()));
    grid.bracketed_paste = true;
    let marked = ui.handle_key_event(&key(KeyCode::KeyV), &mut grid, &clipboard(Some("x")), 0);
    assert_eq!(marked.send, Some(b"\x1b[200~x\x1b[201~".to_vec()));
}

#[test]
fn search_takes_typed_text_while_it_has_the_keyboard() {
    let mut ui = TerminalInteraction::default();
    let mut grid = grid_with("one two one");
    ui.open_search(&mut grid, 0);
    let typed = ui.handle_text("one", &mut grid, 0);
    assert_eq!(typed.send, None);
    assert_eq!(ui.search.results.len(), 2);
    let next = ui.handle_key_event(&key(KeyCode::Enter), &mut grid, &clipboard(None), 0);
    assert!(next.handled);
    assert_eq!(next.jump, Some(1));
    let left = ui.handle_search_key(&key(KeyCode::ArrowLeft), &mut grid, &clipboard(None), 0);
    assert!(left.handled);
    assert_eq!(ui.search.input.cursor, 2);
    ui.handle_ime_commit("я", &mut grid, 0);
    assert_eq!(ui.search.input.text, "onяe");
    ui.handle_key_event(&key(KeyCode::Escape), &mut grid, &clipboard(None), 0);
    assert!(!ui.search.shown);
    let through = ui.handle_text("z", &mut grid, 0);
    assert_eq!(through.send, Some(b"z".to_vec()));
}

#[test]
fn pasted_query_is_one_line() {
    assert_eq!(remove_breaks("a\r\nb\nc"), "abc");
    let mut ui = TerminalInteraction::default();
    let mut grid = grid_with("");
    ui.open_search(&mut grid, 0);
    ui.set_modifiers(Modifiers(Modifiers::CONTROL));
    ui.handle_key_event(&key(KeyCode::KeyV), &mut grid, &clipboard(Some("a\nb")), 0);
    assert_eq!(ui.search.input.text, "ab");
    ui.handle_key_event(&key(KeyCode::KeyA), &mut grid, &clipboard(None), 0);
    let copied = ui.handle_key_event(&key(KeyCode::KeyC), &mut grid, &clipboard(None), 0);
    assert_eq!(copied.copy, CopyRequest::Text("ab".to_owned()));
}

#[test]
fn changed_rows_never_scroll_the_terminal() {
    let mut ui = TerminalInteraction::default();
    let mut grid = grid_with("one two one");
    ui.open_search(&mut grid, 0);
    ui.handle_text("one", &mut grid, 0);
    grid.content_generation += 1;
    assert_eq!(ui.refresh_search(&mut grid, SearchRefreshCause::Grid, 10_000_000), None);
}

#[test]
fn search_that_is_shown_follows_the_rows_before_they_are_drawn() {
    let mut grid = grid_with("needle");
    let mut ui = TerminalInteraction::default();
    ui.search.insert_text("needle");
    ui.prepare_search_for_render(&mut grid, 0);
    assert!(ui.search.results.is_empty());
    ui.search.open();
    ui.prepare_search_for_render(&mut grid, 0);
    assert_eq!(ui.search.results.len(), 1);
    grid.lines[0][0].text = "N".to_owned();
    grid.lines[0][1].text = "x".to_owned();
    grid.content_generation += 1;
    ui.prepare_search_for_render(&mut grid, 10_000_000);
    assert!(ui.search.results.is_empty());
}
