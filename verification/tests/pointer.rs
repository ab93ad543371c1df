//! The pointer in a terminal.
use ronsole::input::PointerCapture;
use ronsole::input_types::{KeyState, PointerButton};
use ronsole::input::{terminal_key_sequence, terminal_text_sequence, release_pointer_capture};
use ronsole::input_types::{KeyCode, PhysicalKey};
use ronsole::interaction::{search_owns_keyboard, ScrollDrag, TerminalInteraction};
use ronsole::pointer::{
    begin_search_pointer_selection, settle_selection, terminal_body_takes_search_focus,
    update_search_pointer_selection, PointerTarget, SearchHit, WheelAction,
};
use ronsole::search::TerminalSearchState;
use ronsole::terminal::{MouseTrackingMode, TermGrid};

fn over(cell: (usize, usize)) -> PointerTarget {
    PointerTarget {
        search: None,
        search_cursor: 0,
        scrollbar: false,
        body: true,
        cell: Some(cell),
        protocol_cell: Some((cell.0 + 1, cell.1 + 1)),
    }
}

fn begin(ui: &mut TerminalInteraction, grid: &mut TermGrid, cell: (usize, usize)) {
    let outcome = ui.mouse_input(KeyState::Pressed, PointerButton::Left, over(cell), grid, 0);
    assert!(outcome.handled);
    assert!(ui.terminal_selection_active());
}

#[test]
fn single_click_clears_selection_while_drag_keeps_nonempty_selection() {
    let mut ui = TerminalInteraction::default();
    let mut grid = TermGrid::new(80, 30);
    grid.selection = Some((1, 1, 4, 1));
    assert!(ui.clear_text_selection(&mut grid));

    begin(&mut ui, &mut grid, (1, 15));
    assert!(grid.selection.is_none());
    assert!(
        ui.mouse_input(KeyState::Released, PointerButton::Left, over((1, 15)), &mut grid, 0)
            .handled
    );
    assert!(grid.selection.is_none());

    begin(&mut ui, &mut grid, (1, 15));
    assert!(ui.cursor_moved(over((6, 15)), false, false, false, &mut grid).handled);
    assert!(
        ui.mouse_input(KeyState::Released, PointerButton::Left, over((6, 15)), &mut grid, 0)
            .handled
    );
    assert!(grid.selection.is_some_and(|(sx, sy, ex, ey)| sx != ex || sy != ey));
}

#[test]
fn tracked_mouse_press_still_reports_after_stale_selection_is_cleared() {
    let mut ui = TerminalInteraction::default();
    let mut grid = TermGrid::new(80, 30);
    grid.selection = Some((1, 1, 4, 1));
    grid.mouse_tracking_mode = MouseTrackingMode::Press;
    grid.mouse_sgr = true;
    assert!(ui.clear_text_selection(&mut grid));
    let outcome =
        ui.mouse_input(KeyState::Pressed, PointerButton::Left, over((1, 15)), &mut grid, 0);
    assert!(outcome.handled);
    assert_eq!(outcome.send, Some(b"\x1b[<0;2;16M".to_vec()));
    assert!(grid.selection.is_none());
    assert_eq!(grid.mouse_tracking_mode, MouseTrackingMode::Press);
}

#[test]
fn terminal_body_click_defocuses_search_without_closing_it() {
    let mut search = TerminalSearchState::default();
    search.open();
    search.insert_text("needle");
    assert!(search_owns_keyboard(&search));

    terminal_body_takes_search_focus(&mut search);

    assert!(search.shown);
    assert!(!search.focused);
    assert!(!search_owns_keyboard(&search));
    assert_eq!(search.input.text, "needle");
    assert_eq!(
        terminal_key_sequence(PhysicalKey::Code(KeyCode::KeyA), false, false, false, false),
        None
    );
    assert_eq!(terminal_text_sequence("a", false, false, false), Some(b"a".to_vec()));
    assert_eq!(search.input.text, "needle");
}

#[test]
fn search_mouse_drag_selection_uses_unicode_character_indices_both_directions() {
    let mut search = TerminalSearchState::default();
    search.open();
    search.insert_text("ab界cd");

    begin_search_pointer_selection(&mut search, 1);
    assert!(update_search_pointer_selection(&mut search, PointerCapture::SearchInput, 3));
    assert_eq!(search.selected_text().as_deref(), Some("b界"));

    begin_search_pointer_selection(&mut search, 3);
    assert!(update_search_pointer_selection(&mut search, PointerCapture::SearchInput, 1));
    assert_eq!(search.selected_text().as_deref(), Some("b界"));

    let mut capture = PointerCapture::SearchInput;
    assert_eq!(release_pointer_capture(&mut capture), PointerCapture::SearchInput);
    assert_eq!(capture, PointerCapture::Free);
    let before = search.input.clone();
    assert!(!update_search_pointer_selection(&mut search, capture, 5));
    assert_eq!(search.input, before);
}

#[test]
fn release_and_cancellation_stop_selection_autoscroll() {
    let mut ui = TerminalInteraction::default();
    let mut grid = TermGrid::new(80, 30);
    ui.pointer_capture = PointerCapture::TerminalSelection;
    ui.terminal_selection_anchor = Some((2, 2));
    assert!(ui.selection_autoscroll_active(true));

    assert!(
        ui.mouse_input(KeyState::Released, PointerButton::Left, over((2, 0)), &mut grid, 0)
            .handled
    );
    assert!(!ui.terminal_selection_active());
    assert!(!ui.selection_autoscroll_active(true));

    ui.pointer_capture = PointerCapture::TerminalSelection;
    ui.terminal_selection_anchor = Some((2, 2));
    assert_eq!(ui.cancel_pointer_interaction(), PointerCapture::TerminalSelection);
    assert!(!ui.terminal_selection_active());
    assert!(!ui.selection_autoscroll_active(true));
}

#[test]
fn pointer_that_left_goes_on_selecting() {
    let mut ui = TerminalInteraction::default();
    let mut grid = TermGrid::new(80, 30);
    assert!(!ui.cursor_left(Some((4, 0)), false, true, &mut grid));
    begin(&mut ui, &mut grid, (10, 15));
    assert!(ui.cursor_left(Some((40, 0)), false, true, &mut grid));
    assert_eq!(grid.selection, Some((10, 15, 40, 0)));
    assert!(ui.update_selection_autoscroll(true, Some((41, 0)), &mut grid));
    assert_eq!(grid.selection, Some((10, 15, 41, 0)));
    assert!(!ui.update_selection_autoscroll(false, Some((42, 0)), &mut grid));
    assert!(ui.update_terminal_selection_endpoint(Some((0, 16)), &mut grid));
    assert_eq!(grid.selection, Some((10, 15, 0, 16)));
}

#[test]
fn scrollbar_takes_the_pointer_until_it_is_released() {
    let mut ui = TerminalInteraction::default();
    let mut grid = TermGrid::new(80, 30);
    grid.mouse_tracking_mode = MouseTrackingMode::AnyMotion;
    let bar = PointerTarget { scrollbar: true, protocol_cell: None, ..over((79, 3)) };
    let start = ui.mouse_input(KeyState::Pressed, PointerButton::Left, bar, &mut grid, 0);
    assert_eq!(start.drag, ScrollDrag::Start);
    assert_eq!(ui.pointer_capture, PointerCapture::TerminalScrollbar);
    let moved = ui.cursor_moved(over((70, 9)), false, false, true, &mut grid);
    assert_eq!(moved.drag, ScrollDrag::Move);
    assert_eq!(moved.send, None);
    let end = ui.mouse_input(KeyState::Released, PointerButton::Left, bar, &mut grid, 0);
    assert_eq!(end.drag, ScrollDrag::End);
    assert_eq!(ui.pointer_capture, PointerCapture::Free);
}

#[test]
fn search_buttons_are_pressed_over_the_terminal() {
    let mut ui = TerminalInteraction::default();
    let mut grid = TermGrid::new(80, 30);
    ui.open_search(&mut grid, 0);
    let at = |hit| PointerTarget { search: Some(hit), protocol_cell: None, ..over((5, 5)) };
    ui.mouse_input(KeyState::Pressed, PointerButton::Left, at(SearchHit::CaseToggle), &mut grid, 0);
    assert!(ui.search.case_sensitive);
    ui.mouse_input(KeyState::Released, PointerButton::Left, at(SearchHit::CaseToggle), &mut grid, 0);
    ui.mouse_input(KeyState::Pressed, PointerButton::Left, at(SearchHit::Close), &mut grid, 0);
    assert!(!ui.search.shown);
}

#[test]
fn wheel_goes_where_the_screen_wants_it() {
    let ui = TerminalInteraction::default();
    let mut grid = TermGrid::new(80, 30);
    assert_eq!(ui.mouse_wheel(over((1, 1)), true, 1, &grid), WheelAction::Scroll);
    grid.is_alt = true;
    assert_eq!(
        ui.mouse_wheel(over((1, 1)), true, 1, &grid),
        WheelAction::Taken(Some(b"\x1b[A".to_vec()))
    );
    grid.mouse_tracking_mode = MouseTrackingMode::Press;
    grid.mouse_sgr = true;
    assert_eq!(
        ui.mouse_wheel(over((1, 1)), false, 1, &grid),
        WheelAction::Taken(Some(b"\x1b[<65;2;2M".to_vec()))
    );
}

#[test]
fn empty_selection_is_dropped_on_release() {
    let mut grid = TermGrid::new(80, 30);
    grid.selection = Some((3, 4, 3, 4));
    settle_selection(&mut grid);
    assert_eq!(grid.selection, None);
    grid.selection = Some((3, 4, 5, 4));
    settle_selection(&mut grid);
    assert_eq!(grid.selection, Some((3, 4, 5, 4)));
    let mut ui = TerminalInteraction::default();
    ui.pointer_capture = PointerCapture::SearchControl;
    ui.reset_for_terminal_switch();
    assert_eq!(ui.pointer_capture, PointerCapture::Free);
}
