//! What holds of every motion, button and turn of the wheel.
use vstd::prelude::*;

use crate::input;
use crate::input::PointerCapture;
use crate::input_types::{KeyState, PointerButton};
use crate::interaction;
use crate::interaction::{InteractionModel, Selection};
use crate::pointer;
use crate::pointer::{PointerTarget, SearchHit, WheelAction};
use crate::search;
use crate::search::SearchModel;
use crate::terminal::TermGrid;

verus! {

/// Reports reach the terminal over its body alone, where neither a part of the search nor the track of
/// the scrollbar lies over it.
pub proof fn overlays_cover_the_body(hit: SearchHit)
    ensures
        pointer::reports_reach(true, None, false),
        pointer::reports_reach(true, Some(SearchHit::Outside), false),
        !(hit is Outside) ==> !pointer::reports_reach(true, Some(hit), false),
        !pointer::reports_reach(true, None, true),
        !pointer::reports_reach(true, Some(hit), true),
        !pointer::reports_reach(false, None, false),
        !pointer::reports_reach(false, Some(hit), false),
{
}

/// A selection that is dragged reaches from the cell where it began to the cell under the pointer, and
/// has changed where it reaches elsewhere than before. A cell alone begins none, and without a cell on
/// either side nothing changes.
pub proof fn dragged_selection_reaches_the_pointer(
    from: (usize, usize),
    selection: Selection,
    to: (usize, usize),
)
    ensures
        ({
            let (after, changed) = pointer::dragged(Some(from), selection, Some(to));
            &&& selection is Some || from != to ==> after == Some((from.0, from.1, to.0, to.1))
            &&& selection is None && from == to ==> after is None
            &&& changed == (after != selection)
        }),
        pointer::dragged(None, selection, Some(to)) == (selection, false),
        pointer::dragged(Some(from), selection, None) == (selection, false),
{
}

/// A selection of one cell is none when the drag is over; another stays.
pub proof fn one_cell_is_no_selection(x: usize, y: usize, to_x: usize, to_y: usize)
    ensures
        pointer::settled(Some((x, y, x, y))) is None,
        x != to_x || y != to_y ==> pointer::settled(Some((x, y, to_x, to_y))) == Some(
            (x, y, to_x, to_y),
        ),
        pointer::settled(None) is None,
{
}

/// The view scrolls for a selection that has begun, where there is room, and for nothing else.
pub proof fn selection_scrolls_with_room(ui: InteractionModel)
    ensures
        !pointer::autoscrolls(ui, false),
        pointer::autoscrolls(ui, true) == (ui.capture is TerminalSelection && ui.anchor is Some),
{
}

/// A button that goes down or up is noted, wherever that happens.
pub proof fn buttons_are_noted(
    ui: InteractionModel,
    grid: TermGrid,
    state: KeyState,
    button: PointerButton,
    target: PointerTarget,
    now: u64,
)
    ensures
        pointer::button_step(ui, grid, state, button, target, now).ui.buttons == input::buttons_after(
            ui.buttons,
            button,
            state,
        ),
        pointer::button_step(ui, grid, state, button, target, now).ui.modifiers == ui.modifiers,
{
    reveal(pointer::button_step);
}

/// A press of the left button on a part of the search: the cross closes it, the arrows go from result
/// to result, the letters turn the case of letters on and off and look for the results anew, and the
/// query gets the keyboard, the cursor and the start of a selection. The pointer holds on to what it
/// pressed, whatever lies beneath.
pub proof fn search_parts_take_the_left_button(
    ui: InteractionModel,
    grid: TermGrid,
    target: PointerTarget,
    now: u64,
)
    requires
        target.search is Some,
        ui.search.wf(),
        ui.search.shown,
        ui.search.scanned_query_revision == ui.search.query_revision,
    ensures
        ({
            let step = pointer::button_step(
                ui,
                grid,
                KeyState::Pressed,
                PointerButton::Left,
                target,
                now,
            );
            let len = ui.search.results.len() as int;
            let after = step.ui.search;
            let line = ui.search.line;
            match target.search->0 {
                SearchHit::Close => {
                    &&& !after.shown && !after.focused && after.results.len() == 0
                    &&& step.selection is None && step.outcome.handled && step.outcome.send is None
                    &&& step.ui.capture is SearchControl
                },
                SearchHit::Next => {
                    &&& step.ui.capture is SearchControl && step.outcome.handled
                    &&& ui.search.current matches Some(at) ==> after.current == Some(
                        if at + 1 < len {
                            at + 1
                        } else {
                            0
                        },
                    )
                    &&& after.active() matches Some(found) ==> step.selection == Some(
                        (found.start_x, found.y, found.end_x, found.y),
                    ) && step.outcome.jump == Some(interaction::rows_below(grid, found.y))
                },
                SearchHit::Previous => {
                    &&& step.ui.capture is SearchControl && step.outcome.handled
                    &&& ui.search.current matches Some(at) ==> after.current == Some(
                        if at > 0 {
                            at - 1
                        } else {
                            len - 1
                        },
                    )
                    &&& after.active() matches Some(found) ==> step.selection == Some(
                        (found.start_x, found.y, found.end_x, found.y),
                    ) && step.outcome.jump == Some(interaction::rows_below(grid, found.y))
                },
                SearchHit::CaseToggle => {
                    &&& step.ui.capture is SearchControl && step.outcome.handled
                    &&& after.case_sensitive == !ui.search.case_sensitive
                    &&& after.line == line
                    &&& after.results == search::search_results(
                        grid,
                        line.text,
                        !ui.search.case_sensitive,
                    )
                },
                SearchHit::Input => {
                    &&& step.ui.capture is SearchInput && step.outcome.handled
                    &&& after.focused && after.line.text == line.text
                    &&& target.search_cursor <= line.text.len() ==> after.line.cursor
                        == target.search_cursor
                    &&& target.search_cursor > line.text.len() ==> after.line.cursor
                        == line.text.len()
                    &&& after.line.anchor == Some(target.search_cursor as int)
                    &&& after.results == ui.search.results && step.selection == grid.selection
                },
                SearchHit::Chrome => {
                    &&& step.ui.capture is SearchControl && step.outcome.handled
                    &&& after == ui.search && step.selection == grid.selection
                },
                SearchHit::Outside => true,
            }
        }),
{
    reveal(pointer::button_step);
    if ui.search.current is Some {
        search::laws::steps_go_round(ui.search);
    }
}

/// Beside the search a press of the left button on the track of the scrollbar starts a drag of it, also
/// over the body.
pub proof fn scrollbar_takes_the_left_button(
    ui: InteractionModel,
    grid: TermGrid,
    target: PointerTarget,
    now: u64,
)
    requires
        target.search is None || target.search == Some(SearchHit::Outside),
        target.scrollbar,
    ensures
        ({
            let step = pointer::button_step(
                ui,
                grid,
                KeyState::Pressed,
                PointerButton::Left,
                target,
                now,
            );
            &&& step.ui.capture is TerminalScrollbar
            &&& step.outcome.drag is Start && step.outcome.handled
            &&& step.outcome.send is None && step.selection == grid.selection
            &&& step.ui.search == ui.search
        }),
{
    reveal(pointer::button_step);
}

/// In the body a terminal that asked for reports is sent each button that it is to hear of; otherwise
/// the left button begins a selection at its cell. Outside the body nothing happens.
pub proof fn body_reports_or_selects(
    ui: InteractionModel,
    grid: TermGrid,
    state: KeyState,
    button: PointerButton,
    target: PointerTarget,
    now: u64,
)
    requires
        ui.capture is Free || state is Pressed,
        target.search is None || target.search == Some(SearchHit::Outside) || !(button is Left
            && state is Pressed),
        !target.scrollbar || !(button is Left && state is Pressed),
    ensures
        ({
            let step = pointer::button_step(ui, grid, state, button, target, now);
            let code = match button {
                PointerButton::Left => Some(0u8),
                PointerButton::Middle => Some(1u8),
                PointerButton::Right => Some(2u8),
                _ => None,
            };
            let reported = !(grid.mouse_tracking_mode is Off) && code is Some
                && target.protocol_cell is Some;
            let selects = grid.mouse_tracking_mode is Off && button is Left && state is Pressed
                && target.cell is Some;
            &&& !target.body ==> !step.outcome.handled && step.outcome.send is None
                && step.selection == grid.selection && step.ui.search == ui.search
                && step.ui.capture == ui.capture
            &&& target.body && reported ==> {
                let (x, y) = target.protocol_cell->0;
                &&& step.outcome.send == Some(
                    input::mouse_report(code->0, x, y, state is Pressed, grid.mouse_sgr),
                )
                &&& step.outcome.handled && step.ui.capture == ui.capture
            }
            &&& target.body && selects ==> {
                &&& step.ui.capture is TerminalSelection && step.ui.anchor == target.cell
                &&& step.outcome.handled && step.outcome.send is None
            }
            &&& target.body && !reported && !selects ==> !step.outcome.handled
                && step.outcome.send is None && step.ui.capture == ui.capture && step.ui.anchor
                == ui.anchor
        }),
{
    reveal(pointer::button_step);
}

/// A motion of a free pointer is reported or left to others; one that holds a selection moves its end,
/// one that holds the scrollbar scrolls, one that holds the query selects in it, and one that holds
/// another part of the search does nothing.
pub proof fn motion_follows_what_is_held(
    ui: InteractionModel,
    grid: TermGrid,
    target: PointerTarget,
    room_before: bool,
    room_after: bool,
    scrollbar_moves: bool,
)
    ensures
        ({
            let step = pointer::motion_step(
                ui,
                grid,
                target,
                room_before,
                room_after,
                scrollbar_moves,
            );
            let line = ui.search.line;
            match ui.capture {
                PointerCapture::Free => {
                    &&& step.ui == ui && step.selection == grid.selection
                    &&& step.outcome.send == input::motion_report(
                        grid.mouse_tracking_mode,
                        grid.mouse_sgr,
                        ui.buttons,
                        target.protocol_cell,
                    )
                    &&& step.outcome.handled == (step.outcome.send is Some)
                    &&& step.outcome.drag is Keep
                },
                PointerCapture::TerminalSelection => {
                    &&& step.ui == ui && step.outcome.send is None && step.outcome.drag is Keep
                    &&& ui.anchor matches Some((x, y)) ==> (target.cell matches Some((to_x, to_y))
                        ==> grid.selection is Some || x != to_x || y != to_y ==> step.selection
                        == Some((x, y, to_x, to_y)))
                    &&& step.selection != grid.selection ==> step.outcome.handled
                    &&& step.selection == grid.selection ==> step.outcome.handled == (ui.anchor is Some
                        && room_before != room_after)
                },
                PointerCapture::TerminalScrollbar => {
                    &&& step.ui == ui && step.selection == grid.selection
                    &&& step.outcome.send is None
                    &&& step.outcome.handled == scrollbar_moves
                    &&& step.outcome.drag is Move <==> scrollbar_moves
                    &&& step.outcome.drag is Keep <==> !scrollbar_moves
                },
                PointerCapture::SearchInput => {
                    let after = step.ui.search.line;
                    &&& step.selection == grid.selection && step.outcome.send is None
                    &&& step.ui == (InteractionModel {
                        search: SearchModel { line: after, ..ui.search },
                        ..ui
                    })
                    &&& target.search is None ==> after == line
                    &&& target.search is Some ==> {
                        &&& after.text == line.text
                        &&& target.search_cursor <= line.text.len() ==> after.cursor
                            == target.search_cursor
                        &&& target.search_cursor > line.text.len() ==> after.cursor
                            == line.text.len()
                        &&& line.anchor is Some ==> after.anchor == line.anchor
                        &&& line.anchor is None ==> after.anchor == Some(line.cursor)
                    }
                    &&& step.outcome.handled == (after != line)
                },
                PointerCapture::SearchControl => {
                    &&& step.ui == ui && step.selection == grid.selection
                    &&& !step.outcome.handled && step.outcome.send is None
                },
            }
        }),
{
    reveal(pointer::motion_step);
}

/// A turn of the wheel outside the body is not the terminal's. A terminal that asked for reports gets
/// them, with the code 64 up and 65 down; a program on the alternate screen gets the cursor keys up and
/// down; otherwise the view scrolls.
pub proof fn wheel_goes_to_one_place(
    action: WheelAction,
    target: PointerTarget,
    up: bool,
    grid: TermGrid,
)
    requires
        pointer::wheel_is(action, target, up, 1, grid),
    ensures
        action is Ignored <==> !target.body,
        action is Scroll <==> target.body && grid.mouse_tracking_mode is Off && !grid.is_alt,
        action matches WheelAction::Taken(send) ==> {
            let letter = if up {
                0x41u8
            } else {
                0x42u8
            };
            let code = if up {
                64u8
            } else {
                65u8
            };
            &&& grid.mouse_tracking_mode is Off ==> send is Some && send->0@ == seq![
                0x1bu8,
                if grid.app_cursor_keys {
                    0x4f
                } else {
                    0x5b
                },
                letter,
            ]
            &&& !(grid.mouse_tracking_mode is Off) ==> match target.protocol_cell {
                Some((x, y)) => send is Some && send->0@ == input::mouse_report(
                    code,
                    x,
                    y,
                    true,
                    grid.mouse_sgr,
                ),
                None => send is None,
            }
        },
{
    let key = input::cursor_key(
        if up {
            0x41
        } else {
            0x42
        },
        grid.app_cursor_keys,
        false,
        false,
        false,
    );
    input::laws::wheel_turns_up_to_three_times(key, 1);
    input::laws::cursor_keys_send_their_letters(grid.app_cursor_keys);
    if let Some((x, y)) = target.protocol_cell {
        input::laws::wheel_turns_up_to_three_times(
            input::mouse_report(
                if up {
                    64
                } else {
                    65
                },
                x,
                y,
                true,
                grid.mouse_sgr,
            ),
            1,
        );
    }
}

/// Letting go frees the pointer; it settles a selection of cells and ends a drag of the scrollbar, and
/// changes nothing else.
pub proof fn letting_go_ends_what_was_held(ui: InteractionModel, selection: Selection)
    ensures
        ({
            let (after, left, drag) = pointer::let_go(ui, selection);
            &&& after.capture is Free && after.anchor is None
            &&& after.search == ui.search && after.buttons == ui.buttons && after.modifiers
                == ui.modifiers
            &&& !(ui.capture is TerminalSelection) ==> left == selection
            &&& ui.capture is TerminalSelection ==> left == match selection {
                Some((x, y, to_x, to_y)) if x == to_x && y == to_y => None,
                _ => selection,
            }
            &&& drag is End <==> ui.capture is TerminalScrollbar
            &&& drag is Keep <==> !(ui.capture is TerminalScrollbar)
        }),
{
}

} // verus!
