//! What the pointer does to the terminal that is shown and to its search.
use vstd::prelude::*;

use crate::input;
use crate::input::PointerCapture;
use crate::input_types::{KeyState, PointerButton};
use crate::interaction;
use crate::interaction::{Outcome, ScrollDrag, Selection, TerminalInteraction};
use crate::search;
use crate::search::{SearchRefreshCause, TerminalSearchState};
use crate::single_line_input;
use crate::terminal::TermGrid;

pub mod laws;

verus! {

/// Where a pointer event happened, as the layout of the screen has it.
#[derive(Clone, Copy, Debug, PartialEq, Eq)]
pub struct PointerTarget {
    /// The part of the search under the pointer, where the search is laid out.
    pub search: Option<SearchHit>,
    /// The character of the query under the pointer.
    pub search_cursor: usize,
    /// Whether the pointer is on the track of a scrollbar that can be dragged.
    pub scrollbar: bool,
    /// Whether the pointer is in the body of the terminal.
    pub body: bool,
    /// The cell of the terminal's rows under the pointer.
    pub cell: Option<(usize, usize)>,
    /// The cell of a pointer report, where the pointer is over the text and nothing covers it.
    pub protocol_cell: Option<(usize, usize)>,
}

/// The parts of the search.
#[derive(Clone, Copy, Debug, PartialEq, Eq, Structural)]
pub enum SearchHit {
    /// None of it.
    Outside,
    Close,
    Previous,
    Next,
    CaseToggle,
    Input,
    /// What lies between the other parts.
    Chrome,
}

/// Whether pointer reports reach the terminal: only over its body, and where neither the search nor
/// the scrollbar covers it.
pub open spec fn reports_reach(body: bool, search: Option<SearchHit>, scrollbar_track: bool) -> bool {
    &&& body
    &&& search matches Some(hit) ==> hit is Outside
    &&& !scrollbar_track
}

/// Whether pointer reports reach the terminal.
pub fn terminal_protocol_pointer_target(
    body: bool,
    search: Option<SearchHit>,
    scrollbar_track: bool,
) -> (target: bool)
    ensures
        target == reports_reach(body, search, scrollbar_track),
{
    let covered = match search {
        Some(hit) => hit != SearchHit::Outside,
        None => false,
    };
    body && !covered && !scrollbar_track
}

/// The search when the terminal is clicked: it stays shown, but gives up the keyboard and the
/// selection.
pub open spec fn unfocused(search: search::SearchModel) -> search::SearchModel {
    if search.shown {
        search::SearchModel { focused: false, grid_selection_owned: false, ..search }
    } else {
        search
    }
}

/// Takes the keyboard and the selection from the search, which stays shown.
pub fn terminal_body_takes_search_focus(search: &mut TerminalSearchState)
    ensures
        final(search)@ == unfocused(old(search)@),
{
    if search.shown {
        search.focused = false;
        search.release_grid_selection_ownership();
    }
}

/// The search when its query is clicked at a character.
pub open spec fn query_clicked(search: search::SearchModel, cursor: usize) -> search::SearchModel {
    let line = search.line.with_cursor(cursor as int, false);
    search::SearchModel {
        focused: true,
        line: single_line_input::LineModel { anchor: Some(cursor as int), ..line },
        ..search
    }
}

/// Puts the cursor of the query where it was clicked, and starts a selection there.
pub fn begin_search_pointer_selection(search: &mut TerminalSearchState, cursor: usize)
    requires
        old(search)@.line.wf(),
    ensures
        final(search)@ == query_clicked(old(search)@, cursor),
        final(search)@.line.wf(),
{
    search.focused = true;
    search.move_cursor(cursor, false);
    search.input.selection_anchor = Some(cursor);
}

/// Moves the end of the selection of the query, while the pointer holds on to it. Whether the cursor
/// or the selection changed.
pub fn update_search_pointer_selection(
    search: &mut TerminalSearchState,
    capture: PointerCapture,
    cursor: usize,
) -> (changed: bool)
    requires
        old(search)@.line.wf(),
    ensures
        final(search)@ == if capture is SearchInput {
            old(search)@.with_line(old(search)@.line.with_cursor(cursor as int, true), false)
        } else {
            old(search)@
        },
        changed == (final(search)@.line != old(search)@.line),
        final(search)@.line.wf(),
{
    match capture {
        PointerCapture::SearchInput => {
            let previous_cursor: usize = search.input.cursor;
            let previous_anchor: Option<usize> = search.input.selection_anchor;
            search.move_cursor(cursor, true);
            let same_anchor = match (previous_anchor, search.input.selection_anchor) {
                (Some(previous), Some(anchor)) => previous == anchor,
                (None, None) => true,
                _ => false,
            };
            search.input.cursor != previous_cursor || !same_anchor
        },
        _ => false,
    }
}

/// The selection from a cell to another, and whether it changed. A cell alone starts no selection.
pub open spec fn dragged(
    anchor: Option<(usize, usize)>,
    selection: Selection,
    cell: Option<(usize, usize)>,
) -> (Selection, bool) {
    match (anchor, cell) {
        (Some((anchor_x, anchor_y)), Some((cell_x, cell_y))) => {
            let next = Some((anchor_x, anchor_y, cell_x, cell_y));
            if selection is None && cell == anchor {
                (selection, false)
            } else {
                (next, next != selection)
            }
        },
        _ => (selection, false),
    }
}

/// The selection when the drag is over: none where it ends at the cell that it started at.
pub open spec fn settled(selection: Selection) -> Selection {
    match selection {
        Some((sx, sy, ex, ey)) => if sx == ex && sy == ey {
            None
        } else {
            selection
        },
        None => None,
    }
}

/// Takes a selection away that is no more than a cell.
pub fn settle_selection(grid: &mut TermGrid)
    ensures
        *final(grid) == (TermGrid { selection: settled(old(grid).selection), ..*old(grid) }),
{
    if let Some((sx, sy, ex, ey)) = grid.selection {
        if sx == ex && sy == ey {
            grid.selection = None;
        }
    }
}

/// The interaction, the selection and the scrollbar when the pointer lets go.
pub open spec fn let_go(ui: interaction::InteractionModel, selection: Selection) -> (
    interaction::InteractionModel,
    Selection,
    ScrollDrag,
) {
    (
        interaction::InteractionModel { capture: PointerCapture::Free, anchor: None, ..ui },
        if ui.capture is TerminalSelection {
            settled(selection)
        } else {
            selection
        },
        if ui.capture is TerminalScrollbar {
            ScrollDrag::End
        } else {
            ScrollDrag::Keep
        },
    )
}

/// Whether a selection scrolls the view, where the pointer is beyond the rows and there is room to
/// scroll.
pub open spec fn autoscrolls(ui: interaction::InteractionModel, room: bool) -> bool {
    ui.capture is TerminalSelection && ui.anchor is Some && room
}

/// What a motion of the pointer does.
#[verifier::opaque]
pub open spec fn motion_step(
    ui: interaction::InteractionModel,
    grid: TermGrid,
    target: PointerTarget,
    room_before: bool,
    room_after: bool,
    scrollbar_moves: bool,
) -> interaction::Step {
    match ui.capture {
        PointerCapture::TerminalSelection => {
            let (selection, changed) = dragged(ui.anchor, grid.selection, target.cell);
            interaction::Step {
                ui,
                selection,
                outcome: interaction::only(
                    changed || autoscrolls(ui, room_before) != autoscrolls(ui, room_after),
                ),
            }
        },
        PointerCapture::TerminalScrollbar => interaction::Step {
            ui,
            selection: grid.selection,
            outcome: interaction::OutcomeModel {
                drag: if scrollbar_moves {
                    ScrollDrag::Move
                } else {
                    ScrollDrag::Keep
                },
                ..interaction::only(scrollbar_moves)
            },
        },
        PointerCapture::SearchInput => if target.search is Some {
            let line = ui.search.line.with_cursor(target.search_cursor as int, true);
            interaction::Step {
                ui: interaction::InteractionModel { search: ui.search.with_line(line, false), ..ui },
                selection: grid.selection,
                outcome: interaction::only(line != ui.search.line),
            }
        } else {
            interaction::unchanged(ui, grid, false)
        },
        PointerCapture::SearchControl => interaction::unchanged(ui, grid, false),
        PointerCapture::Free => match input::motion_report(
            grid.mouse_tracking_mode,
            grid.mouse_sgr,
            ui.buttons,
            target.protocol_cell,
        ) {
            Some(report) => interaction::Step {
                ui,
                selection: grid.selection,
                outcome: interaction::OutcomeModel { send: Some(report), ..interaction::only(true) },
            },
            None => interaction::unchanged(ui, grid, false),
        },
    }
}

/// What a press on a part of the search does.
pub open spec fn search_pressed(
    ui: interaction::InteractionModel,
    grid: TermGrid,
    hit: SearchHit,
    cursor: usize,
    now: u64,
) -> interaction::Step {
    let held = interaction::InteractionModel { capture: PointerCapture::SearchControl, ..ui };
    match hit {
        SearchHit::Close => interaction::search_closed(held),
        SearchHit::Next => interaction::search_jump(held, ui.search.stepped_next(), grid),
        SearchHit::Previous => interaction::search_jump(held, ui.search.stepped_previous(), grid),
        SearchHit::CaseToggle => interaction::search_edited(
            held,
            search::SearchModel {
                case_sensitive: !ui.search.case_sensitive,
                ..ui.search.with_line(ui.search.line, true)
            },
            grid,
            now,
            interaction::CopyModel::Nothing,
        ),
        SearchHit::Input => interaction::Step {
            ui: interaction::InteractionModel {
                search: query_clicked(ui.search, cursor),
                capture: PointerCapture::SearchInput,
                ..ui
            },
            selection: grid.selection,
            outcome: interaction::only(true),
        },
        SearchHit::Chrome => interaction::unchanged(held, grid, true),
        SearchHit::Outside => interaction::unchanged(ui, grid, false),
    }
}

/// What a button does in the body of the terminal.
pub open spec fn body_step(
    ui: interaction::InteractionModel,
    grid: TermGrid,
    state: KeyState,
    button: PointerButton,
    target: PointerTarget,
) -> interaction::Step {
    let search = if state is Pressed {
        unfocused(ui.search)
    } else {
        ui.search
    };
    let selection = if ui.search.grid_selection_owned && !search.grid_selection_owned {
        None
    } else {
        grid.selection
    };
    let after = interaction::InteractionModel { search, ..ui };
    match input::button_report(
        PointerCapture::Free,
        grid.mouse_tracking_mode,
        grid.mouse_sgr,
        state,
        button,
        target.protocol_cell,
    ) {
        Some(report) => interaction::Step {
            ui: after,
            selection,
            outcome: interaction::OutcomeModel { send: Some(report), ..interaction::only(true) },
        },
        None => if grid.mouse_tracking_mode is Off && button is Left && state is Pressed
            && target.cell is Some {
            interaction::Step {
                ui: interaction::InteractionModel {
                    anchor: target.cell,
                    capture: PointerCapture::TerminalSelection,
                    ..after
                },
                selection,
                outcome: interaction::only(true),
            }
        } else {
            interaction::Step { ui: after, selection, outcome: interaction::only(false) }
        },
    }
}

/// What a button of the pointer does.
#[verifier::opaque]
pub open spec fn button_step(
    ui: interaction::InteractionModel,
    grid: TermGrid,
    state: KeyState,
    button: PointerButton,
    target: PointerTarget,
    now: u64,
) -> interaction::Step {
    let noted = interaction::InteractionModel {
        buttons: input::buttons_after(ui.buttons, button, state),
        ..ui
    };
    let left_pressed = state is Pressed && button is Left;
    if state is Released && !(ui.capture is Free) {
        let (after, selection, drag) = let_go(noted, grid.selection);
        interaction::Step {
            ui: after,
            selection,
            outcome: interaction::OutcomeModel { drag, ..interaction::only(true) },
        }
    } else if left_pressed && target.search is Some && !(target.search->0 is Outside) {
        search_pressed(noted, grid, target.search->0, target.search_cursor, now)
    } else if left_pressed && target.scrollbar {
        interaction::Step {
            ui: interaction::InteractionModel { capture: PointerCapture::TerminalScrollbar, ..noted },
            selection: grid.selection,
            outcome: interaction::OutcomeModel {
                drag: ScrollDrag::Start,
                ..interaction::only(true)
            },
        }
    } else if !target.body {
        interaction::unchanged(noted, grid, false)
    } else {
        body_step(noted, grid, state, button, target)
    }
}

/// What a turn of the wheel comes to.
#[derive(Debug, PartialEq, Eq)]
pub enum WheelAction {
    /// It is not for the terminal.
    Ignored,
    /// It is taken, with bytes to send to the terminal where there are any.
    Taken(Option<Vec<u8>>),
    /// It scrolls the view.
    Scroll,
}

/// Whether a turn of the wheel by `steps` comes to an action: outside the body it is not for the
/// terminal; a terminal that asked for reports gets one for each step, a program on the alternate
/// screen gets cursor keys, and otherwise the view scrolls.
pub open spec fn wheel_is(
    action: WheelAction,
    target: PointerTarget,
    up: bool,
    steps: usize,
    grid: TermGrid,
) -> bool {
    match action {
        WheelAction::Ignored => !target.body,
        WheelAction::Scroll => target.body && grid.mouse_tracking_mode is Off && !grid.is_alt,
        WheelAction::Taken(send) => target.body && if grid.mouse_tracking_mode is Off {
            grid.is_alt && interaction::bytes_view(send) == Some(
                input::repeated(
                    input::cursor_key(
                        if up {
                            0x41
                        } else {
                            0x42
                        },
                        grid.app_cursor_keys,
                        false,
                        false,
                        false,
                    ),
                    input::wheel_count(steps),
                ),
            )
        } else {
            interaction::bytes_view(send) == match target.protocol_cell {
                Some((x, y)) => Some(
                    input::repeated(
                        input::mouse_report(
                            if up {
                                64
                            } else {
                                65
                            },
                            x,
                            y,
                            true,
                            grid.mouse_sgr,
                        ),
                        input::wheel_count(steps),
                    ),
                ),
                None => None,
            }
        },
    }
}

impl TerminalInteraction {
    /// Whether a selection scrolls the view, where there is `room` to scroll to the pointer.
    pub fn selection_autoscroll_active(&self, room: bool) -> (active: bool)
        ensures
            active == autoscrolls(self@, room),
    {
        self.pointer_capture == PointerCapture::TerminalSelection
            && self.terminal_selection_anchor.is_some() && room
    }

    /// Whether the pointer selects cells.
    pub fn terminal_selection_active(&self) -> (active: bool)
        ensures
            active == (self@.capture is TerminalSelection),
    {
        self.pointer_capture == PointerCapture::TerminalSelection
    }

    /// Takes the interaction to another terminal: the search is put away and the pointer lets go.
    /// Whether the selection of the terminal that it leaves goes too, as it does with a search that was
    /// shown.
    pub fn reset_for_terminal_switch(&mut self) -> (clear_selection: bool)
        ensures
            clear_selection == old(self)@.search.shown,
            final(self)@ == (interaction::InteractionModel {
                search: old(self)@.search.closed(),
                buttons: 0,
                capture: PointerCapture::Free,
                anchor: None,
                ..old(self)@
            }),
    {
        let clear_selection = self.search.shown;
        self.search.close();
        self.pressed_mouse_buttons = 0;
        self.pointer_capture = PointerCapture::Free;
        self.terminal_selection_anchor = None;
        clear_selection
    }

    /// Ends what the pointer was doing. What it held on to: a selection of cells is then to be settled,
    /// and a drag of the scrollbar to be ended.
    pub fn cancel_pointer_interaction(&mut self) -> (capture: PointerCapture)
        ensures
            capture == old(self)@.capture,
            final(self)@ == (interaction::InteractionModel {
                buttons: 0,
                capture: PointerCapture::Free,
                anchor: None,
                ..old(self)@
            }),
    {
        self.pressed_mouse_buttons = 0;
        self.terminal_selection_anchor = None;
        input::release_pointer_capture(&mut self.pointer_capture)
    }

    /// Takes the selection away, unless it shows a result of the search. Whether there was one to take.
    pub fn clear_text_selection(&self, grid: &mut TermGrid) -> (cleared: bool)
        ensures
            cleared == (!self@.search.grid_selection_owned && old(grid).selection is Some),
            *final(grid) == (TermGrid {
                selection: if self@.search.grid_selection_owned {
                    old(grid).selection
                } else {
                    None
                },
                ..*old(grid)
            }),
    {
        if self.search.owns_grid_selection() {
            return false;
        }
        let cleared = grid.selection.is_some();
        grid.selection = None;
        cleared
    }

    /// Moves the end of the selection to a cell. Whether the selection changed.
    pub fn update_terminal_selection_endpoint(&self, cell: Option<(usize, usize)>, grid: &mut TermGrid) -> (
    changed: bool)
        ensures
            dragged(self@.anchor, old(grid).selection, cell) == (final(grid).selection, changed),
            *final(grid) == (TermGrid { selection: final(grid).selection, ..*old(grid) }),
    {
        match (self.terminal_selection_anchor, cell) {
            (Some((anchor_x, anchor_y)), Some((cell_x, cell_y))) => {
                let changed = match grid.selection {
                    Some((sx, sy, ex, ey)) => {
                        sx != anchor_x || sy != anchor_y || ex != cell_x || ey != cell_y
                    },
                    None => cell_x != anchor_x || cell_y != anchor_y,
                };
                if changed {
                    grid.selection = Some((anchor_x, anchor_y, cell_x, cell_y));
                }
                changed
            },
            _ => false,
        }
    }

    /// Ends a selection of cells by the pointer.
    fn finish_terminal_selection(&mut self, grid: &mut TermGrid)
        ensures
            final(self)@ == if old(self)@.capture is TerminalSelection {
                interaction::InteractionModel { anchor: None, ..old(self)@ }
            } else {
                old(self)@
            },
            *final(grid) == (TermGrid {
                selection: if old(self)@.capture is TerminalSelection {
                    settled(old(grid).selection)
                } else {
                    old(grid).selection
                },
                ..*old(grid)
            }),
    {
        if self.pointer_capture != PointerCapture::TerminalSelection {
            return ;
        }
        settle_selection(grid);
        self.terminal_selection_anchor = None;
    }

    /// The pointer left the window: a selection goes on to the cell nearest to where it left. Whether
    /// anything changed.
    pub fn cursor_left(
        &self,
        cell: Option<(usize, usize)>,
        room_before: bool,
        room_after: bool,
        grid: &mut TermGrid,
    ) -> (changed: bool)
        ensures
            ({
                let (selection, moved) = dragged(self@.anchor, old(grid).selection, cell);
                if self@.capture is TerminalSelection {
                    &&& final(grid).selection == selection
                    &&& changed == (moved || autoscrolls(self@, room_before) != autoscrolls(
                        self@,
                        room_after,
                    ))
                } else {
                    &&& final(grid).selection == old(grid).selection
                    &&& !changed
                }
            }),
            *final(grid) == (TermGrid { selection: final(grid).selection, ..*old(grid) }),
    {
        if self.pointer_capture != PointerCapture::TerminalSelection {
            return false;
        }
        let moved = self.update_terminal_selection_endpoint(cell, grid);
        moved || self.selection_autoscroll_active(room_before) != self.selection_autoscroll_active(
            room_after,
        )
    }

    /// The view scrolled for a selection beyond the rows, where it `moves`: the selection goes on to
    /// the cell that came under the pointer. Whether the view scrolled.
    pub fn update_selection_autoscroll(
        &self,
        moves: bool,
        cell: Option<(usize, usize)>,
        grid: &mut TermGrid,
    ) -> (scrolled: bool)
        ensures
            scrolled == autoscrolls(self@, moves),
            *final(grid) == (TermGrid {
                selection: if scrolled {
                    dragged(self@.anchor, old(grid).selection, cell).0
                } else {
                    old(grid).selection
                },
                ..*old(grid)
            }),
    {
        if !self.selection_autoscroll_active(moves) {
            return false;
        }
        self.update_terminal_selection_endpoint(cell, grid);
        true
    }

    /// The pointer moved.
    pub fn cursor_moved(
        &mut self,
        target: PointerTarget,
        room_before: bool,
        room_after: bool,
        scrollbar_moves: bool,
        grid: &mut TermGrid,
    ) -> (outcome: Outcome)
        requires
            old(self)@.search.wf(),
        ensures
            ({
                let step = motion_step(
                    old(self)@,
                    *old(grid),
                    target,
                    room_before,
                    room_after,
                    scrollbar_moves,
                );
                &&& final(self)@ == step.ui
                &&& final(grid).selection == step.selection
                &&& outcome@ == step.outcome
            }),
            *final(grid) == (TermGrid { selection: final(grid).selection, ..*old(grid) }),
            final(self)@.search.wf(),
    {
        reveal(motion_step);
        match self.pointer_capture {
            PointerCapture::TerminalSelection => {
                let changed = self.cursor_left(target.cell, room_before, room_after, grid);
                Outcome::only(changed)
            },
            PointerCapture::TerminalScrollbar => {
                let mut outcome = Outcome::only(scrollbar_moves);
                if scrollbar_moves {
                    outcome.drag = ScrollDrag::Move;
                }
                outcome
            },
            PointerCapture::SearchInput => {
                if target.search.is_none() {
                    return Outcome::only(false);
                }
                let capture = self.pointer_capture;
                let changed = update_search_pointer_selection(
                    &mut self.search,
                    capture,
                    target.search_cursor,
                );
                Outcome::only(changed)
            },
            PointerCapture::SearchControl => Outcome::only(false),
            PointerCapture::Free => {
                match input::terminal_mouse_motion_sequence(
                    grid.mouse_tracking_mode,
                    grid.mouse_sgr,
                    self.pressed_mouse_buttons,
                    target.protocol_cell,
                ) {
                    Some(sequence) => Outcome::sending(sequence),
                    None => Outcome::only(false),
                }
            },
        }
    }

    /// Presses a part of the search.
    fn press_search(&mut self, hit: SearchHit, cursor: usize, grid: &mut TermGrid, now: u64) -> (outcome:
        Outcome)
        requires
            old(self)@.search.wf(),
            old(grid).wf(),
        ensures
            ({
                let step = search_pressed(old(self)@, *old(grid), hit, cursor, now);
                &&& final(self)@ == step.ui
                &&& final(grid).selection == step.selection
                &&& outcome@ == step.outcome
            }),
            *final(grid) == (TermGrid { selection: final(grid).selection, ..*old(grid) }),
            final(self)@.search.wf(),
    {
        match hit {
            SearchHit::Outside => {
                return Outcome::only(false);
            },
            SearchHit::Input => {
                begin_search_pointer_selection(&mut self.search, cursor);
                self.pointer_capture = PointerCapture::SearchInput;
                return Outcome::only(true);
            },
            _ => {},
        }
        self.pointer_capture = PointerCapture::SearchControl;
        match hit {
            SearchHit::Close => {
                self.close_search(grid);
                Outcome::only(true)
            },
            SearchHit::Next => {
                self.search.next();
                let jump = self.jump_to_search_match(grid);
                Outcome::jumping(jump)
            },
            SearchHit::Previous => {
                self.search.previous();
                let jump = self.jump_to_search_match(grid);
                Outcome::jumping(jump)
            },
            SearchHit::CaseToggle => {
                self.search.toggle_case();
                let jump = self.refresh_search(grid, SearchRefreshCause::User, now);
                Outcome::jumping(jump)
            },
            _ => Outcome::only(true),
        }
    }

    /// A button changed in the body of the terminal.
    fn body_input(
        &mut self,
        state: KeyState,
        button: PointerButton,
        target: PointerTarget,
        grid: &mut TermGrid,
    ) -> (outcome: Outcome)
        requires
            old(self)@.search.wf(),
        ensures
            ({
                let step = body_step(old(self)@, *old(grid), state, button, target);
                &&& final(self)@ == step.ui
                &&& final(grid).selection == step.selection
                &&& outcome@ == step.outcome
            }),
            *final(grid) == (TermGrid { selection: final(grid).selection, ..*old(grid) }),
            final(self)@.search.wf(),
    {
        if state.is_pressed() {
            let search_owned_selection = self.search.owns_grid_selection();
            terminal_body_takes_search_focus(&mut self.search);
            if search_owned_selection {
                self.clear_text_selection(grid);
            }
        }
        let tracking = grid.mouse_tracking_mode.enabled();
        if let Some(sequence) = input::terminal_mouse_event_sequence(
            PointerCapture::Free,
            grid.mouse_tracking_mode,
            grid.mouse_sgr,
            state,
            button,
            target.protocol_cell,
        ) {
            return Outcome::sending(sequence);
        }
        if !tracking && button == PointerButton::Left && state.is_pressed()
            && target.cell.is_some() {
            self.terminal_selection_anchor = target.cell;
            self.pointer_capture = PointerCapture::TerminalSelection;
            return Outcome::only(true);
        }
        Outcome::only(false)
    }

    /// A button of the pointer went down or up.
    pub fn mouse_input(
        &mut self,
        state: KeyState,
        button: PointerButton,
        target: PointerTarget,
        grid: &mut TermGrid,
        now: u64,
    ) -> (outcome: Outcome)
        requires
            old(self)@.search.wf(),
            old(grid).wf(),
        ensures
            ({
                let step = button_step(old(self)@, *old(grid), state, button, target, now);
                &&& final(self)@ == step.ui
                &&& final(grid).selection == step.selection
                &&& outcome@ == step.outcome
            }),
            *final(grid) == (TermGrid { selection: final(grid).selection, ..*old(grid) }),
            final(self)@.search.wf(),
    {
        reveal(button_step);
        input::update_pressed_mouse_buttons(&mut self.pressed_mouse_buttons, button, state);
        if !state.is_pressed() && self.pointer_capture != PointerCapture::Free {
            self.finish_terminal_selection(grid);
            let capture = input::release_pointer_capture(&mut self.pointer_capture);
            self.terminal_selection_anchor = None;
            let mut outcome = Outcome::only(true);
            if capture == PointerCapture::TerminalScrollbar {
                outcome.drag = ScrollDrag::End;
            }
            return outcome;
        }
        let left_pressed = state.is_pressed() && button == PointerButton::Left;
        if left_pressed {
            if let Some(hit) = target.search {
                if hit != SearchHit::Outside {
                    return self.press_search(hit, target.search_cursor, grid, now);
                }
            }
            if target.scrollbar {
                self.pointer_capture = PointerCapture::TerminalScrollbar;
                let mut outcome = Outcome::only(true);
                outcome.drag = ScrollDrag::Start;
                return outcome;
            }
        }
        if !target.body {
            return Outcome::only(false);
        }
        self.body_input(state, button, target, grid)
    }

    /// The wheel turned by `steps`.
    pub fn mouse_wheel(&self, target: PointerTarget, up: bool, steps: usize, grid: &TermGrid) -> (action:
        WheelAction)
        ensures
            wheel_is(action, target, up, steps, *grid),
    {
        if !target.body {
            return WheelAction::Ignored;
        }
        if grid.mouse_tracking_mode.enabled() {
            return WheelAction::Taken(
                input::terminal_mouse_wheel_sequence(
                    grid.mouse_tracking_mode,
                    grid.mouse_sgr,
                    target.protocol_cell,
                    up,
                    steps,
                ),
            );
        }
        if grid.is_alt {
            return WheelAction::Taken(
                Some(input::terminal_wheel_cursor_keys(grid.app_cursor_keys, up, steps)),
            );
        }
        WheelAction::Scroll
    }
}

/// The search and the scrollbar own the pointer over them: a terminal that asked for reports gets none
/// of its motion there, and the wheel sends it nothing.
pub proof fn overlays_own_pointer(
    ui: interaction::InteractionModel,
    grid: TermGrid,
    target: PointerTarget,
    scrollbar_track: bool,
    cols: usize,
    visible_rows: usize,
    column: usize,
    above_last: usize,
    action: WheelAction,
    up: bool,
    steps: usize,
)
    requires
        (target.search matches Some(hit) && !(hit is Outside)) || scrollbar_track,
        target.protocol_cell == input::protocol_cell(
            reports_reach(target.body, target.search, scrollbar_track),
            cols,
            visible_rows,
            column,
            above_last,
        ),
        wheel_is(action, target, up, steps, grid),
        !(grid.mouse_tracking_mode is Off),
    ensures
        input::motion_report(
            grid.mouse_tracking_mode,
            grid.mouse_sgr,
            ui.buttons,
            target.protocol_cell,
        ) is None,
        ui.capture is Free ==> motion_step(ui, grid, target, false, false, false).outcome.send is None,
        action matches WheelAction::Taken(send) ==> interaction::bytes_view(send) is None,
{
    reveal(motion_step);
}

/// While the pointer holds on to something, neither its motion nor a release is reported to the
/// terminal.
pub proof fn captured_pointer_is_not_reported(
    ui: interaction::InteractionModel,
    grid: TermGrid,
    button: PointerButton,
    target: PointerTarget,
    room_before: bool,
    room_after: bool,
    scrollbar_moves: bool,
    now: u64,
)
    requires
        !(ui.capture is Free),
    ensures
        motion_step(
            ui,
            grid,
            target,
            room_before,
            room_after,
            scrollbar_moves,
        ).outcome.send is None,
        button_step(ui, grid, KeyState::Released, button, target, now).outcome.send is None,
{
    reveal(motion_step);
    reveal(button_step);
}

/// A release lets go of whatever the pointer holds on to, and is taken.
pub proof fn release_frees_pointer(
    ui: interaction::InteractionModel,
    grid: TermGrid,
    button: PointerButton,
    target: PointerTarget,
    now: u64,
)
    requires
        !(ui.capture is Free),
    ensures
        ({
            let step = button_step(ui, grid, KeyState::Released, button, target, now);
            &&& step.ui.capture is Free
            &&& step.ui.anchor is None
            &&& step.outcome.handled
            &&& step.outcome.drag is End <==> ui.capture is TerminalScrollbar
        }),
{
    reveal(motion_step);
    reveal(button_step);
}

/// A drag selects from the cell of the press to the cell under the pointer; a click alone, where
/// nothing was selected, selects nothing.
pub proof fn drag_selects(
    ui: interaction::InteractionModel,
    grid: TermGrid,
    pressed: PointerTarget,
    moved: PointerTarget,
    released: PointerTarget,
    room: bool,
    now: u64,
)
    requires
        ui.capture is Free,
        grid.mouse_tracking_mode is Off,
        pressed.body,
        pressed.search is None,
        !pressed.scrollbar,
        pressed.cell is Some,
        moved.cell is Some,
        grid.selection is None,
    ensures
        ({
            let press = button_step(ui, grid, KeyState::Pressed, PointerButton::Left, pressed, now);
            let motion = motion_step(
                press.ui,
                TermGrid { selection: press.selection, ..grid },
                moved,
                room,
                room,
                false,
            );
            let release = button_step(
                motion.ui,
                TermGrid { selection: motion.selection, ..grid },
                KeyState::Released,
                PointerButton::Left,
                released,
                now,
            );
            pressed.cell matches Some((x, y)) && moved.cell matches Some((to_x, to_y))
                && release.selection == if x == to_x && y == to_y {
                None
            } else {
                Some((x, y, to_x, to_y))
            }
        }),
{
    reveal(motion_step);
    reveal(button_step);
}

/// A click in the body leaves the search shown, but takes the keyboard and the selection from it.
pub proof fn body_click_keeps_search_shown(
    ui: interaction::InteractionModel,
    grid: TermGrid,
    button: PointerButton,
    target: PointerTarget,
)
    requires
        ui.search.shown,
    ensures
        ({
            let step = body_step(ui, grid, KeyState::Pressed, button, target);
            &&& step.ui.search.shown
            &&& !step.ui.search.focused
            &&& step.ui.search.line == ui.search.line
            &&& step.ui.search.results == ui.search.results
            &&& ui.search.grid_selection_owned ==> step.selection is None
            &&& !ui.search.grid_selection_owned ==> step.selection == grid.selection
        }),
{
}

} // verus!
