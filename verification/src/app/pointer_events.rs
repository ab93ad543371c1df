//! What the events of the pointer do to the state of the application.
use vstd::prelude::*;

use crate::app::events;
use crate::app::events::EventResult;
use crate::app::settings_state;
use crate::app::state::{App, AppModel, CleanupWorker, Effect};
use crate::app::terminals;
use crate::app::terminals::TabDrag;
use crate::input_types::{CursorKind, KeyState, PointerButton};
use crate::interaction;
use crate::interaction::Outcome;
use crate::pointer;
use crate::pointer::{PointerTarget, WheelAction};
use crate::settings;
use crate::settings::{SettingsHit, TerminalTabHit};
use crate::terminal::TermGrid;

verus! {

/// A motion of the pointer, as the layout of the screen has it.
#[derive(Clone, Copy, Debug, PartialEq, Eq)]
pub struct PointerMotion {
    /// What lay under the pointer before, of the settings.
    pub previous_hit: SettingsHit,
    /// What lies under it now, of the settings.
    pub current_hit: SettingsHit,
    /// The character of the field of the background colour under it.
    pub field_cursor: Option<usize>,
    /// Whether it is far enough from where a drag of a tab started.
    pub threshold_passed: bool,
    /// Whether it is over the tabs.
    pub over_tabs: bool,
    /// What lies under it, of the terminal.
    pub target: PointerTarget,
    /// Whether there was room to scroll to it.
    pub room_before: bool,
    /// Whether there is room to scroll to it now.
    pub room_after: bool,
    /// Whether the scrollbar moves with it.
    pub scrollbar_moves: bool,
}

/// A button of the pointer that went down or up, as the layout of the screen has it.
#[derive(Clone, Copy, Debug, PartialEq, Eq)]
pub struct PointerPress {
    pub state: KeyState,
    pub button: PointerButton,
    /// What lies under the pointer, of the settings.
    pub settings_hit: SettingsHit,
    /// The character of the field of the background colour under it.
    pub field_cursor: Option<usize>,
    /// What lies under it, of the tabs.
    pub tab_hit: TerminalTabHit,
    /// Where a dragged tab goes.
    pub destination: Option<usize>,
    /// What lies under it, of the terminal.
    pub target: PointerTarget,
}

/// What a turn of the wheel comes to.
#[derive(Debug, PartialEq, Eq)]
pub enum ScrollAction {
    /// Nothing.
    Ignored,
    /// It scrolls the tabs.
    Tabs,
    /// It goes to the active terminal.
    Terminal(WheelAction),
}

impl AppModel {
    /// The state with the field of the background colour selected to a character.
    pub open spec fn field_dragged(self, cursor: Option<usize>) -> AppModel {
        match cursor {
            Some(cursor) if self.settings.dragging => AppModel {
                settings: settings_state::SettingsModel {
                    field: self.settings.field.with_cursor(cursor as int, true),
                    ..self.settings
                },
                ..self
            },
            _ => self,
        }
    }

    /// The state when the pointer moved over the settings.
    #[verifier::opaque]
    pub open spec fn settings_motion(self, motion: PointerMotion) -> AppModel {
        let dragged = self.field_dragged(motion.field_cursor);
        let changed = motion.previous_hit != motion.current_hit || dragged.settings.field
            != self.settings.field;
        let refreshed = dragged.doing(Effect::RefreshCursor);
        if changed {
            refreshed.framed()
        } else {
            refreshed
        }
    }

    /// The state when a dragged tab moved.
    #[verifier::opaque]
    pub open spec fn tab_motion(self, drag: TabDrag, threshold_passed: bool) -> AppModel {
        AppModel {
            terminals: terminals::TerminalsModel {
                drag: Some(
                    TabDrag { threshold_passed: drag.threshold_passed || threshold_passed, ..drag },
                ),
                ..self.terminals
            },
            ..self
        }.framed()
    }

    /// The state when a button changed over the settings.
    #[verifier::opaque]
    pub open spec fn settings_press(self, press: PointerPress) -> AppModel {
        let undragged = AppModel {
            settings: settings_state::SettingsModel { dragging: false, ..self.settings },
            ..self
        };
        if !(press.button is Left) {
            self
        } else if press.state is Pressed {
            if press.settings_hit is BackgroundField {
                self.field_pressed(
                    match press.field_cursor {
                        Some(cursor) => cursor as int,
                        None => self.settings.field.cursor,
                    },
                ).doing(Effect::RefreshCursor)
            } else {
                undragged.settings_hit(press.settings_hit).doing(Effect::RefreshCursor)
            }
        } else if self.settings.dragging {
            undragged.doing(Effect::RefreshCursor).framed()
        } else {
            self
        }
    }

    /// The state when the field of the background colour was clicked.
    #[verifier::opaque]
    pub open spec fn field_pressed(self, cursor: int) -> AppModel {
        let before = if self.settings.editing {
            self.settings.field
        } else {
            self.settings.with_field_reset().field
        };
        let after = self.settings.field_clicked(cursor);
        AppModel { settings: after, ..self }.after_change(
            if after.field != before {
                settings_state::frame_only()
            } else {
                settings_state::nothing()
            },
        )
    }

    /// The state when a tab was pressed: it is dragged from now on, and waits to be shown.
    #[verifier::opaque]
    pub open spec fn tab_pressed(self, index: usize) -> AppModel {
        AppModel {
            terminals: terminals::TerminalsModel {
                drag: Some(TabDrag { start_idx: index, threshold_passed: false }),
                ..self.terminals
            },
            ..self
        }.asked(index as int, false).framed()
    }

    /// The state when a dragged tab was let go: it takes its new place where it was dragged far enough.
    #[verifier::opaque]
    pub open spec fn tab_released(self, drag: TabDrag, destination: Option<usize>) -> AppModel {
        let dropped = AppModel {
            terminals: terminals::TerminalsModel { drag: None, ..self.terminals },
            ..self
        };
        match destination {
            Some(destination) if drag.threshold_passed && self.window.ready => dropped.reordered(
                drag.start_idx as int,
                destination as int,
            ).framed(),
            _ => dropped.framed(),
        }
    }
}

/// What a motion of the pointer does: the settings come first, then a tab that is dragged, then the
/// tabs, then the active terminal.
#[verifier::opaque]
pub open spec fn motion_step(app: AppModel, grid: TermGrid, motion: PointerMotion) -> events::AppStep {
    let refreshed = app.doing(Effect::RefreshCursor);
    if app.modal() {
        events::settled_step(app.settings_motion(motion), grid)
    } else if app.terminals.drag is Some {
        events::settled_step(
            refreshed.tab_motion(app.terminals.drag->0, motion.threshold_passed),
            grid,
        )
    } else if !(app.ui.capture is TerminalSelection) && app.window.ready && motion.over_tabs {
        events::settled_step(refreshed.framed(), grid)
    } else if app.window.ready && app.terminals.list.len() > 0 {
        events::interaction_step(
            refreshed,
            pointer::motion_step(
                app.ui,
                grid,
                motion.target,
                motion.room_before,
                motion.room_after,
                motion.scrollbar_moves,
            ),
        )
    } else {
        events::settled_step(refreshed, grid)
    }
}

/// The selection of the active terminal when the left button went down: it goes, unless it shows a
/// result of the search.
pub open spec fn cleared(app: AppModel, grid: TermGrid, press: PointerPress) -> bool {
    &&& press.button is Left
    &&& press.state is Pressed
    &&& app.terminals.list.len() > 0
    &&& !app.ui.search.grid_selection_owned
    &&& grid.selection is Some
}

/// What a button does where the settings do not take it: first the tabs, then a tab that is dragged,
/// then the active terminal.
#[verifier::opaque]
pub open spec fn press_step(
    app: AppModel,
    grid: TermGrid,
    press: PointerPress,
    worker: CleanupWorker,
    now: u64,
) -> events::AppStep {
    let left_pressed = press.button is Left && press.state is Pressed;
    let left_released = press.button is Left && press.state is Released;
    if left_pressed && app.window.ready && !(press.tab_hit is Outside) {
        match press.tab_hit {
            TerminalTabHit::Close(index) => events::AppStep {
                exit: app.terminals.list.len() == 1 && index == 0,
                ..events::settled_step(app.closing(index as int, worker), grid)
            },
            TerminalTabHit::Body(index) => events::settled_step(app.tab_pressed(index), grid),
            _ => events::settled_step(app.added(), grid),
        }
    } else if left_released && app.terminals.drag is Some {
        events::settled_step(app.tab_released(app.terminals.drag->0, press.destination), grid)
    } else if app.window.ready && app.terminals.list.len() > 0 {
        events::interaction_step(
            app,
            pointer::button_step(app.ui, grid, press.state, press.button, press.target, now),
        )
    } else {
        events::settled_step(app, grid)
    }
}

/// What a button of the pointer does. A press of the left one takes the selection of the active
/// terminal away before anything else.
#[verifier::opaque]
pub open spec fn button_step(
    app: AppModel,
    grid: TermGrid,
    press: PointerPress,
    worker: CleanupWorker,
    now: u64,
) -> events::AppStep {
    let clear = cleared(app, grid, press);
    let before = if clear {
        app.framed()
    } else {
        app
    };
    let left = if clear {
        TermGrid { selection: None, ..grid }
    } else {
        grid
    };
    if app.modal() {
        events::settled_step(before.settings_press(press), left)
    } else {
        press_step(before, left, press, worker, now)
    }
}

impl App {
    /// Takes the selection of the active terminal away, unless it shows a result of the search.
    /// Whether there was one to take.
    pub fn clear_active_terminal_text_selection(&self, grid: &mut TermGrid) -> (cleared: bool)
        ensures
            cleared == (self@.terminals.list.len() > 0 && !self@.ui.search.grid_selection_owned
                && old(grid).selection is Some),
            *final(grid) == if cleared {
                TermGrid { selection: None, ..*old(grid) }
            } else {
                *old(grid)
            },
    {
        if self.terminals.list.len() == 0 {
            return false;
        }
        self.interaction.clear_text_selection(grid)
    }

    fn settings_motion(&mut self, motion: &PointerMotion)
        requires
            old(self)@.wf(),
        ensures
            final(self)@ == old(self)@.settings_motion(*motion),
            final(self)@.wf(),
    {
        reveal(AppModel::settings_motion);
        let mut changed = motion.previous_hit != motion.current_hit;
        if self.settings.background_dragging {
            if let Some(cursor) = motion.field_cursor {
                let moved = settings::update_settings_background_pointer_selection(
                    &mut self.settings.background_input,
                    cursor,
                );
                changed = changed || moved;
            }
        }
        self.push_effect(Effect::RefreshCursor);
        if changed {
            self.request_frame();
        }
    }

    fn tab_motion(&mut self, drag: TabDrag, threshold_passed: bool)
        requires
            old(self)@.wf(),
        ensures
            final(self)@ == old(self)@.tab_motion(drag, threshold_passed),
            final(self)@.wf(),
    {
        reveal(AppModel::tab_motion);
        self.terminals.drag = Some(
            TabDrag {
                start_idx: drag.start_idx,
                threshold_passed: drag.threshold_passed || threshold_passed,
            },
        );
        self.request_frame();
    }

    fn terminal_motion(&mut self, motion: &PointerMotion, grid: &mut TermGrid) -> (result: EventResult)
        requires
            old(self)@.wf(),
        ensures
            ({
                let step = events::interaction_step(
                    old(self)@,
                    pointer::motion_step(
                        old(self)@.ui,
                        *old(grid),
                        motion.target,
                        motion.room_before,
                        motion.room_after,
                        motion.scrollbar_moves,
                    ),
                );
                &&& final(self)@ == step.app
                &&& final(grid).selection == step.selection
                &&& result.outcome@ == step.outcome
                &&& result.exit == step.exit
            }),
            *final(grid) == (TermGrid { selection: final(grid).selection, ..*old(grid) }),
            final(self)@.wf(),
    {
        let outcome = self.interaction.cursor_moved(
            motion.target,
            motion.room_before,
            motion.room_after,
            motion.scrollbar_moves,
            grid,
        );
        self.conclude(outcome)
    }

    /// The pointer moved.
    pub fn on_pointer_motion(&mut self, motion: &PointerMotion, grid: &mut TermGrid) -> (result:
        EventResult)
        requires
            old(self)@.wf(),
        ensures
            ({
                let step = motion_step(old(self)@, *old(grid), *motion);
                &&& final(self)@ == step.app
                &&& final(grid).selection == step.selection
                &&& result.outcome@ == step.outcome
                &&& result.exit == step.exit
            }),
            *final(grid) == (TermGrid { selection: final(grid).selection, ..*old(grid) }),
            final(self)@.wf(),
    {
        reveal(motion_step);
        if self.settings_modal_active() {
            self.settings_motion(motion);
            return events::settled_result();
        }
        self.push_effect(Effect::RefreshCursor);
        if let Some(drag) = self.terminals.drag {
            self.tab_motion(drag, motion.threshold_passed);
            return events::settled_result();
        }
        if !self.interaction.terminal_selection_active() && self.window.ready && motion.over_tabs {
            self.request_frame();
            return events::settled_result();
        }
        if self.window.ready && self.terminals.list.len() > 0 {
            return self.terminal_motion(motion, grid);
        }
        events::settled_result()
    }

    /// The pointer left the window.
    pub fn on_pointer_leave(
        &mut self,
        cell: Option<(usize, usize)>,
        room_before: bool,
        room_after: bool,
        grid: &mut TermGrid,
    )
        requires
            old(self)@.wf(),
        ensures
            ({
                let before = old(self)@.with_icon(CursorKind::Default);
                let (selection, moved) = pointer::dragged(before.ui.anchor, old(grid).selection, cell);
                let reaches = !before.modal() && before.terminals.drag is None
                    && before.terminals.list.len() > 0 && before.ui.capture is TerminalSelection;
                let changed = moved || pointer::autoscrolls(before.ui, room_before)
                    != pointer::autoscrolls(before.ui, room_after);
                &&& final(self)@ == if reaches && changed {
                    before.framed()
                } else {
                    before
                }
                &&& final(grid).selection == if reaches {
                    selection
                } else {
                    old(grid).selection
                }
            }),
            *final(grid) == (TermGrid { selection: final(grid).selection, ..*old(grid) }),
            final(self)@.wf(),
    {
        self.set_cursor_icon(CursorKind::Default);
        if self.settings_modal_active() || self.terminals.drag.is_some()
            || self.terminals.list.len() == 0 {
            return ;
        }
        if self.interaction.cursor_left(cell, room_before, room_after, grid) {
            self.request_frame();
        }
    }

    fn press_field(&mut self, cursor: usize)
        requires
            old(self)@.wf(),
        ensures
            final(self)@ == old(self)@.field_pressed(cursor as int),
            final(self)@.wf(),
    {
        reveal(AppModel::field_pressed);
        let change = self.settings.begin_background_pointer_edit(cursor);
        self.follow(change);
    }

    fn press_settings(&mut self, press: &PointerPress)
        requires
            old(self)@.wf(),
        ensures
            final(self)@ == old(self)@.settings_press(*press),
            final(self)@.wf(),
    {
        reveal(AppModel::settings_press);
        if press.button != PointerButton::Left {
            return ;
        }
        if press.state.is_pressed() {
            if press.settings_hit == SettingsHit::BackgroundField {
                let cursor: usize = match press.field_cursor {
                    Some(cursor) => cursor,
                    None => self.settings.background_input.cursor,
                };
                self.press_field(cursor);
            } else {
                self.settings.background_dragging = false;
                self.apply_settings_hit(press.settings_hit);
            }
            self.push_effect(Effect::RefreshCursor);
        } else if self.settings.background_dragging {
            self.settings.background_dragging = false;
            self.push_effect(Effect::RefreshCursor);
            self.request_frame();
        }
    }

    fn press_tab(&mut self, index: usize)
        requires
            old(self)@.wf(),
        ensures
            final(self)@ == old(self)@.tab_pressed(index),
            final(self)@.wf(),
    {
        reveal(AppModel::tab_pressed);
        self.terminals.drag = Some(TabDrag { start_idx: index, threshold_passed: false });
        self.select_terminal_tab_from_user(index);
        self.request_frame();
    }

    fn release_tab(&mut self, drag: TabDrag, destination: Option<usize>)
        requires
            old(self)@.wf(),
        ensures
            final(self)@ == old(self)@.tab_released(drag, destination),
            final(self)@.wf(),
    {
        reveal(AppModel::tab_released);
        self.terminals.drag = None;
        if drag.threshold_passed && self.window.ready {
            if let Some(destination) = destination {
                self.reorder_terminal_tab(drag.start_idx, destination);
            }
        }
        self.request_frame();
    }

    fn press_terminal(&mut self, press: &PointerPress, grid: &mut TermGrid, now: u64) -> (result: EventResult)
        requires
            old(self)@.wf(),
            old(grid).wf(),
        ensures
            ({
                let step = events::interaction_step(
                    old(self)@,
                    pointer::button_step(
                        old(self)@.ui,
                        *old(grid),
                        press.state,
                        press.button,
                        press.target,
                        now,
                    ),
                );
                &&& final(self)@ == step.app
                &&& final(grid).selection == step.selection
                &&& result.outcome@ == step.outcome
                &&& result.exit == step.exit
            }),
            *final(grid) == (TermGrid { selection: final(grid).selection, ..*old(grid) }),
            final(self)@.wf(),
    {
        let outcome = self.interaction.mouse_input(
            press.state,
            press.button,
            press.target,
            grid,
            now,
        );
        self.conclude(outcome)
    }

    fn press_window(
        &mut self,
        press: &PointerPress,
        worker: CleanupWorker,
        grid: &mut TermGrid,
        now: u64,
    ) -> (result: EventResult)
        requires
            old(self)@.wf(),
            old(grid).wf(),
        ensures
            ({
                let step = press_step(old(self)@, *old(grid), *press, worker, now);
                &&& final(self)@ == step.app
                &&& final(grid).selection == step.selection
                &&& result.outcome@ == step.outcome
                &&& result.exit == step.exit
            }),
            *final(grid) == (TermGrid { selection: final(grid).selection, ..*old(grid) }),
            final(self)@.wf(),
    {
        reveal(press_step);
        if press.button == PointerButton::Left {
            if press.state.is_pressed() {
                if self.window.ready {
                    match press.tab_hit {
                        TerminalTabHit::Close(index) => {
                            let exit = self.close_terminal_tab_at(index, worker);
                            return EventResult { exit, outcome: Outcome::only(false) };
                        },
                        TerminalTabHit::Add => {
                            self.add_terminal();
                            return events::settled_result();
                        },
                        TerminalTabHit::Body(index) => {
                            self.press_tab(index);
                            return events::settled_result();
                        },
                        TerminalTabHit::Outside => {},
                    }
                }
            } else if let Some(drag) = self.terminals.drag {
                self.release_tab(drag, press.destination);
                return events::settled_result();
            }
        }
        if self.window.ready && self.terminals.list.len() > 0 {
            return self.press_terminal(press, grid, now);
        }
        events::settled_result()
    }

    /// A button of the pointer went down or up.
    pub fn on_pointer_button(
        &mut self,
        press: &PointerPress,
        worker: CleanupWorker,
        grid: &mut TermGrid,
        now: u64,
    ) -> (result: EventResult)
        requires
            old(self)@.wf(),
            old(grid).wf(),
        ensures
            ({
                let step = button_step(old(self)@, *old(grid), *press, worker, now);
                &&& final(self)@ == step.app
                &&& final(grid).selection == step.selection
                &&& result.outcome@ == step.outcome
                &&& result.exit == step.exit
            }),
            *final(grid) == (TermGrid { selection: final(grid).selection, ..*old(grid) }),
            final(self)@.wf(),
    {
        reveal(button_step);
        if press.button == PointerButton::Left && press.state.is_pressed()
            && self.clear_active_terminal_text_selection(grid) {
            self.request_frame();
        }
        if self.settings_modal_active() {
            self.press_settings(press);
            return events::settled_result();
        }
        self.press_window(press, worker, grid, now)
    }

    /// The wheel turned.
    pub fn on_scroll(
        &mut self,
        over_tabs: bool,
        target: PointerTarget,
        up: bool,
        steps: usize,
        grid: &TermGrid,
    ) -> (action: ScrollAction)
        requires
            old(self)@.wf(),
        ensures
            ({
                let tabs = !old(self)@.modal() && old(self)@.window.ready && over_tabs;
                let terminal = !old(self)@.modal() && !tabs && old(self)@.terminals.list.len() > 0
                    && target.body;
                &&& action is Tabs <==> tabs
                &&& action is Terminal <==> terminal
                &&& action matches ScrollAction::Terminal(wheel) ==> pointer::wheel_is(
                    wheel,
                    target,
                    up,
                    steps,
                    *grid,
                )
                &&& final(self)@ == if tabs || terminal {
                    old(self)@.framed()
                } else {
                    old(self)@
                }
            }),
            final(self)@.wf(),
    {
        if self.settings_modal_active() {
            return ScrollAction::Ignored;
        }
        if self.window.ready && over_tabs {
            self.request_frame();
            return ScrollAction::Tabs;
        }
        if self.terminals.list.len() == 0 || !target.body {
            return ScrollAction::Ignored;
        }
        let wheel = self.interaction.mouse_wheel(target, up, steps, grid);
        self.request_frame();
        ScrollAction::Terminal(wheel)
    }
}

} // verus!
