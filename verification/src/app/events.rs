//! What the events of the window and of the keyboard do to the state of the application.
use std::collections::VecDeque;
use vstd::prelude::*;

use crate::app;
use crate::app::settings_state;
use crate::app::settings_state::{SettingsChange, SettingsState};
use crate::app::state;
use crate::app::state::{
    App, AppModel, CleanupWorker, Effect, WindowState, PENDING_EXTERNAL_LAUNCH_CAPACITY,
};
use crate::app::terminals;
use crate::app::terminals::Terminals;
use crate::app::{AppLoopControl, GlobalShortcut, LoopMode};
use crate::config;
use crate::config::AppConfig;
use crate::input::PointerCapture;
use crate::input_types::{CursorKind, KeyCode, KeyInput, Modifiers, PhysicalKey};
use crate::interaction;
use crate::interaction::{ClipboardContents, CopyRequest, Outcome, Selection, TerminalInteraction};
use crate::platform::single_instance::ExternalLaunchRequest;
use crate::pointer;
use crate::search;
use crate::search::SearchRefreshCause;
use crate::settings;
use crate::settings::{SettingsHit, TerminalTabHit};
use crate::terminal::TermGrid;

verus! {

/// What lies under the pointer, of the settings and of the tabs.
#[derive(Clone, Copy, Debug, PartialEq, Eq, Structural)]
pub struct PointerHits {
    pub settings: SettingsHit,
    pub tab: TerminalTabHit,
}

/// What moves, outside the state.
#[derive(Clone, Copy, Debug, PartialEq, Eq, Structural)]
pub struct AnimationSignals {
    /// Whether the view of the active terminal still scrolls.
    pub scroll_unsettled: bool,
    /// Whether there is room to scroll to the pointer.
    pub selection_room: bool,
    /// Whether the tabs still scroll.
    pub tab_scroll_unsettled: bool,
    /// Whether tabs move.
    pub tab_animation: bool,
    /// Whether the settings open or close.
    pub settings_moving: bool,
}

/// The state of the application, the selection of the active terminal, what is left to do for it, and
/// whether the application is over, after an event.
pub struct AppStep {
    pub app: AppModel,
    pub selection: Selection,
    pub outcome: interaction::OutcomeModel,
    pub exit: bool,
}

/// What an event came to: whether the application is over, and what is left to do for the active
/// terminal.
pub struct EventResult {
    pub exit: bool,
    pub outcome: Outcome,
}

/// A step after which nothing is left to do for the active terminal.
pub open spec fn settled_step(app: AppModel, grid: TermGrid) -> AppStep {
    AppStep { app, selection: grid.selection, outcome: interaction::only(false), exit: false }
}

pub(crate) fn settled_result() -> (result: EventResult)
    ensures
        !result.exit,
        result.outcome@ == interaction::only(false),
{
    EventResult { exit: false, outcome: Outcome::only(false) }
}

impl AppModel {
    /// The state after the settings changed, with what is to be done for it.
    #[verifier::opaque]
    pub open spec fn after_change(self, change: SettingsChange) -> AppModel {
        let background = match change.background {
            Some(color) if self.window.ready => self.doing(Effect::SetBackground(color)),
            _ => self,
        };
        let font = match change.font_size {
            Some(size) if self.window.ready => background.doing(Effect::SetFontSize(size)),
            _ => background,
        };
        let cursor = if change.cursor {
            font.doing(Effect::RefreshCursor)
        } else {
            font
        };
        if change.frame {
            cursor.framed()
        } else {
            cursor
        }
    }

    /// The state in which the pointer lets go of everything.
    #[verifier::opaque]
    pub open spec fn pointer_cancelled(self) -> AppModel {
        let dropped = AppModel {
            terminals: terminals::TerminalsModel { drag: None, ..self.terminals },
            ..self
        };
        if self.terminals.list.len() == 0 {
            dropped
        } else {
            let terminal = self.number(self.terminals.active);
            let free = AppModel {
                ui: interaction::InteractionModel {
                    buttons: 0,
                    capture: PointerCapture::Free,
                    anchor: None,
                    ..self.ui
                },
                ..dropped
            };
            match self.ui.capture {
                PointerCapture::TerminalSelection => free.doing(
                    Effect::SettleSelection { terminal },
                ),
                PointerCapture::TerminalScrollbar => free.doing(
                    Effect::EndScrollbarDrag { terminal },
                ),
                _ => free,
            }
        }
    }

    /// The state when the window gained or lost the focus, as far as it is noted: no modifier keys are
    /// held any more, and the active terminal is told.
    #[verifier::opaque]
    pub open spec fn focus_noted(self, focused: bool) -> AppModel {
        let changed = AppModel {
            window: WindowState { focused, unfocused_redraw_pending: !focused, ..self.window },
            modifiers: Modifiers(0),
            ui: interaction::InteractionModel { modifiers: Modifiers(0), ..self.ui },
            ..self
        };
        if self.terminals.presented {
            changed.told(Some(self.terminals.active), focused)
        } else {
            changed
        }
    }

    /// The state in which the pointer lets go of everything, in the settings too.
    #[verifier::opaque]
    pub open spec fn let_go(self) -> AppModel {
        let cancelled = self.pointer_cancelled();
        AppModel {
            settings: settings_state::SettingsModel { dragging: false, ..cancelled.settings },
            ..cancelled
        }
    }

    /// The state when the window gained or lost the focus. Without the focus the pointer lets go.
    #[verifier::opaque]
    pub open spec fn focus_changed(self, focused: bool) -> AppModel {
        if focused {
            self.focus_noted(true).framed()
        } else {
            self.focus_noted(false).let_go().framed()
        }
    }

    /// The state when the settings were opened or closed. Opening them lets the pointer go.
    #[verifier::opaque]
    pub open spec fn settings_toggled(self) -> AppModel {
        let before = if self.settings.open {
            self
        } else {
            self.pointer_cancelled()
        };
        AppModel { settings: self.settings.toggled(), ..before }.after_change(
            SettingsChange {
                background: if self.settings.open {
                    self.settings.finishing().background
                } else {
                    None
                },
                cursor: true,
                ..settings_state::frame_only()
            },
        )
    }

    /// The state after a click in the settings.
    #[verifier::opaque]
    pub open spec fn settings_hit(self, hit: SettingsHit) -> AppModel {
        AppModel { settings: self.settings.hit(hit), ..self }.after_change(
            self.settings.hitting(hit),
        )
    }

    /// The state when the window has another extent. A size that is known is kept, unless the window has
    /// no extent.
    pub open spec fn resized(self, zero_sized: bool, logical_size: Option<(u64, u64)>) -> AppModel {
        let sized = AppModel { window: WindowState { zero_sized, ..self.window }, ..self };
        if zero_sized {
            sized
        } else {
            AppModel { settings: self.settings.resized(logical_size), ..sized }.soiled()
        }
    }

    /// The shape that the pointer should have.
    pub open spec fn icon(self, hits: PointerHits) -> CursorKind {
        app::icon_for(
            self.modal(),
            hits.settings,
            self.settings.dragging,
            hits.tab,
            self.terminals.drag is Some,
        )
    }

    /// The state in which the pointer has a shape.
    pub open spec fn with_icon(self, icon: CursorKind) -> AppModel {
        if icon == self.window.cursor_icon {
            self
        } else {
            let changed = AppModel {
                window: WindowState { cursor_icon: icon, ..self.window },
                ..self
            };
            if self.window.ready {
                changed.doing(Effect::SetCursor(icon))
            } else {
                changed
            }
        }
    }

    /// Whether something moves.
    pub open spec fn moves(self, signals: AnimationSignals) -> bool {
        ||| self.terminals.list.len() > 0 && (signals.scroll_unsettled || pointer::autoscrolls(
            self.ui,
            signals.selection_room,
        ))
        ||| signals.tab_scroll_unsettled
        ||| self.window.ready && signals.tab_animation
        ||| self.terminals.drag matches Some(drag) && drag.threshold_passed
        ||| signals.settings_moving
    }

    /// When the next scan of the search is due, where it is to be waited for.
    pub open spec fn search_deadline(self) -> Option<u64> {
        if self.window.focused && self.window.renderable() && self.ui.search.shown {
            self.ui.search.pending_passive_refresh_at
        } else {
            None
        }
    }

    /// Whether a frame is asked for before the loop goes on.
    pub open spec fn frame_due(self, now: u64) -> bool {
        ||| self.window.renderable() && (self.window.dirty || (self.window.focused
            && self.window.animation_active))
        ||| self.search_deadline() matches Some(deadline) && deadline <= now
    }

    /// What the loop does next.
    pub open spec fn control(self, now: u64) -> AppLoopControl {
        if self.window.renderable() && self.window.focused && self.window.animation_active {
            AppLoopControl::Poll
        } else {
            match self.search_deadline() {
                Some(deadline) if deadline > now => AppLoopControl::WaitUntil(deadline),
                _ => AppLoopControl::Wait,
            }
        }
    }

    /// The text that a key pastes into the field of the background colour.
    pub open spec fn field_paste(self, key: PhysicalKey, clipboard: interaction::ClipboardModel) -> Option<
        Seq<char>,
    > {
        if self.modifiers.has_control() && key == PhysicalKey::Code(KeyCode::KeyV)
            && clipboard.available {
            clipboard.text
        } else {
            None
        }
    }
}

/// What a key does in the settings.
pub open spec fn settings_key_step(
    app: AppModel,
    grid: TermGrid,
    key: PhysicalKey,
    clipboard: interaction::ClipboardModel,
) -> AppStep {
    let before = app.settings;
    let keyed = before.keyed(key, app.modifiers, app.field_paste(key, clipboard));
    if key == PhysicalKey::Code(KeyCode::Escape) {
        settled_step(app.settings_hit(SettingsHit::Outside), grid)
    } else if !before.editing {
        settled_step(app, grid)
    } else {
        let copy = match settings::copied(before.field, key, app.modifiers.has_control()) {
            Some(copy) => interaction::CopyModel::Text(copy),
            None => interaction::CopyModel::Nothing,
        };
        let (after, change) = if key == PhysicalKey::Code(KeyCode::Enter) || key
            == PhysicalKey::Code(KeyCode::NumpadEnter) {
            (before.edit_finished(), before.finishing())
        } else if keyed.field.text != before.field.text {
            (
                keyed.draft_applied(),
                SettingsChange { background: keyed.draft(), ..settings_state::frame_only() },
            )
        } else if keyed.field != before.field {
            (keyed, settings_state::frame_only())
        } else {
            (keyed, settings_state::nothing())
        };
        AppStep {
            app: AppModel { settings: after, ..app }.after_change(change),
            selection: grid.selection,
            outcome: interaction::OutcomeModel { copy, ..interaction::only(false) },
            exit: false,
        }
    }
}

/// What a shortcut does.
pub open spec fn shortcut_step(
    app: AppModel,
    grid: TermGrid,
    shortcut: GlobalShortcut,
    worker: CleanupWorker,
    now: u64,
) -> AppStep {
    match shortcut {
        GlobalShortcut::ToggleSettings => settled_step(app.settings_toggled(), grid),
        GlobalShortcut::NewTab => settled_step(app.added(), grid),
        GlobalShortcut::CloseTab => AppStep {
            exit: app.terminals.list.len() == 1,
            ..settled_step(app.closing(app.terminals.active, worker), grid)
        },
        GlobalShortcut::Search => if app.terminals.list.len() == 0 {
            settled_step(app, grid)
        } else {
            let opened = app.ui.search.opened();
            let (after, selection, jump) = interaction::search_refreshed(
                opened.with_line(opened.line.all_selected(), false),
                grid,
                SearchRefreshCause::User,
                now,
            );
            AppStep {
                app: AppModel {
                    ui: interaction::InteractionModel { search: after, ..app.ui },
                    ..app
                }.framed(),
                selection,
                outcome: interaction::OutcomeModel { jump, ..interaction::only(true) },
                exit: false,
            }
        },
    }
}

/// The step of the application for a step of the interaction with the active terminal.
pub open spec fn interaction_step(app: AppModel, step: interaction::Step) -> AppStep {
    let after = AppModel { ui: step.ui, ..app };
    AppStep {
        app: if step.outcome.handled {
            after.framed()
        } else {
            after
        },
        selection: step.selection,
        outcome: step.outcome,
        exit: false,
    }
}

/// What a key does: shortcuts come first, then the settings, then the active terminal.
pub open spec fn key_step(
    app: AppModel,
    grid: TermGrid,
    key: KeyInput,
    clipboard: interaction::ClipboardModel,
    worker: CleanupWorker,
    now: u64,
) -> AppStep {
    let shortcut = app::shortcut_of(key.physical_key, app.modifiers);
    if key.state is Pressed && shortcut is Some {
        if app.modal() && !(shortcut->0 is ToggleSettings) {
            settled_step(app, grid)
        } else {
            shortcut_step(app, grid, shortcut->0, worker, now)
        }
    } else if app.modal() {
        if key.state is Pressed {
            settings_key_step(app, grid, key.physical_key, clipboard)
        } else {
            settled_step(app, grid)
        }
    } else if app.terminals.list.len() > 0 {
        interaction_step(app, interaction::key_step(app.ui, grid, key, clipboard, now))
    } else {
        settled_step(app, grid)
    }
}

/// Whether none of Ctrl, Alt and Super is held.
pub open spec fn held_plainly(modifiers: Modifiers) -> bool {
    !modifiers.has_control() && !modifiers.has_alt() && !modifiers.has_super()
}

/// What typed text does: in the settings it goes to the field of the background colour, unless Ctrl,
/// Alt or Super is held; otherwise to the active terminal.
pub open spec fn text_step(app: AppModel, grid: TermGrid, typed: Seq<char>, now: u64) -> AppStep {
    if typed.len() == 0 {
        settled_step(app, grid)
    } else if app.modal() {
        if held_plainly(app.modifiers) {
            settled_step(app.field_typed(typed), grid)
        } else {
            settled_step(app, grid)
        }
    } else if app.terminals.list.len() > 0 {
        interaction_step(app, interaction::text_step(app.ui, grid, typed, now))
    } else {
        settled_step(app, grid)
    }
}

/// What text from an input method does.
pub open spec fn commit_step(app: AppModel, grid: TermGrid, commit: Seq<char>, now: u64) -> AppStep {
    if app.modal() {
        settled_step(app.field_typed(commit), grid)
    } else if app.terminals.list.len() > 0 {
        interaction_step(app, interaction::commit_step(app.ui, grid, commit, now))
    } else {
        settled_step(app, grid)
    }
}

impl AppModel {
    /// The state with a text put into the field of the background colour, where it is edited.
    #[verifier::opaque]
    pub open spec fn field_typed(self, value: Seq<char>) -> AppModel {
        AppModel { settings: self.settings.typed(value), ..self }.after_change(
            if self.settings.editing && settings::takes(self.settings.field, value) {
                SettingsChange {
                    background: (settings_state::SettingsModel {
                        field: settings::with_hex(self.settings.field, value),
                        ..self.settings
                    }).draft(),
                    ..settings_state::frame_only()
                }
            } else {
                settings_state::nothing()
            },
        )
    }
}

/// The application with these settings, before it has a window or a terminal.
pub open spec fn unstarted(config: AppConfig) -> AppModel {
    AppModel {
        window: WindowState {
            ready: false,
            focused: true,
            unfocused_redraw_pending: false,
            occluded: false,
            zero_sized: false,
            dirty: true,
            animation_active: false,
            settings_visible: false,
            cursor_icon: CursorKind::Default,
        },
        settings: settings_state::unchanged(config),
        terminals: terminals::none(),
        ui: interaction::untouched(),
        modifiers: Modifiers(0),
        launches: Seq::empty(),
        effects: Seq::empty(),
    }
}

impl App {
    /// The application with the default settings, before it has a window.
    pub fn new() -> (app: Self)
        ensures
            app@.wf(),
            app@ == unstarted(config::default_config()),
    {
        App::from_config(AppConfig::default())
    }

    /// The application with these settings, before it has a window.
    pub fn from_config(config: AppConfig) -> (app: Self)
        requires
            config.wf(),
        ensures
            app@.wf(),
            app@ == unstarted(config),
    {
        App {
            window: WindowState {
                ready: false,
                focused: true,
                unfocused_redraw_pending: false,
                occluded: false,
                zero_sized: false,
                dirty: true,
                animation_active: false,
                settings_visible: false,
                cursor_icon: CursorKind::Default,
            },
            settings: SettingsState::from_config(config),
            terminals: Terminals::new(),
            interaction: TerminalInteraction::default(),
            modifiers: Modifiers::empty(),
            pending_external_launches: VecDeque::new(),
            effects: Vec::new(),
        }
    }

    /// Does what is to be done after the settings changed.
    pub(crate) fn follow(&mut self, change: SettingsChange)
        ensures
            final(self)@ == old(self)@.after_change(change),
            final(self)@ == (AppModel {
                effects: final(self)@.effects,
                window: final(self)@.window,
                ..old(self)@
            }),
    {
        reveal(AppModel::after_change);
        if self.window.ready {
            if let Some(color) = change.background {
                self.push_effect(Effect::SetBackground(color));
            }
            if let Some(size) = change.font_size {
                self.push_effect(Effect::SetFontSize(size));
            }
        }
        if change.cursor {
            self.push_effect(Effect::RefreshCursor);
        }
        if change.frame {
            self.request_frame();
        }
    }

    /// Lets the pointer go of everything.
    pub fn cancel_pointer_interactions(&mut self)
        requires
            old(self)@.wf(),
        ensures
            final(self)@ == old(self)@.pointer_cancelled(),
            final(self)@.wf(),
            final(self)@.settings == old(self)@.settings,
    {
        reveal(AppModel::pointer_cancelled);
        self.terminals.drag = None;
        if self.terminals.list.len() == 0 {
            return ;
        }
        let terminal: u64 = self.terminals.list[self.terminals.active].number;
        match self.interaction.cancel_pointer_interaction() {
            PointerCapture::TerminalSelection => {
                self.push_effect(Effect::SettleSelection { terminal });
            },
            PointerCapture::TerminalScrollbar => {
                self.push_effect(Effect::EndScrollbarDrag { terminal });
            },
            _ => {},
        }
    }

    fn note_focus(&mut self, focused: bool)
        requires
            old(self)@.wf(),
        ensures
            final(self)@ == old(self)@.focus_noted(focused),
            final(self)@.wf(),
    {
        reveal(AppModel::focus_noted);
        self.window.focused = focused;
        self.window.unfocused_redraw_pending = !focused;
        self.on_modifiers(Modifiers::empty());
        if self.terminals.presented {
            self.tell_focus(Some(self.terminals.active), focused);
        }
    }

    fn release_pointer(&mut self)
        requires
            old(self)@.wf(),
        ensures
            final(self)@ == old(self)@.let_go(),
            final(self)@.wf(),
    {
        reveal(AppModel::let_go);
        self.cancel_pointer_interactions();
        self.settings.background_dragging = false;
    }

    /// The window gained or lost the focus.
    pub fn on_focus_changed(&mut self, focused: bool)
        requires
            old(self)@.wf(),
        ensures
            final(self)@ == old(self)@.focus_changed(focused),
            final(self)@.wf(),
    {
        reveal(AppModel::focus_changed);
        self.note_focus(focused);
        if !focused {
            self.release_pointer();
        }
        self.request_frame();
    }

    /// Opens or closes the settings.
    pub fn toggle_settings(&mut self)
        requires
            old(self)@.wf(),
        ensures
            final(self)@ == old(self)@.settings_toggled(),
            final(self)@.wf(),
    {
        reveal(AppModel::settings_toggled);
        if !self.settings.open {
            self.cancel_pointer_interactions();
        }
        let change = self.settings.toggle();
        self.follow(change);
    }

    /// Closes the settings.
    pub fn close_settings(&mut self)
        requires
            old(self)@.wf(),
        ensures
            final(self)@ == old(self)@.settings_hit(SettingsHit::Outside),
            final(self)@.wf(),
    {
        reveal(AppModel::settings_hit);
        let change = self.settings.close();
        self.follow(change);
    }

    /// Does what a click in the settings is for.
    pub fn apply_settings_hit(&mut self, hit: SettingsHit)
        requires
            old(self)@.wf(),
        ensures
            final(self)@ == old(self)@.settings_hit(hit),
            final(self)@.wf(),
    {
        reveal(AppModel::settings_hit);
        let change = self.settings.apply_hit(hit);
        self.follow(change);
    }

    /// Puts a text into the field of the background colour. Whether the field is edited.
    pub fn edit_settings_background_text(&mut self, value: &str) -> (editing: bool)
        requires
            old(self)@.wf(),
        ensures
            editing == old(self)@.settings.editing,
            final(self)@ == old(self)@.field_typed(value@),
            final(self)@.wf(),
    {
        reveal(AppModel::field_typed);
        let editing = self.settings.background_editing;
        let change = self.settings.edit_background_text(value);
        self.follow(change);
        editing
    }

    /// Gives the pointer the shape for what lies under it.
    pub fn refresh_cursor_icon(&mut self, hits: &PointerHits)
        ensures
            final(self)@ == old(self)@.with_icon(old(self)@.icon(*hits)),
            old(self)@.wf() ==> final(self)@.wf(),
    {
        let desired = app::ui_cursor_icon(
            self.settings_modal_active(),
            hits.settings,
            self.settings.background_dragging,
            hits.tab,
            self.terminals.drag.is_some(),
        );
        self.set_cursor_icon(desired);
    }

    /// Gives the pointer a shape.
    pub(crate) fn set_cursor_icon(&mut self, icon: CursorKind)
        ensures
            final(self)@ == old(self)@.with_icon(icon),
            final(self)@ == (AppModel {
                effects: final(self)@.effects,
                window: final(self)@.window,
                ..old(self)@
            }),
            final(self)@.window == (WindowState { cursor_icon: icon, ..old(self)@.window }),
    {
        if let Some(next) = app::cursor_icon_change(self.window.cursor_icon, icon) {
            self.window.cursor_icon = next;
            if self.window.ready {
                self.push_effect(Effect::SetCursor(next));
            }
        }
    }

    /// Notes whether something moves.
    pub fn sync_animation_state(&mut self, signals: &AnimationSignals)
        ensures
            final(self)@ == (AppModel {
                window: WindowState {
                    animation_active: old(self)@.moves(*signals),
                    ..old(self)@.window
                },
                ..old(self)@
            }),
    {
        let terminal = self.terminals.list.len() > 0 && (signals.scroll_unsettled
            || self.interaction.selection_autoscroll_active(signals.selection_room));
        let dragging = match self.terminals.drag {
            Some(drag) => drag.threshold_passed,
            None => false,
        };
        self.window.animation_active = terminal || signals.tab_scroll_unsettled || (
        self.window.ready && signals.tab_animation) || dragging || signals.settings_moving;
    }

    /// What the loop does next; before it, a frame is asked for where one is due.
    pub fn loop_control(&mut self, now: u64) -> (control: AppLoopControl)
        ensures
            control == old(self)@.control(now),
            final(self)@ == if old(self)@.frame_due(now) && old(self)@.window.ready {
                old(self)@.doing(Effect::RequestFrame)
            } else {
                old(self)@
            },
    {
        let plan = app::frame_plan(
            self.renderable(),
            self.window.dirty,
            self.window.focused && self.window.animation_active,
        );
        let deadline: Option<u64> = if self.window.focused && self.renderable() {
            self.interaction.search.pending_passive_refresh_deadline()
        } else {
            None
        };
        let search_due = match deadline {
            Some(deadline) => deadline <= now,
            None => false,
        };
        if (plan.request_frame || search_due) && self.window.ready {
            self.push_effect(Effect::RequestFrame);
        }
        match plan.loop_mode {
            LoopMode::Poll => AppLoopControl::Poll,
            LoopMode::Wait => match deadline {
                Some(deadline) => if deadline > now {
                    AppLoopControl::WaitUntil(deadline)
                } else {
                    AppLoopControl::Wait
                },
                None => AppLoopControl::Wait,
            },
        }
    }

    /// The modifier keys that are held changed.
    pub fn on_modifiers(&mut self, modifiers: Modifiers)
        ensures
            final(self)@ == (AppModel {
                modifiers,
                ui: interaction::InteractionModel { modifiers, ..old(self)@.ui },
                ..old(self)@
            }),
    {
        self.modifiers = modifiers;
        self.interaction.set_modifiers(modifiers);
    }

    /// Whether the keyboard and the pointer reach a terminal.
    fn has_terminal(&self) -> (has: bool)
        ensures
            has == (self@.terminals.list.len() > 0),
    {
        self.terminals.list.len() > 0
    }

    /// Asks for a frame where the active terminal took an event.
    pub(crate) fn conclude(&mut self, outcome: Outcome) -> (result: EventResult)
        ensures
            final(self)@ == if outcome@.handled {
                old(self)@.framed()
            } else {
                old(self)@
            },
            !result.exit,
            result.outcome == outcome,
    {
        if outcome.handled {
            self.request_frame();
        }
        EventResult { exit: false, outcome }
    }

    /// Does what a shortcut is for.
    pub fn handle_global_key(
        &mut self,
        shortcut: GlobalShortcut,
        worker: CleanupWorker,
        grid: &mut TermGrid,
        now: u64,
    ) -> (result: EventResult)
        requires
            old(self)@.wf(),
            old(grid).wf(),
        ensures
            ({
                let step = shortcut_step(old(self)@, *old(grid), shortcut, worker, now);
                &&& final(self)@ == step.app
                &&& final(grid).selection == step.selection
                &&& result.outcome@ == step.outcome
                &&& result.exit == step.exit
            }),
            *final(grid) == (TermGrid { selection: final(grid).selection, ..*old(grid) }),
            final(self)@.wf(),
    {
        match shortcut {
            GlobalShortcut::ToggleSettings => {
                self.toggle_settings();
                settled_result()
            },
            GlobalShortcut::NewTab => {
                self.add_terminal();
                settled_result()
            },
            GlobalShortcut::CloseTab => {
                let exit = self.close_active_terminal(worker);
                EventResult { exit, outcome: Outcome::only(false) }
            },
            GlobalShortcut::Search => {
                if !self.has_terminal() {
                    return settled_result();
                }
                let jump = self.interaction.open_search(grid, now);
                self.conclude(Outcome::jumping(jump))
            },
        }
    }

    /// Gives a key to the field of the background colour.
    fn settings_field_key(&mut self, key: PhysicalKey, clipboard: &ClipboardContents) -> (copy: CopyRequest)
        requires
            old(self)@.wf(),
            old(self)@.settings.editing,
            key != PhysicalKey::Code(KeyCode::Escape),
        ensures
            forall|grid: TermGrid|
                {
                    let step = #[trigger] settings_key_step(old(self)@, grid, key, clipboard@);
                    &&& final(self)@ == step.app
                    &&& copy@ == step.outcome.copy
                },
            final(self)@.wf(),
    {
        let is_v = match key {
            PhysicalKey::Code(KeyCode::KeyV) => true,
            _ => false,
        };
        let paste: Option<&str> = if self.modifiers.control_key() && is_v && clipboard.available {
            match &clipboard.text {
                Some(value) => Some(value.as_str()),
                None => None,
            }
        } else {
            None
        };
        let modifiers = self.modifiers;
        let (_, copy_text, change) = self.settings.handle_background_key(key, modifiers, paste);
        self.follow(change);
        match copy_text {
            Some(value) => CopyRequest::Text(value),
            None => CopyRequest::Nothing,
        }
    }

    /// A key went down or up.
    pub fn on_key(
        &mut self,
        key: &KeyInput,
        clipboard: &ClipboardContents,
        worker: CleanupWorker,
        grid: &mut TermGrid,
        now: u64,
    ) -> (result: EventResult)
        requires
            old(self)@.wf(),
            old(grid).wf(),
        ensures
            ({
                let step = key_step(old(self)@, *old(grid), *key, clipboard@, worker, now);
                &&& final(self)@ == step.app
                &&& final(grid).selection == step.selection
                &&& result.outcome@ == step.outcome
                &&& result.exit == step.exit
            }),
            *final(grid) == (TermGrid { selection: final(grid).selection, ..*old(grid) }),
            final(self)@.wf(),
    {
        let pressed = key.state.is_pressed();
        if pressed {
            if let Some(shortcut) = app::global_shortcut(key.physical_key, self.modifiers) {
                if self.settings_modal_active() && shortcut != GlobalShortcut::ToggleSettings {
                    return settled_result();
                }
                return self.handle_global_key(shortcut, worker, grid, now);
            }
        }
        if self.settings_modal_active() {
            if !pressed {
                return settled_result();
            }
            let is_escape = match key.physical_key {
                PhysicalKey::Code(KeyCode::Escape) => true,
                _ => false,
            };
            if is_escape {
                self.close_settings();
                return settled_result();
            }
            if !self.settings.background_editing {
                return settled_result();
            }
            let copy = self.settings_field_key(key.physical_key, clipboard);
            let mut outcome = Outcome::only(false);
            outcome.copy = copy;
            return EventResult { exit: false, outcome };
        }
        if !self.has_terminal() {
            return settled_result();
        }
        let outcome = self.interaction.handle_key_event(key, grid, clipboard, now);
        self.conclude(outcome)
    }

    /// Text was typed.
    pub fn on_text(&mut self, typed: &str, grid: &mut TermGrid, now: u64) -> (result: EventResult)
        requires
            old(self)@.wf(),
            old(grid).wf(),
        ensures
            ({
                let step = text_step(old(self)@, *old(grid), typed@, now);
                &&& final(self)@ == step.app
                &&& final(grid).selection == step.selection
                &&& result.outcome@ == step.outcome
                &&& result.exit == step.exit
            }),
            *final(grid) == (TermGrid { selection: final(grid).selection, ..*old(grid) }),
            final(self)@.wf(),
    {
        if typed.is_empty() {
            return settled_result();
        }
        if self.settings_modal_active() {
            self.settings_text(typed);
            return settled_result();
        }
        if !self.has_terminal() {
            return settled_result();
        }
        self.terminal_text(typed, grid, now)
    }

    fn settings_text(&mut self, typed: &str)
        requires
            old(self)@.wf(),
        ensures
            final(self)@ == if held_plainly(old(self)@.modifiers) {
                old(self)@.field_typed(typed@)
            } else {
                old(self)@
            },
            final(self)@.wf(),
    {
        if !self.modifiers.control_key() && !self.modifiers.alt_key() && !self.modifiers.super_key() {
            self.edit_settings_background_text(typed);
        }
    }

    fn terminal_text(&mut self, typed: &str, grid: &mut TermGrid, now: u64) -> (result: EventResult)
        requires
            old(self)@.wf(),
            old(grid).wf(),
        ensures
            ({
                let step = interaction_step(
                    old(self)@,
                    interaction::text_step(old(self)@.ui, *old(grid), typed@, now),
                );
                &&& final(self)@ == step.app
                &&& final(grid).selection == step.selection
                &&& result.outcome@ == step.outcome
                &&& result.exit == step.exit
            }),
            *final(grid) == (TermGrid { selection: final(grid).selection, ..*old(grid) }),
            final(self)@.wf(),
    {
        let outcome = self.interaction.handle_text(typed, grid, now);
        self.conclude(outcome)
    }

    /// An input method committed text.
    pub fn on_ime_commit(&mut self, commit: &str, grid: &mut TermGrid, now: u64) -> (result: EventResult)
        requires
            old(self)@.wf(),
            old(grid).wf(),
        ensures
            ({
                let step = commit_step(old(self)@, *old(grid), commit@, now);
                &&& final(self)@ == step.app
                &&& final(grid).selection == step.selection
                &&& result.outcome@ == step.outcome
                &&& result.exit == step.exit
            }),
            *final(grid) == (TermGrid { selection: final(grid).selection, ..*old(grid) }),
            final(self)@.wf(),
    {
        if self.settings_modal_active() {
            self.edit_settings_background_text(commit);
            return settled_result();
        }
        if !self.has_terminal() {
            return settled_result();
        }
        let outcome = self.interaction.handle_ime_commit(commit, grid, now);
        self.conclude(outcome)
    }

    /// A launch came from outside. What is done about it; nothing yet while there is no window, for
    /// which so many launches wait as may.
    pub fn handle_external_launch(&mut self, request: ExternalLaunchRequest, kde_session: bool) -> (action:
        Option<app::ExternalLaunchAction>)
        requires
            old(self)@.wf(),
        ensures
            final(self)@.wf(),
            !old(self)@.window.ready ==> {
                &&& action is None
                &&& final(self)@ == (AppModel {
                    launches: state::queued(old(self)@.launches, request),
                    ..old(self)@
                })
            },
            old(self)@.window.ready && old(self)@.window.focused ==> {
                &&& action == Some(app::ExternalLaunchAction::OpenDefaultTab)
                &&& final(self)@ == old(self)@.added()
            },
            old(self)@.window.ready && !old(self)@.window.focused ==> {
                &&& final(self)@ == old(self)@
                &&& match request.activation_token {
                    Some(token) => action matches Some(
                        app::ExternalLaunchAction::WaylandXdgActivation { activation_token },
                    ) && activation_token@ == token@,
                    None => action == if kde_session {
                        Some(app::ExternalLaunchAction::KdeForceActivate)
                    } else {
                        Some(app::ExternalLaunchAction::WaylandBestEffort)
                    },
                }
            },
    {
        if !self.window.ready {
            if self.pending_external_launches.len() < PENDING_EXTERNAL_LAUNCH_CAPACITY {
                self.pending_external_launches.push_back(request);
            }
            return None;
        }
        let action = app::external_launch_action(self.window.focused, kde_session, request);
        if self.window.focused {
            self.add_terminal();
        }
        Some(action)
    }

    /// The first launch from outside that waited for the window.
    pub fn next_pending_launch(&mut self) -> (request: Option<ExternalLaunchRequest>)
        requires
            old(self)@.wf(),
        ensures
            final(self)@.wf(),
            if old(self)@.launches.len() > 0 {
                &&& request == Some(old(self)@.launches[0])
                &&& final(self)@ == (AppModel { launches: old(self)@.launches.skip(1), ..old(self)@ })
            } else {
                &&& request is None
                &&& final(self)@ == old(self)@
            },
    {
        let ghost before = self.pending_external_launches@;
        let request = self.pending_external_launches.pop_front();
        if request.is_some() {
            assert(self.pending_external_launches@ =~= before.skip(1));
        }
        request
    }

    /// The window is there, with an extent. A terminal is added for it.
    pub fn on_runtime_ready(&mut self, width: u32, height: u32)
        requires
            old(self)@.wf(),
        ensures
            final(self)@ == (AppModel {
                window: WindowState {
                    ready: true,
                    zero_sized: width == 0 || height == 0,
                    ..old(self)@.window
                },
                ..old(self)@
            }).added().soiled(),
            final(self)@.wf(),
    {
        self.window.zero_sized = width == 0 || height == 0;
        self.window.ready = true;
        self.add_terminal();
        self.mark_dirty();
    }

    /// The window has another extent, and another size where that is known.
    pub fn on_resize(&mut self, width: u32, height: u32, logical_size: Option<(u64, u64)>)
        requires
            old(self)@.wf(),
        ensures
            final(self)@ == old(self)@.resized(width == 0 || height == 0, logical_size),
            final(self)@.wf(),
    {
        self.window.zero_sized = width == 0 || height == 0;
        if self.window.zero_sized {
            return ;
        }
        self.settings.take_window_size(logical_size);
        self.mark_dirty();
    }

    /// A frame is to be drawn. Whether it can be; where it can, the terminal that is to be shown now is
    /// shown.
    pub fn begin_frame(&mut self) -> (drawn: bool)
        requires
            old(self)@.wf(),
        ensures
            drawn == old(self)@.window.renderable(),
            final(self)@ == if drawn {
                old(self)@.presenting()
            } else {
                old(self)@
            },
            final(self)@.wf(),
    {
        if !self.renderable() {
            return false;
        }
        self.process_terminal_presentation_intents();
        true
    }

    /// A frame was drawn. Whether the active tab, with or without the end of the tabs, is to be brought
    /// into view.
    pub fn finish_frame(&mut self) -> (pending: Option<bool>)
        requires
            old(self)@.wf(),
        ensures
            pending == old(self)@.terminals.reveal,
            final(self)@ == (AppModel {
                window: WindowState {
                    dirty: false,
                    unfocused_redraw_pending: old(self)@.window.unfocused_redraw_pending
                        && old(self)@.window.focused,
                    ..old(self)@.window
                },
                terminals: terminals::TerminalsModel { reveal: None, ..old(self)@.terminals },
                ..old(self)@
            }).doing(Effect::RefreshCursor),
            final(self)@.wf(),
    {
        let pending: Option<bool> = self.terminals.reveal;
        self.terminals.reveal = None;
        self.push_effect(Effect::RefreshCursor);
        if !self.window.focused {
            self.window.unfocused_redraw_pending = false;
        }
        self.window.dirty = false;
        pending
    }

    /// The loop is about to wait. What it does next: the terminal that is to be shown now is shown
    /// before.
    pub fn on_about_to_wait(&mut self, signals: &AnimationSignals, now: u64) -> (control: AppLoopControl)
        requires
            old(self)@.wf(),
        ensures
            ({
                let shown = if old(self)@.terminals.due() is Some {
                    old(self)@.presenting().framed()
                } else {
                    old(self)@
                };
                let synced = AppModel {
                    window: WindowState { animation_active: shown.moves(*signals), ..shown.window },
                    ..shown
                };
                &&& control == synced.control(now)
                &&& final(self)@ == if synced.frame_due(now) && synced.window.ready {
                    synced.doing(Effect::RequestFrame)
                } else {
                    synced
                }
            }),
            final(self)@.wf(),
    {
        reveal(AppModel::presenting);
        if self.process_terminal_presentation_intents() {
            self.request_frame();
        }
        self.sync_animation_state(signals);
        self.loop_control(now)
    }
}

} // verus!
