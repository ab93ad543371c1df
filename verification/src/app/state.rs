//! The state of the application: its window, its terminals, its settings and what the user is doing.
//! What is to be done outside the state is left behind as effects, in order.
use std::collections::VecDeque;
use vstd::prelude::*;

use crate::app::settings_state;
use crate::app::settings_state::SettingsState;
use crate::app::terminals;
use crate::app::terminals::{Terminals, TERMINAL_CLEANUP_PENDING_CAPACITY};
use crate::config::RgbColor;
use crate::input::PointerCapture;
use crate::input_types::{CursorKind, Modifiers};
use crate::interaction;
use crate::interaction::TerminalInteraction;
use crate::platform::single_instance::ExternalLaunchRequest;
use crate::search;

verus! {

/// How many launches from outside wait for the window, at most.
pub const PENDING_EXTERNAL_LAUNCH_CAPACITY: usize = 32;

/// The launches that wait when one more comes: it is let go where as many wait as may.
pub open spec fn queued(
    launches: Seq<ExternalLaunchRequest>,
    request: ExternalLaunchRequest,
) -> Seq<ExternalLaunchRequest> {
    if launches.len() < PENDING_EXTERNAL_LAUNCH_CAPACITY {
        launches.push(request)
    } else {
        launches
    }
}

/// The launches that wait when more come, one after the other.
pub open spec fn all_queued(
    launches: Seq<ExternalLaunchRequest>,
    requests: Seq<ExternalLaunchRequest>,
) -> Seq<ExternalLaunchRequest>
    decreases requests.len(),
{
    if requests.len() == 0 {
        launches
    } else {
        queued(all_queued(launches, requests.drop_last()), requests.last())
    }
}

/// What is to be done outside the state.
#[derive(Clone, Copy, Debug, PartialEq, Eq, Structural)]
pub enum Effect {
    /// To ask the window for a frame.
    RequestFrame,
    /// To look for the shape of the pointer anew.
    RefreshCursor,
    /// To tell a terminal that it has or has lost the focus.
    ReportFocus { terminal: u64, focused: bool },
    /// To start the process of a terminal.
    SpawnTerminal { terminal: u64 },
    /// To hand the process of a terminal to the worker that ends it.
    EnqueueCleanup { terminal: u64 },
    /// To end the process of a terminal and wait for it.
    ShutDown { terminal: u64 },
    /// To take the selection of a terminal away.
    ClearSelection { terminal: u64 },
    /// To take the selection of a terminal away where it is no more than a cell.
    SettleSelection { terminal: u64 },
    /// To end a drag of the scrollbar of a terminal.
    EndScrollbarDrag { terminal: u64 },
    /// To give the pointer a shape.
    SetCursor(CursorKind),
    /// To draw terminals on a background.
    SetBackground(RgbColor),
    /// To draw the text of terminals in a size, given by its bits.
    SetFontSize(u32),
}

/// The worker that ends processes.
#[derive(Clone, Copy, Debug, PartialEq, Eq, Structural)]
pub enum CleanupWorker {
    /// There is none.
    Unavailable,
    /// It has as much to do as it takes.
    Full,
    /// It takes one more.
    Accepting,
}

/// The window.
#[derive(Clone, Copy, Debug, PartialEq, Eq, Structural)]
pub struct WindowState {
    /// Whether there is one.
    pub ready: bool,
    /// Whether it has the focus.
    pub focused: bool,
    /// Whether a frame is still owed to it since it lost the focus.
    pub unfocused_redraw_pending: bool,
    /// Whether it is covered.
    pub occluded: bool,
    /// Whether it has no extent.
    pub zero_sized: bool,
    /// Whether something changed since the last frame.
    pub dirty: bool,
    /// Whether something moves.
    pub animation_active: bool,
    /// Whether the settings can be seen, as they still can while they close.
    pub settings_visible: bool,
    /// The shape of the pointer.
    pub cursor_icon: CursorKind,
}

impl WindowState {
    /// Whether a frame can be drawn in it.
    pub open spec fn renderable(self) -> bool {
        (self.focused || self.unfocused_redraw_pending) && !self.occluded && !self.zero_sized
            && self.ready
    }
}

/// The state of the application.
pub struct App {
    pub window: WindowState,
    pub settings: SettingsState,
    pub terminals: Terminals,
    pub interaction: TerminalInteraction,
    /// The modifier keys that are held.
    pub modifiers: Modifiers,
    /// The launches from outside that wait for the window.
    pub pending_external_launches: VecDeque<ExternalLaunchRequest>,
    /// What is to be done outside the state.
    pub effects: Vec<Effect>,
}

/// The contents of the state.
pub struct AppModel {
    pub window: WindowState,
    pub settings: settings_state::SettingsModel,
    pub terminals: terminals::TerminalsModel,
    pub ui: interaction::InteractionModel,
    pub modifiers: Modifiers,
    pub launches: Seq<ExternalLaunchRequest>,
    pub effects: Seq<Effect>,
}

impl View for App {
    type V = AppModel;

    open spec fn view(&self) -> AppModel {
        AppModel {
            window: self.window,
            settings: self.settings@,
            terminals: self.terminals@,
            ui: self.interaction@,
            modifiers: self.modifiers,
            launches: self.pending_external_launches@,
            effects: self.effects@,
        }
    }
}

impl AppModel {
    /// Whether the state is one that the application comes to: one of its terminals is active where it
    /// has any, its settings are within their bounds, and so is what waits.
    pub open spec fn wf(self) -> bool {
        &&& self.settings.wf()
        &&& self.terminals.wf()
        &&& self.ui.search.wf()
        &&& self.launches.len() <= PENDING_EXTERNAL_LAUNCH_CAPACITY
    }

    /// Whether the settings take the pointer and the keyboard.
    pub open spec fn modal(self) -> bool {
        self.settings.open || self.window.settings_visible
    }

    /// The number of a terminal.
    pub open spec fn number(self, index: int) -> u64 {
        self.terminals.list[index].number
    }

    /// The state with one more thing to do.
    pub open spec fn doing(self, effect: Effect) -> AppModel {
        AppModel { effects: self.effects.push(effect), ..self }
    }

    /// The state with something to be drawn.
    pub open spec fn soiled(self) -> AppModel {
        AppModel { window: WindowState { dirty: true, ..self.window }, ..self }
    }

    /// The state with a frame asked for.
    pub open spec fn framed(self) -> AppModel {
        if self.window.ready {
            self.soiled().doing(Effect::RequestFrame)
        } else {
            self.soiled()
        }
    }

    /// The state with a terminal told of its focus, where it asked for it.
    #[verifier::opaque]
    pub open spec fn told(self, index: Option<int>, focused: bool) -> AppModel {
        if self.terminals.reports(index) {
            self.doing(Effect::ReportFocus { terminal: self.number(index->0), focused })
        } else {
            self
        }
    }

    /// The state in which the focus went from one terminal to another: the first is told before the
    /// second, and neither while the window has not the focus.
    #[verifier::opaque]
    pub open spec fn focus_moved(self, old: Option<int>, new: Option<int>) -> AppModel {
        if !self.window.focused || old == new {
            self
        } else {
            self.told(old, false).told(new, true)
        }
    }

    /// The state in which the interaction left a terminal: its search is closed, with what it selected,
    /// and the pointer lets go.
    #[verifier::opaque]
    pub open spec fn left(self, index: int) -> AppModel {
        let left = AppModel {
            ui: interaction::InteractionModel {
                search: self.ui.search.closed(),
                buttons: 0,
                capture: PointerCapture::Free,
                anchor: None,
                ..self.ui
            },
            ..self
        };
        if self.ui.search.shown {
            left.doing(Effect::ClearSelection { terminal: self.number(index) })
        } else {
            left
        }
    }

    /// The state in which the interaction and the focus went from the terminal that was active to
    /// another; the focus also goes to the active one where it was not shown.
    #[verifier::opaque]
    pub open spec fn handed_over(self, index: int) -> AppModel {
        let before = if self.terminals.presented {
            Some(self.terminals.active)
        } else {
            None
        };
        if index != self.terminals.active {
            self.left(self.terminals.active).focus_moved(before, Some(index))
        } else {
            self.focus_moved(before, Some(index))
        }
    }

    /// The state in which a terminal is shown.
    #[verifier::opaque]
    pub open spec fn activated(self, index: int, reveal_tail: bool) -> AppModel {
        if index >= self.terminals.list.len() {
            self
        } else {
            let over = self.handed_over(index);
            AppModel { terminals: over.terminals.showing(index, reveal_tail), ..over }.soiled()
        }
    }

    /// The state in which the terminal that is to be shown now is shown, where there is one.
    #[verifier::opaque]
    pub open spec fn presenting(self) -> AppModel {
        match self.terminals.due() {
            Some((index, reveal_tail)) => AppModel {
                terminals: self.terminals.idle(),
                ..self
            }.activated(index, reveal_tail),
            None => self,
        }
    }

    /// The state in which a terminal waits to be shown, and no other: it is shown at once where it is
    /// ready.
    #[verifier::opaque]
    pub open spec fn asked(self, index: int, reveal_tail: bool) -> AppModel {
        if index >= self.terminals.list.len() {
            self
        } else {
            AppModel { terminals: self.terminals.waiting(index, reveal_tail), ..self }.presenting()
        }
    }

    /// The state with one more terminal, which waits to be shown.
    pub open spec fn added(self) -> AppModel {
        if !self.window.ready {
            self
        } else {
            AppModel { terminals: self.terminals.grown(), ..self }.doing(
                Effect::SpawnTerminal { terminal: self.terminals.next_number },
            ).asked(self.terminals.list.len() as int, true).framed()
        }
    }

    /// Whether the process of a terminal can be handed on to be ended.
    pub open spec fn can_end(self, worker: CleanupWorker) -> bool {
        match worker {
            CleanupWorker::Unavailable => false,
            CleanupWorker::Full => self.terminals.cleanup.len() < TERMINAL_CLEANUP_PENDING_CAPACITY,
            CleanupWorker::Accepting => true,
        }
    }

    /// The state in which the process of a terminal was handed on to be ended.
    #[verifier::opaque]
    pub open spec fn ending(self, terminal: u64, worker: CleanupWorker) -> AppModel {
        match worker {
            CleanupWorker::Unavailable => self,
            CleanupWorker::Full => AppModel {
                terminals: terminals::TerminalsModel {
                    cleanup: self.terminals.cleanup.push(terminal),
                    ..self.terminals
                },
                ..self
            },
            CleanupWorker::Accepting => self.doing(Effect::EnqueueCleanup { terminal }),
        }
    }

    /// The state without a terminal.
    #[verifier::opaque]
    pub open spec fn without(self, index: int) -> AppModel {
        let rest = AppModel { terminals: self.terminals.without(index), ..self };
        let active = rest.terminals.active;
        if rest.terminals.list.len() == 0 {
            rest
        } else {
            let shown = if index != self.terminals.active {
                rest
            } else if rest.terminals.list[active].presentation_ready {
                rest.activated(active, false)
            } else {
                AppModel { terminals: rest.terminals.waiting(active, false), ..rest }
            };
            AppModel { terminals: shown.terminals.revealing(false), ..shown }.framed()
        }
    }

    /// Whether a tab cannot be closed now, as the process of its terminal cannot be handed on. The
    /// last terminal can always be closed.
    pub open spec fn held_back(self, index: int, worker: CleanupWorker) -> bool {
        self.terminals.list.len() > 1 && self.terminals.list[index].has_process && !self.can_end(
            worker,
        )
    }

    /// The state in which a tab was closed.
    #[verifier::opaque]
    pub open spec fn closing(self, index: int, worker: CleanupWorker) -> AppModel {
        let last = self.terminals.list.len() == 1;
        let active = index == self.terminals.active;
        let shown = active && self.terminals.presented;
        let told = if shown {
            self.focus_moved(Some(index), None)
        } else {
            self
        };
        if index >= self.terminals.list.len() {
            self
        } else if self.held_back(index, worker) {
            if shown {
                told.focus_moved(None, Some(index))
            } else {
                told
            }
        } else {
            let ended = if !last && self.terminals.list[index].has_process {
                told.ending(self.number(index), worker)
            } else {
                told
            };
            let left = if active {
                ended.left(index)
            } else {
                ended
            };
            let shut = if last {
                left.doing(Effect::ShutDown { terminal: self.number(index) })
            } else {
                left
            };
            shut.without(index)
        }
    }

    /// The state in which a tab moved.
    pub open spec fn reordered(self, from: int, to: int) -> AppModel {
        if from >= self.terminals.list.len() || to >= self.terminals.list.len() || from == to {
            self
        } else {
            AppModel { terminals: self.terminals.reordered(from, to), ..self }.soiled()
        }
    }
}

impl App {
    pub(crate) fn push_effect(&mut self, effect: Effect)
        ensures
            final(self)@ == old(self)@.doing(effect),
    {
        self.effects.push(effect);
    }

    /// Takes what is to be done outside the state.
    pub fn take_effects(&mut self) -> (effects: Vec<Effect>)
        ensures
            effects@ == old(self)@.effects,
            final(self)@ == (AppModel { effects: Seq::empty(), ..old(self)@ }),
    {
        let mut effects: Vec<Effect> = Vec::new();
        std::mem::swap(&mut effects, &mut self.effects);
        effects
    }

    /// Something is to be drawn.
    pub fn mark_dirty(&mut self)
        ensures
            final(self)@ == old(self)@.soiled(),
    {
        self.window.dirty = true;
    }

    /// Asks for a frame.
    pub fn request_frame(&mut self)
        ensures
            final(self)@ == old(self)@.framed(),
    {
        self.window.dirty = true;
        if self.window.ready {
            self.push_effect(Effect::RequestFrame);
        }
    }

    /// Whether a frame can be drawn.
    pub fn renderable(&self) -> (renderable: bool)
        ensures
            renderable == self@.window.renderable(),
    {
        (self.window.focused || self.window.unfocused_redraw_pending) && !self.window.occluded
            && !self.window.zero_sized && self.window.ready
    }

    /// Whether the settings take the pointer and the keyboard.
    pub fn settings_modal_active(&self) -> (modal: bool)
        ensures
            modal == self@.modal(),
    {
        self.settings.open || self.window.settings_visible
    }

    /// Tells a terminal of its focus, where it asked for it.
    pub(crate) fn tell_focus(&mut self, index: Option<usize>, focused: bool)
        ensures
            final(self)@ == old(self)@.told(search::index_view(index), focused),
            final(self)@ == (AppModel { effects: final(self)@.effects, ..old(self)@ }),
    {
        reveal(AppModel::told);
        if let Some(index) = index {
            if index < self.terminals.list.len() {
                let tab = self.terminals.list[index];
                if tab.focus_reporting {
                    self.push_effect(Effect::ReportFocus { terminal: tab.number, focused });
                }
            }
        }
    }

    /// Tells two terminals that the focus went from one to the other.
    pub(crate) fn send_terminal_focus_transition(&mut self, before: Option<usize>, after: Option<usize>)
        ensures
            final(self)@ == old(self)@.focus_moved(
                search::index_view(before),
                search::index_view(after),
            ),
            final(self)@ == (AppModel { effects: final(self)@.effects, ..old(self)@ }),
    {
        reveal(AppModel::focus_moved);
        let same = match (before, after) {
            (Some(before), Some(after)) => before == after,
            (None, None) => true,
            _ => false,
        };
        if !self.window.focused || same {
            return ;
        }
        self.tell_focus(before, false);
        self.tell_focus(after, true);
    }

    /// Takes the interaction away from a terminal.
    pub(crate) fn leave_terminal(&mut self, index: usize)
        requires
            index < old(self)@.terminals.list.len(),
        ensures
            final(self)@ == old(self)@.left(index as int),
            final(self)@ == (AppModel {
                ui: final(self)@.ui,
                effects: final(self)@.effects,
                ..old(self)@
            }),
            old(self)@.wf() ==> final(self)@.wf(),
    {
        reveal(AppModel::left);
        if self.interaction.reset_for_terminal_switch() {
            let terminal: u64 = self.terminals.list[index].number;
            self.push_effect(Effect::ClearSelection { terminal });
        }
    }
}

} // verus!
