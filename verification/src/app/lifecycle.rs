//! The life of a terminal: it is added, waits to be shown, is shown, moves among the tabs and is
//! closed.
use vstd::prelude::*;

use crate::app::state::{App, AppModel, CleanupWorker, Effect};
use crate::app::terminals;
use crate::app::terminals::TERMINAL_CLEANUP_PENDING_CAPACITY;
use crate::search;

verus! {

impl App {
    /// Takes the interaction and the focus to a terminal.
    fn hand_over(&mut self, index: usize)
        requires
            old(self)@.wf(),
            index < old(self)@.terminals.list.len(),
        ensures
            final(self)@ == old(self)@.handed_over(index as int),
            final(self)@.wf(),
            final(self)@.terminals == old(self)@.terminals,
            final(self)@.window == old(self)@.window,
    {
        reveal(AppModel::handed_over);
        let before: Option<usize> = if self.terminals.presented {
            Some(self.terminals.active)
        } else {
            None
        };
        if index != self.terminals.active {
            self.leave_terminal(self.terminals.active);
        }
        self.send_terminal_focus_transition(before, Some(index));
    }

    /// Shows a terminal.
    pub fn activate_ready_terminal(&mut self, index: usize, reveal_tail: bool)
        requires
            old(self)@.wf(),
        ensures
            final(self)@ == old(self)@.activated(index as int, reveal_tail),
            final(self)@.wf(),
            final(self)@.terminals.list == old(self)@.terminals.list,
            final(self)@.window.ready == old(self)@.window.ready,
    {
        reveal(AppModel::activated);
        if index >= self.terminals.list.len() {
            return ;
        }
        self.hand_over(index);
        self.terminals.show(index, reveal_tail);
        self.mark_dirty();
    }

    /// Shows the terminal that is to be shown now. Whether there was one.
    pub fn process_terminal_presentation_intents(&mut self) -> (shown: bool)
        requires
            old(self)@.wf(),
        ensures
            shown == (old(self)@.terminals.due() is Some),
            final(self)@ == old(self)@.presenting(),
            final(self)@.wf(),
    {
        reveal(AppModel::presenting);
        match self.terminals.due_terminal() {
            Some((index, reveal_tail)) => {
                self.terminals.cancel_presentation_intents();
                self.activate_ready_terminal(index, reveal_tail);
                true
            },
            None => false,
        }
    }

    /// Lets a terminal wait to be shown, and no other.
    pub fn request_terminal_activation(&mut self, index: usize, reveal_tail: bool)
        requires
            old(self)@.wf(),
        ensures
            final(self)@ == old(self)@.asked(index as int, reveal_tail),
            final(self)@.wf(),
    {
        reveal(AppModel::asked);
        if index >= self.terminals.list.len() {
            return ;
        }
        self.terminals.wait_for(index, reveal_tail);
        self.process_terminal_presentation_intents();
    }

    /// The user chose a tab.
    pub fn select_terminal_tab_from_user(&mut self, index: usize)
        requires
            old(self)@.wf(),
        ensures
            final(self)@ == old(self)@.asked(index as int, false),
            final(self)@.wf(),
    {
        self.request_terminal_activation(index, false);
    }

    /// Adds a terminal. Its index, where there is a window to show it in.
    pub fn add_terminal(&mut self) -> (index: Option<usize>)
        requires
            old(self)@.wf(),
        ensures
            final(self)@ == old(self)@.added(),
            search::index_view(index) == if old(self)@.window.ready {
                Some(old(self)@.terminals.list.len() as int)
            } else {
                None
            },
            final(self)@.wf(),
    {
        if !self.window.ready {
            return None;
        }
        let index: usize = self.terminals.list.len();
        let terminal: u64 = self.terminals.add();
        self.push_effect(Effect::SpawnTerminal { terminal });
        self.request_terminal_activation(index, true);
        self.request_frame();
        Some(index)
    }

    /// Hands the process of a terminal on to be ended, where it can be. Whether it could.
    fn try_schedule_terminal_cleanup(&mut self, terminal: u64, worker: CleanupWorker) -> (scheduled: bool)
        ensures
            scheduled == old(self)@.can_end(worker),
            final(self)@ == if scheduled {
                old(self)@.ending(terminal, worker)
            } else {
                old(self)@
            },
            old(self)@.wf() ==> final(self)@.wf(),
            final(self)@.terminals.list == old(self)@.terminals.list,
            final(self)@.terminals.active == old(self)@.terminals.active,
    {
        reveal(AppModel::ending);
        match worker {
            CleanupWorker::Unavailable => false,
            CleanupWorker::Accepting => {
                self.push_effect(Effect::EnqueueCleanup { terminal });
                true
            },
            CleanupWorker::Full => {
                if self.terminals.cleanup.len() < TERMINAL_CLEANUP_PENDING_CAPACITY {
                    self.terminals.cleanup.push_back(terminal);
                    true
                } else {
                    false
                }
            },
        }
    }

    /// Takes a tab out of the tabs.
    fn remove_terminal(&mut self, index: usize)
        requires
            old(self)@.wf(),
            index < old(self)@.terminals.list.len(),
        ensures
            final(self)@ == old(self)@.without(index as int),
            final(self)@.wf(),
    {
        reveal(AppModel::without);
        let was_active = index == self.terminals.active;
        self.terminals.remove(index);
        if self.terminals.list.len() == 0 {
            return ;
        }
        if was_active {
            let active: usize = self.terminals.active;
            if self.terminals.list[active].presentation_ready {
                self.activate_ready_terminal(active, false);
            } else {
                self.terminals.wait_for(active, false);
            }
        }
        self.terminals.reveal_active(false);
        self.request_frame();
    }

    /// Closes a tab. Whether it was the last one.
    pub fn close_terminal_tab_at(&mut self, index: usize, worker: CleanupWorker) -> (exit: bool)
        requires
            old(self)@.wf(),
        ensures
            exit == (old(self)@.terminals.list.len() == 1 && index == 0),
            final(self)@ == old(self)@.closing(index as int, worker),
            final(self)@.wf(),
    {
        reveal(AppModel::closing);
        if index >= self.terminals.list.len() {
            return false;
        }
        let last = self.terminals.list.len() == 1;
        let active = index == self.terminals.active;
        let shown = active && self.terminals.presented;
        let tab = self.terminals.list[index];
        if shown {
            self.send_terminal_focus_transition(Some(index), None);
        }
        if !last && tab.has_process && !self.try_schedule_terminal_cleanup(tab.number, worker) {
            if shown {
                self.send_terminal_focus_transition(None, Some(index));
            }
            return false;
        }
        if active {
            self.leave_terminal(index);
        }
        if last {
            self.push_effect(Effect::ShutDown { terminal: tab.number });
        }
        self.remove_terminal(index);
        last
    }

    /// Closes the active tab. Whether it was the last one.
    pub fn close_active_terminal(&mut self, worker: CleanupWorker) -> (exit: bool)
        requires
            old(self)@.wf(),
        ensures
            exit == (old(self)@.terminals.list.len() == 1),
            final(self)@ == old(self)@.closing(old(self)@.terminals.active, worker),
            final(self)@.wf(),
    {
        self.close_terminal_tab_at(self.terminals.active, worker)
    }

    /// Moves a tab.
    pub fn reorder_terminal_tab(&mut self, from: usize, to: usize)
        requires
            old(self)@.wf(),
        ensures
            final(self)@ == old(self)@.reordered(from as int, to as int),
            final(self)@.wf(),
    {
        if from >= self.terminals.list.len() || to >= self.terminals.list.len() || from == to {
            return ;
        }
        self.terminals.reorder(from, to);
        self.mark_dirty();
    }
}

} // verus!
