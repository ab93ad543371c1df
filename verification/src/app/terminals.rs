//! The terminals of the application, in the order of their tabs.
use std::collections::VecDeque;
use vstd::prelude::*;

use crate::app;
use crate::app::{PresentationState, TerminalPresentationIntent};
use crate::tabs;

verus! {

/// How many processes wait to be ended, at most.
pub const TERMINAL_CLEANUP_PENDING_CAPACITY: usize = 16;

/// A terminal in its tab.
#[derive(Clone, Copy, Debug, PartialEq, Eq, Structural)]
pub struct TerminalTab {
    /// The number that the terminal was created with.
    pub number: u64,
    /// Whether it waits to be shown.
    pub intent: TerminalPresentationIntent,
    /// Whether the end of the tabs is brought into view with it.
    pub reveal_right_tail_when_presented: bool,
    /// Whether it is ready to be shown.
    pub presentation_ready: bool,
    /// Whether its program has ended.
    pub closed: bool,
    /// Whether there is a process to be ended with it.
    pub has_process: bool,
    /// Whether it asked to be told of its focus.
    pub focus_reporting: bool,
}

/// A tab that is dragged.
#[derive(Clone, Copy, Debug, PartialEq, Eq, Structural)]
pub struct TabDrag {
    /// The index of the tab.
    pub start_idx: usize,
    /// Whether it was moved far enough to be more than a click.
    pub threshold_passed: bool,
}

/// The terminals of the application.
pub struct Terminals {
    /// The terminals, in the order of their tabs.
    pub list: Vec<TerminalTab>,
    /// The index of the active terminal.
    pub active: usize,
    /// Whether the active terminal is shown.
    pub presented: bool,
    /// The number of the next terminal.
    pub next_number: u64,
    /// The tab that is dragged.
    pub drag: Option<TabDrag>,
    /// Whether the active tab, with or without the end of the tabs, is to be brought into view.
    pub reveal: Option<bool>,
    /// The terminals whose processes wait to be ended.
    pub cleanup: VecDeque<u64>,
}

/// The contents of the terminals.
pub struct TerminalsModel {
    pub list: Seq<TerminalTab>,
    pub active: int,
    pub presented: bool,
    pub next_number: u64,
    pub drag: Option<TabDrag>,
    pub reveal: Option<bool>,
    pub cleanup: Seq<u64>,
}

impl View for Terminals {
    type V = TerminalsModel;

    open spec fn view(&self) -> TerminalsModel {
        TerminalsModel {
            list: self.list@,
            active: self.active as int,
            presented: self.presented,
            next_number: self.next_number,
            drag: self.drag,
            reveal: self.reveal,
            cleanup: self.cleanup@,
        }
    }
}

/// A terminal that does not wait to be shown.
pub open spec fn idle_tab(tab: TerminalTab) -> TerminalTab {
    TerminalTab {
        intent: TerminalPresentationIntent::Idle,
        reveal_right_tail_when_presented: false,
        ..tab
    }
}

/// A terminal that waits to be shown.
pub open spec fn waiting_tab(tab: TerminalTab, reveal_tail: bool) -> TerminalTab {
    TerminalTab {
        intent: TerminalPresentationIntent::ActivateWhenReady,
        reveal_right_tail_when_presented: reveal_tail,
        ..tab
    }
}

/// A terminal that was just created.
pub open spec fn new_tab(number: u64) -> TerminalTab {
    TerminalTab {
        number,
        intent: TerminalPresentationIntent::Idle,
        reveal_right_tail_when_presented: false,
        presentation_ready: false,
        closed: false,
        has_process: true,
        focus_reporting: false,
    }
}

/// What decides whether a terminal is shown.
pub open spec fn presentation_state(tab: TerminalTab) -> PresentationState {
    PresentationState {
        intent: tab.intent,
        ready: tab.presentation_ready,
        reveal_tail: tab.reveal_right_tail_when_presented,
    }
}

impl TerminalsModel {
    /// Whether one of the terminals is active where there are any, and no more processes wait than may.
    pub open spec fn wf(self) -> bool {
        &&& 0 <= self.active
        &&& self.list.len() > 0 ==> self.active < self.list.len()
        &&& self.list.len() == 0 ==> self.active == 0
        &&& self.cleanup.len() <= TERMINAL_CLEANUP_PENDING_CAPACITY
    }

    /// The terminals when none waits to be shown.
    pub open spec fn idle(self) -> TerminalsModel {
        TerminalsModel { list: self.list.map_values(|tab: TerminalTab| idle_tab(tab)), ..self }
    }

    /// The terminals when one waits to be shown, and no other.
    pub open spec fn waiting(self, index: int, reveal_tail: bool) -> TerminalsModel {
        let idle = self.idle();
        TerminalsModel {
            list: idle.list.update(index, waiting_tab(idle.list[index], reveal_tail)),
            ..idle
        }
    }

    /// The terminal that is to be shown now, and whether the end of the tabs is brought into view with
    /// it.
    pub open spec fn due(self) -> Option<(int, bool)> {
        app::first_due(self.list.map_values(|tab: TerminalTab| presentation_state(tab)))
    }

    /// The terminals when one is shown.
    pub open spec fn showing(self, index: int, reveal_tail: bool) -> TerminalsModel {
        TerminalsModel { active: index, presented: true, reveal: Some(reveal_tail), ..self }
    }

    /// The terminals when the active tab is to be brought into view.
    pub open spec fn revealing(self, reveal_tail: bool) -> TerminalsModel {
        TerminalsModel { reveal: Some(reveal_tail), ..self }
    }

    /// The terminals with one more.
    pub open spec fn grown(self) -> TerminalsModel {
        TerminalsModel {
            list: self.list.push(new_tab(self.next_number)),
            next_number: tabs::number_after(self.next_number),
            ..self
        }
    }

    /// The terminals without one of them. Where it was the active one, the one that is active now is
    /// not shown yet.
    pub open spec fn without(self, index: int) -> TerminalsModel {
        let list = self.list.remove(index);
        TerminalsModel {
            list,
            active: tabs::place_after_remove(self.active, index, list.len() as int),
            presented: self.presented && index != self.active,
            drag: None,
            reveal: None,
            ..self
        }
    }

    /// The terminals when a tab moved.
    pub open spec fn reordered(self, from: int, to: int) -> TerminalsModel {
        TerminalsModel {
            list: tabs::moved(self.list, from, to),
            active: tabs::place_after_move(self.active, from, to),
            reveal: Some(false),
            ..self
        }
    }

    /// Whether there is a terminal with an index, and it asked to be told of its focus.
    pub open spec fn reports(self, index: Option<int>) -> bool {
        match index {
            Some(index) => 0 <= index < self.list.len() && self.list[index].focus_reporting,
            None => false,
        }
    }
}

/// No terminals. The first one gets the number one.
pub open spec fn none() -> TerminalsModel {
    TerminalsModel {
        list: Seq::empty(),
        active: 0,
        presented: false,
        next_number: 1,
        drag: None,
        reveal: None,
        cleanup: Seq::empty(),
    }
}

impl Terminals {
    /// No terminals.
    pub fn new() -> (terminals: Self)
        ensures
            terminals@ == none(),
    {
        Terminals {
            list: Vec::new(),
            active: 0,
            presented: false,
            next_number: 1,
            drag: None,
            reveal: None,
            cleanup: VecDeque::new(),
        }
    }

    /// No terminal waits to be shown any more.
    pub fn cancel_presentation_intents(&mut self)
        ensures
            final(self)@ == old(self)@.idle(),
    {
        let ghost before = self@;
        let mut i: usize = 0;
        while i < self.list.len()
            invariant
                i <= self.list@.len() == before.list.len(),
                self@ == (TerminalsModel { list: self.list@, ..before }),
                forall|j: int| 0 <= j < i ==> (#[trigger] self.list@[j]) == idle_tab(before.list[j]),
                forall|j: int|
                    i <= j < self.list@.len() ==> (#[trigger] self.list@[j]) == before.list[j],
            decreases self.list@.len() - i,
        {
            let mut tab = self.list[i];
            tab.intent = TerminalPresentationIntent::Idle;
            tab.reveal_right_tail_when_presented = false;
            self.list.set(i, tab);
            i += 1;
        }
        assert(self.list@ =~= before.idle().list);
    }

    /// Lets a terminal wait to be shown, and no other.
    pub fn wait_for(&mut self, index: usize, reveal_tail: bool)
        requires
            index < old(self)@.list.len(),
        ensures
            final(self)@ == old(self)@.waiting(index as int, reveal_tail),
    {
        self.cancel_presentation_intents();
        let mut tab = self.list[index];
        tab.intent = TerminalPresentationIntent::ActivateWhenReady;
        tab.reveal_right_tail_when_presented = reveal_tail;
        self.list.set(index, tab);
    }

    /// The terminal that is to be shown now, and whether the end of the tabs is brought into view with
    /// it.
    pub fn due_terminal(&self) -> (due: Option<(usize, bool)>)
        ensures
            match self@.due() {
                Some((index, reveal_tail)) => {
                    &&& due matches Some((at, tail))
                    &&& at == index
                    &&& tail == reveal_tail
                    &&& at < self@.list.len()
                },
                None => due is None,
            },
    {
        let ghost expected = self.list@.map_values(|tab: TerminalTab| presentation_state(tab));
        let mut states: Vec<PresentationState> = Vec::new();
        let mut i: usize = 0;
        while i < self.list.len()
            invariant
                i <= self.list@.len(),
                expected == self.list@.map_values(|tab: TerminalTab| presentation_state(tab)),
                states@ == expected.take(i as int),
            decreases self.list@.len() - i,
        {
            let tab = self.list[i];
            states.push(
                PresentationState {
                    intent: tab.intent,
                    ready: tab.presentation_ready,
                    reveal_tail: tab.reveal_right_tail_when_presented,
                },
            );
            i += 1;
            assert(states@ =~= expected.take(i as int));
        }
        assert(states@ =~= expected);
        app::ready_terminal_presentation(states.as_slice())
    }

    /// Shows a terminal.
    pub fn show(&mut self, index: usize, reveal_tail: bool)
        ensures
            final(self)@ == old(self)@.showing(index as int, reveal_tail),
    {
        self.active = index;
        self.presented = true;
        self.reveal = Some(reveal_tail);
    }

    /// Brings the active tab into view with the next frame.
    pub fn reveal_active(&mut self, reveal_tail: bool)
        ensures
            final(self)@ == old(self)@.revealing(reveal_tail),
    {
        self.reveal = Some(reveal_tail);
    }

    /// Adds a terminal. Its number.
    pub fn add(&mut self) -> (number: u64)
        ensures
            final(self)@ == old(self)@.grown(),
            number == old(self)@.next_number,
    {
        let number: u64 = tabs::take_terminal_creation_number(&mut self.next_number);
        self.list.push(
            TerminalTab {
                number,
                intent: TerminalPresentationIntent::Idle,
                reveal_right_tail_when_presented: false,
                presentation_ready: false,
                closed: false,
                has_process: true,
                focus_reporting: false,
            },
        );
        number
    }

    /// Takes a terminal away.
    pub fn remove(&mut self, index: usize)
        requires
            old(self)@.wf(),
            index < old(self)@.list.len(),
        ensures
            final(self)@ == old(self)@.without(index as int),
            final(self)@.wf(),
    {
        let before: usize = self.active;
        if index == before {
            self.presented = false;
        }
        self.list.remove(index);
        self.drag = None;
        self.reveal = None;
        self.active = tabs::active_index_after_remove(before, index, self.list.len());
    }

    /// Moves a tab.
    pub fn reorder(&mut self, from: usize, to: usize)
        requires
            old(self)@.wf(),
            from < old(self)@.list.len(),
            to < old(self)@.list.len(),
        ensures
            final(self)@ == old(self)@.reordered(from as int, to as int),
            final(self)@.wf(),
    {
        let tab = self.list.remove(from);
        self.list.insert(to, tab);
        self.active = tabs::active_index_after_move(self.active, from, to);
        self.reveal = Some(false);
    }

    /// The first terminal whose process waits to be ended.
    pub fn next_pending_cleanup(&self) -> (terminal: Option<u64>)
        ensures
            terminal == if self@.cleanup.len() > 0 {
                Some(self@.cleanup[0])
            } else {
                None
            },
    {
        if self.cleanup.len() > 0 {
            Some(self.cleanup[0])
        } else {
            None
        }
    }

    /// The first process that waited was taken to be ended.
    pub fn pending_cleanup_taken(&mut self)
        requires
            old(self)@.wf(),
            old(self)@.cleanup.len() > 0,
        ensures
            final(self)@ == (TerminalsModel { cleanup: old(self)@.cleanup.skip(1), ..old(self)@ }),
            final(self)@.wf(),
    {
        let ghost before = self.cleanup@;
        self.cleanup.pop_front();
        assert(self.cleanup@ =~= before.skip(1));
    }

    /// The last terminal before an index whose program has ended.
    pub fn closed_before(&self, end: usize) -> (found: Option<usize>)
        requires
            end <= self@.list.len(),
        ensures
            match found {
                Some(found) => {
                    &&& found < end
                    &&& self@.list[found as int].closed
                    &&& forall|i: int| found < i < end ==> !(#[trigger] self@.list[i]).closed
                },
                None => forall|i: int| 0 <= i < end ==> !(#[trigger] self@.list[i]).closed,
            },
    {
        let mut index: usize = end;
        while index > 0
            invariant
                index <= end <= self.list@.len(),
                forall|i: int| index <= i < end ==> !(#[trigger] self@.list[i]).closed,
            decreases index,
        {
            index -= 1;
            if self.list[index].closed {
                return Some(index);
            }
        }
        None
    }
}

} // verus!
