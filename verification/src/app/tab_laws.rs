//! What holds of the terminals of the application whatever happens to their tabs.
use vstd::prelude::*;

use crate::app;
use crate::app::state;
use crate::app::state::{AppModel, CleanupWorker, Effect, WindowState};
use crate::app::terminals;
use crate::app::terminals::{TerminalTab, TerminalsModel};
use crate::app::PresentationState;
use crate::platform::single_instance::ExternalLaunchRequest;
use crate::tabs;

verus! {

/// Whether a terminal waits to be shown and is ready for it.
pub open spec fn waits_ready(state: PresentationState) -> bool {
    state.intent is ActivateWhenReady && state.ready
}

/// The terminal that is shown next is the first one that waits and is ready; none is where none does.
pub proof fn first_ready_terminal_is_due(states: Seq<PresentationState>)
    ensures
        match app::first_due(states) {
            Some((index, reveal)) => {
                &&& 0 <= index < states.len()
                &&& waits_ready(states[index])
                &&& reveal == states[index].reveal_tail
                &&& forall|i: int| 0 <= i < index ==> !waits_ready(#[trigger] states[i])
            },
            None => forall|i: int| 0 <= i < states.len() ==> !waits_ready(#[trigger] states[i]),
        },
    decreases states.len(),
{
    if states.len() > 0 {
        let rest = states.drop_last();
        first_ready_terminal_is_due(rest);
        assert forall|i: int| 0 <= i < rest.len() implies #[trigger] states[i] == rest[i] by {}
    }
}

/// Whether a tab is the same terminal with another wait.
pub open spec fn same_but_wait(tab: TerminalTab, other: TerminalTab) -> bool {
    &&& tab.number == other.number
    &&& tab.presentation_ready == other.presentation_ready
    &&& tab.closed == other.closed
    &&& tab.has_process == other.has_process
    &&& tab.focus_reporting == other.focus_reporting
}

/// A terminal that is to wait is the only one that waits, and with it the end of the tabs is brought
/// into view where that was asked; nothing else of any terminal changes.
pub proof fn one_terminal_waits(all: TerminalsModel, index: int, reveal_tail: bool, i: int)
    requires
        0 <= index < all.list.len(),
        0 <= i < all.list.len(),
    ensures
        ({
            let waiting = all.waiting(index, reveal_tail);
            let idle = all.idle();
            &&& waiting.list.len() == all.list.len() && idle.list.len() == all.list.len()
            &&& same_but_wait(waiting.list[i], all.list[i])
            &&& same_but_wait(idle.list[i], all.list[i])
            &&& idle.list[i].intent is Idle && !idle.list[i].reveal_right_tail_when_presented
            &&& i == index ==> waiting.list[i].intent is ActivateWhenReady
                && waiting.list[i].reveal_right_tail_when_presented == reveal_tail
            &&& i != index ==> waiting.list[i].intent is Idle
                && !waiting.list[i].reveal_right_tail_when_presented
            &&& waiting == (TerminalsModel { list: waiting.list, ..all })
            &&& idle == (TerminalsModel { list: idle.list, ..all })
        }),
{
}

/// A new terminal comes after the others, with the next number, a process, and nothing yet to be shown;
/// the others stay, and so does the active one.
pub proof fn new_terminal_comes_last(all: TerminalsModel)
    ensures
        ({
            let grown = all.grown();
            let last = grown.list.last();
            &&& grown.list.len() == all.list.len() + 1
            &&& grown.list.drop_last() == all.list
            &&& last.number == all.next_number
            &&& last.has_process && !last.closed && !last.presentation_ready && !last.focus_reporting
            &&& last.intent is Idle && !last.reveal_right_tail_when_presented
            &&& all.next_number < u64::MAX ==> grown.next_number == all.next_number + 1
            &&& grown.active == all.active && grown.presented == all.presented
            &&& grown.cleanup == all.cleanup && grown.drag == all.drag && grown.reveal == all.reveal
        }),
        terminals::none().next_number == 1,
        terminals::none().list.len() == 0,
        !terminals::none().presented,
{
    assert(all.grown().list.drop_last() =~= all.list);
}

/// Without one of the terminals the others stay in their order, and the active one stays active and
/// shown. Where the active one went, the one after it is active, or the one before it where it was the
/// last, and is not shown yet.
pub proof fn removal_keeps_the_others(all: TerminalsModel, index: int)
    requires
        all.wf(),
        0 <= index < all.list.len(),
    ensures
        ({
            let rest = all.without(index);
            &&& rest.list == all.list.remove(index)
            &&& index != all.active ==> rest.list[rest.active] == all.list[all.active]
                && rest.presented == all.presented
            &&& index == all.active ==> !rest.presented
            &&& index == all.active && index + 1 < all.list.len() ==> rest.list[rest.active]
                == all.list[index + 1]
            &&& index == all.active && index + 1 == all.list.len() && index > 0
                ==> rest.list[rest.active] == all.list[index - 1]
            &&& rest.drag is None && rest.reveal is None
            &&& rest.next_number == all.next_number && rest.cleanup == all.cleanup
        }),
{
    tabs::active_tab_survives_removal(all.list, all.active, index);
}

/// A tab that moves stands at its new place, the others stay in their order, and the active terminal
/// stays active.
pub proof fn moving_keeps_the_active_terminal(all: TerminalsModel, from: int, to: int)
    requires
        all.wf(),
        0 <= from < all.list.len(),
        0 <= to < all.list.len(),
    ensures
        ({
            let moved = all.reordered(from, to);
            &&& moved.list[to] == all.list[from]
            &&& moved.list.remove(to) == all.list.remove(from)
            &&& moved.list[moved.active] == all.list[all.active]
            &&& moved.presented == all.presented && moved.reveal == Some(false)
            &&& moved.next_number == all.next_number && moved.cleanup == all.cleanup
            &&& moved.drag == all.drag
        }),
{
    tabs::moving_keeps_the_others_in_order(all.list, from, to);
    tabs::active_tab_survives_move(all.list, all.active, from, to);
}

/// A terminal that is shown is the active one; bringing it into view changes nothing else.
pub proof fn shown_terminal_is_active(all: TerminalsModel, index: int, reveal_tail: bool)
    ensures
        all.showing(index, reveal_tail) == (TerminalsModel {
            active: index,
            presented: true,
            reveal: Some(reveal_tail),
            list: all.list,
            next_number: all.next_number,
            drag: all.drag,
            cleanup: all.cleanup,
        }),
        all.revealing(reveal_tail).reveal == Some(reveal_tail),
        all.revealing(reveal_tail).active == all.active,
        all.revealing(reveal_tail).presented == all.presented,
        all.revealing(reveal_tail).list == all.list,
{
}

/// At most 32 launches wait for the window: one more is kept behind them as long as there are fewer.
pub proof fn thirty_two_launches_wait(
    launches: Seq<ExternalLaunchRequest>,
    request: ExternalLaunchRequest,
)
    ensures
        launches.len() < 32 ==> state::queued(launches, request) == launches.push(request),
        launches.len() >= 32 ==> state::queued(launches, request) == launches,
        state::all_queued(launches, Seq::empty()) == launches,
        state::all_queued(launches, seq![request]) == state::queued(launches, request),
{
    let one = seq![request];
    assert(one.drop_last() =~= Seq::empty());
    assert(state::all_queued(launches, one.drop_last()) == launches);
}

/// A frame can be drawn in a window that is there, has an extent and is not covered, and has the focus
/// or is still owed a frame since it lost it.
pub proof fn frames_need_a_window(window: WindowState)
    ensures
        window.renderable() ==> window.ready && !window.occluded && !window.zero_sized && (window.focused
            || window.unfocused_redraw_pending),
        window.ready && !window.occluded && !window.zero_sized && window.focused
            ==> window.renderable(),
        window.ready && !window.occluded && !window.zero_sized && window.unfocused_redraw_pending
            ==> window.renderable(),
{
}

/// What is to be drawn is noted, and a frame is asked for where there is a window; the settings take the
/// pointer while they are open or can still be seen.
pub proof fn frames_are_asked_of_a_window(app: AppModel, effect: Effect)
    ensures
        app.soiled().window.dirty && app.soiled().effects == app.effects,
        app.framed().window.dirty,
        app.framed().effects == if app.window.ready {
            app.effects.push(Effect::RequestFrame)
        } else {
            app.effects
        },
        app.framed() == (AppModel {
            window: WindowState { dirty: true, ..app.window },
            effects: app.framed().effects,
            ..app
        }),
        app.doing(effect).effects == app.effects.push(effect),
        app.doing(effect) == (AppModel { effects: app.effects.push(effect), ..app }),
        app.modal() == (app.settings.open || app.window.settings_visible),
{
}

/// Whether a terminal with an index is there and asked to be told of its focus.
pub open spec fn listens(app: AppModel, index: Option<int>) -> bool {
    match index {
        Some(index) => 0 <= index < app.terminals.list.len()
            && app.terminals.list[index].focus_reporting,
        None => false,
    }
}

/// What is told when the focus goes from one terminal to another: the first that it lost it, then the
/// second that it has it, as far as they asked for it.
pub open spec fn focus_effects(app: AppModel, old_index: Option<int>, new_index: Option<int>) -> Seq<
    Effect,
> {
    let lost = if listens(app, old_index) {
        seq![
            Effect::ReportFocus {
                terminal: app.terminals.list[old_index->0].number,
                focused: false,
            },
        ]
    } else {
        Seq::empty()
    };
    let gained = if listens(app, new_index) {
        seq![
            Effect::ReportFocus {
                terminal: app.terminals.list[new_index->0].number,
                focused: true,
            },
        ]
    } else {
        Seq::empty()
    };
    lost + gained
}

/// When the focus moves in a window that has it, the terminal that lost it is told before the one that
/// has it; a window without the focus tells nothing, and nothing is told where it stays.
pub proof fn focus_is_told_in_order(app: AppModel, old_index: Option<int>, new_index: Option<int>)
    ensures
        app.focus_moved(old_index, new_index) == (AppModel {
            effects: if app.window.focused && old_index != new_index {
                app.effects + focus_effects(app, old_index, new_index)
            } else {
                app.effects
            },
            ..app
        }),
{
    reveal(AppModel::focus_moved);
    reveal(AppModel::told);
    let told = focus_effects(app, old_index, new_index);
    assert(app.effects + told =~= app.focus_moved(old_index, new_index).effects || !(
    app.window.focused && old_index != new_index));
}

/// A terminal that is left has its search closed and the pointer let go, and its selection goes with a
/// search that was shown.
pub proof fn leaving_closes_the_search(app: AppModel, index: int)
    ensures
        ({
            let left = app.left(index);
            &&& left.ui.search == app.ui.search.closed()
            &&& left.ui.buttons == 0 && left.ui.capture is Free && left.ui.anchor is None
            &&& left.ui.modifiers == app.ui.modifiers
            &&& left.effects == if app.ui.search.shown {
                app.effects.push(
                    Effect::ClearSelection { terminal: app.terminals.list[index].number },
                )
            } else {
                app.effects
            }
            &&& left == (AppModel { ui: left.ui, effects: left.effects, ..app })
        }),
{
    reveal(AppModel::left);
}

/// Showing a terminal makes it the active one: what was done in the one before it ends, then both are
/// told of the focus. The terminal that is active stays as it is, and only hears of the focus where it
/// was not shown.
pub proof fn shown_terminal_takes_over(app: AppModel, index: int, reveal_tail: bool)
    requires
        app.wf(),
        0 <= index < app.terminals.list.len(),
    ensures
        ({
            let after = app.activated(index, reveal_tail);
            let before = if app.terminals.presented {
                Some(app.terminals.active)
            } else {
                None
            };
            let told = if app.window.focused && before != Some(index) {
                focus_effects(app, before, Some(index))
            } else {
                Seq::empty()
            };
            let leaves = index != app.terminals.active;
            let cleared = if leaves && app.ui.search.shown {
                seq![
                    Effect::ClearSelection {
                        terminal: app.terminals.list[app.terminals.active].number,
                    },
                ]
            } else {
                Seq::empty()
            };
            &&& after.terminals.active == index && after.terminals.presented
            &&& after.terminals.reveal == Some(reveal_tail)
            &&& after.terminals.list == app.terminals.list
            &&& after.window.dirty
            &&& !leaves ==> after.ui == app.ui
            &&& leaves ==> !after.ui.search.shown && after.ui.capture is Free && after.ui.buttons == 0
            &&& after.effects == app.effects + cleared + told
            &&& after.launches == app.launches && after.settings == app.settings
        }),
        app.activated(app.terminals.list.len() as int, reveal_tail) == app,
{
    reveal(AppModel::activated);
    reveal(AppModel::handed_over);
    let before = if app.terminals.presented {
        Some(app.terminals.active)
    } else {
        None
    };
    if index != app.terminals.active {
        leaving_closes_the_search(app, app.terminals.active);
        focus_is_told_in_order(app.left(app.terminals.active), before, Some(index));
    } else {
        focus_is_told_in_order(app, before, Some(index));
    }
    assert(app.activated(index, reveal_tail).effects =~= app.effects + (if index
        != app.terminals.active && app.ui.search.shown {
        seq![
            Effect::ClearSelection { terminal: app.terminals.list[app.terminals.active].number },
        ]
    } else {
        Seq::empty()
    }) + (if app.window.focused && before != Some(index) {
        focus_effects(app, before, Some(index))
    } else {
        Seq::empty()
    }));
}

/// A terminal that is asked for and ready is shown at once, and none waits any more; the tabs are then
/// brought into view with their end or without, as was asked.
pub proof fn ready_terminal_is_shown_at_once(app: AppModel, index: int, reveal_tail: bool)
    requires
        app.wf(),
        0 <= index < app.terminals.list.len(),
        app.terminals.list[index].presentation_ready,
    ensures
        ({
            let after = app.asked(index, reveal_tail);
            &&& after.terminals.active == index && after.terminals.presented
            &&& after.terminals.reveal == Some(reveal_tail)
            &&& forall|i: int|
                0 <= i < app.terminals.list.len() ==> (#[trigger] after.terminals.list[i]).intent is Idle
                    && same_but_wait(after.terminals.list[i], app.terminals.list[i])
        }),
{
    reveal(AppModel::asked);
    reveal(AppModel::presenting);
    let waiting = AppModel { terminals: app.terminals.waiting(index, reveal_tail), ..app };
    let states = waiting.terminals.list.map_values(
        |tab: TerminalTab| terminals::presentation_state(tab),
    );
    assert forall|i: int| 0 <= i < states.len() implies waits_ready(#[trigger] states[i]) == (i
        == index) by {
        one_terminal_waits(app.terminals, index, reveal_tail, i);
    }
    one_terminal_waits(app.terminals, index, reveal_tail, index);
    assert(waits_ready(states[index]));
    first_ready_terminal_is_due(states);
    assert(app::first_due(states) == Some((index, reveal_tail)));
    let idle = AppModel { terminals: waiting.terminals.idle(), ..waiting };
    shown_terminal_takes_over(idle, index, reveal_tail);
    let after = app.asked(index, reveal_tail);
    assert(after.terminals.list == idle.terminals.list);
    assert forall|i: int| 0 <= i < app.terminals.list.len() implies (
    #[trigger] after.terminals.list[i]).intent is Idle && same_but_wait(
        after.terminals.list[i],
        app.terminals.list[i],
    ) by {
        one_terminal_waits(app.terminals, index, reveal_tail, i);
        one_terminal_waits(waiting.terminals, index, reveal_tail, i);
    }
}

/// A terminal is added only where there is a window: it comes last, its process is started under its
/// number, it alone waits to be shown with the end of the tabs, and a frame is asked for.
pub proof fn added_terminal_is_started(app: AppModel)
    requires
        app.wf(),
    ensures
        !app.window.ready ==> app.added() == app,
        app.window.ready ==> {
            let after = app.added();
            let last = after.terminals.list.last();
            &&& after.terminals.list.len() == app.terminals.list.len() + 1
            &&& last.number == app.terminals.next_number
            &&& last.intent is ActivateWhenReady && last.reveal_right_tail_when_presented
            &&& after.terminals.active == app.terminals.active
            &&& after.terminals.presented == app.terminals.presented
            &&& after.effects == app.effects.push(
                Effect::SpawnTerminal { terminal: app.terminals.next_number },
            ).push(Effect::RequestFrame)
            &&& app.terminals.next_number < u64::MAX ==> after.terminals.next_number
                == app.terminals.next_number + 1
        },
{
    if app.window.ready {
        let grown = AppModel { terminals: app.terminals.grown(), ..app }.doing(
            Effect::SpawnTerminal { terminal: app.terminals.next_number },
        );
        let index = app.terminals.list.len() as int;
        reveal(AppModel::asked);
        reveal(AppModel::presenting);
        let waiting = AppModel { terminals: grown.terminals.waiting(index, true), ..grown };
        let states = waiting.terminals.list.map_values(
            |tab: TerminalTab| terminals::presentation_state(tab),
        );
        assert forall|i: int| 0 <= i < states.len() implies !waits_ready(#[trigger] states[i]) by {
            one_terminal_waits(grown.terminals, index, true, i);
        }
        first_ready_terminal_is_due(states);
        one_terminal_waits(grown.terminals, index, true, index);
        assert(grown.asked(index, true) == waiting);
    }
}

/// A process can be handed on where the worker takes one more, or is busy and fewer than 16 wait; not
/// without a worker. A busy worker leaves it waiting behind the others, one that takes more gets it.
pub proof fn sixteen_processes_wait(app: AppModel, terminal: u64)
    ensures
        app.can_end(CleanupWorker::Accepting),
        app.can_end(CleanupWorker::Full) == (app.terminals.cleanup.len() < 16),
        !app.can_end(CleanupWorker::Unavailable),
        app.ending(terminal, CleanupWorker::Full).terminals.cleanup == app.terminals.cleanup.push(
            terminal,
        ),
        app.ending(terminal, CleanupWorker::Full).effects == app.effects,
        app.ending(terminal, CleanupWorker::Full).terminals.list == app.terminals.list,
        app.ending(terminal, CleanupWorker::Accepting) == app.doing(
            Effect::EnqueueCleanup { terminal },
        ),
        app.ending(terminal, CleanupWorker::Unavailable) == app,
{
    reveal(AppModel::ending);
}

/// A tab is held back only where it is not the last one, has a process, and that cannot be handed on.
pub proof fn last_tab_is_not_held_back(app: AppModel, index: int, worker: CleanupWorker)
    ensures
        app.terminals.list.len() <= 1 ==> !app.held_back(index, worker),
        !app.terminals.list[index].has_process ==> !app.held_back(index, worker),
        app.can_end(worker) ==> !app.held_back(index, worker),
        app.terminals.list.len() > 1 && app.terminals.list[index].has_process && !app.can_end(worker)
            ==> app.held_back(index, worker),
{
}

/// Whether among the effects from an index on there is one.
pub open spec fn does(app: AppModel, from: int, effect: Effect) -> bool {
    exists|i: int| from <= i < app.effects.len() && #[trigger] app.effects[i] == effect
}

/// Closing the last tab ends its process and waits for it, and no terminal is left.
pub proof fn closing_the_last_tab_shuts_down(app: AppModel, worker: CleanupWorker)
    requires
        app.wf(),
        app.terminals.list.len() == 1,
    ensures
        ({
            let after = app.closing(0, worker);
            &&& after.terminals.list.len() == 0
            &&& does(
                after,
                app.effects.len() as int,
                Effect::ShutDown { terminal: app.terminals.list[0].number },
            )
            &&& !after.ui.search.shown && after.ui.capture is Free
        }),
{
    reveal(AppModel::closing);
    reveal(AppModel::without);
    let told = if app.terminals.presented {
        app.focus_moved(Some(0), None)
    } else {
        app
    };
    focus_is_told_in_order(app, Some(0), None);
    leaving_closes_the_search(told, 0);
    let after = app.closing(0, worker);
    let left = told.left(0);
    assert(after.effects == left.effects.push(
        Effect::ShutDown { terminal: app.terminals.list[0].number },
    ));
    assert(after.effects[left.effects.len() as int] == Effect::ShutDown {
        terminal: app.terminals.list[0].number,
    });
}

/// Closing a tab that is not the active one leaves the active terminal active and shown and the other
/// tabs in their order; its process is handed on.
pub proof fn closing_another_tab_keeps_the_active_one(
    app: AppModel,
    index: int,
    worker: CleanupWorker,
)
    requires
        app.wf(),
        0 <= index < app.terminals.list.len(),
        index != app.terminals.active,
        !app.held_back(index, worker),
    ensures
        ({
            let after = app.closing(index, worker);
            &&& after.terminals.list == app.terminals.list.remove(index)
            &&& after.terminals.list[after.terminals.active]
                == app.terminals.list[app.terminals.active]
            &&& after.terminals.presented == app.terminals.presented
            &&& after.terminals.reveal == Some(false) && after.window.dirty
            &&& after.ui == app.ui
            &&& app.terminals.list[index].has_process && worker is Accepting ==> does(
                after,
                app.effects.len() as int,
                Effect::EnqueueCleanup { terminal: app.terminals.list[index].number },
            )
            &&& app.terminals.list[index].has_process && worker is Full
                ==> after.terminals.cleanup == app.terminals.cleanup.push(
                app.terminals.list[index].number,
            )
        }),
{
    reveal(AppModel::closing);
    reveal(AppModel::without);
    reveal(AppModel::ending);
    removal_keeps_the_others(app.terminals, index);
    let after = app.closing(index, worker);
    if app.terminals.list[index].has_process && worker is Accepting {
        assert(after.effects[app.effects.len() as int] == Effect::EnqueueCleanup {
            terminal: app.terminals.list[index].number,
        });
    }
}

/// Whether the neighbour of the terminal that was active is active in its place: the one after it, or
/// the one before it where it was the last; it is shown where it is ready, and waits otherwise. It is
/// brought into view without the end of the tabs.
pub open spec fn neighbour_follows(before: TerminalsModel, after: TerminalsModel) -> bool {
    let index = before.active;
    let next = if index + 1 < before.list.len() {
        before.list[index + 1]
    } else {
        before.list[index - 1]
    };
    let now = after.list[after.active];
    &&& after.list.len() == before.list.len() - 1
    &&& same_but_wait(now, next)
    &&& after.presented == next.presentation_ready
    &&& !next.presentation_ready ==> now.intent is ActivateWhenReady
        && !now.reveal_right_tail_when_presented
    &&& after.reveal == Some(false)
}

proof fn removal_shows_the_neighbour(app: AppModel)
    requires
        app.wf(),
        app.terminals.list.len() > 1,
    ensures
        neighbour_follows(app.terminals, app.without(app.terminals.active).terminals),
        app.ui.capture is Free && app.ui.buttons == 0 && !app.ui.search.shown ==> {
            let after = app.without(app.terminals.active);
            after.ui.capture is Free && after.ui.buttons == 0 && !after.ui.search.shown
        },
{
    reveal(AppModel::without);
    let index = app.terminals.active;
    removal_keeps_the_others(app.terminals, index);
    let rest = AppModel { terminals: app.terminals.without(index), ..app };
    let active = rest.terminals.active;
    tabs::active_tab_survives_removal(app.terminals.list, index, index);
    assert(rest.wf());
    if rest.terminals.list[active].presentation_ready {
        shown_terminal_takes_over(rest, active, false);
    } else {
        one_terminal_waits(rest.terminals, active, false, active);
    }
}

/// Closing the active tab makes the one after it active, or the one before it where it was the last; it
/// is shown where it is ready, and waits otherwise.
pub proof fn closing_the_active_tab_shows_its_neighbour(app: AppModel, worker: CleanupWorker)
    requires
        app.wf(),
        app.terminals.list.len() > 1,
        !app.held_back(app.terminals.active, worker),
    ensures
        ({
            let after = app.closing(app.terminals.active, worker);
            &&& neighbour_follows(app.terminals, after.terminals)
            &&& !after.ui.search.shown && after.ui.capture is Free && after.ui.buttons == 0
        }),
{
    let index = app.terminals.active;
    focus_is_told_in_order(app, Some(index), None);
    let told = if app.terminals.presented {
        app.focus_moved(Some(index), None)
    } else {
        app
    };
    let ended = if app.terminals.list[index].has_process {
        told.ending(app.number(index), worker)
    } else {
        told
    };
    assert(app.terminals.list[index].has_process ==> app.can_end(worker));
    assert(ended.terminals.list == app.terminals.list && ended.terminals.active == index
        && ended.terminals.wf() && ended.settings == app.settings && ended.launches == app.launches
        && ended.ui == app.ui) by {
        reveal(AppModel::ending);
    }
    leaving_closes_the_search(ended, index);
    let left = ended.left(index);
    assert(app.closing(index, worker) == left.without(index)) by {
        reveal(AppModel::closing);
    }
    assert(left.wf());
    removal_shows_the_neighbour(left);
}

/// Moving a tab to another place keeps the active terminal; a place that is not there, and its own,
/// change nothing.
pub proof fn tabs_move_within_the_list(app: AppModel, from: int, to: int)
    requires
        app.wf(),
        0 <= from,
        0 <= to,
    ensures
        from >= app.terminals.list.len() || to >= app.terminals.list.len() || from == to
            ==> app.reordered(from, to) == app,
        from < app.terminals.list.len() && to < app.terminals.list.len() && from != to ==> {
            let after = app.reordered(from, to);
            &&& after.terminals.list[to] == app.terminals.list[from]
            &&& after.terminals.list.remove(to) == app.terminals.list.remove(from)
            &&& after.terminals.list[after.terminals.active]
                == app.terminals.list[app.terminals.active]
            &&& after.window.dirty && after.effects == app.effects
        },
{
    if from < app.terminals.list.len() && to < app.terminals.list.len() {
        moving_keeps_the_active_terminal(app.terminals, from, to);
    }
}

} // verus!
