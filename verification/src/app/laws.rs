//! What holds of the application whatever happens to it.
use vstd::prelude::*;

use crate::app;
use crate::app::events;
use crate::app::pointer_events;
use crate::app::pointer_events::PointerPress;
use crate::app::state;
use crate::app::state::{AppModel, CleanupWorker, PENDING_EXTERNAL_LAUNCH_CAPACITY};
use crate::app::terminals;
use crate::app::terminals::TerminalTab;
use crate::app::AppLoopControl;
use crate::input_types::{KeyInput, Modifiers};
use crate::interaction;
use crate::platform::single_instance::ExternalLaunchRequest;
use crate::terminal::TermGrid;

verus! {

/// A terminal that is not ready leaves the one that is shown in its place, and is the only one that
/// waits.
pub proof fn shown_terminal_stays_until_next_is_ready(before: AppModel, index: int, reveal_tail: bool)
    requires
        before.wf(),
        0 <= index < before.terminals.list.len(),
        !before.terminals.list[index].presentation_ready,
    ensures
        ({
            let after = before.asked(index, reveal_tail);
            &&& after.terminals.active == before.terminals.active
            &&& after.terminals.presented == before.terminals.presented
            &&& after.terminals.list[index].intent is ActivateWhenReady
            &&& forall|i: int|
                0 <= i < before.terminals.list.len() && i != index ==> (
                #[trigger] after.terminals.list[i]).intent is Idle
            &&& after.effects == before.effects
        }),
{
    reveal(AppModel::asked);
    reveal(AppModel::presenting);
    nothing_is_due(before.terminals.waiting(index, reveal_tail).list);
}

/// Launches that wait for the window are kept whole and in the order in which they came, as many as
/// may wait; those that come later are let go.
pub proof fn waiting_launches_keep_their_order(
    launches: Seq<ExternalLaunchRequest>,
    requests: Seq<ExternalLaunchRequest>,
)
    requires
        launches.len() <= PENDING_EXTERNAL_LAUNCH_CAPACITY,
    ensures
        state::all_queued(launches, requests) == if launches.len() + requests.len()
            <= PENDING_EXTERNAL_LAUNCH_CAPACITY {
            launches + requests
        } else {
            (launches + requests).take(PENDING_EXTERNAL_LAUNCH_CAPACITY as int)
        },
    decreases requests.len(),
{
    let all = launches + requests;
    if requests.len() == 0 {
        assert(all =~= launches);
    } else {
        waiting_launches_keep_their_order(launches, requests.drop_last());
        let shorter = launches + requests.drop_last();
        assert(shorter =~= all.drop_last());
        if all.len() <= PENDING_EXTERNAL_LAUNCH_CAPACITY {
            assert(shorter.push(requests.last()) =~= all);
        } else {
            assert(shorter.take(PENDING_EXTERNAL_LAUNCH_CAPACITY as int) =~= all.take(
                PENDING_EXTERNAL_LAUNCH_CAPACITY as int,
            ));
            if shorter.len() == PENDING_EXTERNAL_LAUNCH_CAPACITY {
                assert(shorter =~= shorter.take(PENDING_EXTERNAL_LAUNCH_CAPACITY as int));
            }
        }
    }
}

/// Among terminals that are not both waiting and ready, none is due.
proof fn nothing_is_due(list: Seq<TerminalTab>)
    requires
        forall|i: int|
            0 <= i < list.len() ==> !app::is_due(
                terminals::presentation_state(#[trigger] list[i]),
            ),
    ensures
        app::first_due(list.map_values(|tab: TerminalTab| terminals::presentation_state(tab))) is None,
    decreases list.len(),
{
    let states = list.map_values(|tab: TerminalTab| terminals::presentation_state(tab));
    if list.len() > 0 {
        nothing_is_due(list.drop_last());
        assert(states.drop_last() =~= list.drop_last().map_values(
            |tab: TerminalTab| terminals::presentation_state(tab),
        ));
        assert(states.last() == terminals::presentation_state(list.last()));
    }
}

proof fn told_shuts_nothing_down(before: AppModel, index: Option<int>, focused: bool, i: int)
    ensures
        before.effects.is_prefix_of(before.told(index, focused).effects),
        before.effects.len() <= i < before.told(index, focused).effects.len() ==> !(before.told(
            index,
            focused,
        ).effects[i] is ShutDown),
        before.told(index, focused) == (AppModel {
            effects: before.told(index, focused).effects,
            ..before
        }),
{
    reveal(AppModel::told);
}

proof fn focus_shuts_nothing_down(before: AppModel, old_index: Option<int>, new_index: Option<int>, i: int)
    ensures
        before.effects.is_prefix_of(before.focus_moved(old_index, new_index).effects),
        before.effects.len() <= i < before.focus_moved(old_index, new_index).effects.len() ==> !(
        before.focus_moved(old_index, new_index).effects[i] is ShutDown),
        before.focus_moved(old_index, new_index) == (AppModel {
            effects: before.focus_moved(old_index, new_index).effects,
            ..before
        }),
{
    reveal(AppModel::focus_moved);
    told_shuts_nothing_down(before, old_index, false, i);
    told_shuts_nothing_down(before.told(old_index, false), new_index, true, i);
}

proof fn leaving_shuts_nothing_down(before: AppModel, index: int, i: int)
    ensures
        before.effects.is_prefix_of(before.left(index).effects),
        before.effects.len() <= i < before.left(index).effects.len() ==> !(before.left(
            index,
        ).effects[i] is ShutDown),
        before.left(index).terminals == before.terminals,
        before.left(index).window == before.window,
{
    reveal(AppModel::left);
}

proof fn activation_shuts_nothing_down(before: AppModel, index: int, reveal_tail: bool, i: int)
    ensures
        before.effects.is_prefix_of(before.activated(index, reveal_tail).effects),
        before.effects.len() <= i < before.activated(index, reveal_tail).effects.len() ==> !(
        before.activated(index, reveal_tail).effects[i] is ShutDown),
        before.activated(index, reveal_tail).window.ready == before.window.ready,
{
    reveal(AppModel::activated);
    reveal(AppModel::handed_over);
    let shown = if before.terminals.presented {
        Some(before.terminals.active)
    } else {
        None
    };
    let left = before.left(before.terminals.active);
    leaving_shuts_nothing_down(before, before.terminals.active, i);
    focus_shuts_nothing_down(left, shown, Some(index), i);
    focus_shuts_nothing_down(before, shown, Some(index), i);
}

proof fn removal_shuts_nothing_down(before: AppModel, index: int, i: int)
    ensures
        before.effects.is_prefix_of(before.without(index).effects),
        before.effects.len() <= i < before.without(index).effects.len() ==> !(before.without(
            index,
        ).effects[i] is ShutDown),
{
    reveal(AppModel::without);
    let rest = AppModel { terminals: before.terminals.without(index), ..before };
    activation_shuts_nothing_down(rest, rest.terminals.active, false, i);
}

/// To close a tab that is not the last waits for no process: nothing is shut down, the process is only
/// handed on.
pub proof fn closing_one_of_many_does_not_wait(
    before: AppModel,
    index: int,
    worker: CleanupWorker,
    i: int,
)
    requires
        before.wf(),
        0 <= index,
        before.terminals.list.len() > 1,
        before.effects.len() <= i < before.closing(index, worker).effects.len(),
    ensures
        !(before.closing(index, worker).effects[i] is ShutDown),
{
    reveal(AppModel::closing);
    reveal(AppModel::ending);
    focus_shuts_nothing_down(before, Some(index), None, i);
    let shown = index == before.terminals.active && before.terminals.presented;
    let told = if shown {
        before.focus_moved(Some(index), None)
    } else {
        before
    };
    focus_shuts_nothing_down(told, None, Some(index), i);
    let ended = if before.terminals.list[index].has_process {
        told.ending(before.number(index), worker)
    } else {
        told
    };
    assert(told.effects.is_prefix_of(ended.effects));
    assert(told.effects.len() <= i < ended.effects.len() ==> !(ended.effects[i] is ShutDown));
    leaving_shuts_nothing_down(ended, index, i);
    let left = if index == before.terminals.active {
        ended.left(index)
    } else {
        ended
    };
    removal_shuts_nothing_down(left, index, i);
}

/// A tab whose process cannot be handed on stays as it was.
pub proof fn held_back_tab_stays(before: AppModel, index: int, worker: CleanupWorker)
    requires
        before.wf(),
        0 <= index < before.terminals.list.len(),
        before.held_back(index, worker),
    ensures
        ({
            let after = before.closing(index, worker);
            &&& after.terminals == before.terminals
            &&& after.ui == before.ui
            &&& after.window == before.window
        }),
{
    reveal(AppModel::closing);
    focus_shuts_nothing_down(before, Some(index), None, 0);
    focus_shuts_nothing_down(before, None, Some(index), 0);
    focus_shuts_nothing_down(before.focus_moved(Some(index), None), None, Some(index), 0);
}

/// When the window loses the focus, no modifier keys are held any more and nothing is dragged; where
/// there is a terminal, the pointer lets go of it.
pub proof fn lost_focus_lets_go(before: AppModel)
    requires
        before.wf(),
    ensures
        ({
            let after = before.focus_changed(false);
            &&& !after.window.focused
            &&& after.window.unfocused_redraw_pending
            &&& after.window.dirty
            &&& after.modifiers == Modifiers(0)
            &&& after.ui.modifiers == Modifiers(0)
            &&& after.terminals.drag is None
            &&& !after.settings.dragging
            &&& before.terminals.list.len() > 0 ==> {
                &&& after.ui.buttons == 0
                &&& after.ui.capture is Free
                &&& after.ui.anchor is None
            }
            &&& after.terminals.list == before.terminals.list
            &&& after.terminals.active == before.terminals.active
        }),
{
    reveal(AppModel::focus_changed);
    reveal(AppModel::focus_noted);
    reveal(AppModel::let_go);
    reveal(AppModel::pointer_cancelled);
    reveal(AppModel::told);
}

/// Opening the settings ends what the pointer was doing.
pub proof fn opened_settings_let_go(before: AppModel)
    requires
        before.wf(),
        !before.settings.open,
    ensures
        ({
            let after = before.settings_toggled();
            &&& after.settings.open
            &&& after.terminals.drag is None
            &&& before.terminals.list.len() > 0 ==> after.ui.buttons == 0 && after.ui.capture is Free
            &&& after.settings.config == before.settings.config
        }),
{
    reveal(AppModel::settings_toggled);
    reveal(AppModel::pointer_cancelled);
    reveal(AppModel::after_change);
}

/// While the settings are shown, neither keys nor text reach the terminal.
pub proof fn settings_keep_the_keyboard(
    before: AppModel,
    grid: TermGrid,
    key: KeyInput,
    clipboard: interaction::ClipboardModel,
    typed: Seq<char>,
    worker: CleanupWorker,
    now: u64,
)
    requires
        before.modal(),
    ensures
        events::key_step(before, grid, key, clipboard, worker, now).outcome.send is None,
        !events::key_step(before, grid, key, clipboard, worker, now).exit,
        events::text_step(before, grid, typed, now).outcome.send is None,
        events::commit_step(before, grid, typed, now).outcome.send is None,
{
}

/// A press of the left button takes a selection of the user's away, wherever the pointer is.
pub proof fn left_press_clears_selection(
    before: AppModel,
    grid: TermGrid,
    press: PointerPress,
    worker: CleanupWorker,
    now: u64,
)
    requires
        before.modal(),
        pointer_events::cleared(before, grid, press),
    ensures
        pointer_events::button_step(before, grid, press, worker, now).selection is None,
{
    reveal(pointer_events::button_step);
}

/// A window that cannot be drawn in, and one in which nothing changed or moves, is left alone: no frame
/// is asked for and the loop does not go on at once, unless a scan of the search is due.
pub proof fn idle_window_sleeps(app: AppModel, now: u64)
    ensures
        !app.window.renderable() ==> !app.frame_due(now) && app.control(now) == AppLoopControl::Wait,
        !app.window.dirty && !app.window.animation_active && app.search_deadline() is None
            ==> !app.frame_due(now) && app.control(now) == AppLoopControl::Wait,
        app.control(now) is Poll ==> app.window.animation_active && app.window.renderable(),
{
}

} // verus!
