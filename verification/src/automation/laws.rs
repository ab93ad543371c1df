//! What holds of the scripted run whatever it sees.
use vstd::prelude::*;
use vstd::utf8::*;

use crate::automation::controller;
use crate::automation::controller::{
    AutomationError, ExitCause, InputModel, Observed, RunModel, StepResult, TabDragSeen, TickModel,
    WriteModel,
};
use crate::automation::options;
use crate::automation::options::{OptionsModel, OptionsRead};
use crate::automation::report;
use crate::automation::scenario;
use crate::automation::scenario::{
    AutomationStep, FixturePhase, ResizeKind, ResizePlan, SemanticBlock,
};
use crate::automation::screen;
use crate::input_types;
use crate::input_types::{KeyCode, Modifiers};
use crate::search;
use crate::settings::{SettingsHit, SettingsTab};
use crate::terminal::TermGrid;
use crate::text;

verus! {

/// The parts of the run have these names in the report.
pub proof fn parts_have_names()
    ensures
        scenario::block_name(SemanticBlock::Startup) == "startup-first-frame"@,
        scenario::block_name(SemanticBlock::ResizeReflow) == "resize-reflow"@,
        scenario::block_name(SemanticBlock::BasicInput) == "basic-input-echo"@,
        scenario::block_name(SemanticBlock::Unicode) == "unicode"@,
        scenario::block_name(SemanticBlock::Ansi) == "ansi-style-parser"@,
        scenario::block_name(SemanticBlock::Bulk) == "bulk-output"@,
        scenario::block_name(SemanticBlock::LongLines) == "long-lines-reflow"@,
        scenario::block_name(SemanticBlock::AlternateScreen) == "alternate-screen"@,
        scenario::block_name(SemanticBlock::Scroll) == "scroll"@,
        scenario::block_name(SemanticBlock::Selection) == "text-selection"@,
        scenario::block_name(SemanticBlock::Search) == "search"@,
        scenario::block_name(SemanticBlock::Tabs) == "tabs"@,
        scenario::block_name(SemanticBlock::Settings) == "settings"@,
        scenario::block_name(SemanticBlock::ProcessTree) == "process-tree-cleanup"@,
        scenario::phase_name(FixturePhase::Basic) == "basic"@,
        scenario::phase_name(FixturePhase::Unicode) == "unicode"@,
        scenario::phase_name(FixturePhase::Ansi) == "ansi"@,
        scenario::phase_name(FixturePhase::Bulk) == "bulk"@,
        scenario::phase_name(FixturePhase::LongLines) == "long-lines"@,
        scenario::phase_name(FixturePhase::AlternateScreen) == "alternate-screen"@,
        scenario::phase_name(FixturePhase::ProcessTree) == "process-tree"@,
        scenario::kind_name(ResizeKind::Narrow) == "Narrow"@,
        scenario::kind_name(ResizeKind::Wide) == "Wide"@,
        scenario::kind_name(ResizeKind::Original) == "Original"@,
{
}

/// The steps of the run have these names in the report.
pub proof fn steps_have_names(
    kind: ResizeKind,
    phase: FixturePhase,
    block: SemanticBlock,
    marker: &'static str,
    lines: i32,
    count: u8,
    milliseconds: u64,
)
    ensures
        scenario::step_name(AutomationStep::WaitReady) == "wait-ready"@,
        scenario::step_name(AutomationStep::BasicInputEdit) == "basic-input-edit"@,
        scenario::step_name(AutomationStep::UnicodeInput) == "unicode-input"@,
        scenario::step_name(AutomationStep::WaitPresentedFrame) == "wait-presented-frame"@,
        scenario::step_name(AutomationStep::WaitAltScreenEnter) == "wait-alt-screen-enter"@,
        scenario::step_name(AutomationStep::WaitAltScreenExit) == "wait-alt-screen-exit"@,
        scenario::step_name(AutomationStep::PositionTerminalPointer) == "position-terminal-pointer"@,
        scenario::step_name(AutomationStep::WaitScrollAway) == "wait-scroll-away"@,
        scenario::step_name(AutomationStep::WaitScrollToward) == "wait-scroll-toward"@,
        scenario::step_name(AutomationStep::WaitScrollTail) == "wait-scroll-tail"@,
        scenario::step_name(AutomationStep::SelectionDrag) == "selection-drag"@,
        scenario::step_name(AutomationStep::SelectionCopyAndClear) == "selection-copy-clear"@,
        scenario::step_name(AutomationStep::SearchNext) == "search-next"@,
        scenario::step_name(AutomationStep::SearchPrevious) == "search-previous"@,
        scenario::step_name(AutomationStep::SearchToggleCase) == "search-toggle-case"@,
        scenario::step_name(AutomationStep::SearchClose) == "search-close"@,
        scenario::step_name(AutomationStep::CreateTab) == "tab-create"@,
        scenario::step_name(AutomationStep::WaitActiveTerminalReady) == "tab-wait-ready"@,
        scenario::step_name(AutomationStep::VerifyTabOverflow) == "tab-overflow-verify"@,
        scenario::step_name(AutomationStep::ScrollTabStrip) == "tab-strip-scroll"@,
        scenario::step_name(AutomationStep::WaitTabStripScrolled) == "tab-strip-scroll-wait"@,
        scenario::step_name(AutomationStep::SwitchVisibleOverflowTab) == "tab-overflow-switch"@,
        scenario::step_name(AutomationStep::DragReorderVisibleTab) == "tab-drag-reorder"@,
        scenario::step_name(AutomationStep::CloseActiveTab) == "tab-close"@,
        scenario::step_name(AutomationStep::WaitPendingCleanupQueue) == "cleanup-queue-wait"@,
        scenario::step_name(AutomationStep::CleanupBarrierRestart) == "cleanup-barrier-restart"@,
        scenario::step_name(AutomationStep::SettingsOpen) == "settings-open"@,
        scenario::step_name(AutomationStep::WaitSettingsOpen) == "settings-open-wait"@,
        scenario::step_name(AutomationStep::SettingsFontIncrease) == "settings-font-increase"@,
        scenario::step_name(AutomationStep::SettingsFontDecrease) == "settings-font-decrease"@,
        scenario::step_name(AutomationStep::SettingsScrollIncrease) == "settings-scroll-increase"@,
        scenario::step_name(AutomationStep::SettingsScrollDecrease) == "settings-scroll-decrease"@,
        scenario::step_name(AutomationStep::SettingsBackgroundAlternate) == "settings-background-alternate"@,
        scenario::step_name(AutomationStep::SettingsBackgroundRestore) == "settings-background-restore"@,
        scenario::step_name(AutomationStep::SettingsHelp) == "settings-help"@,
        scenario::step_name(AutomationStep::SettingsClose) == "settings-close"@,
        scenario::step_name(AutomationStep::WaitSettingsClosed) == "settings-close-wait"@,
        scenario::step_name(AutomationStep::VerifyProcessTreeStillRunning) == "process-tree-live-verify"@,
        scenario::step_name(AutomationStep::CleanupBarrierFinal) == "cleanup-barrier-final"@,
        scenario::step_name(AutomationStep::Finish) == "finish"@,
        scenario::step_name(AutomationStep::Resize(kind)) == "resize-"@ + scenario::kind_name(kind),
        scenario::step_name(AutomationStep::WaitResize(kind)) == "wait-resize-"@
            + scenario::kind_name(kind),
        scenario::step_name(AutomationStep::WaitText(marker)) == "wait-text-"@ + marker@,
        scenario::step_name(AutomationStep::StartFixture(phase)) == "fixture-"@
            + scenario::phase_name(phase) + "-start"@,
        scenario::step_name(AutomationStep::WaitFixture(phase)) == "fixture-"@
            + scenario::phase_name(phase) + "-wait"@,
        scenario::step_name(AutomationStep::WaitAltPresentedFrames(count))
            == "wait-alt-screen-frames"@,
        lines > 0 ==> scenario::step_name(AutomationStep::ScrollImpulses { lines, count })
            == "scroll-away"@,
        lines <= 0 ==> scenario::step_name(AutomationStep::ScrollImpulses { lines, count })
            == "scroll-toward-tail"@,
        scenario::step_name(AutomationStep::SearchOpenQuery(marker)) == "search-open-"@ + marker@,
        scenario::step_name(AutomationStep::WaitElapsed(milliseconds)) == "wait-elapsed-"@
            + text::decimal(milliseconds as nat) + "ms"@,
        scenario::step_name(AutomationStep::Complete(block)) == "complete-"@ + scenario::block_name(
            block,
        ),
{
}

/// What goes wrong has these messages.
pub proof fn errors_have_messages(phase: FixturePhase, block: SemanticBlock, code: KeyCode)
    ensures
        controller::error_text(AutomationError::PathNotUtf8) == "PGO fixture path must be valid UTF-8"@,
        controller::error_text(AutomationError::NoResizePlan) == "resize plan is unavailable before startup readiness"@,
        controller::error_text(AutomationError::AlternateScreenLeft) == "alternate screen exited before frame sampling completed"@,
        controller::error_text(AutomationError::CaseToggleHidden) == "search case-toggle control is not renderable"@,
        controller::error_text(AutomationError::NoTerminalCreated) == "production NewTab shortcut did not create a terminal"@,
        controller::error_text(AutomationError::TooFewTerminals) == "tab training did not create enough terminals"@,
        controller::error_text(AutomationError::NoReorder) == "production tab drag did not perform a bounded reorder"@,
        controller::error_text(AutomationError::FinalTerminal) == "refusing to close the final terminal during PGO training"@,
        controller::error_text(AutomationError::NoTerminalClosed) == "production CloseTab shortcut did not close a terminal"@,
        controller::error_text(AutomationError::SettingsNotOpened) == "production F1 shortcut did not open settings"@,
        controller::error_text(AutomationError::NoBackground) == "settings background original value was not captured"@,
        controller::error_text(AutomationError::SettingsNotClosed) == "production F1 shortcut did not close settings"@,
        controller::error_text(AutomationError::ProcessTreeFailed) == "process-tree fixture failed before cleanup"@,
        controller::error_text(AutomationError::ProcessTreeDone) == "process-tree fixture completed before cleanup"@,
        controller::error_text(AutomationError::Incomplete) == "mandatory semantic PGO blocks are incomplete or out of order"@,
        controller::error_text(AutomationError::CleanupNotFinal) == "process cleanup barrier was not finalized"@,
        controller::error_text(AutomationError::FixtureFailed(phase)) == "terminal fixture phase "@
            + scenario::phase_name(phase) + " failed"@,
        controller::error_text(AutomationError::CompletedTwice(block))
            == "semantic block completed twice: "@ + scenario::block_name(block),
        controller::error_text(AutomationError::UnexpectedExit(ExitCause::Key(code))) == "key "@
            + input_types::key_name(code) + " unexpectedly requested application exit"@,
        controller::cause_text(ExitCause::Selection) == "selection"@,
        controller::cause_text(ExitCause::SelectionRelease) == "selection release"@,
        controller::cause_text(ExitCause::CaseToggle) == "search case toggle"@,
        controller::cause_text(ExitCause::TabSwitch) == "tab switch"@,
        controller::cause_text(ExitCause::TabDragPress) == "tab drag press"@,
        controller::cause_text(ExitCause::TabDragRelease) == "tab drag release"@,
{
}

/// The parts come in this order.
pub proof fn parts_come_in_order()
    ensures
        scenario::all_blocks().len() == 14,
        scenario::all_blocks()[0] == SemanticBlock::Startup,
        scenario::all_blocks()[1] == SemanticBlock::ResizeReflow,
        scenario::all_blocks()[2] == SemanticBlock::BasicInput,
        scenario::all_blocks()[3] == SemanticBlock::Unicode,
        scenario::all_blocks()[4] == SemanticBlock::Ansi,
        scenario::all_blocks()[5] == SemanticBlock::Bulk,
        scenario::all_blocks()[6] == SemanticBlock::LongLines,
        scenario::all_blocks()[7] == SemanticBlock::AlternateScreen,
        scenario::all_blocks()[8] == SemanticBlock::Scroll,
        scenario::all_blocks()[9] == SemanticBlock::Selection,
        scenario::all_blocks()[10] == SemanticBlock::Search,
        scenario::all_blocks()[11] == SemanticBlock::Tabs,
        scenario::all_blocks()[12] == SemanticBlock::Settings,
        scenario::all_blocks()[13] == SemanticBlock::ProcessTree,
        scenario::PGO_AUTOMATION_SCENARIO_VERSION == 1,
{
}

/// Each part takes these steps, one after the other.
pub proof fn parts_take_their_steps()
    ensures
        scenario::block_steps(SemanticBlock::Startup) == seq![
            AutomationStep::WaitReady,
        ],
        scenario::block_steps(SemanticBlock::ResizeReflow) == seq![
            AutomationStep::Resize(ResizeKind::Narrow),
            AutomationStep::WaitResize(ResizeKind::Narrow),
            AutomationStep::Resize(ResizeKind::Wide),
            AutomationStep::WaitResize(ResizeKind::Wide),
            AutomationStep::Resize(ResizeKind::Original),
            AutomationStep::WaitResize(ResizeKind::Original),
        ],
        scenario::block_steps(SemanticBlock::BasicInput) == seq![
            AutomationStep::BasicInputEdit,
            AutomationStep::WaitText("__RONSOLE_PGO_INPUT_edit"),
            AutomationStep::WaitPresentedFrame,
            AutomationStep::StartFixture(FixturePhase::Basic),
            AutomationStep::WaitFixture(FixturePhase::Basic),
            AutomationStep::WaitPresentedFrame,
        ],
        scenario::block_steps(SemanticBlock::Unicode) == seq![
            AutomationStep::UnicodeInput,
            AutomationStep::WaitText("__RONSOLE_PGO_UNICODE_ok"),
            AutomationStep::WaitPresentedFrame,
            AutomationStep::StartFixture(FixturePhase::Unicode),
            AutomationStep::WaitFixture(FixturePhase::Unicode),
            AutomationStep::WaitPresentedFrame,
        ],
        scenario::block_steps(SemanticBlock::Ansi) == seq![
            AutomationStep::StartFixture(FixturePhase::Ansi),
            AutomationStep::WaitFixture(FixturePhase::Ansi),
            AutomationStep::WaitPresentedFrame,
        ],
        scenario::block_steps(SemanticBlock::Bulk) == seq![
            AutomationStep::StartFixture(FixturePhase::Bulk),
            AutomationStep::WaitFixture(FixturePhase::Bulk),
            AutomationStep::WaitPresentedFrame,
        ],
        scenario::block_steps(SemanticBlock::LongLines) == seq![
            AutomationStep::StartFixture(FixturePhase::LongLines),
            AutomationStep::WaitFixture(FixturePhase::LongLines),
            AutomationStep::WaitPresentedFrame,
            AutomationStep::Resize(ResizeKind::Narrow),
            AutomationStep::WaitResize(ResizeKind::Narrow),
            AutomationStep::Resize(ResizeKind::Wide),
            AutomationStep::WaitResize(ResizeKind::Wide),
            AutomationStep::Resize(ResizeKind::Original),
            AutomationStep::WaitResize(ResizeKind::Original),
            AutomationStep::WaitPresentedFrame,
        ],
        scenario::block_steps(SemanticBlock::AlternateScreen) == seq![
            AutomationStep::StartFixture(FixturePhase::AlternateScreen),
            AutomationStep::WaitAltScreenEnter,
            AutomationStep::WaitAltPresentedFrames(3),
            AutomationStep::WaitFixture(FixturePhase::AlternateScreen),
            AutomationStep::WaitAltScreenExit,
            AutomationStep::WaitPresentedFrame,
        ],
        scenario::block_steps(SemanticBlock::Scroll) == seq![
            AutomationStep::PositionTerminalPointer,
            AutomationStep::ScrollImpulses { lines: 6, count: 6 },
            AutomationStep::WaitScrollAway,
            AutomationStep::ScrollImpulses { lines: -3i32, count: 3 },
            AutomationStep::WaitScrollToward,
            AutomationStep::ScrollImpulses { lines: -12i32, count: 6 },
            AutomationStep::WaitScrollTail,
        ],
        scenario::block_steps(SemanticBlock::Selection) == seq![
            AutomationStep::SelectionDrag,
            AutomationStep::SelectionCopyAndClear,
        ],
        scenario::block_steps(SemanticBlock::Search) == seq![
            AutomationStep::SearchOpenQuery("__RONSOLE_PGO_DONE_bulk"),
            AutomationStep::SearchNext,
            AutomationStep::SearchPrevious,
            AutomationStep::WaitPresentedFrame,
            AutomationStep::SearchToggleCase,
            AutomationStep::WaitPresentedFrame,
            AutomationStep::SearchClose,
            AutomationStep::SearchOpenQuery("__RONSOLE_PGO_INPUT_edit"),
            AutomationStep::SearchNext,
            AutomationStep::SearchClose,
        ],
        scenario::block_steps(SemanticBlock::Settings) == seq![
            AutomationStep::SettingsOpen,
            AutomationStep::WaitSettingsOpen,
            AutomationStep::SettingsFontIncrease,
            AutomationStep::WaitPresentedFrame,
            AutomationStep::SettingsFontDecrease,
            AutomationStep::WaitPresentedFrame,
            AutomationStep::SettingsScrollIncrease,
            AutomationStep::WaitPresentedFrame,
            AutomationStep::SettingsScrollDecrease,
            AutomationStep::WaitPresentedFrame,
            AutomationStep::SettingsBackgroundAlternate,
            AutomationStep::WaitPresentedFrame,
            AutomationStep::SettingsBackgroundRestore,
            AutomationStep::WaitPresentedFrame,
            AutomationStep::SettingsHelp,
            AutomationStep::WaitPresentedFrame,
            AutomationStep::SettingsClose,
            AutomationStep::WaitSettingsClosed,
        ],
        scenario::block_steps(SemanticBlock::ProcessTree) == seq![
            AutomationStep::CreateTab,
            AutomationStep::WaitActiveTerminalReady,
            AutomationStep::StartFixture(FixturePhase::ProcessTree),
            AutomationStep::WaitText("__RONSOLE_PGO_PROCESS_TREE_STARTED"),
            AutomationStep::WaitElapsed(300),
            AutomationStep::VerifyProcessTreeStillRunning,
            AutomationStep::WaitPresentedFrame,
            AutomationStep::CloseActiveTab,
            AutomationStep::WaitActiveTerminalReady,
            AutomationStep::WaitPendingCleanupQueue,
            AutomationStep::CleanupBarrierFinal,
        ],
{
}

/// On tabs the run makes the window narrow, opens ten tabs, scrolls, switches and drags them, closes three
/// and waits until it is at rest with the window as it was.
pub proof fn ten_tabs_are_opened_and_three_closed()
    ensures
        ({
            let open = seq![
                    AutomationStep::CreateTab,
                    AutomationStep::WaitActiveTerminalReady,
                    AutomationStep::StartFixture(FixturePhase::Basic),
                    AutomationStep::WaitFixture(FixturePhase::Basic),
                    AutomationStep::WaitPresentedFrame,
                ];
            let close = seq![
                AutomationStep::CloseActiveTab,
                AutomationStep::WaitActiveTerminalReady,
            ];
            scenario::block_steps(SemanticBlock::Tabs) == seq![
                AutomationStep::Resize(ResizeKind::Narrow),
                AutomationStep::WaitResize(ResizeKind::Narrow),
            ] + (open + open + open + open + open + open + open + open + open + open) + seq![
            AutomationStep::VerifyTabOverflow,
            AutomationStep::ScrollTabStrip,
            AutomationStep::WaitTabStripScrolled,
            AutomationStep::SwitchVisibleOverflowTab,
            AutomationStep::WaitActiveTerminalReady,
            AutomationStep::DragReorderVisibleTab,
        ] + (close
                + close + close) + seq![
            AutomationStep::WaitPendingCleanupQueue,
            AutomationStep::CleanupBarrierRestart,
            AutomationStep::Resize(ResizeKind::Original),
            AutomationStep::WaitResize(ResizeKind::Original),
        ]
        }),
{
    let open = scenario::new_tab_steps();
    let close = scenario::closed_tab_steps();
    reveal_with_fuel(scenario::repeated, 11);
    let nothing = Seq::<AutomationStep>::empty();
    assert(nothing + open =~= open);
    assert(nothing + close =~= close);
    assert(scenario::repeated(open, 10) == open + open + open + open + open + open + open + open
        + open + open);
    assert(scenario::repeated(close, 3) == close + close + close);
}

/// The parts are done one after the other, each with its end, and the run ends behind them.
pub proof fn parts_follow_each_other(blocks: Seq<SemanticBlock>, block: SemanticBlock)
    ensures
        scenario::blocks_steps(blocks.push(block)) == scenario::blocks_steps(blocks)
            + scenario::block_steps(block).push(AutomationStep::Complete(block)),
        scenario::blocks_steps(Seq::empty()).len() == 0,
        scenario::scenario_steps() == scenario::blocks_steps(scenario::all_blocks()).push(
            AutomationStep::Finish,
        ),
{
    assert(blocks.push(block).drop_last() =~= blocks);
}

/// The narrow width is two thirds of a width over 480, from 360 to 720, and three quarters of a smaller
/// one, but less than it; the wide one is from 960 to 1600 and more than the narrow one.
pub proof fn widths_are_within_bounds(width: int)
    requires
        1 <= width <= 4_294_967_295,
    ensures
        480 < width && 540 <= width && 2 * width <= 2160 ==> scenario::narrow_width(width) == 2 * width
            / 3,
        480 < width < 540 ==> scenario::narrow_width(width) == 360,
        1080 < width ==> scenario::narrow_width(width) == 720,
        4 <= width <= 480 ==> scenario::narrow_width(width) == 3 * width / 4,
        width < 4 && width > 1 ==> scenario::narrow_width(width) == width - 1,
        width == 1 ==> scenario::narrow_width(width) == 1,
        width < 960 ==> scenario::wide_width(width) == 960,
        960 <= width <= 1600 ==> scenario::wide_width(width) == width,
        width > 1600 ==> scenario::wide_width(width) == 1600,
{
}

/// A step may take eight seconds; the start and the tree of processes thirty, and much output forty-five.
pub proof fn steps_have_their_time(step: AutomationStep)
    ensures
        scenario::step_timeout(AutomationStep::WaitReady) == 30_000,
        scenario::step_timeout(AutomationStep::WaitFixture(FixturePhase::Bulk)) == 45_000,
        scenario::step_timeout(AutomationStep::WaitFixture(FixturePhase::ProcessTree)) == 30_000,
        !(step is WaitReady) && step != AutomationStep::WaitFixture(FixturePhase::Bulk) && step
            != AutomationStep::WaitFixture(FixturePhase::ProcessTree) ==> scenario::step_timeout(step)
            == 8_000,
{
}

/// Whether a step is over.
pub open spec fn is_over(
    run: RunModel,
    step: AutomationStep,
    before: Observed,
    after: Observed,
    elapsed: u64,
) -> bool {
    controller::result_of(run, step, before, after, elapsed) == Ok::<StepResult, AutomationError>(
        StepResult::Done,
    )
}

/// Whether a step goes on.
pub open spec fn goes_on(
    run: RunModel,
    step: AutomationStep,
    before: Observed,
    after: Observed,
    elapsed: u64,
) -> bool {
    controller::result_of(run, step, before, after, elapsed) == Ok::<StepResult, AutomationError>(
        StepResult::Pending,
    )
}

/// Whether a step has failed with an error.
pub open spec fn fails(
    run: RunModel,
    step: AutomationStep,
    before: Observed,
    after: Observed,
    elapsed: u64,
    error: AutomationError,
) -> bool {
    controller::result_of(run, step, before, after, elapsed) == Err::<StepResult, AutomationError>(
        error,
    )
}

/// Whether a step is a wait that is over just where a condition holds, and goes on otherwise.
pub open spec fn waits_for(
    run: RunModel,
    step: AutomationStep,
    before: Observed,
    after: Observed,
    elapsed: u64,
    condition: bool,
) -> bool {
    &&& condition ==> is_over(run, step, before, after, elapsed)
    &&& !condition ==> goes_on(run, step, before, after, elapsed)
}

/// Whether a step is over where nothing is wrong, and has failed with an error otherwise.
pub open spec fn fails_where(
    run: RunModel,
    step: AutomationStep,
    before: Observed,
    after: Observed,
    elapsed: u64,
    wrong: bool,
    error: AutomationError,
) -> bool {
    &&& !wrong ==> is_over(run, step, before, after, elapsed)
    &&& wrong ==> fails(run, step, before, after, elapsed, error)
}

/// What the waits of the run wait for.
pub proof fn waits_end_with_what_is_seen(
    run: RunModel,
    before: Observed,
    after: Observed,
    elapsed: u64,
    duration: u64,
    marker: &'static str,
)
    ensures
        waits_for(
            run,
            AutomationStep::WaitReady,
            before,
            after,
            elapsed,
            after.window && after.has_terminal && after.presented && after.ready && after.cols >= 10
                && after.visible_rows >= 2 && after.body_visible && !after.dirty,
        ),
        waits_for(
            run,
            AutomationStep::WaitResize(ResizeKind::Narrow),
            before,
            after,
            elapsed,
            after.cols > 0 && !after.dirty && after.cols < run.original_cols,
        ),
        waits_for(
            run,
            AutomationStep::WaitResize(ResizeKind::Wide),
            before,
            after,
            elapsed,
            after.cols > 1 && !after.dirty && after.cols > run.narrow_cols,
        ),
        waits_for(
            run,
            AutomationStep::WaitResize(ResizeKind::Original),
            before,
            after,
            elapsed,
            after.cols > 0 && !after.dirty && after.cols == run.original_cols,
        ),
        waits_for(
            run,
            AutomationStep::WaitText(marker),
            before,
            after,
            elapsed,
            after.done_text,
        ),
        waits_for(
            run,
            AutomationStep::WaitPresentedFrame,
            before,
            after,
            elapsed,
            before.renderable && run.armed && !before.dirty,
        ),
        waits_for(
            run,
            AutomationStep::WaitAltScreenEnter,
            before,
            after,
            elapsed,
            after.alternate_screen,
        ),
        waits_for(
            run,
            AutomationStep::WaitAltScreenExit,
            before,
            after,
            elapsed,
            !after.alternate_screen,
        ),
        waits_for(
            run,
            AutomationStep::WaitScrollAway,
            before,
            after,
            elapsed,
            after.has_terminal && after.scroll_settled && after.scrolled_away,
        ),
        waits_for(
            run,
            AutomationStep::WaitScrollToward,
            before,
            after,
            elapsed,
            after.has_terminal && after.scroll_settled && after.scrolled_nearer,
        ),
        waits_for(
            run,
            AutomationStep::WaitScrollTail,
            before,
            after,
            elapsed,
            after.has_terminal && after.scroll_settled && !after.scrolled_away,
        ),
        waits_for(
            run,
            AutomationStep::WaitActiveTerminalReady,
            before,
            after,
            elapsed,
            !after.waiting && after.presented && after.has_terminal && after.ready && after.cols > 0
                && after.visible_rows > 0 && !after.dirty,
        ),
        waits_for(
            run,
            AutomationStep::WaitTabStripScrolled,
            before,
            after,
            elapsed,
            after.tabs_scrolled,
        ),
        waits_for(
            run,
            AutomationStep::SwitchVisibleOverflowTab,
            before,
            after,
            elapsed,
            before.other_tab == Some(after.active) || !after.presented,
        ),
        waits_for(
            run,
            AutomationStep::WaitPendingCleanupQueue,
            before,
            after,
            elapsed,
            after.cleanup_empty,
        ),
        waits_for(
            run,
            AutomationStep::WaitSettingsOpen,
            before,
            after,
            elapsed,
            after.settings_open && after.settings_settled,
        ),
        waits_for(
            run,
            AutomationStep::WaitSettingsClosed,
            before,
            after,
            elapsed,
            !after.settings_open && after.settings_settled,
        ),
        waits_for(
            run,
            AutomationStep::WaitElapsed(duration),
            before,
            after,
            elapsed,
            elapsed >= duration,
        ),
{
}

/// What steps fail with, and where.
pub proof fn steps_fail_with_what_is_wrong(
    run: RunModel,
    before: Observed,
    after: Observed,
    elapsed: u64,
    phase: FixturePhase,
    block: SemanticBlock,
)
    ensures
        after.failed_text ==> fails(
            run,
            AutomationStep::WaitFixture(phase),
            before,
            after,
            elapsed,
            AutomationError::FixtureFailed(phase),
        ),
        !after.failed_text ==> waits_for(
            run,
            AutomationStep::WaitFixture(phase),
            before,
            after,
            elapsed,
            after.done_text,
        ),
        is_over(run, AutomationStep::SelectionDrag, before, after, elapsed) == after.selection,
        is_over(run, AutomationStep::SelectionCopyAndClear, before, after, elapsed)
            == !after.selection,
        !goes_on(run, AutomationStep::SelectionDrag, before, after, elapsed),
        !goes_on(run, AutomationStep::SelectionCopyAndClear, before, after, elapsed),
        fails_where(
            run,
            AutomationStep::CreateTab,
            before,
            after,
            elapsed,
            after.tabs != before.tabs + 1,
            AutomationError::NoTerminalCreated,
        ),
        !after.window ==> goes_on(run, AutomationStep::VerifyTabOverflow, before, after, elapsed),
        after.window && after.tabs < 11 ==> fails(
            run,
            AutomationStep::VerifyTabOverflow,
            before,
            after,
            elapsed,
            AutomationError::TooFewTerminals,
        ),
        after.window && after.tabs >= 11 ==> waits_for(
            run,
            AutomationStep::VerifyTabOverflow,
            before,
            after,
            elapsed,
            after.tabs_overflow,
        ),
        fails_where(
            run,
            AutomationStep::DragReorderVisibleTab,
            before,
            after,
            elapsed,
            !(after.tab_drag.passed && after.tab_drag.destination is Some
                && after.tab_drag.destination->0 != after.tab_drag.start
                && !after.tab_drag.still_dragging),
            AutomationError::NoReorder,
        ),
        fails_where(
            run,
            AutomationStep::CloseActiveTab,
            before,
            after,
            elapsed,
            before.tabs != after.tabs + 1,
            AutomationError::NoTerminalClosed,
        ),
        fails_where(
            run,
            AutomationStep::SettingsOpen,
            before,
            after,
            elapsed,
            !after.settings_open,
            AutomationError::SettingsNotOpened,
        ),
        fails_where(
            run,
            AutomationStep::SettingsClose,
            before,
            after,
            elapsed,
            after.settings_open,
            AutomationError::SettingsNotClosed,
        ),
        after.failed_text ==> fails(
            run,
            AutomationStep::VerifyProcessTreeStillRunning,
            before,
            after,
            elapsed,
            AutomationError::ProcessTreeFailed,
        ),
        !after.failed_text ==> fails_where(
            run,
            AutomationStep::VerifyProcessTreeStillRunning,
            before,
            after,
            elapsed,
            after.done_text,
            AutomationError::ProcessTreeDone,
        ),
        fails_where(
            run,
            AutomationStep::Complete(block),
            before,
            after,
            elapsed,
            run.completed.contains(scenario::block_name(block)),
            AutomationError::CompletedTwice(block),
        ),
        run.completed != report::all_names() ==> fails(
            run,
            AutomationStep::Finish,
            before,
            after,
            elapsed,
            AutomationError::Incomplete,
        ),
        run.completed == report::all_names() ==> fails_where(
            run,
            AutomationStep::Finish,
            before,
            after,
            elapsed,
            !run.cleanup_final,
            AutomationError::CleanupNotFinal,
        ),
{
}

/// Frames of the alternate screen are asked for one by one, until the last one that is wanted was drawn.
pub proof fn alternate_frames_are_counted(
    run: RunModel,
    background: Seq<char>,
    before: Observed,
    after: Observed,
    elapsed: u64,
    required: u8,
)
    requires
        run.alt_frames_seen < 255,
    ensures
        ({
            let step = AutomationStep::WaitAltPresentedFrames(required);
            let next = controller::run_after(run, background, step, before, after, elapsed);
            &&& !run.armed ==> goes_on(run, step, before, after, elapsed) && next.armed
                && next.alt_frames_seen == run.alt_frames_seen
            &&& run.armed && before.dirty ==> goes_on(run, step, before, after, elapsed) && next == run
            &&& run.armed && !before.dirty && run.alt_frames_seen + 1 < required ==> goes_on(
                run,
                step,
                before,
                after,
                elapsed,
            ) && next.armed && next.alt_frames_seen == run.alt_frames_seen + 1
            &&& run.armed && !before.dirty && run.alt_frames_seen + 1 >= required ==> is_over(
                run,
                step,
                before,
                after,
                elapsed,
            ) && !next.armed && next.alt_frames_seen == 0
        }),
{
}

/// What the run learns from its steps, and that it learns nothing else.
pub proof fn run_learns_from_its_steps(
    run: RunModel,
    background: Seq<char>,
    before: Observed,
    after: Observed,
    elapsed: u64,
    block: SemanticBlock,
)
    ensures
        ({
            let ready = controller::run_after(
                run,
                background,
                AutomationStep::WaitReady,
                before,
                after,
                elapsed,
            );
            let width = if after.size.0 == 0 {
                1
            } else {
                after.size.0 as int
            };
            let height = if after.size.1 == 0 {
                1u32
            } else {
                after.size.1
            };
            if is_over(run, AutomationStep::WaitReady, before, after, elapsed) {
                &&& ready.original_cols == after.cols
                &&& ready.resize_plan == Some(
                    ResizePlan {
                        original: (width as u32, height),
                        narrow: (scenario::narrow_width(width) as u32, height),
                        wide: (scenario::wide_width(width) as u32, height),
                    },
                )
                &&& ready == (RunModel {
                    original_cols: ready.original_cols,
                    resize_plan: ready.resize_plan,
                    ..run
                })
            } else {
                ready == run
            }
        }),
        ({
            let step = AutomationStep::WaitResize(ResizeKind::Narrow);
            let narrow = controller::run_after(run, background, step, before, after, elapsed);
            narrow == if is_over(run, step, before, after, elapsed) {
                RunModel { narrow_cols: after.cols, ..run }
            } else {
                run
            }
        }),
        ({
            let step = AutomationStep::WaitPresentedFrame;
            let frame = controller::run_after(run, background, step, before, after, elapsed);
            &&& frame == (RunModel { armed: frame.armed, ..run })
            &&& !before.renderable ==> frame.armed == run.armed
            &&& before.renderable ==> frame.armed == !(run.armed && !before.dirty)
        }),
        controller::run_after(
            run,
            background,
            AutomationStep::SelectionCopyAndClear,
            before,
            after,
            elapsed,
        ) == if before.clipboard_readable {
            run
        } else {
            RunModel {
                skipped: run.skipped.push("selection-copy-clipboard-unavailable"@),
                ..run
            }
        },
        controller::run_after(
            run,
            background,
            AutomationStep::SettingsBackgroundAlternate,
            before,
            after,
            elapsed,
        ) == (RunModel { original_background: Some(background), ..run }),
        controller::run_after(
            run,
            background,
            AutomationStep::CleanupBarrierFinal,
            before,
            after,
            elapsed,
        ) == (RunModel { cleanup_final: true, ..run }),
        controller::run_after(
            run,
            background,
            AutomationStep::Complete(block),
            before,
            after,
            elapsed,
        ) == if run.completed.contains(scenario::block_name(block)) {
            run
        } else {
            RunModel { completed: run.completed.push(scenario::block_name(block)), ..run }
        },
        controller::run_after(run, background, AutomationStep::Finish, before, after, elapsed)
            == if run.completed == report::all_names() && run.cleanup_final {
            RunModel { completed: run.completed.push("finish"@), ..run }
        } else {
            run
        },
        controller::run_after(run, background, AutomationStep::CreateTab, before, after, elapsed)
            == run,
{
}

/// Whether a step does these things.
pub open spec fn does(
    run: RunModel,
    path: Seq<u8>,
    background: Seq<char>,
    step: AutomationStep,
    seen: Observed,
    inputs: Seq<InputModel>,
) -> bool {
    controller::inputs_of(run, path, background, step, seen) == Ok::<
        Option<Seq<InputModel>>,
        AutomationError,
    >(Some(inputs))
}

/// Whether a step has to wait before it does anything.
pub open spec fn holds_still(
    run: RunModel,
    path: Seq<u8>,
    background: Seq<char>,
    step: AutomationStep,
    seen: Observed,
) -> bool {
    controller::inputs_of(run, path, background, step, seen) == Ok::<
        Option<Seq<InputModel>>,
        AutomationError,
    >(None)
}

/// Whether a step cannot be done.
pub open spec fn is_refused(
    run: RunModel,
    path: Seq<u8>,
    background: Seq<char>,
    step: AutomationStep,
    seen: Observed,
    error: AutomationError,
) -> bool {
    controller::inputs_of(run, path, background, step, seen) == Err::<
        Option<Seq<InputModel>>,
        AutomationError,
    >(error)
}

/// A key with the bits of its modifier keys.
pub open spec fn key(bits: u8, code: KeyCode) -> InputModel {
    InputModel::Key { modifiers: Modifiers(bits), code }
}

/// What the steps in the terminal and in the search do.
pub proof fn terminal_steps_do(
    run: RunModel,
    path: Seq<u8>,
    background: Seq<char>,
    seen: Observed,
    phase: FixturePhase,
    query: &'static str,
    lines: i32,
    count: u8,
)
    ensures
        does(
            run,
            path,
            background,
            AutomationStep::BasicInputEdit,
            seen,
            seq![
                InputModel::Text("printf '%s%s\\n' '__RONSOLE_PGO_INPUT_' 'edix'"@),
                key(0, KeyCode::ArrowLeft),
                key(0, KeyCode::Backspace),
                InputModel::Text("t"@),
                key(0, KeyCode::ArrowRight),
                key(0, KeyCode::Enter),
            ],
        ),
        does(
            run,
            path,
            background,
            AutomationStep::UnicodeInput,
            seen,
            seq![
                InputModel::Text(
                    "printf '%s%s\\n' '__RONSOLE_PGO_UNICODE_' 'ok-Привет-Latin-界-é-😀'"@,
                ),
                key(0, KeyCode::Enter),
            ],
        ),
        valid_utf8(path) ==> does(
            run,
            path,
            background,
            AutomationStep::StartFixture(phase),
            seen,
            seq![
                InputModel::Text(
                    report::command_text(report::shell_quoted(decode_utf8(path)), phase),
                ),
                key(0, KeyCode::Enter),
            ],
        ),
        !valid_utf8(path) ==> is_refused(
            run,
            path,
            background,
            AutomationStep::StartFixture(phase),
            seen,
            AutomationError::PathNotUtf8,
        ),
        seen.body_visible ==> does(
            run,
            path,
            background,
            AutomationStep::PositionTerminalPointer,
            seen,
            seq![InputModel::PointToBody],
        ),
        !seen.body_visible ==> holds_still(
            run,
            path,
            background,
            AutomationStep::PositionTerminalPointer,
            seen,
        ),
        does(
            run,
            path,
            background,
            AutomationStep::ScrollImpulses { lines, count },
            seen,
            Seq::new(count as nat, |i: int| InputModel::Scroll { lines }),
        ),
        seen.cells_visible && seen.visible_rows >= 4 ==> does(
            run,
            path,
            background,
            AutomationStep::SelectionDrag,
            seen,
            seq![InputModel::DragOverText],
        ),
        !seen.cells_visible || seen.visible_rows < 4 ==> holds_still(
            run,
            path,
            background,
            AutomationStep::SelectionDrag,
            seen,
        ),
        does(
            run,
            path,
            background,
            AutomationStep::SelectionCopyAndClear,
            seen,
            seq![
                if seen.clipboard_readable {
                    InputModel::CopySelection
                } else {
                    InputModel::ClearSelection
                },
            ],
        ),
        does(
            run,
            path,
            background,
            AutomationStep::SearchOpenQuery(query),
            seen,
            seq![key(2, KeyCode::KeyF), InputModel::Text(query@)],
        ),
        does(run, path, background, AutomationStep::SearchNext, seen, seq![key(0, KeyCode::Enter)]),
        does(
            run,
            path,
            background,
            AutomationStep::SearchPrevious,
            seen,
            seq![key(1, KeyCode::Enter)],
        ),
        does(
            run,
            path,
            background,
            AutomationStep::SearchClose,
            seen,
            seq![key(0, KeyCode::Escape)],
        ),
        !seen.search_visible ==> holds_still(
            run,
            path,
            background,
            AutomationStep::SearchToggleCase,
            seen,
        ),
        seen.search_visible && !seen.case_toggle_visible ==> is_refused(
            run,
            path,
            background,
            AutomationStep::SearchToggleCase,
            seen,
            AutomationError::CaseToggleHidden,
        ),
        seen.search_visible && seen.case_toggle_visible ==> does(
            run,
            path,
            background,
            AutomationStep::SearchToggleCase,
            seen,
            seq![InputModel::ClickCaseToggle],
        ),
{
}

/// What the steps on the window, the tabs and the settings do.
pub proof fn window_steps_do(
    run: RunModel,
    path: Seq<u8>,
    background: Seq<char>,
    seen: Observed,
    plan: ResizePlan,
    original: Seq<char>,
    required: u8,
)
    ensures
        run.resize_plan == Some(plan) ==> does(
            run,
            path,
            background,
            AutomationStep::Resize(ResizeKind::Narrow),
            seen,
            seq![InputModel::Resize { width: plan.narrow.0, height: plan.narrow.1 }],
        ) && does(
            run,
            path,
            background,
            AutomationStep::Resize(ResizeKind::Wide),
            seen,
            seq![InputModel::Resize { width: plan.wide.0, height: plan.wide.1 }],
        ) && does(
            run,
            path,
            background,
            AutomationStep::Resize(ResizeKind::Original),
            seen,
            seq![InputModel::Resize { width: plan.original.0, height: plan.original.1 }],
        ),
        run.resize_plan is None ==> is_refused(
            run,
            path,
            background,
            AutomationStep::Resize(ResizeKind::Wide),
            seen,
            AutomationError::NoResizePlan,
        ),
        does(
            run,
            path,
            background,
            AutomationStep::WaitPresentedFrame,
            seen,
            if seen.renderable && !run.armed {
                seq![InputModel::RequestFrame]
            } else {
                Seq::empty()
            },
        ),
        !seen.alternate_screen ==> is_refused(
            run,
            path,
            background,
            AutomationStep::WaitAltPresentedFrames(required),
            seen,
            AutomationError::AlternateScreenLeft,
        ),
        seen.alternate_screen ==> does(
            run,
            path,
            background,
            AutomationStep::WaitAltPresentedFrames(required),
            seen,
            if !run.armed || (!seen.dirty && run.alt_frames_seen + 1 < required) {
                seq![InputModel::RequestFrame]
            } else {
                Seq::empty()
            },
        ),
        does(run, path, background, AutomationStep::CreateTab, seen, seq![key(3, KeyCode::KeyT)]),
        seen.window && seen.tabs_overflow ==> does(
            run,
            path,
            background,
            AutomationStep::ScrollTabStrip,
            seen,
            seq![
                InputModel::PointToTabs,
                InputModel::Scroll { lines: -4i32 },
                InputModel::Scroll { lines: -4i32 },
                InputModel::Scroll { lines: -4i32 },
                InputModel::Scroll { lines: -4i32 },
            ],
        ),
        !seen.window || !seen.tabs_overflow ==> holds_still(
            run,
            path,
            background,
            AutomationStep::ScrollTabStrip,
            seen,
        ),
        seen.other_tab is Some ==> does(
            run,
            path,
            background,
            AutomationStep::SwitchVisibleOverflowTab,
            seen,
            seq![InputModel::ClickOtherTab],
        ),
        seen.other_tab is None ==> holds_still(
            run,
            path,
            background,
            AutomationStep::SwitchVisibleOverflowTab,
            seen,
        ),
        seen.window && seen.tab_visible ==> does(
            run,
            path,
            background,
            AutomationStep::DragReorderVisibleTab,
            seen,
            seq![InputModel::DragTab],
        ),
        !seen.window || !seen.tab_visible ==> holds_still(
            run,
            path,
            background,
            AutomationStep::DragReorderVisibleTab,
            seen,
        ),
        seen.tabs <= 1 ==> is_refused(
            run,
            path,
            background,
            AutomationStep::CloseActiveTab,
            seen,
            AutomationError::FinalTerminal,
        ),
        seen.tabs > 1 ==> does(
            run,
            path,
            background,
            AutomationStep::CloseActiveTab,
            seen,
            seq![key(2, KeyCode::Digit4)],
        ),
        does(
            run,
            path,
            background,
            AutomationStep::WaitPendingCleanupQueue,
            seen,
            seq![InputModel::FlushCleanup],
        ),
        does(
            run,
            path,
            background,
            AutomationStep::CleanupBarrierRestart,
            seen,
            seq![InputModel::RestartCleanup],
        ),
        does(
            run,
            path,
            background,
            AutomationStep::CleanupBarrierFinal,
            seen,
            seq![InputModel::FinishCleanup],
        ),
        does(run, path, background, AutomationStep::SettingsOpen, seen, seq![key(0, KeyCode::F1)]),
        does(run, path, background, AutomationStep::SettingsClose, seen, seq![key(0, KeyCode::F1)]),
        does(
            run,
            path,
            background,
            AutomationStep::SettingsFontIncrease,
            seen,
            seq![
                InputModel::Hit(SettingsHit::Tab(SettingsTab::General)),
                InputModel::Hit(SettingsHit::FontIncrease),
            ],
        ),
        does(
            run,
            path,
            background,
            AutomationStep::SettingsFontDecrease,
            seen,
            seq![InputModel::Hit(SettingsHit::FontDecrease)],
        ),
        does(
            run,
            path,
            background,
            AutomationStep::SettingsScrollIncrease,
            seen,
            seq![InputModel::Hit(SettingsHit::ScrollIncrease)],
        ),
        does(
            run,
            path,
            background,
            AutomationStep::SettingsScrollDecrease,
            seen,
            seq![InputModel::Hit(SettingsHit::ScrollDecrease)],
        ),
        does(
            run,
            path,
            background,
            AutomationStep::SettingsHelp,
            seen,
            seq![InputModel::Hit(SettingsHit::Tab(SettingsTab::Help))],
        ),
        run.original_background == Some(original) ==> does(
            run,
            path,
            background,
            AutomationStep::SettingsBackgroundRestore,
            seen,
            seq![
                InputModel::Hit(SettingsHit::BackgroundField),
                key(2, KeyCode::KeyA),
                InputModel::Text(original),
                key(0, KeyCode::Enter),
            ],
        ),
        run.original_background is None ==> is_refused(
            run,
            path,
            background,
            AutomationStep::SettingsBackgroundRestore,
            seen,
            AutomationError::NoBackground,
        ),
        does(
            run,
            path,
            background,
            AutomationStep::SettingsBackgroundAlternate,
            seen,
            seq![
                InputModel::Hit(SettingsHit::BackgroundField),
                key(2, KeyCode::KeyA),
                InputModel::Text(
                    if text::same_but_case(background, "#223344"@) {
                        "#445566"@
                    } else {
                        "#223344"@
                    },
                ),
                key(0, KeyCode::Enter),
            ],
        ),
        does(run, path, background, AutomationStep::Finish, seen, Seq::empty()),
        does(run, path, background, AutomationStep::WaitReady, seen, Seq::empty()),
{
}

/// What a step comes to decides what the run does next: it waits, goes on, is over with the last step, or
/// fails with the message of the error.
pub proof fn results_decide_the_next_step(step: AutomationStep, error: AutomationError)
    ensures
        controller::tick_of(step, Ok(StepResult::Pending)) is Waiting,
        controller::tick_of(step, Ok(StepResult::Failed)) == TickModel::Failed(
            "PGO automation step failed"@,
        ),
        step is Finish ==> controller::tick_of(step, Ok(StepResult::Done)) is Finished,
        !(step is Finish) ==> controller::tick_of(step, Ok(StepResult::Done)) is Advanced,
        controller::tick_of(step, Err(error)) == TickModel::Failed(controller::error_text(error)),
{
}

/// Where the application asks to end at a press or a release, the run fails by what was pressed or let
/// go; typing, pointing and scrolling ask for no end.
pub proof fn exits_have_causes(modifiers: Modifiers, code: KeyCode, released: bool, lines: i32)
    ensures
        controller::exit_error(InputModel::Key { modifiers, code }, released) == Some(
            AutomationError::UnexpectedExit(ExitCause::Key(code)),
        ),
        controller::exit_error(InputModel::CopySelection, released) == Some(
            AutomationError::UnexpectedExit(ExitCause::Key(KeyCode::KeyC)),
        ),
        controller::exit_error(InputModel::DragOverText, false) == Some(
            AutomationError::UnexpectedExit(ExitCause::Selection),
        ),
        controller::exit_error(InputModel::DragOverText, true) == Some(
            AutomationError::UnexpectedExit(ExitCause::SelectionRelease),
        ),
        controller::exit_error(InputModel::ClickCaseToggle, released) == Some(
            AutomationError::UnexpectedExit(ExitCause::CaseToggle),
        ),
        controller::exit_error(InputModel::ClickOtherTab, released) == Some(
            AutomationError::UnexpectedExit(ExitCause::TabSwitch),
        ),
        controller::exit_error(InputModel::DragTab, false) == Some(
            AutomationError::UnexpectedExit(ExitCause::TabDragPress),
        ),
        controller::exit_error(InputModel::DragTab, true) == Some(
            AutomationError::UnexpectedExit(ExitCause::TabDragRelease),
        ),
        controller::exit_error(InputModel::Scroll { lines }, released) is None,
        controller::exit_error(InputModel::PointToBody, released) is None,
        controller::exit_error(InputModel::RequestFrame, released) is None,
{
}

/// A drag changed the order where it went far enough, to another place, and is over.
pub proof fn reorders_are_drags_that_end_elsewhere(drag: TabDragSeen, destination: usize)
    ensures
        drag.passed && drag.destination == Some(destination) && destination != drag.start
            && !drag.still_dragging ==> drag.is_reorder(),
        drag.is_reorder() ==> drag.passed && drag.destination is Some && drag.destination->0
            != drag.start && !drag.still_dragging,
{
}

/// The text that tells that a step is done, and the one that it has failed.
pub proof fn steps_have_markers(marker: &'static str, phase: FixturePhase)
    ensures
        controller::markers_of(AutomationStep::WaitText(marker)) == (Some(marker@), None::<Seq<char>>),
        controller::markers_of(AutomationStep::WaitFixture(phase)) == (
            Some("__RONSOLE_PGO_DONE_"@ + scenario::phase_name(phase)),
            Some("__RONSOLE_PGO_FAIL_"@ + scenario::phase_name(phase)),
        ),
        controller::markers_of(AutomationStep::VerifyProcessTreeStillRunning)
            == controller::markers_of(AutomationStep::WaitFixture(FixturePhase::ProcessTree)),
        controller::markers_of(AutomationStep::Finish) == (None::<Seq<char>>, None::<Seq<char>>),
{
}

/// What went wrong is told with the step, the error, and what kept the report from being written.
pub proof fn failures_name_their_step(
    prefix: Seq<char>,
    step: Seq<char>,
    error: Seq<char>,
    cause: Seq<char>,
)
    ensures
        controller::failure_text(prefix, step, error, WriteModel::Skipped) == prefix + step + ": "@
            + error,
        controller::failure_text(prefix, step, error, WriteModel::Done) == prefix + step + ": "@
            + error,
        controller::failure_text(prefix, step, error, WriteModel::Failed(cause)) == prefix + step
            + ": "@ + error + "; failed to write report: "@ + cause,
{
    assert(controller::failure_text(prefix, step, error, WriteModel::Skipped) =~= prefix + step + ": "@
        + error);
    assert(controller::failure_text(prefix, step, error, WriteModel::Done) =~= prefix + step + ": "@
        + error);
    assert(controller::failure_text(prefix, step, error, WriteModel::Failed(cause)) =~= prefix + step
        + ": "@ + error + "; failed to write report: "@ + cause);
}

/// A step must be over within its time and that of the run, whichever ends first, and a wait is looked at
/// again when it is over.
pub proof fn steps_end_with_the_run(run: controller::AutomationController, duration: u64)
    requires
        run.step_index < run.steps@.len(),
    ensures
        ({
            let step = run.steps@[run.step_index as int];
            let end = run.step_started + scenario::step_timeout(step);
            &&& end <= run.deadline ==> run.step_deadline() == end
            &&& end >= run.deadline ==> run.step_deadline() == run.deadline
            &&& step == AutomationStep::WaitElapsed(duration) && run.step_started + duration
                <= run.step_deadline() ==> run.wake_deadline() == run.step_started + duration
            &&& step == AutomationStep::WaitElapsed(duration) && run.step_started + duration
                >= run.step_deadline() ==> run.wake_deadline() == run.step_deadline()
            &&& !(step is WaitElapsed) ==> run.wake_deadline() == run.step_deadline()
            &&& run.current_name() == scenario::step_name(step)
        }),
{
}

/// A terminal shows a text where one of its last 96 rows holds it, history or screen; a text is held
/// where it stands at some place.
pub proof fn last_rows_are_read(grid: TermGrid, needle: Seq<char>, y: int, at: int)
    ensures
        ({
            let rows = grid.scrollback@ + grid.lines@;
            let row = search::row_text(search::shown_cells(rows[y]@, grid.cols));
            &&& 0 <= y < rows.len() && rows.len() - y <= 96 && 0 <= at && at + needle.len()
                <= row.len() && row.subrange(at, at + needle.len()) == needle ==> screen::shows(
                grid,
                needle,
            )
            &&& screen::shows(grid, needle) ==> exists|k: int|
                0 <= k < rows.len() && rows.len() - k <= 96 && screen::holds(
                    search::row_text(search::shown_cells((#[trigger] rows[k])@, grid.cols)),
                    needle,
                )
        }),
{
    let rows = screen::rows(grid);
    let row = search::row_text(search::shown_cells(rows[y]@, grid.cols));
    if 0 <= at && at + needle.len() <= row.len() && row.subrange(at, at + needle.len()) == needle {
        assert(screen::holds_at(row, needle, at));
    }
    if screen::shows(grid, needle) {
        let k = choose|k: int|
            0 <= k < rows.len() && rows.len() <= k + 96 && screen::holds(
                search::row_text(search::shown_cells((#[trigger] rows[k])@, grid.cols)),
                needle,
            );
        assert(rows[k] == (grid.scrollback@ + grid.lines@)[k]);
    }
}

proof fn run_options_differ()
    ensures
        encode_utf8("--pgo-train"@) != encode_utf8("--pgo-workspace"@),
        encode_utf8("--pgo-train"@) != encode_utf8("--pgo-report"@),
        encode_utf8("--pgo-train"@) != encode_utf8("--pgo-timeout-seconds"@),
        encode_utf8("--pgo-workspace"@) != encode_utf8("--pgo-report"@),
        encode_utf8("--pgo-workspace"@) != encode_utf8("--pgo-timeout-seconds"@),
        encode_utf8("--pgo-report"@) != encode_utf8("--pgo-timeout-seconds"@),
{
    reveal_strlit("--pgo-train");
    reveal_strlit("--pgo-workspace");
    reveal_strlit("--pgo-report");
    reveal_strlit("--pgo-timeout-seconds");
    encode_utf8_decode_utf8("--pgo-train"@);
    encode_utf8_decode_utf8("--pgo-workspace"@);
    encode_utf8_decode_utf8("--pgo-report"@);
    encode_utf8_decode_utf8("--pgo-timeout-seconds"@);
}

/// Each option of the run is read once: `--pgo-train` alone, the others with the argument after them.
pub proof fn run_options_are_read(args: Seq<Seq<u8>>, index: int, read: OptionsRead)
    requires
        0 <= index < args.len(),
    ensures
        ({
            let arg = args[index];
            let value = args[index + 1];
            let missing = index + 1 == args.len();
            let next = options::read_from(args, index, read);
            &&& arg == encode_utf8("--pgo-train"@) && !read.train ==> next == options::read_from(
                args,
                index + 1,
                OptionsRead { train: true, ..read },
            )
            &&& arg == encode_utf8("--pgo-train"@) && read.train ==> next == Err::<
                OptionsRead,
                Seq<char>,
            >("duplicate --pgo-train"@)
            &&& arg == encode_utf8("--pgo-workspace"@) ==> next == if missing {
                Err(text::lossy(arg) + " requires a value"@)
            } else if read.workspace is Some {
                Err("duplicate "@ + text::lossy(arg))
            } else {
                options::read_from(args, index + 2, OptionsRead { workspace: Some(value), ..read })
            }
            &&& arg == encode_utf8("--pgo-report"@) ==> next == if missing {
                Err(text::lossy(arg) + " requires a value"@)
            } else if read.report is Some {
                Err("duplicate "@ + text::lossy(arg))
            } else {
                options::read_from(args, index + 2, OptionsRead { report: Some(value), ..read })
            }
            &&& arg == encode_utf8("--pgo-timeout-seconds"@) && missing ==> next == Err::<
                OptionsRead,
                Seq<char>,
            >("--pgo-timeout-seconds requires a value"@)
            &&& arg == encode_utf8("--pgo-timeout-seconds"@) && !missing
                && read.timeout_seconds is Some ==> next == Err::<OptionsRead, Seq<char>>(
                "duplicate --pgo-timeout-seconds"@,
            )
            &&& arg == encode_utf8("--pgo-timeout-seconds"@) && !missing
                && read.timeout_seconds is None ==> match options::seconds_of(value) {
                Ok(seconds) => next == options::read_from(
                    args,
                    index + 2,
                    OptionsRead { timeout_seconds: Some(seconds), ..read },
                ),
                Err(error) => next == Err::<OptionsRead, Seq<char>>(error),
            }
            &&& arg != encode_utf8("--pgo-train"@) && arg != encode_utf8("--pgo-workspace"@) && arg
                != encode_utf8("--pgo-report"@) && arg != encode_utf8("--pgo-timeout-seconds"@)
                ==> next == Err::<OptionsRead, Seq<char>>(
                "unknown PGO automation argument: "@ + text::lossy(arg),
            )
        }),
        options::read_from(args, args.len() as int, read) == Ok::<OptionsRead, Seq<char>>(read),
{
    run_options_differ();
}

/// The seconds of the run are a number above zero.
pub proof fn seconds_are_read_back(n: u64)
    ensures
        n > 0 ==> options::seconds_of(encode_utf8(text::decimal(n as nat))) == Ok::<u64, Seq<char>>(n),
        options::seconds_of(encode_utf8(text::decimal(0))) == Err::<u64, Seq<char>>(
            "--pgo-timeout-seconds must be greater than zero"@,
        ),
{
    text::laws::decimal_is_read_back(n as nat, u64::MAX as int);
    text::laws::decimal_is_read_back(0, u64::MAX as int);
    encode_utf8_valid_utf8(text::decimal(n as nat));
    encode_utf8_valid_utf8(text::decimal(0));
}

/// What is no number, or not text, is refused as seconds.
pub proof fn other_seconds_are_refused(value: Seq<u8>)
    ensures
        !valid_utf8(value) ==> options::seconds_of(value) == Err::<u64, Seq<char>>(
            "--pgo-timeout-seconds must be valid UTF-8"@,
        ),
        valid_utf8(value) && text::parsed_unsigned(value, 18_446_744_073_709_551_615) is None
            ==> options::seconds_of(value) == Err::<u64, Seq<char>>(
            "--pgo-timeout-seconds must be a positive integer"@,
        ),
{
}

/// The options are whole with a workspace, a report and a time, looked at in this order, and then with
/// both paths absolute.
pub proof fn run_options_are_all_required(read: OptionsRead)
    ensures
        ({
            let whole = options::completed(read);
            let rooted = |path: Seq<u8>| path.len() > 0 && path[0] == 0x2f;
            &&& read.workspace is None ==> whole == Err::<OptionsModel, Seq<char>>(
                "--pgo-workspace is required"@,
            )
            &&& read.workspace is Some && read.report is None ==> whole == Err::<
                OptionsModel,
                Seq<char>,
            >("--pgo-report is required"@)
            &&& read.workspace is Some && read.report is Some && read.timeout_seconds is None ==> whole
                == Err::<OptionsModel, Seq<char>>("--pgo-timeout-seconds is required"@)
            &&& read.workspace is Some && read.report is Some && read.timeout_seconds is Some ==> {
                &&& !rooted(read.workspace->0) ==> whole == Err::<OptionsModel, Seq<char>>(
                    "--pgo-workspace must be an absolute path"@,
                )
                &&& rooted(read.workspace->0) && !rooted(read.report->0) ==> whole == Err::<
                    OptionsModel,
                    Seq<char>,
                >("--pgo-report must be an absolute path"@)
                &&& rooted(read.workspace->0) && rooted(read.report->0) ==> whole == Ok::<
                    OptionsModel,
                    Seq<char>,
                >(
                    OptionsModel {
                        workspace: read.workspace->0,
                        report: read.report->0,
                        timeout_seconds: read.timeout_seconds->0,
                    },
                )
            }
        }),
{
}

/// The run is asked for by `--pgo-train` anywhere behind the name of the program, and by nothing else.
pub proof fn run_is_asked_for(args: Seq<Seq<u8>>, at: int)
    ensures
        1 <= at < args.len() && args[at] == encode_utf8("--pgo-train"@) ==> options::parsed(args)
            != Ok::<Option<OptionsModel>, Seq<char>>(None),
        (forall|i: int| 1 <= i < args.len() ==> (#[trigger] args[i]) != encode_utf8("--pgo-train"@))
            ==> options::parsed(args) == Ok::<Option<OptionsModel>, Seq<char>>(None),
        !options::nothing_read().train && options::nothing_read().workspace is None
            && options::nothing_read().report is None && options::nothing_read().timeout_seconds is None,
{
}

/// The command of a phase runs the script with the word of the phase and prints whether it succeeded; the
/// tree of processes first prints that it starts.
pub proof fn commands_name_their_phase(path: Seq<char>, phase: FixturePhase)
    ensures
        ({
            let word = scenario::phase_name(phase);
            let run = "/bin/sh "@ + path + " "@ + word
                + "; rc=$?; if [ \"$rc\" -eq 0 ]; then printf '%s%s\\n' '__RONSOLE_PGO_DONE_' '"@
                + word + "'; else printf '%s%s:%s\\n' '__RONSOLE_PGO_FAIL_' '"@ + word
                + "' \"$rc\"; fi"@;
            report::command_text(path, phase) == if phase is ProcessTree {
                "printf '%s%s\\n' '__RONSOLE_PGO_PROCESS_' 'TREE_STARTED'; "@ + run
            } else {
                run
            }
        }),
{
    let word = scenario::phase_name(phase);
    let run = "/bin/sh "@ + path + " "@ + word
        + "; rc=$?; if [ \"$rc\" -eq 0 ]; then printf '%s%s\\n' '__RONSOLE_PGO_DONE_' '"@ + word
        + "'; else printf '%s%s:%s\\n' '__RONSOLE_PGO_FAIL_' '"@ + word + "' \"$rc\"; fi"@;
    let start = "printf '%s%s\\n' '__RONSOLE_PGO_PROCESS_' 'TREE_STARTED'; "@;
    if phase is ProcessTree {
        assert(report::command_text(path, phase) =~= start + run);
    } else {
        assert(report::command_text(path, phase) =~= run);
    }
}

/// A character that JSON lets stand stands for itself, and the others are escaped: quotes and backslashes
/// behind a backslash, line ends and tabs by a letter, other control characters by their number.
pub proof fn characters_are_escaped_for_json(c: char)
    ensures
        c != '"' && c != '\\' && c as u32 >= 0x20 ==> report::escaped_char(c) == seq![c],
        report::escaped_char('"') == seq!['\\', '"'],
        report::escaped_char('\\') == seq!['\\', '\\'],
        report::escaped_char('\n') == seq!['\\', 'n'],
        report::escaped_char('\r') == seq!['\\', 'r'],
        report::escaped_char('\t') == seq!['\\', 't'],
        (c as u32) < 0x20 && c != '\n' && c != '\r' && c != '\t' ==> report::escaped_char(c).len() == 6
            && report::escaped_char(c)[1] == 'u',
        report::json_read(report::escaped(seq![c])) == Some(seq![c]),
{
    report::quoted_text_is_read_back(seq![c]);
}

/// Texts in a list stand in quotes, in their order, with a comma and a blank between them.
pub proof fn quoted_texts_are_listed(values: Seq<Seq<char>>, value: Seq<char>)
    ensures
        report::quoted_list(Seq::empty()).len() == 0,
        report::quoted_list(seq![value]) == seq!['"'] + report::escaped(value) + seq!['"'],
        values.len() > 0 ==> report::quoted_list(values.push(value)) == report::quoted_list(values)
            + seq![',', ' ', '"'] + report::escaped(value) + seq!['"'],
{
    assert(values.push(value).drop_last() =~= values);
}

/// The report has its fields in this order; the step that failed and the error stand in it where there
/// are any.
pub proof fn report_has_its_fields(
    status: Seq<char>,
    completed: Seq<Seq<char>>,
    skipped: Seq<Seq<char>>,
    duration: nat,
    step: Seq<char>,
    error: Seq<char>,
)
    ensures
        ({
            let fields = "{\n  \"status\": \""@ + report::escaped(status)
                + "\",\n  \"scenario_version\": "@ + text::decimal(1)
                + ",\n  \"completed_steps\": ["@ + report::quoted_list(completed)
                + "],\n  \"skipped_steps\": ["@ + report::quoted_list(skipped)
                + "],\n  \"duration_ms\": "@ + text::decimal(duration);
            let failed = ",\n  \"failed_step\": \""@ + report::escaped(step) + "\""@;
            let wrong = ",\n  \"error\": \""@ + report::escaped(error) + "\""@;
            &&& report::report_text(status, completed, skipped, duration, None, None) == fields
                + "\n}\n"@
            &&& report::report_text(status, completed, skipped, duration, Some(step), Some(error))
                == fields + failed + wrong + "\n}\n"@
            &&& report::report_text(status, completed, skipped, duration, Some(step), None) == fields
                + failed + "\n}\n"@
            &&& report::report_text(status, completed, skipped, duration, None, Some(error)) == fields
                + wrong + "\n}\n"@
        }),
{
    let nothing = Seq::<char>::empty();
    let fields = "{\n  \"status\": \""@ + report::escaped(status) + "\",\n  \"scenario_version\": "@
        + text::decimal(1) + ",\n  \"completed_steps\": ["@ + report::quoted_list(completed)
        + "],\n  \"skipped_steps\": ["@ + report::quoted_list(skipped) + "],\n  \"duration_ms\": "@
        + text::decimal(duration);
    let failed = ",\n  \"failed_step\": \""@ + report::escaped(step) + "\""@;
    let wrong = ",\n  \"error\": \""@ + report::escaped(error) + "\""@;
    assert(fields + nothing =~= fields);
    assert((fields + failed) + nothing =~= fields + failed);
}

/// The names of all parts stand in their order.
pub proof fn all_names_are_those_of_the_parts(i: int)
    requires
        0 <= i < 14,
    ensures
        report::all_names().len() == 14,
        report::all_names()[i] == scenario::block_name(scenario::all_blocks()[i]),
{
}

/// Options are read as they are expected: the same error, no run, or the same values.
pub proof fn options_are_read_exactly(
    result: Result<Option<options::AutomationOptions>, String>,
    expected: Result<Option<OptionsModel>, Seq<char>>,
)
    requires
        options::reads_as(result, expected),
    ensures
        expected is Err <==> result is Err,
        expected matches Err(error) ==> (result matches Err(message) && message@ == error),
        expected == Ok::<Option<OptionsModel>, Seq<char>>(None) ==> (result matches Ok(None)),
        expected matches Ok(Some(model)) ==> (result matches Ok(Some(read)) && read.workspace@
            == model.workspace && read.report@ == model.report && read.timeout_seconds
            == model.timeout_seconds),
{
}

/// What a step does is done in its order, all of it.
pub proof fn inputs_are_done_in_order(
    inputs: Result<Option<Vec<controller::AutomationInput>>, AutomationError>,
    expected: Result<Option<Seq<InputModel>>, AutomationError>,
    i: int,
)
    requires
        controller::inputs_are(inputs, expected),
    ensures
        expected matches Err(error) ==> inputs == Err::<
            Option<Vec<controller::AutomationInput>>,
            AutomationError,
        >(error),
        expected matches Ok(None) ==> (inputs matches Ok(None)),
        expected matches Ok(Some(list)) ==> (inputs matches Ok(Some(done)) && done@.len() == list.len()
            && (0 <= i < list.len() ==> done@[i]@ == list[i])),
{
    if let Ok(Some(list)) = expected {
        if let Ok(Some(done)) = inputs {
            assert(controller::input_views(done@).len() == done@.len());
            if 0 <= i < list.len() {
                assert(controller::input_views(done@)[i] == done@[i]@);
            }
        }
    }
}

/// A run that has gone on is at the next step, with its time started anew and no frame asked for; a run
/// that goes on as another is at its step, with its times and its report.
pub proof fn runs_go_on_step_by_step(
    before: controller::AutomationController,
    after: controller::AutomationController,
    now: u64,
)
    ensures
        after.went_on_from(before, now) && before.step_index < usize::MAX ==> {
            &&& after.step_index == before.step_index + 1
            &&& after.step_started == now
            &&& !after.presented_frame_armed
            &&& after.steps@ == before.steps@ && after.fixture_path@ == before.fixture_path@
            &&& after.started == before.started && after.deadline == before.deadline
            &&& after.report_written == before.report_written
            &&& after.run() == (RunModel { armed: false, ..before.run() })
        },
        after.goes_on_as(before) ==> {
            &&& after.step_index == before.step_index && after.step_started == before.step_started
            &&& after.steps@ == before.steps@ && after.fixture_path@ == before.fixture_path@
            &&& after.started == before.started && after.deadline == before.deadline
            &&& after.report_written == before.report_written
        },
        before.run().armed == before.presented_frame_armed,
        before.run().cleanup_final == before.terminal_cleanup_finalized,
        before.run().original_cols == before.original_cols,
        before.run().narrow_cols == before.narrow_cols,
        before.run().alt_frames_seen == before.alt_frames_seen,
        before.run().resize_plan == before.resize_plan,
{
    assert(after.went_on_from(before, now) ==> after.run().armed == after.presented_frame_armed);
}

} // verus!
