//! The scripted run itself: what each step does, when it is over and when the run has failed.
use vstd::prelude::*;
use vstd::utf8::*;

use crate::automation::report;
use crate::automation::scenario;
use crate::automation::scenario::{
    AutomationStep, FixturePhase, ResizeKind, ResizePlan, SemanticBlock, STEP_TIMEOUT_MS,
    TAB_TRAINING_COUNT,
};
use crate::input_types;
use crate::input_types::{KeyCode, Modifiers};
use crate::settings::{SettingsHit, SettingsTab};
use crate::text;

verus! {

/// What a step does to the application.
#[derive(Debug, PartialEq, Eq)]
pub enum AutomationInput {
    /// Text is typed.
    Text(String),
    /// A key is pressed and released.
    Key { modifiers: Modifiers, code: KeyCode },
    /// The window is given a size.
    Resize { width: u32, height: u32 },
    /// A frame is asked for.
    RequestFrame,
    /// The pointer goes to the middle of the terminal.
    PointToBody,
    /// The pointer goes to the middle of the tabs.
    PointToTabs,
    /// The wheel turns by so many lines.
    Scroll { lines: i32 },
    /// The pointer drags over text of the terminal.
    DragOverText,
    /// The selection is copied, and the clipboard then holds what it held before.
    CopySelection,
    /// The selection is taken away.
    ClearSelection,
    /// The control of the search that changes whether case matters is clicked.
    ClickCaseToggle,
    /// A tab that is not active is clicked.
    ClickOtherTab,
    /// A tab is dragged to the other end of the tabs.
    DragTab,
    /// The processes that wait for the worker are handed to it.
    FlushCleanup,
    /// The worker ends what it has, and starts anew.
    RestartCleanup,
    /// The worker ends what it has.
    FinishCleanup,
    /// A control of the settings is clicked.
    Hit(SettingsHit),
}

/// The contents of what a step does.
pub enum InputModel {
    Text(Seq<char>),
    Key { modifiers: Modifiers, code: KeyCode },
    Resize { width: u32, height: u32 },
    RequestFrame,
    PointToBody,
    PointToTabs,
    Scroll { lines: i32 },
    DragOverText,
    CopySelection,
    ClearSelection,
    ClickCaseToggle,
    ClickOtherTab,
    DragTab,
    FlushCleanup,
    RestartCleanup,
    FinishCleanup,
    Hit(SettingsHit),
}

impl View for AutomationInput {
    type V = InputModel;

    open spec fn view(&self) -> InputModel {
        match self {
            AutomationInput::Text(value) => InputModel::Text(value@),
            AutomationInput::Key { modifiers, code } => InputModel::Key {
                modifiers: *modifiers,
                code: *code,
            },
            AutomationInput::Resize { width, height } => InputModel::Resize {
                width: *width,
                height: *height,
            },
            AutomationInput::RequestFrame => InputModel::RequestFrame,
            AutomationInput::PointToBody => InputModel::PointToBody,
            AutomationInput::PointToTabs => InputModel::PointToTabs,
            AutomationInput::Scroll { lines } => InputModel::Scroll { lines: *lines },
            AutomationInput::DragOverText => InputModel::DragOverText,
            AutomationInput::CopySelection => InputModel::CopySelection,
            AutomationInput::ClearSelection => InputModel::ClearSelection,
            AutomationInput::ClickCaseToggle => InputModel::ClickCaseToggle,
            AutomationInput::ClickOtherTab => InputModel::ClickOtherTab,
            AutomationInput::DragTab => InputModel::DragTab,
            AutomationInput::FlushCleanup => InputModel::FlushCleanup,
            AutomationInput::RestartCleanup => InputModel::RestartCleanup,
            AutomationInput::FinishCleanup => InputModel::FinishCleanup,
            AutomationInput::Hit(hit) => InputModel::Hit(*hit),
        }
    }
}

/// The contents of what steps do.
pub open spec fn input_views(inputs: Seq<AutomationInput>) -> Seq<InputModel> {
    inputs.map_values(|input: AutomationInput| input@)
}

/// What is seen of the drag of a tab.
#[derive(Clone, Copy, Debug, PartialEq, Eq)]
pub struct TabDragSeen {
    /// Whether the pointer went far enough for a drag.
    pub passed: bool,
    /// Where the tab was to go when it was let go.
    pub destination: Option<usize>,
    /// Where it came from.
    pub start: usize,
    /// Whether a tab is dragged still.
    pub still_dragging: bool,
}

impl TabDragSeen {
    /// Whether the drag changed the order of the tabs.
    pub open spec fn is_reorder(self) -> bool {
        self.passed && self.destination is Some && self.destination != Some(self.start)
            && !self.still_dragging
    }
}

/// Whether a drag changed the order of the tabs: it went far enough, to another place than where it
/// came from, and is over.
pub fn reordered(passed: bool, destination: Option<usize>, start: usize, still_dragging: bool) -> (done:
    bool)
    ensures
        done == (passed && destination is Some && destination != Some(start) && !still_dragging),
{
    match destination {
        Some(destination) => passed && destination != start && !still_dragging,
        None => false,
    }
}

/// What is seen of the application.
#[derive(Clone, Copy, Debug, PartialEq, Eq)]
pub struct Observed {
    /// Whether there is a window.
    pub window: bool,
    /// The size of the window.
    pub size: (u32, u32),
    /// Whether a frame can be drawn.
    pub renderable: bool,
    /// Whether something changed since the last frame.
    pub dirty: bool,
    /// How many tabs there are.
    pub tabs: usize,
    /// The index of the active tab.
    pub active: usize,
    /// Whether there is an active terminal.
    pub has_terminal: bool,
    /// Whether the active terminal is shown.
    pub presented: bool,
    /// Whether the active terminal is ready to be shown.
    pub ready: bool,
    /// Whether a terminal waits to be shown.
    pub waiting: bool,
    /// The columns and rows of the active terminal, as they are laid out.
    pub cols: usize,
    pub visible_rows: usize,
    /// Whether the body of the active terminal has an extent.
    pub body_visible: bool,
    /// Whether its cells have an extent.
    pub cells_visible: bool,
    /// Whether it shows the alternate screen.
    pub alternate_screen: bool,
    /// Whether it has a selection.
    pub selection: bool,
    /// Whether the text that tells that a step is done is on the screen.
    pub done_text: bool,
    /// Whether the text that tells that a step has failed is on the screen.
    pub failed_text: bool,
    /// Whether the view has come to rest, is away from the end, and is nearer to it than before.
    pub scroll_settled: bool,
    pub scrolled_away: bool,
    pub scrolled_nearer: bool,
    /// Whether the search is laid out, and its control for case has an extent.
    pub search_visible: bool,
    pub case_toggle_visible: bool,
    /// Whether there are more tabs than there is room for, and whether they have come to rest away
    /// from their start.
    pub tabs_overflow: bool,
    pub tabs_scrolled: bool,
    /// Whether there is a tab to drag, and the index of one that is not active, as they can be seen.
    pub tab_visible: bool,
    pub other_tab: Option<usize>,
    /// The last drag of a tab.
    pub tab_drag: TabDragSeen,
    /// Whether no process waits for the worker.
    pub cleanup_empty: bool,
    /// Whether the settings are open, and whether they have come to rest.
    pub settings_open: bool,
    pub settings_settled: bool,
    /// Whether the clipboard can be read.
    pub clipboard_readable: bool,
}

/// What can go wrong with a step.
#[derive(Clone, Copy, Debug, PartialEq, Eq, Structural)]
pub enum AutomationError {
    PathNotUtf8,
    NoResizePlan,
    AlternateScreenLeft,
    FixtureFailed(FixturePhase),
    CaseToggleHidden,
    NoTerminalCreated,
    TooFewTerminals,
    NoReorder,
    FinalTerminal,
    NoTerminalClosed,
    SettingsNotOpened,
    NoBackground,
    SettingsNotClosed,
    ProcessTreeFailed,
    ProcessTreeDone,
    CompletedTwice(SemanticBlock),
    Incomplete,
    CleanupNotFinal,
    UnexpectedExit(ExitCause),
}

/// What a step did when the application asked to end.
#[derive(Clone, Copy, Debug, PartialEq, Eq, Structural)]
pub enum ExitCause {
    Key(KeyCode),
    Selection,
    SelectionRelease,
    CaseToggle,
    TabSwitch,
    TabDragPress,
    TabDragRelease,
}

/// What a step did when the application asked to end, in words.
pub open spec fn cause_text(cause: ExitCause) -> Seq<char> {
    match cause {
        ExitCause::Key(code) => "key "@ + input_types::key_name(code),
        ExitCause::Selection => "selection"@,
        ExitCause::SelectionRelease => "selection release"@,
        ExitCause::CaseToggle => "search case toggle"@,
        ExitCause::TabSwitch => "tab switch"@,
        ExitCause::TabDragPress => "tab drag press"@,
        ExitCause::TabDragRelease => "tab drag release"@,
    }
}

/// What went wrong where the application asks to end at something that a step does: at a press, or
/// where something was let go. Where a step only types, points or scrolls, nothing.
pub open spec fn exit_error(input: InputModel, released: bool) -> Option<AutomationError> {
    let cause = match input {
        InputModel::Key { modifiers, code } => Some(ExitCause::Key(code)),
        InputModel::CopySelection => Some(ExitCause::Key(KeyCode::KeyC)),
        InputModel::DragOverText => Some(
            if released {
                ExitCause::SelectionRelease
            } else {
                ExitCause::Selection
            },
        ),
        InputModel::ClickCaseToggle => Some(ExitCause::CaseToggle),
        InputModel::ClickOtherTab => Some(ExitCause::TabSwitch),
        InputModel::DragTab => Some(
            if released {
                ExitCause::TabDragRelease
            } else {
                ExitCause::TabDragPress
            },
        ),
        _ => None,
    };
    match cause {
        Some(cause) => Some(AutomationError::UnexpectedExit(cause)),
        None => None,
    }
}

/// What went wrong where the application asks to end at something that a step does.
pub fn unexpected_exit(input: &AutomationInput, released: bool) -> (error: Option<AutomationError>)
    ensures
        error == exit_error(input@, released),
{
    let cause = match input {
        AutomationInput::Key { modifiers: _, code } => ExitCause::Key(*code),
        AutomationInput::CopySelection => ExitCause::Key(KeyCode::KeyC),
        AutomationInput::DragOverText => if released {
            ExitCause::SelectionRelease
        } else {
            ExitCause::Selection
        },
        AutomationInput::ClickCaseToggle => ExitCause::CaseToggle,
        AutomationInput::ClickOtherTab => ExitCause::TabSwitch,
        AutomationInput::DragTab => if released {
            ExitCause::TabDragRelease
        } else {
            ExitCause::TabDragPress
        },
        _ => {
            return None;
        },
    };
    Some(AutomationError::UnexpectedExit(cause))
}

/// What something that a step does came to, by whether the application asks to end.
pub fn input_result(exit: bool, input: &AutomationInput, released: bool) -> (result: Result<
    (),
    AutomationError,
>)
    ensures
        result == match exit_error(input@, released) {
            Some(error) if exit => Err::<(), AutomationError>(error),
            _ => Ok(()),
        },
{
    match unexpected_exit(input, released) {
        Some(error) => if exit {
            Err(error)
        } else {
            Ok(())
        },
        None => Ok(()),
    }
}

/// What went wrong, in words.
pub open spec fn error_text(error: AutomationError) -> Seq<char> {
    match error {
        AutomationError::PathNotUtf8 => "PGO fixture path must be valid UTF-8"@,
        AutomationError::NoResizePlan => "resize plan is unavailable before startup readiness"@,
        AutomationError::AlternateScreenLeft =>
        "alternate screen exited before frame sampling completed"@,
        AutomationError::FixtureFailed(phase) => "terminal fixture phase "@ + scenario::phase_name(
            phase,
        ) + " failed"@,
        AutomationError::CaseToggleHidden => "search case-toggle control is not renderable"@,
        AutomationError::NoTerminalCreated =>
        "production NewTab shortcut did not create a terminal"@,
        AutomationError::TooFewTerminals => "tab training did not create enough terminals"@,
        AutomationError::NoReorder => "production tab drag did not perform a bounded reorder"@,
        AutomationError::FinalTerminal =>
        "refusing to close the final terminal during PGO training"@,
        AutomationError::NoTerminalClosed =>
        "production CloseTab shortcut did not close a terminal"@,
        AutomationError::SettingsNotOpened => "production F1 shortcut did not open settings"@,
        AutomationError::NoBackground => "settings background original value was not captured"@,
        AutomationError::SettingsNotClosed => "production F1 shortcut did not close settings"@,
        AutomationError::ProcessTreeFailed => "process-tree fixture failed before cleanup"@,
        AutomationError::ProcessTreeDone => "process-tree fixture completed before cleanup"@,
        AutomationError::CompletedTwice(block) => "semantic block completed twice: "@
            + scenario::block_name(block),
        AutomationError::Incomplete =>
        "mandatory semantic PGO blocks are incomplete or out of order"@,
        AutomationError::CleanupNotFinal => "process cleanup barrier was not finalized"@,
        AutomationError::UnexpectedExit(cause) => cause_text(cause)
            + " unexpectedly requested application exit"@,
    }
}

impl AutomationError {
    /// What went wrong, in words.
    pub fn message(self) -> (message: String)
        ensures
            message@ == error_text(self),
    {
        match self {
            AutomationError::FixtureFailed(phase) => {
                let mut message = text::concat("terminal fixture phase ", phase.as_str());
                message.push_str(" failed");
                message
            },
            AutomationError::UnexpectedExit(cause) => {
                let mut message = match cause {
                    ExitCause::Key(code) => text::concat("key ", code.name()),
                    ExitCause::Selection => "selection".to_owned(),
                    ExitCause::SelectionRelease => "selection release".to_owned(),
                    ExitCause::CaseToggle => "search case toggle".to_owned(),
                    ExitCause::TabSwitch => "tab switch".to_owned(),
                    ExitCause::TabDragPress => "tab drag press".to_owned(),
                    ExitCause::TabDragRelease => "tab drag release".to_owned(),
                };
                message.push_str(" unexpectedly requested application exit");
                message
            },
            AutomationError::CompletedTwice(block) => text::concat(
                "semantic block completed twice: ",
                block.report_name(),
            ),
            AutomationError::PathNotUtf8 => "PGO fixture path must be valid UTF-8".to_owned(),
            AutomationError::NoResizePlan =>
            "resize plan is unavailable before startup readiness".to_owned(),
            AutomationError::AlternateScreenLeft =>
            "alternate screen exited before frame sampling completed".to_owned(),
            AutomationError::CaseToggleHidden =>
            "search case-toggle control is not renderable".to_owned(),
            AutomationError::NoTerminalCreated =>
            "production NewTab shortcut did not create a terminal".to_owned(),
            AutomationError::TooFewTerminals =>
            "tab training did not create enough terminals".to_owned(),
            AutomationError::NoReorder =>
            "production tab drag did not perform a bounded reorder".to_owned(),
            AutomationError::FinalTerminal =>
            "refusing to close the final terminal during PGO training".to_owned(),
            AutomationError::NoTerminalClosed =>
            "production CloseTab shortcut did not close a terminal".to_owned(),
            AutomationError::SettingsNotOpened =>
            "production F1 shortcut did not open settings".to_owned(),
            AutomationError::NoBackground =>
            "settings background original value was not captured".to_owned(),
            AutomationError::SettingsNotClosed =>
            "production F1 shortcut did not close settings".to_owned(),
            AutomationError::ProcessTreeFailed =>
            "process-tree fixture failed before cleanup".to_owned(),
            AutomationError::ProcessTreeDone =>
            "process-tree fixture completed before cleanup".to_owned(),
            AutomationError::Incomplete =>
            "mandatory semantic PGO blocks are incomplete or out of order".to_owned(),
            AutomationError::CleanupNotFinal =>
            "process cleanup barrier was not finalized".to_owned(),
        }
    }
}

/// What a step came to.
#[derive(Clone, Copy, Debug, PartialEq, Eq, Structural)]
pub enum StepResult {
    /// It is not over.
    Pending,
    /// It is over.
    Done,
    /// It has failed.
    Failed,
}

/// What the run does next.
#[derive(Debug, PartialEq, Eq)]
pub enum AutomationTick {
    /// It waits for the step to be over.
    Waiting,
    /// It has gone on to the next step.
    Advanced,
    /// It is over.
    Finished,
    /// It fails, with this error.
    Failed(String),
}

/// The contents of what the run does next.
pub enum TickModel {
    Waiting,
    Advanced,
    Finished,
    Failed(Seq<char>),
}

impl View for AutomationTick {
    type V = TickModel;

    open spec fn view(&self) -> TickModel {
        match self {
            AutomationTick::Waiting => TickModel::Waiting,
            AutomationTick::Advanced => TickModel::Advanced,
            AutomationTick::Finished => TickModel::Finished,
            AutomationTick::Failed(error) => TickModel::Failed(error@),
        }
    }
}

/// What the run does next, by what a step came to.
pub open spec fn tick_of(
    step: AutomationStep,
    result: Result<StepResult, AutomationError>,
) -> TickModel {
    match result {
        Ok(StepResult::Pending) => TickModel::Waiting,
        Ok(StepResult::Failed) => TickModel::Failed("PGO automation step failed"@),
        Ok(StepResult::Done) => if step is Finish {
            TickModel::Finished
        } else {
            TickModel::Advanced
        },
        Err(error) => TickModel::Failed(error_text(error)),
    }
}

/// The scripted run. Times are in milliseconds.
pub struct AutomationController {
    /// The script that runs in the terminal.
    pub fixture_path: Vec<u8>,
    /// The steps.
    pub steps: Vec<AutomationStep>,
    /// The index of the step that is done now.
    pub step_index: usize,
    /// When it started.
    pub step_started: u64,
    /// When the run started.
    pub started: u64,
    /// When the run must be over.
    pub deadline: u64,
    /// The names of the parts that are over, and of the end of the run.
    pub completed_steps: Vec<&'static str>,
    /// The names of what was left out.
    pub skipped_steps: Vec<&'static str>,
    /// The sizes that the window is given.
    pub resize_plan: Option<ResizePlan>,
    /// The columns of the terminal at first, and when the window was narrow.
    pub original_cols: usize,
    pub narrow_cols: usize,
    /// Whether a frame was asked for.
    pub presented_frame_armed: bool,
    /// How many frames of the alternate screen were drawn.
    pub alt_frames_seen: u8,
    /// The background before it was changed.
    pub original_background: Option<String>,
    /// Whether the report was written.
    pub report_written: bool,
    /// Whether all processes were ended.
    pub terminal_cleanup_finalized: bool,
    /// What went wrong.
    pub exit_error: Option<String>,
}

/// The contents of what a run knows while it goes on.
pub struct RunModel {
    pub completed: Seq<Seq<char>>,
    pub skipped: Seq<Seq<char>>,
    pub resize_plan: Option<ResizePlan>,
    pub original_cols: usize,
    pub narrow_cols: usize,
    pub armed: bool,
    pub alt_frames_seen: u8,
    pub original_background: Option<Seq<char>>,
    pub cleanup_final: bool,
}

/// The contents of an optional text.
pub open spec fn text_view(value: Option<String>) -> Option<Seq<char>> {
    match value {
        Some(value) => Some(value@),
        None => None,
    }
}

impl AutomationController {
    /// What the run knows.
    pub open spec fn run(self) -> RunModel {
        RunModel {
            completed: report::texts(self.completed_steps@),
            skipped: report::texts(self.skipped_steps@),
            resize_plan: self.resize_plan,
            original_cols: self.original_cols,
            narrow_cols: self.narrow_cols,
            armed: self.presented_frame_armed,
            alt_frames_seen: self.alt_frames_seen,
            original_background: text_view(self.original_background),
            cleanup_final: self.terminal_cleanup_finalized,
        }
    }

    /// Whether two runs are at the same step of the same scenario, with the same times.
    pub open spec fn is_where(self, other: AutomationController) -> bool {
        &&& self.fixture_path@ == other.fixture_path@
        &&& self.steps@ == other.steps@
        &&& self.step_index == other.step_index
        &&& self.step_started == other.step_started
        &&& self.started == other.started
        &&& self.deadline == other.deadline
    }

    /// Whether two runs are the same but for what they know.
    pub open spec fn goes_on_as(self, other: AutomationController) -> bool {
        &&& self.is_where(other)
        &&& self.report_written == other.report_written
        &&& text_view(self.exit_error) == text_view(other.exit_error)
    }
}

/// A key without modifier keys.
pub open spec fn plain_key(code: KeyCode) -> InputModel {
    InputModel::Key { modifiers: Modifiers(0), code }
}

/// A key with Ctrl.
pub open spec fn ctrl_key(code: KeyCode) -> InputModel {
    InputModel::Key { modifiers: Modifiers(2), code }
}

/// What changes the background in the settings.
pub open spec fn background_inputs(value: Seq<char>) -> Seq<InputModel> {
    seq![
        InputModel::Hit(SettingsHit::BackgroundField),
        ctrl_key(KeyCode::KeyA),
        InputModel::Text(value),
        plain_key(KeyCode::Enter),
    ]
}

/// Another background than the one that there is.
pub open spec fn alternate_background(original: Seq<char>) -> Seq<char> {
    if text::same_but_case(original, "#223344"@) {
        "#445566"@
    } else {
        "#223344"@
    }
}

/// The size of the window for a width.
pub open spec fn planned_size(plan: ResizePlan, kind: ResizeKind) -> (u32, u32) {
    match kind {
        ResizeKind::Narrow => plan.narrow,
        ResizeKind::Wide => plan.wide,
        ResizeKind::Original => plan.original,
    }
}

/// Whether a frame of the alternate screen is to be asked for.
pub open spec fn asks_for_alternate_frame(run: RunModel, seen: Observed, required: u8) -> bool {
    !run.armed || (!seen.dirty && run.alt_frames_seen + 1 < required)
}

/// What a step does to the application, where it can be done; none while it has to wait.
pub open spec fn inputs_of(
    run: RunModel,
    fixture_path: Seq<u8>,
    background: Seq<char>,
    step: AutomationStep,
    seen: Observed,
) -> Result<Option<Seq<InputModel>>, AutomationError> {
    match step {
        AutomationStep::Resize(kind) => match run.resize_plan {
            Some(plan) => {
                let (width, height) = planned_size(plan, kind);
                Ok(Some(seq![InputModel::Resize { width, height }]))
            },
            None => Err(AutomationError::NoResizePlan),
        },
        AutomationStep::BasicInputEdit => Ok(
            Some(
                seq![
                    InputModel::Text("printf '%s%s\\n' '__RONSOLE_PGO_INPUT_' 'edix'"@),
                    plain_key(KeyCode::ArrowLeft),
                    plain_key(KeyCode::Backspace),
                    InputModel::Text("t"@),
                    plain_key(KeyCode::ArrowRight),
                    plain_key(KeyCode::Enter),
                ],
            ),
        ),
        AutomationStep::UnicodeInput => Ok(
            Some(
                seq![
                    InputModel::Text(
                        "printf '%s%s\\n' '__RONSOLE_PGO_UNICODE_' 'ok-Привет-Latin-界-é-😀'"@,
                    ),
                    plain_key(KeyCode::Enter),
                ],
            ),
        ),
        AutomationStep::StartFixture(phase) => if valid_utf8(fixture_path) {
            Ok(
                Some(
                    seq![
                        InputModel::Text(
                            report::command_text(
                                report::shell_quoted(decode_utf8(fixture_path)),
                                phase,
                            ),
                        ),
                        plain_key(KeyCode::Enter),
                    ],
                ),
            )
        } else {
            Err(AutomationError::PathNotUtf8)
        },
        AutomationStep::WaitPresentedFrame => if seen.renderable && !run.armed {
            Ok(Some(seq![InputModel::RequestFrame]))
        } else {
            Ok(Some(seq![]))
        },
        AutomationStep::WaitAltPresentedFrames(required) => if !seen.alternate_screen {
            Err(AutomationError::AlternateScreenLeft)
        } else if asks_for_alternate_frame(run, seen, required) {
            Ok(Some(seq![InputModel::RequestFrame]))
        } else {
            Ok(Some(seq![]))
        },
        AutomationStep::PositionTerminalPointer => if seen.body_visible {
            Ok(Some(seq![InputModel::PointToBody]))
        } else {
            Ok(None)
        },
        AutomationStep::ScrollImpulses { lines, count } => Ok(
            Some(Seq::new(count as nat, |i: int| InputModel::Scroll { lines })),
        ),
        AutomationStep::SelectionDrag => if seen.cells_visible && seen.visible_rows >= 4 {
            Ok(Some(seq![InputModel::DragOverText]))
        } else {
            Ok(None)
        },
        AutomationStep::SelectionCopyAndClear => if seen.clipboard_readable {
            Ok(Some(seq![InputModel::CopySelection]))
        } else {
            Ok(Some(seq![InputModel::ClearSelection]))
        },
        AutomationStep::SearchOpenQuery(query) => Ok(
            Some(seq![ctrl_key(KeyCode::KeyF), InputModel::Text(query@)]),
        ),
        AutomationStep::SearchNext => Ok(Some(seq![plain_key(KeyCode::Enter)])),
        AutomationStep::SearchPrevious => Ok(
            Some(seq![InputModel::Key { modifiers: Modifiers(1), code: KeyCode::Enter }]),
        ),
        AutomationStep::SearchToggleCase => if !seen.search_visible {
            Ok(None)
        } else if !seen.case_toggle_visible {
            Err(AutomationError::CaseToggleHidden)
        } else {
            Ok(Some(seq![InputModel::ClickCaseToggle]))
        },
        AutomationStep::SearchClose => Ok(Some(seq![plain_key(KeyCode::Escape)])),
        AutomationStep::CreateTab => Ok(
            Some(seq![InputModel::Key { modifiers: Modifiers(3), code: KeyCode::KeyT }]),
        ),
        AutomationStep::ScrollTabStrip => if seen.window && seen.tabs_overflow {
            Ok(
                Some(
                    seq![
                        InputModel::PointToTabs,
                        InputModel::Scroll { lines: TAB_SCROLL_LINES },
                        InputModel::Scroll { lines: TAB_SCROLL_LINES },
                        InputModel::Scroll { lines: TAB_SCROLL_LINES },
                        InputModel::Scroll { lines: TAB_SCROLL_LINES },
                    ],
                ),
            )
        } else {
            Ok(None)
        },
        AutomationStep::SwitchVisibleOverflowTab => if seen.other_tab is Some {
            Ok(Some(seq![InputModel::ClickOtherTab]))
        } else {
            Ok(None)
        },
        AutomationStep::DragReorderVisibleTab => if seen.window && seen.tab_visible {
            Ok(Some(seq![InputModel::DragTab]))
        } else {
            Ok(None)
        },
        AutomationStep::CloseActiveTab => if seen.tabs <= 1 {
            Err(AutomationError::FinalTerminal)
        } else {
            Ok(Some(seq![ctrl_key(KeyCode::Digit4)]))
        },
        AutomationStep::WaitPendingCleanupQueue => Ok(Some(seq![InputModel::FlushCleanup])),
        AutomationStep::CleanupBarrierRestart => Ok(Some(seq![InputModel::RestartCleanup])),
        AutomationStep::SettingsOpen | AutomationStep::SettingsClose => Ok(
            Some(seq![plain_key(KeyCode::F1)]),
        ),
        AutomationStep::SettingsFontIncrease => Ok(
            Some(
                seq![
                    InputModel::Hit(SettingsHit::Tab(SettingsTab::General)),
                    InputModel::Hit(SettingsHit::FontIncrease),
                ],
            ),
        ),
        AutomationStep::SettingsFontDecrease => Ok(
            Some(seq![InputModel::Hit(SettingsHit::FontDecrease)]),
        ),
        AutomationStep::SettingsScrollIncrease => Ok(
            Some(seq![InputModel::Hit(SettingsHit::ScrollIncrease)]),
        ),
        AutomationStep::SettingsScrollDecrease => Ok(
            Some(seq![InputModel::Hit(SettingsHit::ScrollDecrease)]),
        ),
        AutomationStep::SettingsBackgroundAlternate => Ok(
            Some(background_inputs(alternate_background(background))),
        ),
        AutomationStep::SettingsBackgroundRestore => match run.original_background {
            Some(original) => Ok(Some(background_inputs(original))),
            None => Err(AutomationError::NoBackground),
        },
        AutomationStep::SettingsHelp => Ok(
            Some(seq![InputModel::Hit(SettingsHit::Tab(SettingsTab::Help))]),
        ),
        AutomationStep::CleanupBarrierFinal => Ok(Some(seq![InputModel::FinishCleanup])),
        _ => Ok(Some(seq![])),
    }
}

/// The lines by which the tabs are scrolled.
pub const TAB_SCROLL_LINES: i32 = -4;

/// Done or not yet.
pub open spec fn done_when(done: bool) -> Result<StepResult, AutomationError> {
    if done {
        Ok(StepResult::Done)
    } else {
        Ok(StepResult::Pending)
    }
}

/// Done or wrong.
pub open spec fn done_unless(wrong: bool, error: AutomationError) -> Result<
    StepResult,
    AutomationError,
> {
    if wrong {
        Err(error)
    } else {
        Ok(StepResult::Done)
    }
}

/// Whether the active terminal is shown and at rest.
pub open spec fn terminal_at_rest(seen: Observed) -> bool {
    &&& !seen.waiting
    &&& seen.presented
    &&& seen.has_terminal
    &&& seen.ready
    &&& seen.cols > 0
    &&& seen.visible_rows > 0
    &&& !seen.dirty
}

/// Whether the application has started.
pub open spec fn has_started(seen: Observed) -> bool {
    &&& seen.window
    &&& seen.has_terminal
    &&& seen.presented
    &&& seen.ready
    &&& seen.cols >= 10
    &&& seen.visible_rows >= 2
    &&& seen.body_visible
    &&& !seen.dirty
}

/// What a step comes to, by what was seen before and after it was done. `elapsed` is how long it has
/// taken.
pub open spec fn result_of(
    run: RunModel,
    step: AutomationStep,
    before: Observed,
    after: Observed,
    elapsed: u64,
) -> Result<StepResult, AutomationError> {
    match step {
        AutomationStep::WaitReady => done_when(has_started(after)),
        AutomationStep::WaitResize(kind) => done_when(
            after.cols != 0 && !after.dirty && match kind {
                ResizeKind::Narrow => after.cols < run.original_cols,
                ResizeKind::Wide => after.cols > run.narrow_cols && after.cols > 1,
                ResizeKind::Original => after.cols == run.original_cols,
            },
        ),
        AutomationStep::WaitText(_) => done_when(after.done_text),
        AutomationStep::WaitFixture(phase) => if after.failed_text {
            Err(AutomationError::FixtureFailed(phase))
        } else {
            done_when(after.done_text)
        },
        AutomationStep::WaitPresentedFrame => done_when(
            before.renderable && run.armed && !before.dirty,
        ),
        AutomationStep::WaitAltScreenEnter => done_when(after.alternate_screen),
        AutomationStep::WaitAltScreenExit => done_when(!after.alternate_screen),
        AutomationStep::WaitAltPresentedFrames(required) => done_when(
            !asks_for_alternate_frame(run, before, required) && !before.dirty,
        ),
        AutomationStep::WaitScrollAway => done_when(
            after.has_terminal && after.scroll_settled && after.scrolled_away,
        ),
        AutomationStep::WaitScrollToward => done_when(
            after.has_terminal && after.scroll_settled && after.scrolled_nearer,
        ),
        AutomationStep::WaitScrollTail => done_when(
            after.has_terminal && after.scroll_settled && !after.scrolled_away,
        ),
        AutomationStep::SelectionDrag => if after.selection {
            Ok(StepResult::Done)
        } else {
            Ok(StepResult::Failed)
        },
        AutomationStep::SelectionCopyAndClear => if after.selection {
            Ok(StepResult::Failed)
        } else {
            Ok(StepResult::Done)
        },
        AutomationStep::CreateTab => done_unless(
            after.tabs != before.tabs + 1,
            AutomationError::NoTerminalCreated,
        ),
        AutomationStep::WaitActiveTerminalReady => done_when(terminal_at_rest(after)),
        AutomationStep::VerifyTabOverflow => if !after.window {
            Ok(StepResult::Pending)
        } else if after.tabs < TAB_TRAINING_COUNT + 1 {
            Err(AutomationError::TooFewTerminals)
        } else {
            done_when(after.tabs_overflow)
        },
        AutomationStep::WaitTabStripScrolled => done_when(after.tabs_scrolled),
        AutomationStep::SwitchVisibleOverflowTab => done_when(
            before.other_tab == Some(after.active) || !after.presented,
        ),
        AutomationStep::DragReorderVisibleTab => done_unless(
            !after.tab_drag.is_reorder(),
            AutomationError::NoReorder,
        ),
        AutomationStep::CloseActiveTab => done_unless(
            after.tabs + 1 != before.tabs,
            AutomationError::NoTerminalClosed,
        ),
        AutomationStep::WaitPendingCleanupQueue => done_when(after.cleanup_empty),
        AutomationStep::SettingsOpen => done_unless(
            !after.settings_open,
            AutomationError::SettingsNotOpened,
        ),
        AutomationStep::WaitSettingsOpen => done_when(after.settings_open && after.settings_settled),
        AutomationStep::SettingsClose => done_unless(
            after.settings_open,
            AutomationError::SettingsNotClosed,
        ),
        AutomationStep::WaitSettingsClosed => done_when(
            !after.settings_open && after.settings_settled,
        ),
        AutomationStep::WaitElapsed(duration) => done_when(elapsed >= duration),
        AutomationStep::VerifyProcessTreeStillRunning => if after.failed_text {
            Err(AutomationError::ProcessTreeFailed)
        } else {
            done_unless(after.done_text, AutomationError::ProcessTreeDone)
        },
        AutomationStep::Complete(block) => done_unless(
            run.completed.contains(scenario::block_name(block)),
            AutomationError::CompletedTwice(block),
        ),
        AutomationStep::Finish => if run.completed != report::all_names() {
            Err(AutomationError::Incomplete)
        } else {
            done_unless(!run.cleanup_final, AutomationError::CleanupNotFinal)
        },
        _ => Ok(StepResult::Done),
    }
}

/// What the run knows after a step was done.
pub open spec fn run_after(
    run: RunModel,
    background: Seq<char>,
    step: AutomationStep,
    before: Observed,
    after: Observed,
    elapsed: u64,
) -> RunModel {
    let done = result_of(run, step, before, after, elapsed) == Ok::<StepResult, AutomationError>(
        StepResult::Done,
    );
    match step {
        AutomationStep::WaitReady if done => RunModel {
            resize_plan: Some(
                ResizePlan {
                    original: (
                        scenario::most(after.size.0 as int, 1) as u32,
                        scenario::most(after.size.1 as int, 1) as u32,
                    ),
                    narrow: (
                        scenario::narrow_width(scenario::most(after.size.0 as int, 1)) as u32,
                        scenario::most(after.size.1 as int, 1) as u32,
                    ),
                    wide: (
                        scenario::wide_width(scenario::most(after.size.0 as int, 1)) as u32,
                        scenario::most(after.size.1 as int, 1) as u32,
                    ),
                },
            ),
            original_cols: after.cols,
            ..run
        },
        AutomationStep::WaitResize(ResizeKind::Narrow) if done => RunModel {
            narrow_cols: after.cols,
            ..run
        },
        AutomationStep::WaitPresentedFrame => RunModel {
            armed: if !before.renderable {
                run.armed
            } else {
                !done
            },
            ..run
        },
        AutomationStep::WaitAltPresentedFrames(_) => if run.armed && before.dirty {
            run
        } else {
            RunModel {
                armed: !done,
                alt_frames_seen: if done {
                    0
                } else if run.armed {
                    (run.alt_frames_seen + 1) as u8
                } else {
                    run.alt_frames_seen
                },
                ..run
            }
        },
        AutomationStep::SelectionCopyAndClear if !before.clipboard_readable => RunModel {
            skipped: run.skipped.push("selection-copy-clipboard-unavailable"@),
            ..run
        },
        AutomationStep::SettingsBackgroundAlternate => RunModel {
            original_background: Some(background),
            ..run
        },
        AutomationStep::CleanupBarrierFinal => RunModel { cleanup_final: true, ..run },
        AutomationStep::Complete(block) if done => RunModel {
            completed: run.completed.push(scenario::block_name(block)),
            ..run
        },
        AutomationStep::Finish if done => RunModel {
            completed: run.completed.push("finish"@),
            ..run
        },
        _ => run,
    }
}

/// Whether inputs are the ones that are expected.
pub open spec fn inputs_are(
    inputs: Result<Option<Vec<AutomationInput>>, AutomationError>,
    expected: Result<Option<Seq<InputModel>>, AutomationError>,
) -> bool {
    match expected {
        Err(error) => inputs == Err::<Option<Vec<AutomationInput>>, AutomationError>(error),
        Ok(None) => inputs matches Ok(None),
        Ok(Some(expected)) => inputs matches Ok(Some(inputs)) && input_views(inputs@) == expected,
    }
}

fn plain(code: KeyCode) -> (input: AutomationInput)
    ensures
        input@ == plain_key(code),
{
    AutomationInput::Key { modifiers: Modifiers(0), code }
}

fn ctrl(code: KeyCode) -> (input: AutomationInput)
    ensures
        input@ == ctrl_key(code),
{
    AutomationInput::Key { modifiers: Modifiers(Modifiers::CONTROL), code }
}

fn typed(value: &str) -> (input: AutomationInput)
    ensures
        input@ == InputModel::Text(value@),
{
    AutomationInput::Text(value.to_owned())
}

fn only(input: AutomationInput) -> (inputs: Option<Vec<AutomationInput>>)
    ensures
        inputs matches Some(inputs) && input_views(inputs@) == seq![input@],
{
    let mut inputs: Vec<AutomationInput> = Vec::new();
    inputs.push(input);
    assert(input_views(inputs@) =~= seq![input@]);
    Some(inputs)
}

fn none() -> (inputs: Option<Vec<AutomationInput>>)
    ensures
        inputs matches Some(inputs) && input_views(inputs@) == Seq::<InputModel>::empty(),
{
    let inputs: Vec<AutomationInput> = Vec::new();
    assert(input_views(inputs@) =~= Seq::<InputModel>::empty());
    Some(inputs)
}

fn both(first: AutomationInput, second: AutomationInput) -> (inputs: Option<Vec<AutomationInput>>)
    ensures
        inputs matches Some(inputs) && input_views(inputs@) == seq![first@, second@],
{
    let mut inputs: Vec<AutomationInput> = Vec::new();
    inputs.push(first);
    inputs.push(second);
    assert(input_views(inputs@) =~= seq![first@, second@]);
    Some(inputs)
}

fn edit_background(value: &str) -> (inputs: Option<Vec<AutomationInput>>)
    ensures
        inputs matches Some(inputs) && input_views(inputs@) == background_inputs(value@),
{
    let mut inputs: Vec<AutomationInput> = Vec::new();
    inputs.push(AutomationInput::Hit(SettingsHit::BackgroundField));
    inputs.push(ctrl(KeyCode::KeyA));
    inputs.push(typed(value));
    inputs.push(plain(KeyCode::Enter));
    assert(input_views(inputs@) =~= background_inputs(value@));
    Some(inputs)
}

fn edit_input() -> (inputs: Option<Vec<AutomationInput>>)
    ensures
        inputs matches Some(inputs) && input_views(inputs@) == seq![
            InputModel::Text("printf '%s%s\\n' '__RONSOLE_PGO_INPUT_' 'edix'"@),
            plain_key(KeyCode::ArrowLeft),
            plain_key(KeyCode::Backspace),
            InputModel::Text("t"@),
            plain_key(KeyCode::ArrowRight),
            plain_key(KeyCode::Enter),
        ],
{
    let mut inputs: Vec<AutomationInput> = Vec::new();
    inputs.push(typed("printf '%s%s\\n' '__RONSOLE_PGO_INPUT_' 'edix'"));
    inputs.push(plain(KeyCode::ArrowLeft));
    inputs.push(plain(KeyCode::Backspace));
    inputs.push(typed("t"));
    inputs.push(plain(KeyCode::ArrowRight));
    inputs.push(plain(KeyCode::Enter));
    assert(input_views(inputs@) =~= seq![
        InputModel::Text("printf '%s%s\\n' '__RONSOLE_PGO_INPUT_' 'edix'"@),
        plain_key(KeyCode::ArrowLeft),
        plain_key(KeyCode::Backspace),
        InputModel::Text("t"@),
        plain_key(KeyCode::ArrowRight),
        plain_key(KeyCode::Enter),
    ]);
    Some(inputs)
}

fn scroll_inputs(lines: i32, count: u8) -> (inputs: Vec<AutomationInput>)
    ensures
        input_views(inputs@) == Seq::new(count as nat, |i: int| InputModel::Scroll { lines }),
{
    let mut inputs: Vec<AutomationInput> = Vec::new();
    let mut i: u8 = 0;
    while i < count
        invariant
            i <= count,
            inputs@.len() == i,
            forall|j: int| 0 <= j < i ==> (#[trigger] inputs@[j])@ == (InputModel::Scroll { lines }),
        decreases count - i,
    {
        inputs.push(AutomationInput::Scroll { lines });
        i += 1;
    }
    assert(input_views(inputs@) =~= Seq::new(count as nat, |i: int| InputModel::Scroll { lines }));
    inputs
}

fn tab_scroll_inputs() -> (inputs: Option<Vec<AutomationInput>>)
    ensures
        inputs matches Some(inputs) && input_views(inputs@) == seq![
            InputModel::PointToTabs,
            InputModel::Scroll { lines: TAB_SCROLL_LINES },
            InputModel::Scroll { lines: TAB_SCROLL_LINES },
            InputModel::Scroll { lines: TAB_SCROLL_LINES },
            InputModel::Scroll { lines: TAB_SCROLL_LINES },
        ],
{
    let mut inputs: Vec<AutomationInput> = Vec::new();
    inputs.push(AutomationInput::PointToTabs);
    inputs.push(AutomationInput::Scroll { lines: TAB_SCROLL_LINES });
    inputs.push(AutomationInput::Scroll { lines: TAB_SCROLL_LINES });
    inputs.push(AutomationInput::Scroll { lines: TAB_SCROLL_LINES });
    inputs.push(AutomationInput::Scroll { lines: TAB_SCROLL_LINES });
    assert(input_views(inputs@) =~= seq![
        InputModel::PointToTabs,
        InputModel::Scroll { lines: TAB_SCROLL_LINES },
        InputModel::Scroll { lines: TAB_SCROLL_LINES },
        InputModel::Scroll { lines: TAB_SCROLL_LINES },
        InputModel::Scroll { lines: TAB_SCROLL_LINES },
    ]);
    Some(inputs)
}

fn alternate_to(original: &str) -> (alternate: &'static str)
    ensures
        alternate@ == alternate_background(original@),
{
    let chars = text::chars_of(original);
    let usual = text::chars_of("#223344");
    if text::equals_ignoring_case(chars.as_slice(), usual.as_slice()) {
        "#445566"
    } else {
        "#223344"
    }
}

impl AutomationController {
    /// A run that starts now and must be over at a time; the script in the terminal is given.
    pub fn new(fixture_path: Vec<u8>, started: u64, timeout_ms: u64) -> (controller: Option<Self>)
        ensures
            controller is Some <==> started + timeout_ms <= u64::MAX,
            controller matches Some(controller) ==> {
                &&& controller.fixture_path@ == fixture_path@
                &&& controller.steps@ == scenario::scenario_steps()
                &&& controller.step_index == 0
                &&& controller.step_started == started
                &&& controller.started == started
                &&& controller.deadline == started + timeout_ms
                &&& controller.run() == (RunModel {
                    completed: Seq::empty(),
                    skipped: Seq::empty(),
                    resize_plan: None,
                    original_cols: 0,
                    narrow_cols: 0,
                    armed: false,
                    alt_frames_seen: 0,
                    original_background: None,
                    cleanup_final: false,
                })
                &&& !controller.report_written
                &&& controller.exit_error is None
            },
    {
        let deadline: u64 = match started.checked_add(timeout_ms) {
            Some(deadline) => deadline,
            None => {
                return None;
            },
        };
        let controller = AutomationController {
            fixture_path,
            steps: scenario::scenario(),
            step_index: 0,
            step_started: started,
            started,
            deadline,
            completed_steps: Vec::new(),
            skipped_steps: Vec::new(),
            resize_plan: None,
            original_cols: 0,
            narrow_cols: 0,
            presented_frame_armed: false,
            alt_frames_seen: 0,
            original_background: None,
            report_written: false,
            terminal_cleanup_finalized: false,
            exit_error: None,
        };
        assert(controller.run().completed =~= Seq::empty());
        assert(controller.run().skipped =~= Seq::empty());
        Some(controller)
    }

    fn resize_inputs(&self, kind: ResizeKind) -> (inputs: Result<Option<Vec<AutomationInput>>, AutomationError>)
        ensures
            match self.resize_plan {
                Some(plan) => inputs matches Ok(Some(inputs)) && input_views(inputs@) == seq![
                    InputModel::Resize {
                        width: planned_size(plan, kind).0,
                        height: planned_size(plan, kind).1,
                    },
                ],
                None => inputs == Err::<Option<Vec<AutomationInput>>, AutomationError>(
                    AutomationError::NoResizePlan,
                ),
            },
    {
        let plan = match self.resize_plan {
            Some(plan) => plan,
            None => {
                return Err(AutomationError::NoResizePlan);
            },
        };
        let (width, height): (u32, u32) = match kind {
            ResizeKind::Narrow => plan.narrow,
            ResizeKind::Wide => plan.wide,
            ResizeKind::Original => plan.original,
        };
        Ok(only(AutomationInput::Resize { width, height }))
    }

    /// What a step does to the application, where it can be done; none while it has to wait.
    pub fn step_inputs(&self, step: AutomationStep, background: &str, seen: &Observed) -> (inputs: Result<
        Option<Vec<AutomationInput>>,
        AutomationError,
    >)
        ensures
            inputs_are(
                inputs,
                inputs_of(self.run(), self.fixture_path@, background@, step, *seen),
            ),
    {
        match step {
            AutomationStep::Resize(kind) => self.resize_inputs(kind),
            AutomationStep::BasicInputEdit => Ok(edit_input()),
            AutomationStep::UnicodeInput => Ok(
                both(
                    typed(
                        "printf '%s%s\\n' '__RONSOLE_PGO_UNICODE_' 'ok-Привет-Latin-界-é-😀'",
                    ),
                    plain(KeyCode::Enter),
                ),
            ),
            AutomationStep::StartFixture(phase) => match report::fixture_command(
                self.fixture_path.as_slice(),
                phase,
            ) {
                Ok(command) => Ok(both(AutomationInput::Text(command), plain(KeyCode::Enter))),
                Err(_) => Err(AutomationError::PathNotUtf8),
            },
            AutomationStep::WaitPresentedFrame => if seen.renderable && !self.presented_frame_armed {
                Ok(only(AutomationInput::RequestFrame))
            } else {
                Ok(none())
            },
            AutomationStep::WaitAltPresentedFrames(required) => if !seen.alternate_screen {
                Err(AutomationError::AlternateScreenLeft)
            } else if !self.presented_frame_armed || (!seen.dirty && required > 0
                && self.alt_frames_seen < required - 1) {
                Ok(only(AutomationInput::RequestFrame))
            } else {
                Ok(none())
            },
            AutomationStep::PositionTerminalPointer => if seen.body_visible {
                Ok(only(AutomationInput::PointToBody))
            } else {
                Ok(None)
            },
            AutomationStep::ScrollImpulses { lines, count } => Ok(
                Some(scroll_inputs(lines, count)),
            ),
            AutomationStep::SelectionDrag => if seen.cells_visible && seen.visible_rows >= 4 {
                Ok(only(AutomationInput::DragOverText))
            } else {
                Ok(None)
            },
            AutomationStep::SelectionCopyAndClear => if seen.clipboard_readable {
                Ok(only(AutomationInput::CopySelection))
            } else {
                Ok(only(AutomationInput::ClearSelection))
            },
            AutomationStep::SearchOpenQuery(query) => Ok(both(ctrl(KeyCode::KeyF), typed(query))),
            AutomationStep::SearchNext => Ok(only(plain(KeyCode::Enter))),
            AutomationStep::SearchPrevious => Ok(
                only(
                    AutomationInput::Key {
                        modifiers: Modifiers(Modifiers::SHIFT),
                        code: KeyCode::Enter,
                    },
                ),
            ),
            AutomationStep::SearchToggleCase => if !seen.search_visible {
                Ok(None)
            } else if !seen.case_toggle_visible {
                Err(AutomationError::CaseToggleHidden)
            } else {
                Ok(only(AutomationInput::ClickCaseToggle))
            },
            AutomationStep::SearchClose => Ok(only(plain(KeyCode::Escape))),
            _ => self.window_inputs(step, background, seen),
        }
    }

    /// What a step on tabs or settings does.
    fn window_inputs(&self, step: AutomationStep, background: &str, seen: &Observed) -> (inputs: Result<
        Option<Vec<AutomationInput>>,
        AutomationError,
    >)
        requires
            !(step is Resize) && !(step is BasicInputEdit) && !(step is UnicodeInput),
            !(step is StartFixture) && !(step is WaitPresentedFrame),
            !(step is WaitAltPresentedFrames) && !(step is PositionTerminalPointer),
            !(step is ScrollImpulses) && !(step is SelectionDrag) && !(step is SelectionCopyAndClear),
            !(step is SearchOpenQuery) && !(step is SearchNext) && !(step is SearchPrevious),
            !(step is SearchToggleCase) && !(step is SearchClose),
        ensures
            inputs_are(
                inputs,
                inputs_of(self.run(), self.fixture_path@, background@, step, *seen),
            ),
    {
        match step {
            AutomationStep::CreateTab => Ok(
                only(AutomationInput::Key { modifiers: Modifiers(3), code: KeyCode::KeyT }),
            ),
            AutomationStep::ScrollTabStrip => if seen.window && seen.tabs_overflow {
                Ok(tab_scroll_inputs())
            } else {
                Ok(None)
            },
            AutomationStep::SwitchVisibleOverflowTab => if seen.other_tab.is_some() {
                Ok(only(AutomationInput::ClickOtherTab))
            } else {
                Ok(None)
            },
            AutomationStep::DragReorderVisibleTab => if seen.window && seen.tab_visible {
                Ok(only(AutomationInput::DragTab))
            } else {
                Ok(None)
            },
            AutomationStep::CloseActiveTab => if seen.tabs <= 1 {
                Err(AutomationError::FinalTerminal)
            } else {
                Ok(only(ctrl(KeyCode::Digit4)))
            },
            AutomationStep::WaitPendingCleanupQueue => Ok(only(AutomationInput::FlushCleanup)),
            AutomationStep::CleanupBarrierRestart => Ok(only(AutomationInput::RestartCleanup)),
            AutomationStep::SettingsOpen | AutomationStep::SettingsClose => Ok(
                only(plain(KeyCode::F1)),
            ),
            AutomationStep::SettingsFontIncrease => Ok(
                both(
                    AutomationInput::Hit(SettingsHit::Tab(SettingsTab::General)),
                    AutomationInput::Hit(SettingsHit::FontIncrease),
                ),
            ),
            AutomationStep::SettingsFontDecrease => Ok(
                only(AutomationInput::Hit(SettingsHit::FontDecrease)),
            ),
            AutomationStep::SettingsScrollIncrease => Ok(
                only(AutomationInput::Hit(SettingsHit::ScrollIncrease)),
            ),
            AutomationStep::SettingsScrollDecrease => Ok(
                only(AutomationInput::Hit(SettingsHit::ScrollDecrease)),
            ),
            AutomationStep::SettingsBackgroundAlternate => Ok(
                edit_background(alternate_to(background)),
            ),
            AutomationStep::SettingsBackgroundRestore => match &self.original_background {
                Some(original) => Ok(edit_background(original.as_str())),
                None => Err(AutomationError::NoBackground),
            },
            AutomationStep::SettingsHelp => Ok(
                only(AutomationInput::Hit(SettingsHit::Tab(SettingsTab::Help))),
            ),
            AutomationStep::CleanupBarrierFinal => Ok(only(AutomationInput::FinishCleanup)),
            _ => Ok(none()),
        }
    }

    fn is_completed(&self, block: SemanticBlock) -> (completed: bool)
        ensures
            completed == self.run().completed.contains(scenario::block_name(block)),
    {
        let ghost names = report::texts(self.completed_steps@);
        let mut i: usize = 0;
        while i < self.completed_steps.len()
            invariant
                i <= self.completed_steps@.len(),
                names == report::texts(self.completed_steps@),
                forall|j: int| 0 <= j < i ==> (#[trigger] names[j]) != scenario::block_name(block),
            decreases self.completed_steps@.len() - i,
        {
            if text::same_text(self.completed_steps[i], block.report_name()) {
                assert(names[i as int] == scenario::block_name(block));
                return true;
            }
            i += 1;
        }
        false
    }

    /// What a step came to, by what was seen before and after it was done.
    fn step_result(&self, step: AutomationStep, before: &Observed, after: &Observed, elapsed: u64) -> (result:
        Result<StepResult, AutomationError>)
        ensures
            result == result_of(self.run(), step, *before, *after, elapsed),
    {
        let done = match step {
            AutomationStep::WaitReady => after.window && after.has_terminal && after.presented
                && after.ready && after.cols >= 10 && after.visible_rows >= 2 && after.body_visible
                && !after.dirty,
            AutomationStep::WaitResize(kind) => after.cols != 0 && !after.dirty && match kind {
                ResizeKind::Narrow => after.cols < self.original_cols,
                ResizeKind::Wide => after.cols > self.narrow_cols && after.cols > 1,
                ResizeKind::Original => after.cols == self.original_cols,
            },
            AutomationStep::WaitText(_) => after.done_text,
            AutomationStep::WaitFixture(phase) => {
                if after.failed_text {
                    return Err(AutomationError::FixtureFailed(phase));
                }
                after.done_text
            },
            AutomationStep::WaitPresentedFrame => before.renderable && self.presented_frame_armed
                && !before.dirty,
            AutomationStep::WaitAltScreenEnter => after.alternate_screen,
            AutomationStep::WaitAltScreenExit => !after.alternate_screen,
            AutomationStep::WaitAltPresentedFrames(required) => self.presented_frame_armed
                && !before.dirty && (required == 0 || self.alt_frames_seen >= required - 1),
            AutomationStep::WaitScrollAway => after.has_terminal && after.scroll_settled
                && after.scrolled_away,
            AutomationStep::WaitScrollToward => after.has_terminal && after.scroll_settled
                && after.scrolled_nearer,
            AutomationStep::WaitScrollTail => after.has_terminal && after.scroll_settled
                && !after.scrolled_away,
            _ => {
                return self.window_result(step, before, after, elapsed);
            },
        };
        if done {
            Ok(StepResult::Done)
        } else {
            Ok(StepResult::Pending)
        }
    }

    /// What a step on the selection, tabs or settings came to.
    fn window_result(&self, step: AutomationStep, before: &Observed, after: &Observed, elapsed: u64) -> (result:
        Result<StepResult, AutomationError>)
        requires
            !(step is WaitReady) && !(step is WaitResize) && !(step is WaitText),
            !(step is WaitFixture) && !(step is WaitPresentedFrame) && !(step is WaitAltScreenEnter),
            !(step is WaitAltScreenExit) && !(step is WaitAltPresentedFrames),
            !(step is WaitScrollAway) && !(step is WaitScrollToward) && !(step is WaitScrollTail),
        ensures
            result == result_of(self.run(), step, *before, *after, elapsed),
    {
        let done = match step {
            AutomationStep::SelectionDrag => {
                if !after.selection {
                    return Ok(StepResult::Failed);
                }
                true
            },
            AutomationStep::SelectionCopyAndClear => {
                if after.selection {
                    return Ok(StepResult::Failed);
                }
                true
            },
            AutomationStep::WaitActiveTerminalReady => !after.waiting && after.presented
                && after.has_terminal && after.ready && after.cols > 0 && after.visible_rows > 0
                && !after.dirty,
            AutomationStep::WaitTabStripScrolled => after.tabs_scrolled,
            AutomationStep::SwitchVisibleOverflowTab => !after.presented || match before.other_tab {
                Some(index) => index == after.active,
                None => false,
            },
            AutomationStep::WaitPendingCleanupQueue => after.cleanup_empty,
            AutomationStep::WaitSettingsOpen => after.settings_open && after.settings_settled,
            AutomationStep::WaitSettingsClosed => !after.settings_open && after.settings_settled,
            AutomationStep::WaitElapsed(duration) => elapsed >= duration,
            _ => {
                return self.checked_result(step, before, after);
            },
        };
        if done {
            Ok(StepResult::Done)
        } else {
            Ok(StepResult::Pending)
        }
    }

    /// What a step came to that is wrong unless it is done.
    fn checked_result(&self, step: AutomationStep, before: &Observed, after: &Observed) -> (result: Result<
        StepResult,
        AutomationError,
    >)
        requires
            !(step is WaitReady) && !(step is WaitResize) && !(step is WaitText),
            !(step is WaitFixture) && !(step is WaitPresentedFrame) && !(step is WaitAltScreenEnter),
            !(step is WaitAltScreenExit) && !(step is WaitAltPresentedFrames),
            !(step is WaitScrollAway) && !(step is WaitScrollToward) && !(step is WaitScrollTail),
            !(step is SelectionDrag) && !(step is SelectionCopyAndClear),
            !(step is WaitActiveTerminalReady) && !(step is WaitTabStripScrolled),
            !(step is SwitchVisibleOverflowTab) && !(step is WaitPendingCleanupQueue),
            !(step is WaitSettingsOpen) && !(step is WaitSettingsClosed) && !(step is WaitElapsed),
        ensures
            forall|elapsed: u64|
                result == #[trigger] result_of(self.run(), step, *before, *after, elapsed),
    {
        match step {
            AutomationStep::CreateTab => {
                if after.tabs == 0 || after.tabs - 1 != before.tabs {
                    return Err(AutomationError::NoTerminalCreated);
                }
            },
            AutomationStep::VerifyTabOverflow => {
                if !after.window {
                    return Ok(StepResult::Pending);
                }
                if after.tabs < TAB_TRAINING_COUNT + 1 {
                    return Err(AutomationError::TooFewTerminals);
                }
                if !after.tabs_overflow {
                    return Ok(StepResult::Pending);
                }
            },
            AutomationStep::DragReorderVisibleTab => {
                let drag = after.tab_drag;
                if !reordered(drag.passed, drag.destination, drag.start, drag.still_dragging) {
                    return Err(AutomationError::NoReorder);
                }
            },
            AutomationStep::CloseActiveTab => {
                if before.tabs == 0 || before.tabs - 1 != after.tabs {
                    return Err(AutomationError::NoTerminalClosed);
                }
            },
            AutomationStep::SettingsOpen => {
                if !after.settings_open {
                    return Err(AutomationError::SettingsNotOpened);
                }
            },
            AutomationStep::SettingsClose => {
                if after.settings_open {
                    return Err(AutomationError::SettingsNotClosed);
                }
            },
            AutomationStep::VerifyProcessTreeStillRunning => {
                if after.failed_text {
                    return Err(AutomationError::ProcessTreeFailed);
                }
                if after.done_text {
                    return Err(AutomationError::ProcessTreeDone);
                }
            },
            AutomationStep::Complete(block) => {
                if self.is_completed(block) {
                    return Err(AutomationError::CompletedTwice(block));
                }
            },
            AutomationStep::Finish => {
                if !report::mandatory_completion_valid(self.completed_steps.as_slice()) {
                    return Err(AutomationError::Incomplete);
                }
                if !self.terminal_cleanup_finalized {
                    return Err(AutomationError::CleanupNotFinal);
                }
            },
            _ => {},
        }
        Ok(StepResult::Done)
    }

    /// Notes what a step came to.
    pub fn judge_step(
        &mut self,
        step: AutomationStep,
        background: &str,
        before: &Observed,
        after: &Observed,
        elapsed: u64,
    ) -> (result: Result<StepResult, AutomationError>)
        ensures
            result == result_of(old(self).run(), step, *before, *after, elapsed),
            final(self).run() == run_after(
                old(self).run(),
                background@,
                step,
                *before,
                *after,
                elapsed,
            ),
            final(self).goes_on_as(*old(self)),
    {
        let result = self.step_result(step, before, after, elapsed);
        let done = match result {
            Ok(StepResult::Done) => true,
            _ => false,
        };
        self.note_step(step, background, before, after, done);
        result
    }

    fn complete(&mut self, name: &'static str)
        ensures
            final(self).run() == (RunModel {
                completed: old(self).run().completed.push(name@),
                ..old(self).run()
            }),
            final(self).goes_on_as(*old(self)),
    {
        let ghost before = report::texts(self.completed_steps@);
        self.completed_steps.push(name);
        assert(report::texts(self.completed_steps@) =~= before.push(name@));
    }

    fn skip(&mut self, name: &'static str)
        ensures
            final(self).run() == (RunModel {
                skipped: old(self).run().skipped.push(name@),
                ..old(self).run()
            }),
            final(self).goes_on_as(*old(self)),
    {
        let ghost before = report::texts(self.skipped_steps@);
        self.skipped_steps.push(name);
        assert(report::texts(self.skipped_steps@) =~= before.push(name@));
    }

    fn note_step(
        &mut self,
        step: AutomationStep,
        background: &str,
        before: &Observed,
        after: &Observed,
        done: bool,
    )
        ensures
            forall|elapsed: u64|
                done == (result_of(old(self).run(), step, *before, *after, elapsed) == Ok::<
                    StepResult,
                    AutomationError,
                >(StepResult::Done)) ==> final(self).run() == #[trigger] run_after(
                    old(self).run(),
                    background@,
                    step,
                    *before,
                    *after,
                    elapsed,
                ),
            final(self).goes_on_as(*old(self)),
    {
        match step {
            AutomationStep::WaitReady => {
                if done {
                    self.resize_plan = Some(scenario::resize_plan(after.size.0, after.size.1));
                    self.original_cols = after.cols;
                }
            },
            AutomationStep::WaitResize(ResizeKind::Narrow) => {
                if done {
                    self.narrow_cols = after.cols;
                }
            },
            AutomationStep::WaitPresentedFrame => {
                if before.renderable {
                    self.presented_frame_armed = !done;
                }
            },
            AutomationStep::WaitAltPresentedFrames(required) => {
                if self.presented_frame_armed && before.dirty {
                    return ;
                }
                if done {
                    self.alt_frames_seen = 0;
                } else if self.presented_frame_armed {
                    self.alt_frames_seen = self.alt_frames_seen.saturating_add(1);
                }
                self.presented_frame_armed = !done;
            },
            AutomationStep::SelectionCopyAndClear => {
                if !before.clipboard_readable {
                    self.skip("selection-copy-clipboard-unavailable");
                }
            },
            AutomationStep::SettingsBackgroundAlternate => {
                self.original_background = Some(background.to_owned());
            },
            AutomationStep::CleanupBarrierFinal => {
                self.terminal_cleanup_finalized = true;
            },
            AutomationStep::Complete(block) => {
                if done {
                    self.complete(block.report_name());
                }
            },
            AutomationStep::Finish => {
                if done {
                    self.complete("finish");
                }
            },
            _ => {},
        }
    }

    /// The step that is done now.
    pub fn current_step(&self) -> (step: Option<AutomationStep>)
        ensures
            step == if self.step_index < self.steps@.len() {
                Some(self.steps@[self.step_index as int])
            } else {
                None
            },
    {
        if self.step_index < self.steps.len() {
            Some(self.steps[self.step_index])
        } else {
            None
        }
    }

    /// When the step that is done now must be over.
    pub open spec fn step_deadline(self) -> u64 {
        let timeout = if self.step_index < self.steps@.len() {
            scenario::step_timeout(self.steps@[self.step_index as int])
        } else {
            STEP_TIMEOUT_MS
        };
        if self.step_started + timeout < self.deadline {
            (self.step_started + timeout) as u64
        } else {
            self.deadline
        }
    }

    /// When the run is to be looked at again.
    pub open spec fn wake_deadline(self) -> u64 {
        if self.step_index < self.steps@.len() {
            match self.steps@[self.step_index as int] {
                AutomationStep::WaitElapsed(duration) => if self.step_started + duration
                    < self.step_deadline() {
                    (self.step_started + duration) as u64
                } else {
                    self.step_deadline()
                },
                _ => self.step_deadline(),
            }
        } else {
            self.step_deadline()
        }
    }

    /// When the step that is done now must be over: within its own time and that of the run.
    pub fn current_deadline(&self) -> (deadline: u64)
        ensures
            deadline == self.step_deadline(),
    {
        let timeout: u64 = match self.current_step() {
            Some(step) => step.timeout(),
            None => STEP_TIMEOUT_MS,
        };
        match self.step_started.checked_add(timeout) {
            Some(deadline) => if deadline < self.deadline {
                deadline
            } else {
                self.deadline
            },
            None => self.deadline,
        }
    }

    /// When the run is to be looked at again.
    pub fn current_wake_deadline(&self) -> (deadline: u64)
        ensures
            deadline == self.wake_deadline(),
    {
        let deadline: u64 = self.current_deadline();
        match self.current_step() {
            Some(AutomationStep::WaitElapsed(duration)) => match self.step_started.checked_add(
                duration,
            ) {
                Some(wake) => if wake < deadline {
                    wake
                } else {
                    deadline
                },
                None => deadline,
            },
            _ => deadline,
        }
    }

    /// What keeps the run from doing a step now: a time that has come, or that there is none.
    pub fn obstacle(&self, now: u64) -> (obstacle: Option<&'static str>)
        ensures
            match obstacle {
                Some(error) => error@ == if now >= self.deadline {
                    "PGO automation global timeout reached"@
                } else if now >= self.step_deadline() {
                    "PGO automation step timeout reached"@
                } else {
                    "PGO automation scenario ended without Finish"@
                },
                None => true,
            },
            obstacle is Some <==> now >= self.step_deadline() || self.step_index >= self.steps@.len(),
    {
        if report::deadline_expired(now, self.deadline) {
            return Some("PGO automation global timeout reached");
        }
        if report::deadline_expired(now, self.current_deadline()) {
            return Some("PGO automation step timeout reached");
        }
        if self.current_step().is_none() {
            return Some("PGO automation scenario ended without Finish");
        }
        None
    }

    /// Whether the run has gone on to the next step at a time, and is as before otherwise.
    pub open spec fn went_on_from(self, before: Self, now: u64) -> bool {
        &&& self.step_index == if before.step_index < usize::MAX {
            before.step_index + 1
        } else {
            before.step_index as int
        }
        &&& self.step_started == now
        &&& self.run() == (RunModel { armed: false, ..before.run() })
        &&& self.fixture_path@ == before.fixture_path@
        &&& self.steps@ == before.steps@
        &&& self.started == before.started
        &&& self.deadline == before.deadline
        &&& self.report_written == before.report_written
        &&& text_view(self.exit_error) == text_view(before.exit_error)
    }

    /// Goes on to the next step.
    pub fn advance(&mut self, now: u64)
        ensures
            final(self).went_on_from(*old(self), now),
    {
        self.step_index = report::next_step_index(self.step_index, true);
        self.step_started = now;
        self.presented_frame_armed = false;
    }

    /// Takes what a step came to. What the run does next; where the step is over and was not the last,
    /// it has gone on.
    pub fn tick(
        &mut self,
        step: AutomationStep,
        result: Result<StepResult, AutomationError>,
        now: u64,
    ) -> (tick: AutomationTick)
        ensures
            tick@ == tick_of(step, result),
            if tick is Advanced {
                final(self).went_on_from(*old(self), now)
            } else {
                *final(self) == *old(self)
            },
    {
        match result {
            Ok(StepResult::Pending) => AutomationTick::Waiting,
            Ok(StepResult::Failed) => AutomationTick::Failed(
                "PGO automation step failed".to_owned(),
            ),
            Err(error) => AutomationTick::Failed(error.message()),
            Ok(StepResult::Done) => match step {
                AutomationStep::Finish => AutomationTick::Finished,
                _ => {
                    self.advance(now);
                    AutomationTick::Advanced
                },
            },
        }
    }

    /// The name of the step that is done now.
    pub open spec fn current_name(self) -> Seq<char> {
        if self.step_index < self.steps@.len() {
            scenario::step_name(self.steps@[self.step_index as int])
        } else {
            "unknown"@
        }
    }

    /// The name of the step that is done now.
    pub fn current_step_name(&self) -> (name: String)
        ensures
            name@ == self.current_name(),
    {
        match self.current_step() {
            Some(step) => step.name(),
            None => "unknown".to_owned(),
        }
    }

    /// The report on the run, up to now.
    pub fn report(&self, status: &str, failed_step: Option<&str>, error: Option<&str>, now: u64) -> (report:
        String)
        ensures
            report@ == report::report_text(
                status@,
                self.run().completed,
                self.run().skipped,
                if now > self.started {
                    (now - self.started) as nat
                } else {
                    0
                },
                report::optional(failed_step),
                report::optional(error),
            ),
    {
        report::serialize_report(
            status,
            self.completed_steps.as_slice(),
            self.skipped_steps.as_slice(),
            now.saturating_sub(self.started),
            failed_step,
            error,
        )
    }

    /// Notes that the run is over, after its report was written.
    pub fn succeed(&mut self)
        ensures
            final(self).report_written,
            final(self).run() == old(self).run(),
            text_view(final(self).exit_error) == text_view(old(self).exit_error),
            final(self).is_where(*old(self)),
    {
        self.report_written = true;
    }

    /// Notes that the run has failed, and whether its report was written: that is not tried where one
    /// was written before.
    pub fn fail(&mut self, step: &str, error: &str, written: &ReportWrite)
        ensures
            text_view(final(self).exit_error) == Some(
                failure_text("PGO automation failed during "@, step@, error@, written@),
            ),
            final(self).report_written == (old(self).report_written || written@ is Done),
            final(self).run() == old(self).run(),
            final(self).is_where(*old(self)),
    {
        let text = compose_failure("PGO automation failed during ", step, error, written);
        self.exit_error = Some(text);
        self.note_report(written);
    }

    /// Notes that the run was interrupted, unless its report was written before. What the report is to
    /// say of it.
    pub fn interruption(&self, error: &str) -> (text: Option<String>)
        ensures
            text is Some <==> !self.report_written,
            text matches Some(text) ==> text@ == failure_text(
                "PGO automation interrupted during "@,
                self.current_name(),
                error@,
                WriteModel::Skipped,
            ),
    {
        if self.report_written {
            return None;
        }
        let name = self.current_step_name();
        Some(
            compose_failure(
                "PGO automation interrupted during ",
                name.as_str(),
                error,
                &ReportWrite::Skipped,
            ),
        )
    }

    /// Notes that the run was interrupted, and whether its report was written.
    pub fn interrupt(&mut self, error: &str, written: &ReportWrite)
        ensures
            !old(self).report_written ==> text_view(final(self).exit_error) == Some(
                failure_text(
                    "PGO automation interrupted during "@,
                    old(self).current_name(),
                    error@,
                    written@,
                ),
            ),
            old(self).report_written ==> text_view(final(self).exit_error) == text_view(
                old(self).exit_error,
            ),
            final(self).report_written == (old(self).report_written || written@ is Done),
            final(self).run() == old(self).run(),
            final(self).is_where(*old(self)),
    {
        if self.report_written {
            return ;
        }
        let name = self.current_step_name();
        let text = compose_failure(
            "PGO automation interrupted during ",
            name.as_str(),
            error,
            written,
        );
        self.exit_error = Some(text);
        self.note_report(written);
    }

    fn note_report(&mut self, written: &ReportWrite)
        ensures
            final(self).report_written == (old(self).report_written || written@ is Done),
            final(self).run() == old(self).run(),
            final(self).is_where(*old(self)),
            text_view(final(self).exit_error) == text_view(old(self).exit_error),
    {
        if let ReportWrite::Done = written {
            self.report_written = true;
        }
    }

    /// What the run came to: an error, where something went wrong.
    pub fn take_exit_result(&mut self) -> (result: Result<(), String>)
        ensures
            match text_view(old(self).exit_error) {
                Some(error) => result matches Err(message) && message@ == error,
                None => result is Ok,
            },
            final(self).exit_error is None,
            final(self).run() == old(self).run(),
            final(self).report_written == old(self).report_written,
            final(self).is_where(*old(self)),
    {
        match self.exit_error.take() {
            Some(error) => Err(error),
            None => Ok(()),
        }
    }
}

/// What became of the report on a run.
#[derive(Debug, PartialEq, Eq)]
pub enum ReportWrite {
    /// It was not tried.
    Skipped,
    /// It was written.
    Done,
    /// It could not be written.
    Failed(String),
}

/// The contents of what became of a report.
pub enum WriteModel {
    Skipped,
    Done,
    Failed(Seq<char>),
}

impl View for ReportWrite {
    type V = WriteModel;

    open spec fn view(&self) -> WriteModel {
        match self {
            ReportWrite::Skipped => WriteModel::Skipped,
            ReportWrite::Done => WriteModel::Done,
            ReportWrite::Failed(error) => WriteModel::Failed(error@),
        }
    }
}

/// What went wrong with a run, and with its report.
pub open spec fn failure_text(
    prefix: Seq<char>,
    step: Seq<char>,
    error: Seq<char>,
    written: WriteModel,
) -> Seq<char> {
    prefix + step + ": "@ + error + match written {
        WriteModel::Failed(report) => "; failed to write report: "@ + report,
        _ => Seq::empty(),
    }
}

fn compose_failure(prefix: &str, step: &str, error: &str, written: &ReportWrite) -> (text: String)
    ensures
        text@ == failure_text(prefix@, step@, error@, written@),
{
    let mut text = text::concat(prefix, step);
    text.push_str(": ");
    text.push_str(error);
    let ghost head = text@;
    if let ReportWrite::Failed(report) = written {
        text.push_str("; failed to write report: ");
        text.push_str(report.as_str());
    }
    assert(text@ =~= failure_text(prefix@, step@, error@, written@));
    text
}

/// The texts that tell that a step is done or has failed, where there are any.
pub open spec fn markers_of(step: AutomationStep) -> (Option<Seq<char>>, Option<Seq<char>>) {
    match step {
        AutomationStep::WaitText(marker) => (Some(marker@), None),
        AutomationStep::WaitFixture(phase) => (
            Some("__RONSOLE_PGO_DONE_"@ + scenario::phase_name(phase)),
            Some("__RONSOLE_PGO_FAIL_"@ + scenario::phase_name(phase)),
        ),
        AutomationStep::VerifyProcessTreeStillRunning => (
            Some("__RONSOLE_PGO_DONE_"@ + scenario::phase_name(FixturePhase::ProcessTree)),
            Some("__RONSOLE_PGO_FAIL_"@ + scenario::phase_name(FixturePhase::ProcessTree)),
        ),
        _ => (None, None),
    }
}

/// The texts that tell that a step is done or has failed, where there are any.
pub fn step_markers(step: AutomationStep) -> (markers: (Option<String>, Option<String>))
    ensures
        (text_view(markers.0), text_view(markers.1)) == markers_of(step),
{
    let phase = match step {
        AutomationStep::WaitText(marker) => {
            return (Some(marker.to_owned()), None);
        },
        AutomationStep::WaitFixture(phase) => phase,
        AutomationStep::VerifyProcessTreeStillRunning => FixturePhase::ProcessTree,
        _ => {
            return (None, None);
        },
    };
    (
        Some(text::concat("__RONSOLE_PGO_DONE_", phase.as_str())),
        Some(text::concat("__RONSOLE_PGO_FAIL_", phase.as_str())),
    )
}

/// A run succeeds only when every part was ended in its order and all processes were ended.
pub proof fn success_is_earned(run: RunModel, before: Observed, after: Observed, elapsed: u64)
    ensures
        result_of(run, AutomationStep::Finish, before, after, elapsed) == Ok::<
            StepResult,
            AutomationError,
        >(StepResult::Done) <==> run.completed == report::all_names() && run.cleanup_final,
{
}

/// A part that was ended once is not ended again.
pub proof fn parts_end_once(
    run: RunModel,
    block: SemanticBlock,
    background: Seq<char>,
    before: Observed,
    after: Observed,
    elapsed: u64,
)
    requires
        !run.completed.contains(scenario::block_name(block)),
    ensures
        ({
            let step = AutomationStep::Complete(block);
            let once = run_after(run, background, step, before, after, elapsed);
            &&& result_of(run, step, before, after, elapsed) == Ok::<StepResult, AutomationError>(
                StepResult::Done,
            )
            &&& result_of(once, step, before, after, elapsed) == Err::<StepResult, AutomationError>(
                AutomationError::CompletedTwice(block),
            )
        }),
{
    let name = scenario::block_name(block);
    let once = run.completed.push(name);
    assert(once[run.completed.len() as int] == name);
    assert(once.contains(name));
}

} // verus!
