//! The steps of the scripted run.
use vstd::prelude::*;

use crate::text;

verus! {

/// The version of the steps.
pub const PGO_AUTOMATION_SCENARIO_VERSION: u32 = 1;

/// How many tabs are opened.
pub const TAB_TRAINING_COUNT: usize = 10;

/// How many tabs are closed again.
pub const TAB_CLOSE_COUNT: usize = 3;

pub const ALT_SCREEN_PRESENTED_FRAMES: u8 = 3;

pub const SCROLL_IMPULSES_AWAY: u8 = 6;

pub const SCROLL_IMPULSES_TOWARD: u8 = 3;

pub const SCROLL_IMPULSES_TO_TAIL: u8 = 6;

/// The lines of a turn of the wheel.
pub const SCROLL_LINES_AWAY: i32 = 6;

pub const SCROLL_LINES_TOWARD: i32 = -3;

pub const SCROLL_LINES_TO_TAIL: i32 = -12;

pub const NARROW_WIDTH_MAX: u32 = 720;

pub const WIDE_WIDTH_MAX: u32 = 1_600;

/// The times that steps may take, in milliseconds.
pub const PROCESS_TREE_SPAWN_GRACE_MS: u64 = 300;

pub const STEP_TIMEOUT_MS: u64 = 8_000;

pub const READY_TIMEOUT_MS: u64 = 30_000;

pub const BULK_TIMEOUT_MS: u64 = 45_000;

pub const PROCESS_TIMEOUT_MS: u64 = 30_000;

/// The parts of the run.
#[derive(Clone, Copy, Debug, PartialEq, Eq, Structural)]
pub enum SemanticBlock {
    Startup,
    ResizeReflow,
    BasicInput,
    Unicode,
    Ansi,
    Bulk,
    LongLines,
    AlternateScreen,
    Scroll,
    Selection,
    Search,
    Tabs,
    Settings,
    ProcessTree,
}

/// The name of a part in the report.
pub open spec fn block_name(value: SemanticBlock) -> Seq<char> {
    match value {
        SemanticBlock::Startup => "startup-first-frame"@,
        SemanticBlock::ResizeReflow => "resize-reflow"@,
        SemanticBlock::BasicInput => "basic-input-echo"@,
        SemanticBlock::Unicode => "unicode"@,
        SemanticBlock::Ansi => "ansi-style-parser"@,
        SemanticBlock::Bulk => "bulk-output"@,
        SemanticBlock::LongLines => "long-lines-reflow"@,
        SemanticBlock::AlternateScreen => "alternate-screen"@,
        SemanticBlock::Scroll => "scroll"@,
        SemanticBlock::Selection => "text-selection"@,
        SemanticBlock::Search => "search"@,
        SemanticBlock::Tabs => "tabs"@,
        SemanticBlock::Settings => "settings"@,
        SemanticBlock::ProcessTree => "process-tree-cleanup"@,
    }
}

impl SemanticBlock {
    /// The name of a part in the report.
    pub fn report_name(self) -> (name: &'static str)
        ensures
            name@ == block_name(self),
    {
        match self {
            SemanticBlock::Startup => "startup-first-frame",
            SemanticBlock::ResizeReflow => "resize-reflow",
            SemanticBlock::BasicInput => "basic-input-echo",
            SemanticBlock::Unicode => "unicode",
            SemanticBlock::Ansi => "ansi-style-parser",
            SemanticBlock::Bulk => "bulk-output",
            SemanticBlock::LongLines => "long-lines-reflow",
            SemanticBlock::AlternateScreen => "alternate-screen",
            SemanticBlock::Scroll => "scroll",
            SemanticBlock::Selection => "text-selection",
            SemanticBlock::Search => "search",
            SemanticBlock::Tabs => "tabs",
            SemanticBlock::Settings => "settings",
            SemanticBlock::ProcessTree => "process-tree-cleanup",
        }
    }
}

/// The parts in their order.
pub open spec fn all_blocks() -> Seq<SemanticBlock> {
    seq![
        SemanticBlock::Startup,
        SemanticBlock::ResizeReflow,
        SemanticBlock::BasicInput,
        SemanticBlock::Unicode,
        SemanticBlock::Ansi,
        SemanticBlock::Bulk,
        SemanticBlock::LongLines,
        SemanticBlock::AlternateScreen,
        SemanticBlock::Scroll,
        SemanticBlock::Selection,
        SemanticBlock::Search,
        SemanticBlock::Tabs,
        SemanticBlock::Settings,
        SemanticBlock::ProcessTree,
    ]
}

impl SemanticBlock {
    /// The parts in their order.
    pub fn all() -> (blocks: Vec<SemanticBlock>)
        ensures
            blocks@ == all_blocks(),
    {
        let blocks = vec![
            SemanticBlock::Startup,
            SemanticBlock::ResizeReflow,
            SemanticBlock::BasicInput,
            SemanticBlock::Unicode,
            SemanticBlock::Ansi,
            SemanticBlock::Bulk,
            SemanticBlock::LongLines,
            SemanticBlock::AlternateScreen,
            SemanticBlock::Scroll,
            SemanticBlock::Selection,
            SemanticBlock::Search,
            SemanticBlock::Tabs,
            SemanticBlock::Settings,
            SemanticBlock::ProcessTree,
        ];
        assert(blocks@ =~= all_blocks());
        blocks
    }
}

/// What the script in the terminal is told to do.
#[derive(Clone, Copy, Debug, PartialEq, Eq, Structural)]
pub enum FixturePhase {
    Basic,
    Unicode,
    Ansi,
    Bulk,
    LongLines,
    AlternateScreen,
    ProcessTree,
}

/// The word for what the script is told to do.
pub open spec fn phase_name(value: FixturePhase) -> Seq<char> {
    match value {
        FixturePhase::Basic => "basic"@,
        FixturePhase::Unicode => "unicode"@,
        FixturePhase::Ansi => "ansi"@,
        FixturePhase::Bulk => "bulk"@,
        FixturePhase::LongLines => "long-lines"@,
        FixturePhase::AlternateScreen => "alternate-screen"@,
        FixturePhase::ProcessTree => "process-tree"@,
    }
}

impl FixturePhase {
    /// The word for what the script is told to do.
    pub fn as_str(self) -> (name: &'static str)
        ensures
            name@ == phase_name(self),
    {
        match self {
            FixturePhase::Basic => "basic",
            FixturePhase::Unicode => "unicode",
            FixturePhase::Ansi => "ansi",
            FixturePhase::Bulk => "bulk",
            FixturePhase::LongLines => "long-lines",
            FixturePhase::AlternateScreen => "alternate-screen",
            FixturePhase::ProcessTree => "process-tree",
        }
    }
}

/// A width that the window is given.
#[derive(Clone, Copy, Debug, PartialEq, Eq, Structural)]
pub enum ResizeKind {
    Narrow,
    Wide,
    Original,
}

/// The name of a width.
pub open spec fn kind_name(value: ResizeKind) -> Seq<char> {
    match value {
        ResizeKind::Narrow => "Narrow"@,
        ResizeKind::Wide => "Wide"@,
        ResizeKind::Original => "Original"@,
    }
}

impl ResizeKind {
    /// The name of a width.
    pub fn name(self) -> (name: &'static str)
        ensures
            name@ == kind_name(self),
    {
        match self {
            ResizeKind::Narrow => "Narrow",
            ResizeKind::Wide => "Wide",
            ResizeKind::Original => "Original",
        }
    }
}

/// The sizes that the window is given.
#[derive(Clone, Copy, Debug, PartialEq, Eq)]
pub struct ResizePlan {
    pub original: (u32, u32),
    pub narrow: (u32, u32),
    pub wide: (u32, u32),
}

/// The smaller of two numbers.
pub open spec fn least(a: int, b: int) -> int {
    if a < b {
        a
    } else {
        b
    }
}

/// The larger of two numbers.
pub open spec fn most(a: int, b: int) -> int {
    if a < b {
        b
    } else {
        a
    }
}

/// The narrow width for a width: two thirds of it within bounds, or three quarters of a small one.
pub open spec fn narrow_width(width: int) -> int {
    if width > 480 {
        least(most(least(2 * width, u32::MAX as int) / 3, 360), NARROW_WIDTH_MAX as int)
    } else {
        least(most(3 * width / 4, 1), most(width - 1, 1))
    }
}

/// The wide width for a width: the width within bounds, and wider than the narrow one.
pub open spec fn wide_width(width: int) -> int {
    most(least(most(width, 960), WIDE_WIDTH_MAX as int), narrow_width(width) + 1)
}

/// The sizes that a window of a size is given.
pub fn resize_plan(width: u32, height: u32) -> (plan: ResizePlan)
    ensures
        plan.original == (most(width as int, 1) as u32, most(height as int, 1) as u32),
        plan.narrow == (
            narrow_width(most(width as int, 1)) as u32,
            most(height as int, 1) as u32,
        ),
        plan.wide == (wide_width(most(width as int, 1)) as u32, most(height as int, 1) as u32),
{
    let width: u32 = if width > 1 {
        width
    } else {
        1
    };
    let height: u32 = if height > 1 {
        height
    } else {
        1
    };
    let narrow: u32 = if width > 480 {
        let double: u32 = if width <= u32::MAX / 2 {
            width * 2
        } else {
            u32::MAX
        };
        let third: u32 = double / 3;
        if third < 360 {
            360
        } else if third > NARROW_WIDTH_MAX {
            NARROW_WIDTH_MAX
        } else {
            third
        }
    } else {
        let quarter: u32 = width * 3 / 4;
        let quarter: u32 = if quarter > 1 {
            quarter
        } else {
            1
        };
        let below: u32 = if width > 2 {
            width - 1
        } else {
            1
        };
        if quarter < below {
            quarter
        } else {
            below
        }
    };
    let bounded: u32 = if width < 960 {
        960
    } else if width > WIDE_WIDTH_MAX {
        WIDE_WIDTH_MAX
    } else {
        width
    };
    let wide: u32 = if bounded > narrow {
        bounded
    } else {
        narrow + 1
    };
    ResizePlan { original: (width, height), narrow: (narrow, height), wide: (wide, height) }
}

/// The narrow width is below the wide one and, where there is room, below the width of the window; all
/// are within their bounds.
pub proof fn widths_differ(width: int)
    requires
        1 <= width <= u32::MAX,
    ensures
        1 <= narrow_width(width) <= NARROW_WIDTH_MAX,
        width > 1 ==> narrow_width(width) < width,
        narrow_width(width) < wide_width(width) <= WIDE_WIDTH_MAX,
{
}

/// A step of the run.
#[derive(Clone, Copy, Debug, PartialEq, Eq)]
pub enum AutomationStep {
    WaitReady,
    Resize(ResizeKind),
    WaitResize(ResizeKind),
    BasicInputEdit,
    UnicodeInput,
    /// A wait for a text on the screen.
    WaitText(&'static str),
    StartFixture(FixturePhase),
    WaitFixture(FixturePhase),
    WaitPresentedFrame,
    WaitAltScreenEnter,
    WaitAltPresentedFrames(u8),
    WaitAltScreenExit,
    PositionTerminalPointer,
    /// Turns of the wheel by so many lines.
    ScrollImpulses { lines: i32, count: u8 },
    WaitScrollAway,
    WaitScrollToward,
    WaitScrollTail,
    SelectionDrag,
    SelectionCopyAndClear,
    SearchOpenQuery(&'static str),
    SearchNext,
    SearchPrevious,
    SearchToggleCase,
    SearchClose,
    CreateTab,
    WaitActiveTerminalReady,
    VerifyTabOverflow,
    ScrollTabStrip,
    WaitTabStripScrolled,
    SwitchVisibleOverflowTab,
    DragReorderVisibleTab,
    CloseActiveTab,
    WaitPendingCleanupQueue,
    CleanupBarrierRestart,
    SettingsOpen,
    WaitSettingsOpen,
    SettingsFontIncrease,
    SettingsFontDecrease,
    SettingsScrollIncrease,
    SettingsScrollDecrease,
    SettingsBackgroundAlternate,
    SettingsBackgroundRestore,
    SettingsHelp,
    SettingsClose,
    WaitSettingsClosed,
    /// A wait of so many milliseconds.
    WaitElapsed(u64),
    VerifyProcessTreeStillRunning,
    CleanupBarrierFinal,
    /// The end of a part.
    Complete(SemanticBlock),
    Finish,
}

/// The name of a step that has nothing of its own in its name.
pub open spec fn plain_name(step: AutomationStep) -> Seq<char> {
    match step {
        AutomationStep::WaitReady => "wait-ready"@,
        AutomationStep::BasicInputEdit => "basic-input-edit"@,
        AutomationStep::UnicodeInput => "unicode-input"@,
        AutomationStep::WaitPresentedFrame => "wait-presented-frame"@,
        AutomationStep::WaitAltScreenEnter => "wait-alt-screen-enter"@,
        AutomationStep::WaitAltScreenExit => "wait-alt-screen-exit"@,
        AutomationStep::PositionTerminalPointer => "position-terminal-pointer"@,
        AutomationStep::WaitScrollAway => "wait-scroll-away"@,
        AutomationStep::WaitScrollToward => "wait-scroll-toward"@,
        AutomationStep::WaitScrollTail => "wait-scroll-tail"@,
        AutomationStep::SelectionDrag => "selection-drag"@,
        AutomationStep::SelectionCopyAndClear => "selection-copy-clear"@,
        AutomationStep::SearchNext => "search-next"@,
        AutomationStep::SearchPrevious => "search-previous"@,
        AutomationStep::SearchToggleCase => "search-toggle-case"@,
        AutomationStep::SearchClose => "search-close"@,
        AutomationStep::CreateTab => "tab-create"@,
        AutomationStep::WaitActiveTerminalReady => "tab-wait-ready"@,
        AutomationStep::VerifyTabOverflow => "tab-overflow-verify"@,
        AutomationStep::ScrollTabStrip => "tab-strip-scroll"@,
        AutomationStep::WaitTabStripScrolled => "tab-strip-scroll-wait"@,
        AutomationStep::SwitchVisibleOverflowTab => "tab-overflow-switch"@,
        AutomationStep::DragReorderVisibleTab => "tab-drag-reorder"@,
        AutomationStep::CloseActiveTab => "tab-close"@,
        AutomationStep::WaitPendingCleanupQueue => "cleanup-queue-wait"@,
        AutomationStep::CleanupBarrierRestart => "cleanup-barrier-restart"@,
        AutomationStep::SettingsOpen => "settings-open"@,
        AutomationStep::WaitSettingsOpen => "settings-open-wait"@,
        AutomationStep::SettingsFontIncrease => "settings-font-increase"@,
        AutomationStep::SettingsFontDecrease => "settings-font-decrease"@,
        AutomationStep::SettingsScrollIncrease => "settings-scroll-increase"@,
        AutomationStep::SettingsScrollDecrease => "settings-scroll-decrease"@,
        AutomationStep::SettingsBackgroundAlternate => "settings-background-alternate"@,
        AutomationStep::SettingsBackgroundRestore => "settings-background-restore"@,
        AutomationStep::SettingsHelp => "settings-help"@,
        AutomationStep::SettingsClose => "settings-close"@,
        AutomationStep::WaitSettingsClosed => "settings-close-wait"@,
        AutomationStep::VerifyProcessTreeStillRunning => "process-tree-live-verify"@,
        AutomationStep::CleanupBarrierFinal => "cleanup-barrier-final"@,
        AutomationStep::Finish => "finish"@,
        _ => "wait-alt-screen-frames"@,
    }
}

/// The name of a step in the report.
pub open spec fn step_name(step: AutomationStep) -> Seq<char> {
    match step {
        AutomationStep::Resize(kind) => "resize-"@ + kind_name(kind),
        AutomationStep::WaitResize(kind) => "wait-resize-"@ + kind_name(kind),
        AutomationStep::WaitText(marker) => "wait-text-"@ + marker@,
        AutomationStep::StartFixture(phase) => "fixture-"@ + phase_name(phase) + "-start"@,
        AutomationStep::WaitFixture(phase) => "fixture-"@ + phase_name(phase) + "-wait"@,
        AutomationStep::WaitAltPresentedFrames(_) => "wait-alt-screen-frames"@,
        AutomationStep::ScrollImpulses { lines, .. } => if lines > 0 {
            "scroll-away"@
        } else {
            "scroll-toward-tail"@
        },
        AutomationStep::SearchOpenQuery(query) => "search-open-"@ + query@,
        AutomationStep::WaitElapsed(milliseconds) => "wait-elapsed-"@ + text::decimal(
            milliseconds as nat,
        ) + "ms"@,
        AutomationStep::Complete(block) => "complete-"@ + block_name(block),
        _ => plain_name(step),
    }
}

fn plain_step_name(step: AutomationStep) -> (name: &'static str)
    ensures
        name@ == plain_name(step),
{
    match step {
        AutomationStep::WaitReady => "wait-ready",
        AutomationStep::BasicInputEdit => "basic-input-edit",
        AutomationStep::UnicodeInput => "unicode-input",
        AutomationStep::WaitPresentedFrame => "wait-presented-frame",
        AutomationStep::WaitAltScreenEnter => "wait-alt-screen-enter",
        AutomationStep::WaitAltScreenExit => "wait-alt-screen-exit",
        AutomationStep::PositionTerminalPointer => "position-terminal-pointer",
        AutomationStep::WaitScrollAway => "wait-scroll-away",
        AutomationStep::WaitScrollToward => "wait-scroll-toward",
        AutomationStep::WaitScrollTail => "wait-scroll-tail",
        AutomationStep::SelectionDrag => "selection-drag",
        AutomationStep::SelectionCopyAndClear => "selection-copy-clear",
        AutomationStep::SearchNext => "search-next",
        AutomationStep::SearchPrevious => "search-previous",
        AutomationStep::SearchToggleCase => "search-toggle-case",
        AutomationStep::SearchClose => "search-close",
        AutomationStep::CreateTab => "tab-create",
        AutomationStep::WaitActiveTerminalReady => "tab-wait-ready",
        AutomationStep::VerifyTabOverflow => "tab-overflow-verify",
        AutomationStep::ScrollTabStrip => "tab-strip-scroll",
        AutomationStep::WaitTabStripScrolled => "tab-strip-scroll-wait",
        AutomationStep::SwitchVisibleOverflowTab => "tab-overflow-switch",
        AutomationStep::DragReorderVisibleTab => "tab-drag-reorder",
        AutomationStep::CloseActiveTab => "tab-close",
        AutomationStep::WaitPendingCleanupQueue => "cleanup-queue-wait",
        AutomationStep::CleanupBarrierRestart => "cleanup-barrier-restart",
        AutomationStep::SettingsOpen => "settings-open",
        AutomationStep::WaitSettingsOpen => "settings-open-wait",
        AutomationStep::SettingsFontIncrease => "settings-font-increase",
        AutomationStep::SettingsFontDecrease => "settings-font-decrease",
        AutomationStep::SettingsScrollIncrease => "settings-scroll-increase",
        AutomationStep::SettingsScrollDecrease => "settings-scroll-decrease",
        AutomationStep::SettingsBackgroundAlternate => "settings-background-alternate",
        AutomationStep::SettingsBackgroundRestore => "settings-background-restore",
        AutomationStep::SettingsHelp => "settings-help",
        AutomationStep::SettingsClose => "settings-close",
        AutomationStep::WaitSettingsClosed => "settings-close-wait",
        AutomationStep::VerifyProcessTreeStillRunning => "process-tree-live-verify",
        AutomationStep::CleanupBarrierFinal => "cleanup-barrier-final",
        AutomationStep::Finish => "finish",
        _ => "wait-alt-screen-frames",
    }
}

fn joined_name(prefix: &str, name: &str, suffix: &str) -> (joined: String)
    ensures
        joined@ == prefix@ + name@ + suffix@,
{
    let mut joined = text::concat(prefix, name);
    joined.push_str(suffix);
    joined
}

/// How long a step may take, in milliseconds.
pub open spec fn step_timeout(step: AutomationStep) -> u64 {
    match step {
        AutomationStep::WaitReady => READY_TIMEOUT_MS,
        AutomationStep::WaitFixture(FixturePhase::Bulk) => BULK_TIMEOUT_MS,
        AutomationStep::WaitFixture(FixturePhase::ProcessTree) => PROCESS_TIMEOUT_MS,
        _ => STEP_TIMEOUT_MS,
    }
}

impl AutomationStep {
    /// The name of the step in the report.
    pub fn name(&self) -> (name: String)
        ensures
            name@ == step_name(*self),
    {
        match *self {
            AutomationStep::Resize(kind) => text::concat("resize-", kind.name()),
            AutomationStep::WaitResize(kind) => text::concat("wait-resize-", kind.name()),
            AutomationStep::WaitText(marker) => text::concat("wait-text-", marker),
            AutomationStep::StartFixture(phase) => joined_name(
                "fixture-",
                phase.as_str(),
                "-start",
            ),
            AutomationStep::WaitFixture(phase) => joined_name("fixture-", phase.as_str(), "-wait"),
            AutomationStep::WaitAltPresentedFrames(_) => "wait-alt-screen-frames".to_owned(),
            AutomationStep::ScrollImpulses { lines, .. } => if lines > 0 {
                "scroll-away".to_owned()
            } else {
                "scroll-toward-tail".to_owned()
            },
            AutomationStep::SearchOpenQuery(query) => text::concat("search-open-", query),
            AutomationStep::WaitElapsed(milliseconds) => joined_name(
                "wait-elapsed-",
                text::decimal_text(milliseconds).as_str(),
                "ms",
            ),
            AutomationStep::Complete(block) => text::concat("complete-", block.report_name()),
            _ => plain_step_name(*self).to_owned(),
        }
    }

    /// How long the step may take, in milliseconds.
    pub fn timeout(&self) -> (milliseconds: u64)
        ensures
            milliseconds == step_timeout(*self),
    {
        match self {
            AutomationStep::WaitReady => READY_TIMEOUT_MS,
            AutomationStep::WaitFixture(FixturePhase::Bulk) => BULK_TIMEOUT_MS,
            AutomationStep::WaitFixture(FixturePhase::ProcessTree) => PROCESS_TIMEOUT_MS,
            _ => STEP_TIMEOUT_MS,
        }
    }
}

/// The steps of the start.
pub open spec fn startup_steps() -> Seq<AutomationStep> {
    seq![
        AutomationStep::WaitReady,
    ]
}

/// The steps that resize the window.
pub open spec fn resize_reflow_steps() -> Seq<AutomationStep> {
    seq![
        AutomationStep::Resize(ResizeKind::Narrow),
        AutomationStep::WaitResize(ResizeKind::Narrow),
        AutomationStep::Resize(ResizeKind::Wide),
        AutomationStep::WaitResize(ResizeKind::Wide),
        AutomationStep::Resize(ResizeKind::Original),
        AutomationStep::WaitResize(ResizeKind::Original),
    ]
}

/// The steps that edit and echo input.
pub open spec fn basic_input_steps() -> Seq<AutomationStep> {
    seq![
        AutomationStep::BasicInputEdit,
        AutomationStep::WaitText("__RONSOLE_PGO_INPUT_edit"),
        AutomationStep::WaitPresentedFrame,
        AutomationStep::StartFixture(FixturePhase::Basic),
        AutomationStep::WaitFixture(FixturePhase::Basic),
        AutomationStep::WaitPresentedFrame,
    ]
}

/// The steps that write text of many scripts.
pub open spec fn unicode_steps() -> Seq<AutomationStep> {
    seq![
        AutomationStep::UnicodeInput,
        AutomationStep::WaitText("__RONSOLE_PGO_UNICODE_ok"),
        AutomationStep::WaitPresentedFrame,
        AutomationStep::StartFixture(FixturePhase::Unicode),
        AutomationStep::WaitFixture(FixturePhase::Unicode),
        AutomationStep::WaitPresentedFrame,
    ]
}

/// The steps that write styled text.
pub open spec fn ansi_steps() -> Seq<AutomationStep> {
    seq![
        AutomationStep::StartFixture(FixturePhase::Ansi),
        AutomationStep::WaitFixture(FixturePhase::Ansi),
        AutomationStep::WaitPresentedFrame,
    ]
}

/// The steps that write much text.
pub open spec fn bulk_steps() -> Seq<AutomationStep> {
    seq![
        AutomationStep::StartFixture(FixturePhase::Bulk),
        AutomationStep::WaitFixture(FixturePhase::Bulk),
        AutomationStep::WaitPresentedFrame,
    ]
}

/// The steps that write long lines and resize the window.
pub open spec fn long_lines_steps() -> Seq<AutomationStep> {
    seq![
        AutomationStep::StartFixture(FixturePhase::LongLines),
        AutomationStep::WaitFixture(FixturePhase::LongLines),
        AutomationStep::WaitPresentedFrame,
        AutomationStep::Resize(ResizeKind::Narrow),
        AutomationStep::WaitResize(ResizeKind::Narrow),
        AutomationStep::Resize(ResizeKind::Wide),
        AutomationStep::WaitResize(ResizeKind::Wide),
        AutomationStep::Resize(ResizeKind::Original),
        AutomationStep::WaitResize(ResizeKind::Original),
        AutomationStep::WaitPresentedFrame,
    ]
}

/// The steps on the alternate screen.
pub open spec fn alternate_screen_steps() -> Seq<AutomationStep> {
    seq![
        AutomationStep::StartFixture(FixturePhase::AlternateScreen),
        AutomationStep::WaitAltScreenEnter,
        AutomationStep::WaitAltPresentedFrames(ALT_SCREEN_PRESENTED_FRAMES),
        AutomationStep::WaitFixture(FixturePhase::AlternateScreen),
        AutomationStep::WaitAltScreenExit,
        AutomationStep::WaitPresentedFrame,
    ]
}

/// The steps that scroll away and back.
pub open spec fn scroll_steps() -> Seq<AutomationStep> {
    seq![
        AutomationStep::PositionTerminalPointer,
        AutomationStep::ScrollImpulses { lines: SCROLL_LINES_AWAY, count: SCROLL_IMPULSES_AWAY },
        AutomationStep::WaitScrollAway,
        AutomationStep::ScrollImpulses { lines: SCROLL_LINES_TOWARD, count: SCROLL_IMPULSES_TOWARD },
        AutomationStep::WaitScrollToward,
        AutomationStep::ScrollImpulses { lines: SCROLL_LINES_TO_TAIL, count: SCROLL_IMPULSES_TO_TAIL },
        AutomationStep::WaitScrollTail,
    ]
}

/// The steps that select text.
pub open spec fn selection_steps() -> Seq<AutomationStep> {
    seq![
        AutomationStep::SelectionDrag,
        AutomationStep::SelectionCopyAndClear,
    ]
}

/// The steps that search.
pub open spec fn search_steps() -> Seq<AutomationStep> {
    seq![
        AutomationStep::SearchOpenQuery("__RONSOLE_PGO_DONE_bulk"),
        AutomationStep::SearchNext,
        AutomationStep::SearchPrevious,
        AutomationStep::WaitPresentedFrame,
        AutomationStep::SearchToggleCase,
        AutomationStep::WaitPresentedFrame,
        AutomationStep::SearchClose,
        AutomationStep::SearchOpenQuery("__RONSOLE_PGO_INPUT_edit"),
        AutomationStep::SearchNext,
        AutomationStep::SearchClose,
    ]
}

/// The steps that open a tab.
pub open spec fn new_tab_steps() -> Seq<AutomationStep> {
    seq![
        AutomationStep::CreateTab,
        AutomationStep::WaitActiveTerminalReady,
        AutomationStep::StartFixture(FixturePhase::Basic),
        AutomationStep::WaitFixture(FixturePhase::Basic),
        AutomationStep::WaitPresentedFrame,
    ]
}

/// The steps on more tabs than there is room for.
pub open spec fn overflowing_tabs_steps() -> Seq<AutomationStep> {
    seq![
        AutomationStep::VerifyTabOverflow,
        AutomationStep::ScrollTabStrip,
        AutomationStep::WaitTabStripScrolled,
        AutomationStep::SwitchVisibleOverflowTab,
        AutomationStep::WaitActiveTerminalReady,
        AutomationStep::DragReorderVisibleTab,
    ]
}

/// The steps that close a tab.
pub open spec fn closed_tab_steps() -> Seq<AutomationStep> {
    seq![
        AutomationStep::CloseActiveTab,
        AutomationStep::WaitActiveTerminalReady,
    ]
}

/// The steps that wait for closed tabs and restore the window.
pub open spec fn settled_tabs_steps() -> Seq<AutomationStep> {
    seq![
        AutomationStep::WaitPendingCleanupQueue,
        AutomationStep::CleanupBarrierRestart,
        AutomationStep::Resize(ResizeKind::Original),
        AutomationStep::WaitResize(ResizeKind::Original),
    ]
}

/// The steps in the settings.
pub open spec fn settings_steps() -> Seq<AutomationStep> {
    seq![
        AutomationStep::SettingsOpen,
        AutomationStep::WaitSettingsOpen,
        AutomationStep::SettingsFontIncrease,
        AutomationStep::WaitPresentedFrame,
        AutomationStep::SettingsFontDecrease,
        AutomationStep::WaitPresentedFrame,
        AutomationStep::SettingsScrollIncrease,
        AutomationStep::WaitPresentedFrame,
        AutomationStep::SettingsScrollDecrease,
        AutomationStep::WaitPresentedFrame,
        AutomationStep::SettingsBackgroundAlternate,
        AutomationStep::WaitPresentedFrame,
        AutomationStep::SettingsBackgroundRestore,
        AutomationStep::WaitPresentedFrame,
        AutomationStep::SettingsHelp,
        AutomationStep::WaitPresentedFrame,
        AutomationStep::SettingsClose,
        AutomationStep::WaitSettingsClosed,
    ]
}

/// The steps that end a tree of processes.
pub open spec fn process_tree_steps() -> Seq<AutomationStep> {
    seq![
        AutomationStep::CreateTab,
        AutomationStep::WaitActiveTerminalReady,
        AutomationStep::StartFixture(FixturePhase::ProcessTree),
        AutomationStep::WaitText("__RONSOLE_PGO_PROCESS_TREE_STARTED"),
        AutomationStep::WaitElapsed(PROCESS_TREE_SPAWN_GRACE_MS),
        AutomationStep::VerifyProcessTreeStillRunning,
        AutomationStep::WaitPresentedFrame,
        AutomationStep::CloseActiveTab,
        AutomationStep::WaitActiveTerminalReady,
        AutomationStep::WaitPendingCleanupQueue,
        AutomationStep::CleanupBarrierFinal,
    ]
}

/// Steps done again and again.
pub open spec fn repeated(steps: Seq<AutomationStep>, count: nat) -> Seq<AutomationStep>
    decreases count,
{
    if count == 0 {
        Seq::empty()
    } else {
        repeated(steps, (count - 1) as nat) + steps
    }
}

/// The steps on tabs.
pub open spec fn tabs_steps() -> Seq<AutomationStep> {
    seq![
        AutomationStep::Resize(ResizeKind::Narrow),
        AutomationStep::WaitResize(ResizeKind::Narrow),
    ] + repeated(new_tab_steps(), TAB_TRAINING_COUNT as nat) + overflowing_tabs_steps() + repeated(
        closed_tab_steps(),
        TAB_CLOSE_COUNT as nat,
    ) + settled_tabs_steps()
}

/// The steps of a part, before it ends.
pub open spec fn block_steps(block: SemanticBlock) -> Seq<AutomationStep> {
    match block {
        SemanticBlock::Startup => startup_steps(),
        SemanticBlock::ResizeReflow => resize_reflow_steps(),
        SemanticBlock::BasicInput => basic_input_steps(),
        SemanticBlock::Unicode => unicode_steps(),
        SemanticBlock::Ansi => ansi_steps(),
        SemanticBlock::Bulk => bulk_steps(),
        SemanticBlock::LongLines => long_lines_steps(),
        SemanticBlock::AlternateScreen => alternate_screen_steps(),
        SemanticBlock::Scroll => scroll_steps(),
        SemanticBlock::Selection => selection_steps(),
        SemanticBlock::Search => search_steps(),
        SemanticBlock::Tabs => tabs_steps(),
        SemanticBlock::Settings => settings_steps(),
        SemanticBlock::ProcessTree => process_tree_steps(),
    }
}

/// The steps of parts, each with its end.
pub open spec fn blocks_steps(blocks: Seq<SemanticBlock>) -> Seq<AutomationStep>
    decreases blocks.len(),
{
    if blocks.len() == 0 {
        Seq::empty()
    } else {
        blocks_steps(blocks.drop_last()) + block_steps(blocks.last()).push(
            AutomationStep::Complete(blocks.last()),
        )
    }
}

/// The steps of the run: those of every part in its order, and the end of the run.
pub open spec fn scenario_steps() -> Seq<AutomationStep> {
    blocks_steps(all_blocks()).push(AutomationStep::Finish)
}

fn push_startup(steps: &mut Vec<AutomationStep>)
    ensures
        final(steps)@ == old(steps)@ + startup_steps(),
{
    let ghost before = steps@;
    steps.push(AutomationStep::WaitReady);
    assert(steps@ =~= before + startup_steps());
}

fn push_resize_reflow(steps: &mut Vec<AutomationStep>)
    ensures
        final(steps)@ == old(steps)@ + resize_reflow_steps(),
{
    let ghost before = steps@;
    steps.push(AutomationStep::Resize(ResizeKind::Narrow));
    steps.push(AutomationStep::WaitResize(ResizeKind::Narrow));
    steps.push(AutomationStep::Resize(ResizeKind::Wide));
    steps.push(AutomationStep::WaitResize(ResizeKind::Wide));
    steps.push(AutomationStep::Resize(ResizeKind::Original));
    steps.push(AutomationStep::WaitResize(ResizeKind::Original));
    assert(steps@ =~= before + resize_reflow_steps());
}

fn push_basic_input(steps: &mut Vec<AutomationStep>)
    ensures
        final(steps)@ == old(steps)@ + basic_input_steps(),
{
    let ghost before = steps@;
    steps.push(AutomationStep::BasicInputEdit);
    steps.push(AutomationStep::WaitText("__RONSOLE_PGO_INPUT_edit"));
    steps.push(AutomationStep::WaitPresentedFrame);
    steps.push(AutomationStep::StartFixture(FixturePhase::Basic));
    steps.push(AutomationStep::WaitFixture(FixturePhase::Basic));
    steps.push(AutomationStep::WaitPresentedFrame);
    assert(steps@ =~= before + basic_input_steps());
}

fn push_unicode(steps: &mut Vec<AutomationStep>)
    ensures
        final(steps)@ == old(steps)@ + unicode_steps(),
{
    let ghost before = steps@;
    steps.push(AutomationStep::UnicodeInput);
    steps.push(AutomationStep::WaitText("__RONSOLE_PGO_UNICODE_ok"));
    steps.push(AutomationStep::WaitPresentedFrame);
    steps.push(AutomationStep::StartFixture(FixturePhase::Unicode));
    steps.push(AutomationStep::WaitFixture(FixturePhase::Unicode));
    steps.push(AutomationStep::WaitPresentedFrame);
    assert(steps@ =~= before + unicode_steps());
}

fn push_ansi(steps: &mut Vec<AutomationStep>)
    ensures
        final(steps)@ == old(steps)@ + ansi_steps(),
{
    let ghost before = steps@;
    steps.push(AutomationStep::StartFixture(FixturePhase::Ansi));
    steps.push(AutomationStep::WaitFixture(FixturePhase::Ansi));
    steps.push(AutomationStep::WaitPresentedFrame);
    assert(steps@ =~= before + ansi_steps());
}

fn push_bulk(steps: &mut Vec<AutomationStep>)
    ensures
        final(steps)@ == old(steps)@ + bulk_steps(),
{
    let ghost before = steps@;
    steps.push(AutomationStep::StartFixture(FixturePhase::Bulk));
    steps.push(AutomationStep::WaitFixture(FixturePhase::Bulk));
    steps.push(AutomationStep::WaitPresentedFrame);
    assert(steps@ =~= before + bulk_steps());
}

fn push_long_lines(steps: &mut Vec<AutomationStep>)
    ensures
        final(steps)@ == old(steps)@ + long_lines_steps(),
{
    let ghost before = steps@;
    steps.push(AutomationStep::StartFixture(FixturePhase::LongLines));
    steps.push(AutomationStep::WaitFixture(FixturePhase::LongLines));
    steps.push(AutomationStep::WaitPresentedFrame);
    steps.push(AutomationStep::Resize(ResizeKind::Narrow));
    steps.push(AutomationStep::WaitResize(ResizeKind::Narrow));
    steps.push(AutomationStep::Resize(ResizeKind::Wide));
    steps.push(AutomationStep::WaitResize(ResizeKind::Wide));
    steps.push(AutomationStep::Resize(ResizeKind::Original));
    steps.push(AutomationStep::WaitResize(ResizeKind::Original));
    steps.push(AutomationStep::WaitPresentedFrame);
    assert(steps@ =~= before + long_lines_steps());
}

fn push_alternate_screen(steps: &mut Vec<AutomationStep>)
    ensures
        final(steps)@ == old(steps)@ + alternate_screen_steps(),
{
    let ghost before = steps@;
    steps.push(AutomationStep::StartFixture(FixturePhase::AlternateScreen));
    steps.push(AutomationStep::WaitAltScreenEnter);
    steps.push(AutomationStep::WaitAltPresentedFrames(ALT_SCREEN_PRESENTED_FRAMES));
    steps.push(AutomationStep::WaitFixture(FixturePhase::AlternateScreen));
    steps.push(AutomationStep::WaitAltScreenExit);
    steps.push(AutomationStep::WaitPresentedFrame);
    assert(steps@ =~= before + alternate_screen_steps());
}

fn push_scroll(steps: &mut Vec<AutomationStep>)
    ensures
        final(steps)@ == old(steps)@ + scroll_steps(),
{
    let ghost before = steps@;
    steps.push(AutomationStep::PositionTerminalPointer);
    steps.push(AutomationStep::ScrollImpulses { lines: SCROLL_LINES_AWAY, count: SCROLL_IMPULSES_AWAY });
    steps.push(AutomationStep::WaitScrollAway);
    steps.push(AutomationStep::ScrollImpulses { lines: SCROLL_LINES_TOWARD, count: SCROLL_IMPULSES_TOWARD });
    steps.push(AutomationStep::WaitScrollToward);
    steps.push(AutomationStep::ScrollImpulses { lines: SCROLL_LINES_TO_TAIL, count: SCROLL_IMPULSES_TO_TAIL });
    steps.push(AutomationStep::WaitScrollTail);
    assert(steps@ =~= before + scroll_steps());
}

fn push_selection(steps: &mut Vec<AutomationStep>)
    ensures
        final(steps)@ == old(steps)@ + selection_steps(),
{
    let ghost before = steps@;
    steps.push(AutomationStep::SelectionDrag);
    steps.push(AutomationStep::SelectionCopyAndClear);
    assert(steps@ =~= before + selection_steps());
}

fn push_search(steps: &mut Vec<AutomationStep>)
    ensures
        final(steps)@ == old(steps)@ + search_steps(),
{
    let ghost before = steps@;
    steps.push(AutomationStep::SearchOpenQuery("__RONSOLE_PGO_DONE_bulk"));
    steps.push(AutomationStep::SearchNext);
    steps.push(AutomationStep::SearchPrevious);
    steps.push(AutomationStep::WaitPresentedFrame);
    steps.push(AutomationStep::SearchToggleCase);
    steps.push(AutomationStep::WaitPresentedFrame);
    steps.push(AutomationStep::SearchClose);
    steps.push(AutomationStep::SearchOpenQuery("__RONSOLE_PGO_INPUT_edit"));
    steps.push(AutomationStep::SearchNext);
    steps.push(AutomationStep::SearchClose);
    assert(steps@ =~= before + search_steps());
}

fn push_new_tab(steps: &mut Vec<AutomationStep>)
    ensures
        final(steps)@ == old(steps)@ + new_tab_steps(),
{
    let ghost before = steps@;
    steps.push(AutomationStep::CreateTab);
    steps.push(AutomationStep::WaitActiveTerminalReady);
    steps.push(AutomationStep::StartFixture(FixturePhase::Basic));
    steps.push(AutomationStep::WaitFixture(FixturePhase::Basic));
    steps.push(AutomationStep::WaitPresentedFrame);
    assert(steps@ =~= before + new_tab_steps());
}

fn push_overflowing_tabs(steps: &mut Vec<AutomationStep>)
    ensures
        final(steps)@ == old(steps)@ + overflowing_tabs_steps(),
{
    let ghost before = steps@;
    steps.push(AutomationStep::VerifyTabOverflow);
    steps.push(AutomationStep::ScrollTabStrip);
    steps.push(AutomationStep::WaitTabStripScrolled);
    steps.push(AutomationStep::SwitchVisibleOverflowTab);
    steps.push(AutomationStep::WaitActiveTerminalReady);
    steps.push(AutomationStep::DragReorderVisibleTab);
    assert(steps@ =~= before + overflowing_tabs_steps());
}

fn push_closed_tab(steps: &mut Vec<AutomationStep>)
    ensures
        final(steps)@ == old(steps)@ + closed_tab_steps(),
{
    let ghost before = steps@;
    steps.push(AutomationStep::CloseActiveTab);
    steps.push(AutomationStep::WaitActiveTerminalReady);
    assert(steps@ =~= before + closed_tab_steps());
}

fn push_settled_tabs(steps: &mut Vec<AutomationStep>)
    ensures
        final(steps)@ == old(steps)@ + settled_tabs_steps(),
{
    let ghost before = steps@;
    steps.push(AutomationStep::WaitPendingCleanupQueue);
    steps.push(AutomationStep::CleanupBarrierRestart);
    steps.push(AutomationStep::Resize(ResizeKind::Original));
    steps.push(AutomationStep::WaitResize(ResizeKind::Original));
    assert(steps@ =~= before + settled_tabs_steps());
}

fn push_settings(steps: &mut Vec<AutomationStep>)
    ensures
        final(steps)@ == old(steps)@ + settings_steps(),
{
    let ghost before = steps@;
    steps.push(AutomationStep::SettingsOpen);
    steps.push(AutomationStep::WaitSettingsOpen);
    steps.push(AutomationStep::SettingsFontIncrease);
    steps.push(AutomationStep::WaitPresentedFrame);
    steps.push(AutomationStep::SettingsFontDecrease);
    steps.push(AutomationStep::WaitPresentedFrame);
    steps.push(AutomationStep::SettingsScrollIncrease);
    steps.push(AutomationStep::WaitPresentedFrame);
    steps.push(AutomationStep::SettingsScrollDecrease);
    steps.push(AutomationStep::WaitPresentedFrame);
    steps.push(AutomationStep::SettingsBackgroundAlternate);
    steps.push(AutomationStep::WaitPresentedFrame);
    steps.push(AutomationStep::SettingsBackgroundRestore);
    steps.push(AutomationStep::WaitPresentedFrame);
    steps.push(AutomationStep::SettingsHelp);
    steps.push(AutomationStep::WaitPresentedFrame);
    steps.push(AutomationStep::SettingsClose);
    steps.push(AutomationStep::WaitSettingsClosed);
    assert(steps@ =~= before + settings_steps());
}

fn push_process_tree(steps: &mut Vec<AutomationStep>)
    ensures
        final(steps)@ == old(steps)@ + process_tree_steps(),
{
    let ghost before = steps@;
    steps.push(AutomationStep::CreateTab);
    steps.push(AutomationStep::WaitActiveTerminalReady);
    steps.push(AutomationStep::StartFixture(FixturePhase::ProcessTree));
    steps.push(AutomationStep::WaitText("__RONSOLE_PGO_PROCESS_TREE_STARTED"));
    steps.push(AutomationStep::WaitElapsed(PROCESS_TREE_SPAWN_GRACE_MS));
    steps.push(AutomationStep::VerifyProcessTreeStillRunning);
    steps.push(AutomationStep::WaitPresentedFrame);
    steps.push(AutomationStep::CloseActiveTab);
    steps.push(AutomationStep::WaitActiveTerminalReady);
    steps.push(AutomationStep::WaitPendingCleanupQueue);
    steps.push(AutomationStep::CleanupBarrierFinal);
    assert(steps@ =~= before + process_tree_steps());
}

fn push_tabs(steps: &mut Vec<AutomationStep>)
    ensures
        final(steps)@ == old(steps)@ + tabs_steps(),
{
    let ghost before = steps@;
    let ghost head = seq![
        AutomationStep::Resize(ResizeKind::Narrow),
        AutomationStep::WaitResize(ResizeKind::Narrow),
    ];
    steps.push(AutomationStep::Resize(ResizeKind::Narrow));
    steps.push(AutomationStep::WaitResize(ResizeKind::Narrow));
    assert(steps@ =~= before + head + repeated(new_tab_steps(), 0));
    let mut i: usize = 0;
    while i < TAB_TRAINING_COUNT
        invariant
            i <= TAB_TRAINING_COUNT,
            steps@ == before + head + repeated(new_tab_steps(), i as nat),
        decreases TAB_TRAINING_COUNT - i,
    {
        push_new_tab(steps);
        i += 1;
        assert(steps@ =~= before + head + repeated(new_tab_steps(), i as nat));
    }
    push_overflowing_tabs(steps);
    let ghost middle = steps@;
    assert(middle =~= middle + repeated(closed_tab_steps(), 0));
    i = 0;
    while i < TAB_CLOSE_COUNT
        invariant
            i <= TAB_CLOSE_COUNT,
            steps@ == middle + repeated(closed_tab_steps(), i as nat),
        decreases TAB_CLOSE_COUNT - i,
    {
        push_closed_tab(steps);
        i += 1;
        assert(steps@ =~= middle + repeated(closed_tab_steps(), i as nat));
    }
    push_settled_tabs(steps);
    assert(steps@ =~= before + tabs_steps());
}

fn push_block(steps: &mut Vec<AutomationStep>, block: SemanticBlock)
    ensures
        final(steps)@ == old(steps)@ + block_steps(block).push(AutomationStep::Complete(block)),
{
    let ghost before = steps@;
    match block {
        SemanticBlock::Startup => push_startup(steps),
        SemanticBlock::ResizeReflow => push_resize_reflow(steps),
        SemanticBlock::BasicInput => push_basic_input(steps),
        SemanticBlock::Unicode => push_unicode(steps),
        SemanticBlock::Ansi => push_ansi(steps),
        SemanticBlock::Bulk => push_bulk(steps),
        SemanticBlock::LongLines => push_long_lines(steps),
        SemanticBlock::AlternateScreen => push_alternate_screen(steps),
        SemanticBlock::Scroll => push_scroll(steps),
        SemanticBlock::Selection => push_selection(steps),
        SemanticBlock::Search => push_search(steps),
        SemanticBlock::Tabs => push_tabs(steps),
        SemanticBlock::Settings => push_settings(steps),
        SemanticBlock::ProcessTree => push_process_tree(steps),
    }
    steps.push(AutomationStep::Complete(block));
    assert(steps@ =~= before + block_steps(block).push(AutomationStep::Complete(block)));
}

/// The steps of the run.
pub fn scenario() -> (steps: Vec<AutomationStep>)
    ensures
        steps@ == scenario_steps(),
{
    let blocks = SemanticBlock::all();
    let mut steps: Vec<AutomationStep> = Vec::new();
    let mut i: usize = 0;
    assert(steps@ =~= blocks_steps(blocks@.take(0)));
    while i < blocks.len()
        invariant
            i <= blocks@.len(),
            steps@ == blocks_steps(blocks@.take(i as int)),
        decreases blocks@.len() - i,
    {
        assert(blocks@.take(i + 1).drop_last() =~= blocks@.take(i as int));
        push_block(&mut steps, blocks[i]);
        i += 1;
    }
    assert(blocks@.take(i as int) =~= blocks@);
    steps.push(AutomationStep::Finish);
    steps
}

/// The parts that steps end, in order.
pub open spec fn completions(steps: Seq<AutomationStep>) -> Seq<SemanticBlock>
    decreases steps.len(),
{
    if steps.len() == 0 {
        Seq::empty()
    } else {
        match steps.last() {
            AutomationStep::Complete(block) => completions(steps.drop_last()).push(block),
            _ => completions(steps.drop_last()),
        }
    }
}

/// Whether no step ends a part or the run.
spec fn is_open(steps: Seq<AutomationStep>) -> bool {
    forall|i: int|
        0 <= i < steps.len() ==> !((#[trigger] steps[i]) is Complete) && !(steps[i] is Finish)
}

proof fn open_steps_complete_nothing(steps: Seq<AutomationStep>)
    requires
        is_open(steps),
    ensures
        completions(steps) == Seq::<SemanticBlock>::empty(),
    decreases steps.len(),
{
    if steps.len() > 0 {
        open_steps_complete_nothing(steps.drop_last());
    }
}

proof fn completions_add_up(first: Seq<AutomationStep>, second: Seq<AutomationStep>)
    ensures
        completions(first + second) == completions(first) + completions(second),
    decreases second.len(),
{
    if second.len() == 0 {
        assert(first + second =~= first);
        assert(completions(first) + completions(second) =~= completions(first));
    } else {
        assert((first + second).drop_last() =~= first + second.drop_last());
        assert((first + second).last() == second.last());
        completions_add_up(first, second.drop_last());
        assert(completions(first + second) =~= completions(first) + completions(second));
    }
}

proof fn repetition_is_open(steps: Seq<AutomationStep>, count: nat)
    requires
        is_open(steps),
    ensures
        is_open(repeated(steps, count)),
    decreases count,
{
    if count > 0 {
        repetition_is_open(steps, (count - 1) as nat);
    }
}

proof fn blocks_are_open(block: SemanticBlock)
    ensures
        is_open(block_steps(block)),
{
    repetition_is_open(new_tab_steps(), TAB_TRAINING_COUNT as nat);
    repetition_is_open(closed_tab_steps(), TAB_CLOSE_COUNT as nat);
}

proof fn blocks_complete_themselves(blocks: Seq<SemanticBlock>)
    ensures
        completions(blocks_steps(blocks)) == blocks,
    decreases blocks.len(),
{
    if blocks.len() == 0 {
        assert(blocks =~= Seq::empty());
    } else {
        let block = blocks.last();
        let part = block_steps(block).push(AutomationStep::Complete(block));
        blocks_complete_themselves(blocks.drop_last());
        blocks_are_open(block);
        open_steps_complete_nothing(block_steps(block));
        assert(part.drop_last() =~= block_steps(block));
        assert(completions(part) =~= seq![block]);
        completions_add_up(blocks_steps(blocks.drop_last()), part);
        assert(blocks.drop_last().push(block) =~= blocks);
        assert(completions(blocks_steps(blocks)) =~= blocks);
    }
}

/// The run ends every part once, in their order, and ends with its last step.
pub proof fn scenario_is_complete()
    ensures
        completions(scenario_steps()) == all_blocks(),
        scenario_steps().last() == AutomationStep::Finish,
{
    blocks_complete_themselves(all_blocks());
    assert(scenario_steps().drop_last() =~= blocks_steps(all_blocks()));
}

} // verus!
