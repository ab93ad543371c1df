//! The scripted run.
use ronsole::app::state::App;
use ronsole::app::terminals::TerminalTab;
use ronsole::app::TerminalPresentationIntent;
use ronsole::automation::controller::{
    input_result, reordered, step_markers, unexpected_exit, AutomationController, AutomationError,
    AutomationInput, AutomationTick, Observed, ReportWrite, StepResult, TabDragSeen,
};
use ronsole::automation::options::{automation_options_from_args, parse_automation_args};
use ronsole::automation::report::{
    deadline_expired, fixture_command, json_escape, mandatory_completion_valid, next_step_index,
    serialize_report, shell_quote_path,
};
use ronsole::automation::scenario::{
    resize_plan, AutomationStep, FixturePhase, ResizeKind, SemanticBlock, NARROW_WIDTH_MAX,
    PGO_AUTOMATION_SCENARIO_VERSION, PROCESS_TREE_SPAWN_GRACE_MS, SCROLL_IMPULSES_AWAY,
    SCROLL_IMPULSES_TOWARD, SCROLL_IMPULSES_TO_TAIL, STEP_TIMEOUT_MS, WIDE_WIDTH_MAX,
};
use ronsole::automation::screen::{active_grid_contains, contains_text};
use ronsole::config::AppConfig;
use ronsole::input_types::{KeyCode, Modifiers};
use ronsole::terminal::TermGrid;

fn args(values: &[&str]) -> Vec<Vec<u8>> {
    values.iter().map(|value| value.as_bytes().to_vec()).collect()
}

fn scenario() -> Vec<AutomationStep> {
    ronsole::automation::scenario::scenario()
}

fn ready() -> Observed {
    Observed {
        window: true,
        size: (1200, 800),
        renderable: true,
        dirty: false,
        tabs: 1,
        active: 0,
        has_terminal: true,
        presented: true,
        ready: true,
        waiting: false,
        cols: 80,
        visible_rows: 24,
        body_visible: true,
        cells_visible: true,
        alternate_screen: false,
        selection: false,
        done_text: false,
        failed_text: false,
        scroll_settled: true,
        scrolled_away: false,
        scrolled_nearer: false,
        search_visible: false,
        case_toggle_visible: false,
        tabs_overflow: false,
        tabs_scrolled: false,
        tab_visible: false,
        other_tab: None,
        tab_drag: TabDragSeen {
            passed: false,
            destination: None,
            start: 0,
            still_dragging: false,
        },
        cleanup_empty: true,
        settings_open: false,
        settings_settled: true,
        clipboard_readable: true,
    }
}

fn controller() -> AutomationController {
    AutomationController::new(b"/w/terminal_fixture.sh".to_vec(), 1_000, 120_000)
        .unwrap_or_else(|| panic!("expected a controller"))
}

#[test]
fn cli_parser_keeps_normal_app_uninstrumented() {
    assert_eq!(parse_automation_args(&args(&["ronsole"])).unwrap(), None);
}

fn seen(app: &App) -> Observed {
    let tabs = &app.terminals.list;
    Observed {
        dirty: app.window.dirty,
        tabs: tabs.len(),
        active: app.terminals.active,
        presented: app.terminals.presented,
        ready: tabs[app.terminals.active].presentation_ready,
        waiting: tabs
            .iter()
            .any(|tab| tab.intent == TerminalPresentationIntent::ActivateWhenReady),
        cols: 8,
        visible_rows: 2,
        ..ready()
    }
}

fn active_terminal_ready(app: &App) -> bool {
    let seen = seen(app);
    let step = AutomationStep::WaitActiveTerminalReady;
    controller().judge_step(step, "", &seen, &seen, 0) == Ok(StepResult::Done)
}

#[test]
fn deferred_tab_activation_blocks_automation_readiness_until_settled() {
    let mut app = App::from_config(AppConfig::default());
    for (number, presentation_ready) in [(1, true), (2, false)] {
        app.terminals.list.push(TerminalTab {
            number,
            intent: TerminalPresentationIntent::Idle,
            reveal_right_tail_when_presented: false,
            presentation_ready,
            closed: false,
            has_process: false,
            focus_reporting: false,
        });
    }
    app.terminals.active = 0;
    app.terminals.presented = true;
    app.window.dirty = false;

    assert!(active_terminal_ready(&app));
    app.request_terminal_activation(1, false);

    assert_eq!(app.terminals.active, 0);
    assert!(app.terminals.presented);
    assert_eq!(
        app.terminals.list[1].intent,
        TerminalPresentationIntent::ActivateWhenReady
    );
    assert!(!active_terminal_ready(&app));

    app.terminals.list[1].presentation_ready = true;
    assert!(app.process_terminal_presentation_intents());
    assert_eq!(app.terminals.active, 1);
    assert!(app
        .terminals
        .list
        .iter()
        .all(|tab| tab.intent == TerminalPresentationIntent::Idle));

    app.window.dirty = false;
    assert!(active_terminal_ready(&app));
}

#[test]
fn cli_parser_accepts_frozen_contract() {
    let parsed = automation_options_from_args(&args(&[
        "ronsole",
        "--pgo-train",
        "--pgo-workspace",
        "/tmp/workspace",
        "--pgo-report",
        "/tmp/report.json",
        "--pgo-timeout-seconds",
        "120",
    ]))
    .unwrap();
    assert_eq!(parsed.workspace, b"/tmp/workspace");
    assert_eq!(parsed.report, b"/tmp/report.json");
    assert_eq!(parsed.timeout_seconds, 120);
}

#[test]
fn cli_parser_rejects_missing_or_invalid_contract_values() {
    for invalid in [
        args(&["ronsole", "--pgo-train"]),
        args(&[
            "ronsole",
            "--pgo-train",
            "--pgo-workspace",
            "/tmp/workspace",
            "--pgo-report",
            "/tmp/report.json",
        ]),
        args(&[
            "ronsole",
            "--pgo-train",
            "--pgo-workspace",
            "relative",
            "--pgo-report",
            "/tmp/report.json",
            "--pgo-timeout-seconds",
            "1",
        ]),
        args(&[
            "ronsole",
            "--pgo-train",
            "--pgo-workspace",
            "/tmp/workspace",
            "--pgo-report",
            "/tmp/report.json",
            "--pgo-timeout-seconds",
            "0",
        ]),
    ] {
        assert!(automation_options_from_args(&invalid).is_err());
    }
}

#[test]
fn scenario_is_version_one_complete_and_finishes_last() {
    assert_eq!(PGO_AUTOMATION_SCENARIO_VERSION, 1);
    let steps = scenario();
    assert_eq!(steps.last(), Some(&AutomationStep::Finish));
    for block in SemanticBlock::all() {
        assert!(steps.contains(&AutomationStep::Complete(block)));
    }
    let settings_steps = steps
        .iter()
        .filter(|step| {
            matches!(
                step,
                AutomationStep::SettingsOpen
                    | AutomationStep::WaitSettingsOpen
                    | AutomationStep::SettingsFontIncrease
                    | AutomationStep::SettingsFontDecrease
                    | AutomationStep::SettingsScrollIncrease
                    | AutomationStep::SettingsScrollDecrease
                    | AutomationStep::SettingsBackgroundAlternate
                    | AutomationStep::SettingsBackgroundRestore
                    | AutomationStep::SettingsHelp
                    | AutomationStep::SettingsClose
                    | AutomationStep::WaitSettingsClosed
            )
        })
        .count();
    assert!(settings_steps * 3 < steps.len());
}

#[test]
fn condition_wait_advances_exactly_once() {
    assert_eq!(next_step_index(5, false), 5);
    assert_eq!(next_step_index(5, true), 6);
}

#[test]
fn deadline_timeout_and_completed_state_are_deterministic() {
    let now = 77;
    assert!(!deadline_expired(now, now + 1));
    assert!(deadline_expired(now, now));
    let completed: Vec<&str> =
        SemanticBlock::all().into_iter().map(|block| block.report_name()).collect();
    assert!(mandatory_completion_valid(&completed));
    assert!(!mandatory_completion_valid(&completed[..completed.len() - 1]));
}

#[test]
fn report_serialization_covers_success_and_failure() {
    let success =
        serialize_report("ok", &["startup-first-frame", "finish"], &[], 123, None, None);
    assert!(success.contains("\"status\": \"ok\""));
    assert!(success.contains("\"scenario_version\": 1"));
    assert!(!success.contains("failed_step"));

    let failure = serialize_report(
        "failed",
        &["startup-first-frame"],
        &["selection-copy-clipboard-unavailable"],
        456,
        Some("bulk-output"),
        Some("timed out \"waiting\""),
    );
    assert!(failure.contains("\"failed_step\": \"bulk-output\""));
    assert!(failure.contains("timed out \\\"waiting\\\""));
}

#[test]
fn fixture_command_quotes_paths_and_uses_frozen_phase_names() {
    let command =
        fixture_command(b"/tmp/work space/it's/terminal_fixture.sh", FixturePhase::LongLines)
            .unwrap();
    assert!(command.contains("'/tmp/work space/it'\"'\"'s/terminal_fixture.sh'"));
    assert!(command.contains(" long-lines;"));
    assert!(!command.contains("__RONSOLE_PGO_DONE_long-lines"));
    assert!(command.contains("'__RONSOLE_PGO_DONE_' 'long-lines'"));

    let process_tree =
        fixture_command(b"/tmp/workspace/terminal_fixture.sh", FixturePhase::ProcessTree).unwrap();
    assert!(process_tree.contains("'TREE_STARTED'; /bin/sh"));
    assert!(process_tree.contains(" process-tree; rc=$?"));
    assert!(!process_tree.contains("fixture_pid"));
    assert!(!process_tree.contains("__RONSOLE_PGO_PROCESS_TREE_STARTED"));
    assert!(process_tree.contains("'__RONSOLE_PGO_PROCESS_' 'TREE_STARTED'"));
}

#[test]
fn resize_plan_is_narrow_wide_and_restores_original() {
    let plan = resize_plan(1200, 800);
    assert_eq!(plan.original, (1200, 800));
    assert!(plan.narrow.0 < plan.original.0);
    assert!(plan.narrow.0 <= NARROW_WIDTH_MAX);
    assert!(plan.wide.0 > plan.narrow.0);
    assert!(plan.wide.0 <= WIDE_WIDTH_MAX);
    assert_eq!(plan.narrow.1, plan.original.1);
    assert_eq!(plan.wide.1, plan.original.1);
}

#[test]
fn scroll_plan_is_bounded_and_bidirectional() {
    let counts = [SCROLL_IMPULSES_AWAY, SCROLL_IMPULSES_TOWARD, SCROLL_IMPULSES_TO_TAIL];
    assert!(counts.into_iter().all(|count| (1..=16).contains(&count)));
    let steps = scenario();
    assert!(steps
        .iter()
        .any(|step| matches!(step, AutomationStep::ScrollImpulses { lines, .. } if *lines > 0)));
    assert!(steps
        .iter()
        .any(|step| matches!(step, AutomationStep::ScrollImpulses { lines, .. } if *lines < 0)));
}

#[test]
fn cleanup_and_finish_are_mandatory_before_success() {
    let steps = scenario();
    let position = |wanted: AutomationStep| steps.iter().position(|step| *step == wanted).unwrap();
    let process_start = position(AutomationStep::StartFixture(FixturePhase::ProcessTree));
    let live_spawn_wait = position(AutomationStep::WaitElapsed(PROCESS_TREE_SPAWN_GRACE_MS));
    let live_verify = position(AutomationStep::VerifyProcessTreeStillRunning);
    let process_close = steps[process_start..]
        .iter()
        .position(|step| *step == AutomationStep::CloseActiveTab)
        .map(|offset| process_start + offset)
        .unwrap();
    let cleanup = position(AutomationStep::CleanupBarrierFinal);
    let process_complete = position(AutomationStep::Complete(SemanticBlock::ProcessTree));
    let finish = steps.len() - 1;
    assert!(process_start < live_spawn_wait);
    assert!(live_spawn_wait < live_verify);
    assert!(live_verify < process_close);
    assert!(!steps[process_start..process_close]
        .contains(&AutomationStep::WaitFixture(FixturePhase::ProcessTree)));
    assert!(cleanup < process_complete);
    assert!(process_complete < finish);
    assert_eq!(steps[finish], AutomationStep::Finish);
}

#[test]
fn text_is_escaped_for_json() {
    assert_eq!(json_escape("a\"b\\c\nd\te\u{1}"), "a\\\"b\\\\c\\nd\\te\\u0001");
    assert_eq!(shell_quote_path(b"a'b").unwrap(), "'a'\"'\"'b'");
    assert!(shell_quote_path(&[0xff]).is_err());
}

#[test]
fn waiting_for_the_terminal_ends_when_it_is_ready() {
    let mut run = controller();
    assert_eq!(run.current_step(), Some(AutomationStep::WaitReady));
    assert_eq!(run.obstacle(2_000), None);
    let waiting = Observed { ready: false, ..ready() };
    assert_eq!(
        run.judge_step(AutomationStep::WaitReady, "#000000", &waiting, &waiting, 0),
        Ok(StepResult::Pending)
    );
    assert_eq!(
        run.judge_step(AutomationStep::WaitReady, "#000000", &ready(), &ready(), 0),
        Ok(StepResult::Done)
    );
    assert_eq!(run.original_cols, 80);
    run.advance(3_000);
    assert_eq!(run.step_index, 1);
    assert_eq!(run.step_started, 3_000);
    assert_eq!(run.current_deadline(), 3_000 + scenario()[1].timeout());
    assert_eq!(run.current_wake_deadline(), run.current_deadline());
}

#[test]
fn run_goes_on_when_a_step_is_over() {
    let mut run = controller();
    let step = AutomationStep::WaitReady;
    assert_eq!(run.tick(step, Ok(StepResult::Pending), 2_000), AutomationTick::Waiting);
    assert_eq!(run.step_index, 0);
    assert_eq!(run.tick(step, Ok(StepResult::Done), 2_500), AutomationTick::Advanced);
    assert_eq!((run.step_index, run.step_started), (1, 2_500));
    assert_eq!(
        run.tick(step, Ok(StepResult::Failed), 3_000),
        AutomationTick::Failed("PGO automation step failed".to_string())
    );
    assert_eq!(
        run.tick(step, Err(AutomationError::NoReorder), 3_000),
        AutomationTick::Failed(AutomationError::NoReorder.message())
    );
    assert_eq!(
        run.tick(AutomationStep::Finish, Ok(StepResult::Done), 3_000),
        AutomationTick::Finished
    );
    assert_eq!(run.step_index, 1);
}

#[test]
fn deadlines_end_a_run() {
    let run = controller();
    assert_eq!(run.obstacle(121_000), Some("PGO automation global timeout reached"));
    let mut late = controller();
    late.step_index = 1;
    assert_eq!(
        late.obstacle(1_000 + STEP_TIMEOUT_MS),
        Some("PGO automation step timeout reached")
    );
    late.step_index = late.steps.len();
    assert_eq!(late.obstacle(1_001), Some("PGO automation scenario ended without Finish"));
    assert_eq!(late.current_step_name(), "unknown");
}

#[test]
fn inputs_follow_from_the_step() {
    let mut run = controller();
    run.resize_plan = Some(resize_plan(1200, 800));
    match run.step_inputs(AutomationStep::Resize(ResizeKind::Narrow), "#000000", &ready()) {
        Ok(Some(inputs)) => assert!(inputs
            .iter()
            .any(|input| matches!(input, AutomationInput::Resize { height: 800, .. }))),
        other => panic!("unexpected inputs: {other:?}"),
    }
    run.resize_plan = None;
    assert_eq!(
        run.step_inputs(AutomationStep::Resize(ResizeKind::Narrow), "#000000", &ready()),
        Err(AutomationError::NoResizePlan)
    );
    assert_eq!(
        run.judge_step(
            AutomationStep::WaitFixture(FixturePhase::Bulk),
            "#000000",
            &ready(),
            &Observed { failed_text: true, ..ready() },
            0
        ),
        Err(AutomationError::FixtureFailed(FixturePhase::Bulk))
    );
    let (done, failed) = step_markers(AutomationStep::WaitFixture(FixturePhase::Bulk));
    assert_eq!(done.as_deref(), Some("__RONSOLE_PGO_DONE_bulk"));
    assert!(failed.is_some());
}

#[test]
fn part_is_completed_once() {
    let mut run = controller();
    let step = AutomationStep::Complete(SemanticBlock::Startup);
    assert_eq!(run.judge_step(step, "", &ready(), &ready(), 0), Ok(StepResult::Done));
    assert_eq!(run.completed_steps, vec![SemanticBlock::Startup.report_name()]);
    assert_eq!(
        run.judge_step(step, "", &ready(), &ready(), 0),
        Err(AutomationError::CompletedTwice(SemanticBlock::Startup))
    );
    assert_eq!(
        run.judge_step(AutomationStep::Finish, "", &ready(), &ready(), 0),
        Err(AutomationError::Incomplete)
    );
}

#[test]
fn success_needs_every_part_and_the_last_cleanup() {
    let mut run = controller();
    for block in SemanticBlock::all() {
        let step = AutomationStep::Complete(block);
        assert_eq!(run.judge_step(step, "", &ready(), &ready(), 0), Ok(StepResult::Done));
    }
    assert_eq!(
        run.judge_step(AutomationStep::Finish, "", &ready(), &ready(), 0),
        Err(AutomationError::CleanupNotFinal)
    );
    run.terminal_cleanup_finalized = true;
    assert_eq!(
        run.judge_step(AutomationStep::Finish, "", &ready(), &ready(), 0),
        Ok(StepResult::Done)
    );
    assert!(run.report("ok", None, None, 2_500).contains("\"duration_ms\": 1500"));
    run.succeed();
    assert_eq!(run.take_exit_result(), Ok(()));
}

#[test]
fn failures_and_interruptions_are_told() {
    let mut run = controller();
    run.fail("bulk", "slow", &ReportWrite::Done);
    assert_eq!(
        run.take_exit_result(),
        Err("PGO automation failed during bulk: slow".to_owned())
    );
    assert_eq!(run.interruption("closed"), None);

    let mut run = controller();
    assert!(run.interruption("closed").unwrap().starts_with("PGO automation interrupted during "));
    run.interrupt("closed", &ReportWrite::Failed("disk full".to_owned()));
    assert!(run.take_exit_result().unwrap_err().contains("disk full"));
}

#[test]
fn each_error_has_its_words() {
    for error in [
        AutomationError::PathNotUtf8,
        AutomationError::NoResizePlan,
        AutomationError::AlternateScreenLeft,
        AutomationError::FixtureFailed(FixturePhase::Ansi),
        AutomationError::CaseToggleHidden,
        AutomationError::NoTerminalCreated,
        AutomationError::TooFewTerminals,
        AutomationError::NoReorder,
        AutomationError::FinalTerminal,
        AutomationError::NoTerminalClosed,
        AutomationError::SettingsNotOpened,
        AutomationError::NoBackground,
        AutomationError::SettingsNotClosed,
        AutomationError::ProcessTreeFailed,
        AutomationError::ProcessTreeDone,
        AutomationError::CompletedTwice(SemanticBlock::Tabs),
        AutomationError::Incomplete,
        AutomationError::CleanupNotFinal,
    ] {
        assert!(!error.message().is_empty());
    }
    assert_eq!(FixturePhase::AlternateScreen.as_str(), "alternate-screen");
}

#[test]
fn screen_is_read_row_by_row() {
    let mut grid = TermGrid::new(8, 2);
    for (x, c) in "done".chars().enumerate() {
        grid.lines[1][x].text = c.to_string();
    }
    assert!(active_grid_contains(&grid, "done"));
    assert!(!active_grid_contains(&grid, "gone"));
    let chars: Vec<char> = "abc".chars().collect();
    assert!(contains_text(&chars, &['b', 'c']));
    assert!(contains_text(&chars, &[]));
    assert!(!contains_text(&chars, &['c', 'b']));
}

#[test]
fn exits_that_a_step_asks_for_fail_it() {
    let message = |input: &AutomationInput, released: bool| {
        input_result(true, input, released).unwrap_err().message()
    };
    let key = AutomationInput::Key { modifiers: Modifiers::empty(), code: KeyCode::Digit4 };
    assert_eq!(message(&key, false), "key Digit4 unexpectedly requested application exit");
    let copy = AutomationInput::CopySelection;
    assert_eq!(message(&copy, true), "key KeyC unexpectedly requested application exit");
    let text = AutomationInput::DragOverText;
    assert_eq!(message(&text, false), "selection unexpectedly requested application exit");
    assert_eq!(message(&text, true), "selection release unexpectedly requested application exit");
    let toggle = AutomationInput::ClickCaseToggle;
    assert_eq!(message(&toggle, true), "search case toggle unexpectedly requested application exit");
    let switch = AutomationInput::ClickOtherTab;
    assert_eq!(message(&switch, false), "tab switch unexpectedly requested application exit");
    let drag = AutomationInput::DragTab;
    assert_eq!(message(&drag, false), "tab drag press unexpectedly requested application exit");
    assert_eq!(message(&drag, true), "tab drag release unexpectedly requested application exit");
    assert_eq!(input_result(false, &drag, true), Ok(()));
    assert_eq!(unexpected_exit(&AutomationInput::Text("exit".to_owned()), false), None);
    assert_eq!(input_result(true, &AutomationInput::PointToBody, false), Ok(()));
    assert_eq!(KeyCode::NumpadEnter.name(), format!("{:?}", KeyCode::NumpadEnter));
}

#[test]
fn drag_of_a_tab_is_over_where_the_order_changed() {
    assert!(reordered(true, Some(2), 0, false));
    assert!(!reordered(false, Some(2), 0, false));
    assert!(!reordered(true, None, 0, false));
    assert!(!reordered(true, Some(0), 0, false));
    assert!(!reordered(true, Some(2), 0, true));
    let step = AutomationStep::DragReorderVisibleTab;
    let mut after = ready();
    after.tab_visible = true;
    assert_eq!(
        controller().judge_step(step, "", &after, &after, 0),
        Err(AutomationError::NoReorder)
    );
    let before = after;
    after.tab_drag.passed = true;
    after.tab_drag.destination = Some(1);
    assert_eq!(controller().judge_step(step, "", &before, &after, 0), Ok(StepResult::Done));
}
