//! The window and its terminals.
use ronsole::app::events::{AnimationSignals, PointerHits};
use ronsole::app::pointer_events::{PointerMotion, PointerPress, ScrollAction};
use ronsole::app::state::{App, CleanupWorker, Effect, PENDING_EXTERNAL_LAUNCH_CAPACITY};
use ronsole::app::terminals::{TabDrag, TerminalTab};
use ronsole::app::{
    cursor_icon_change, earliest, exact_global_modifiers, external_launch_action, frame_plan,
    global_shortcut, ready_terminal_presentation, terminal_focus_report_sequence,
    terminal_focus_transition_plan, ui_cursor_icon, AppLoopControl, ExternalLaunchAction,
    FramePlan, GlobalShortcut, LoopMode, PresentationState, TerminalPresentationIntent,
};
use ronsole::config::{
    AppConfig, RgbColor, DEFAULT_SCROLL_SENSITIVITY, DEFAULT_TERMINAL_FONT_SIZE,
};
use ronsole::input::PointerCapture;
use ronsole::input_types::{
    CursorKind, KeyCode, KeyInput, KeyState, Modifiers, PhysicalKey, PointerButton,
};
use ronsole::interaction::ClipboardContents;
use ronsole::launch::TerminalLaunchSpec;
use ronsole::platform::single_instance::ExternalLaunchRequest;
use ronsole::pointer::{PointerTarget, WheelAction};
use ronsole::settings::{
    begin_settings_background_pointer_selection, settings_background_editor_key,
    update_settings_background_pointer_selection, SettingsHit, SettingsTab, TerminalTabHit,
};
use ronsole::single_line_input::SingleLineInput;
use ronsole::terminal::TermGrid;

fn new_app() -> App {
    App::new()
}

fn terminal(number: u64, ready: bool) -> TerminalTab {
    TerminalTab {
        number,
        intent: TerminalPresentationIntent::Idle,
        reveal_right_tail_when_presented: false,
        presentation_ready: ready,
        closed: false,
        has_process: false,
        focus_reporting: false,
    }
}

fn state(intent: TerminalPresentationIntent, ready: bool, reveal_tail: bool) -> PresentationState {
    PresentationState { intent, ready, reveal_tail }
}

fn with_token(token: &str) -> ExternalLaunchRequest {
    ExternalLaunchRequest {
        activation_token: Some(token.to_owned()),
        launch: TerminalLaunchSpec::default(),
    }
}

fn no_clipboard() -> ClipboardContents {
    ClipboardContents { available: false, file_list: None, text: None }
}

fn nowhere() -> PointerTarget {
    PointerTarget {
        search: None,
        search_cursor: 0,
        scrollbar: false,
        body: false,
        cell: None,
        protocol_cell: None,
    }
}

fn press(button: PointerButton, tab_hit: TerminalTabHit) -> PointerPress {
    PointerPress {
        state: KeyState::Pressed,
        button,
        settings_hit: SettingsHit::Blank,
        field_cursor: None,
        tab_hit,
        destination: None,
        target: nowhere(),
    }
}

fn background_key(app: &mut App, code: KeyCode) -> bool {
    let modifiers = app.modifiers;
    app.settings.handle_background_key(PhysicalKey::Code(code), modifiers, None).0
}

#[test]
fn redraw_plan_sleeps_when_idle_or_not_renderable() {
    assert_eq!(
        frame_plan(true, false, false),
        FramePlan { request_frame: false, loop_mode: LoopMode::Wait }
    );
    assert_eq!(
        frame_plan(false, true, true),
        FramePlan { request_frame: false, loop_mode: LoopMode::Wait }
    );
}

#[test]
fn redraw_plan_only_polls_for_live_animation() {
    assert_eq!(
        frame_plan(true, true, false),
        FramePlan { request_frame: true, loop_mode: LoopMode::Wait }
    );
    assert_eq!(
        frame_plan(true, false, true),
        FramePlan { request_frame: true, loop_mode: LoopMode::Poll }
    );
}

#[test]
fn pending_activation_waits_for_parser_readiness_and_keeps_tail_intent() {
    assert_eq!(
        ready_terminal_presentation(&[
            state(TerminalPresentationIntent::Idle, true, false),
            state(TerminalPresentationIntent::ActivateWhenReady, false, true),
        ]),
        None
    );
    assert_eq!(
        ready_terminal_presentation(&[
            state(TerminalPresentationIntent::Idle, true, false),
            state(TerminalPresentationIntent::ActivateWhenReady, true, true),
        ]),
        Some((1, true))
    );
    assert_eq!(
        ready_terminal_presentation(&[
            state(TerminalPresentationIntent::Idle, true, false),
            state(TerminalPresentationIntent::Idle, true, false),
            state(TerminalPresentationIntent::ActivateWhenReady, true, false),
        ]),
        Some((2, false))
    );
}

#[test]
fn pending_tab_switch_keeps_old_terminal_committed_until_new_terminal_is_ready() {
    let mut app = new_app();
    app.terminals.list.push(terminal(1, true));
    app.terminals.list.push(terminal(2, false));
    app.terminals.active = 0;
    app.terminals.presented = true;

    app.request_terminal_activation(1, false);
    assert_eq!(app.terminals.active, 0);
    assert!(app.terminals.presented);
    assert_eq!(app.terminals.list[1].intent, TerminalPresentationIntent::ActivateWhenReady);

    app.terminals.list[1].presentation_ready = true;
    assert!(app.process_terminal_presentation_intents());
    assert_eq!(app.terminals.active, 1);
    assert!(app.terminals.presented);
}

#[test]
fn reorder_preserves_presented_active_terminal_identity_without_recommit() {
    let mut app = new_app();
    app.terminals.list.push(terminal(1, false));
    app.terminals.list.push(terminal(2, false));
    app.terminals.active = 0;
    app.terminals.presented = true;

    app.reorder_terminal_tab(0, 1);

    assert_eq!(app.terminals.active, 1);
    assert!(app.terminals.presented);
    assert!(app
        .terminals
        .list
        .iter()
        .all(|terminal| terminal.intent == TerminalPresentationIntent::Idle));
}

#[test]
fn global_shortcuts_use_plain_f1_and_exact_application_modifiers() {
    let none = Modifiers::empty();
    let ctrl = Modifiers(Modifiers::CONTROL);
    let alt = Modifiers(Modifiers::ALT);
    let shift = Modifiers(Modifiers::SHIFT);
    let super_key = Modifiers(Modifiers::SUPER);
    let ctrl_shift = ctrl | shift;
    assert_eq!(
        global_shortcut(PhysicalKey::Code(KeyCode::F1), none),
        Some(GlobalShortcut::ToggleSettings)
    );
    assert_eq!(
        global_shortcut(PhysicalKey::Code(KeyCode::KeyT), ctrl_shift),
        Some(GlobalShortcut::NewTab)
    );
    assert_eq!(
        global_shortcut(PhysicalKey::Code(KeyCode::Digit4), ctrl),
        Some(GlobalShortcut::CloseTab)
    );
    assert_eq!(
        global_shortcut(PhysicalKey::Code(KeyCode::KeyF), ctrl),
        Some(GlobalShortcut::Search)
    );

    for modifiers in [ctrl, alt, shift, super_key, ctrl | alt, ctrl | shift, ctrl | super_key] {
        assert_eq!(global_shortcut(PhysicalKey::Code(KeyCode::F1), modifiers), None);
    }
    for modifiers in [ctrl_shift | alt, ctrl_shift | super_key] {
        assert_eq!(global_shortcut(PhysicalKey::Code(KeyCode::KeyT), modifiers), None);
    }
    for key in [KeyCode::Digit4, KeyCode::KeyF] {
        for modifiers in [ctrl | alt, ctrl | super_key] {
            assert_eq!(global_shortcut(PhysicalKey::Code(key), modifiers), None);
        }
    }
    assert_eq!(global_shortcut(PhysicalKey::Code(KeyCode::KeyT), ctrl), None);
}

#[test]
fn focused_external_launch_with_token_opens_tab_without_using_token() {
    assert!(matches!(
        external_launch_action(true, true, with_token("one-shot-token")),
        ExternalLaunchAction::OpenDefaultTab
    ));
}

#[test]
fn focused_external_launch_without_token_opens_tab() {
    assert!(matches!(
        external_launch_action(true, true, ExternalLaunchRequest::default()),
        ExternalLaunchAction::OpenDefaultTab
    ));
}

#[test]
fn unfocused_external_launch_with_supplied_token_uses_only_xdg_activation() {
    let action = external_launch_action(false, true, with_token("one-shot-token"));
    assert!(matches!(
        action,
        ExternalLaunchAction::WaylandXdgActivation {
            activation_token
        } if activation_token == "one-shot-token"
    ));
}

#[test]
fn unfocused_kde_launch_without_token_uses_force_activation_worker() {
    assert!(matches!(
        external_launch_action(false, true, ExternalLaunchRequest::default()),
        ExternalLaunchAction::KdeForceActivate
    ));
}

#[test]
fn unfocused_non_kde_launch_without_token_keeps_generic_wayland_best_effort() {
    assert!(matches!(
        external_launch_action(false, false, ExternalLaunchRequest::default()),
        ExternalLaunchAction::WaylandBestEffort
    ));
}

#[test]
fn focus_reporting_uses_xterm_sequences_only_when_enabled() {
    assert_eq!(terminal_focus_report_sequence(false, true), None);
    assert_eq!(terminal_focus_report_sequence(false, false), None);
    assert_eq!(terminal_focus_report_sequence(true, true), Some(b"\x1b[I".to_vec()));
    assert_eq!(terminal_focus_report_sequence(true, false), Some(b"\x1b[O".to_vec()));
}

#[test]
fn committed_tab_focus_transition_plans_xterm_out_then_in_only_when_app_is_focused() {
    assert_eq!(
        terminal_focus_transition_plan(true, true, true, true),
        (Some(b"\x1b[O".to_vec()), Some(b"\x1b[I".to_vec()))
    );
    assert_eq!(
        terminal_focus_transition_plan(true, true, false, true),
        (None, Some(b"\x1b[I".to_vec()))
    );
    assert_eq!(terminal_focus_transition_plan(true, false, true, true), (None, None));
    assert_eq!(terminal_focus_transition_plan(false, true, true, true), (None, None));
}

#[test]
fn settings_toggle_and_escape_close_contract_is_stable() {
    let mut app = new_app();
    assert!(!app.settings.open);
    app.toggle_settings();
    assert!(app.settings.open);
    app.toggle_settings();
    assert!(!app.settings.open);
    app.toggle_settings();
    app.close_settings();
    assert!(!app.settings.open);
}

#[test]
fn settings_tab_switch_is_ui_only_and_does_not_dirty_config() {
    let mut app = new_app();
    app.settings.config_dirty = false;
    app.window.dirty = false;
    assert_eq!(app.settings.active_tab, SettingsTab::General);

    app.apply_settings_hit(SettingsHit::Tab(SettingsTab::Help));

    assert_eq!(app.settings.active_tab, SettingsTab::Help);
    assert!(!app.settings.config_dirty);
    assert!(app.window.dirty);

    app.window.dirty = false;
    app.apply_settings_hit(SettingsHit::Tab(SettingsTab::Help));
    assert!(!app.settings.config_dirty);
    assert!(!app.window.dirty);
}

#[test]
fn settings_resets_change_only_their_own_config_value() {
    let custom = AppConfig {
        terminal_font_size: 22.0f32.to_bits(),
        scroll_sensitivity: 2.25f32.to_bits(),
        terminal_background: RgbColor::new(0x11, 0x22, 0x33),
        ..AppConfig::default()
    };

    let mut font_app = App::from_config(custom);
    font_app.apply_settings_hit(SettingsHit::FontReset);
    assert_eq!(font_app.settings.config.terminal_font_size, DEFAULT_TERMINAL_FONT_SIZE);
    assert_eq!(font_app.settings.config.scroll_sensitivity, custom.scroll_sensitivity);
    assert_eq!(font_app.settings.config.terminal_background, custom.terminal_background);

    let mut scroll_app = App::from_config(custom);
    scroll_app.apply_settings_hit(SettingsHit::ScrollReset);
    assert_eq!(scroll_app.settings.config.terminal_font_size, custom.terminal_font_size);
    assert_eq!(scroll_app.settings.config.scroll_sensitivity, DEFAULT_SCROLL_SENSITIVITY);
    assert_eq!(scroll_app.settings.config.terminal_background, custom.terminal_background);

    let mut background_app = App::from_config(custom);
    background_app.apply_settings_hit(SettingsHit::BackgroundReset);
    assert_eq!(background_app.settings.config.terminal_font_size, custom.terminal_font_size);
    assert_eq!(background_app.settings.config.scroll_sensitivity, custom.scroll_sensitivity);
    assert_eq!(
        background_app.settings.config.terminal_background,
        RgbColor::default_background()
    );
    assert_eq!(
        background_app.settings.background_input.text,
        RgbColor::default_background().to_hex()
    );
}

#[test]
fn settings_outside_click_closes_but_empty_modal_space_and_controls_do_not() {
    let mut app = new_app();
    app.toggle_settings();
    assert!(app.settings.open);
    app.apply_settings_hit(SettingsHit::Blank);
    assert!(app.settings.open);
    app.apply_settings_hit(SettingsHit::FontReset);
    assert!(app.settings.open);
    app.apply_settings_hit(SettingsHit::Outside);
    assert!(!app.settings.open);
}

#[test]
fn settings_outside_click_discards_incomplete_hex_but_keeps_last_valid_commit() {
    let mut app = new_app();
    app.toggle_settings();
    app.apply_settings_hit(SettingsHit::BackgroundField);
    app.settings.background_input.select_all();
    assert!(app.edit_settings_background_text("#112233"));
    assert_eq!(app.settings.config.terminal_background, RgbColor::new(0x11, 0x22, 0x33));

    app.settings.background_input.select_all();
    assert!(background_key(&mut app, KeyCode::Backspace));
    assert_eq!(app.settings.background_input.text, "");
    assert_eq!(app.settings.config.terminal_background, RgbColor::new(0x11, 0x22, 0x33));

    app.apply_settings_hit(SettingsHit::Outside);
    assert!(!app.settings.open);
    assert!(!app.settings.background_editing);
    assert_eq!(app.settings.background_input.text, "#112233");
    assert_eq!(app.settings.config.terminal_background, RgbColor::new(0x11, 0x22, 0x33));
}

#[test]
fn settings_hex_editor_keeps_invalid_drafts_uncommitted_and_canonicalizes_valid_input() {
    let mut app = new_app();
    let original = app.settings.config.terminal_background;
    app.apply_settings_hit(SettingsHit::BackgroundField);
    app.settings.background_input.select_all();
    assert!(background_key(&mut app, KeyCode::Backspace));
    assert!(app.edit_settings_background_text("#12"));
    assert_eq!(app.settings.background_input.text, "#12");
    assert_eq!(app.settings.config.terminal_background, original);

    assert!(app.edit_settings_background_text("aBcF"));
    assert_eq!(app.settings.background_input.text, "#12ABCF");
    assert_eq!(app.settings.config.terminal_background, RgbColor::new(0x12, 0xAB, 0xCF));
    assert!(app.settings.config_dirty);
}

#[test]
fn settings_hex_editor_keyboard_selection_copy_cut_paste_and_navigation_are_shared() {
    let mut input = SingleLineInput::from_text("#12ABCF");
    let key = |input: &mut SingleLineInput, code, ctrl, shift, paste| {
        settings_background_editor_key(input, PhysicalKey::Code(code), ctrl, shift, paste)
    };
    let left = key(&mut input, KeyCode::ArrowLeft, false, false, None);
    assert!(left.visual_changed);
    let select = key(&mut input, KeyCode::ArrowLeft, false, true, None);
    assert!(select.visual_changed);
    assert_eq!(input.selected_text().as_deref(), Some("C"));

    let copy = key(&mut input, KeyCode::KeyC, true, false, None);
    assert_eq!(copy.copy_text.as_deref(), Some("C"));
    assert!(!copy.text_changed);

    let cut = key(&mut input, KeyCode::KeyX, true, false, None);
    assert_eq!(cut.copy_text.as_deref(), Some("C"));
    assert!(cut.text_changed);
    assert_eq!(input.text, "#12ABF");

    let paste = key(&mut input, KeyCode::KeyV, true, false, Some("c"));
    assert!(paste.text_changed);
    assert_eq!(input.text, "#12ABCF");

    let home = key(&mut input, KeyCode::Home, false, false, None);
    assert!(home.visual_changed);
    assert_eq!(input.cursor, 0);
    let end_select = key(&mut input, KeyCode::End, false, true, None);
    assert!(end_select.visual_changed);
    assert_eq!(input.selection(), Some((0, 7)));
    let select_all = key(&mut input, KeyCode::KeyA, true, false, None);
    assert!(select_all.consumed);
    assert_eq!(input.selection(), Some((0, 7)));
}

#[test]
fn settings_hex_editor_valid_paste_commits_canonical_background() {
    let mut app = new_app();
    app.apply_settings_hit(SettingsHit::BackgroundField);
    app.settings.background_input.select_all();
    let outcome = settings_background_editor_key(
        &mut app.settings.background_input,
        PhysicalKey::Code(KeyCode::KeyV),
        true,
        false,
        Some("#a1b2c3"),
    );
    assert!(outcome.text_changed);
    app.settings.apply_valid_background_draft();
    assert_eq!(app.settings.background_input.text, "#A1B2C3");
    assert_eq!(app.settings.config.terminal_background, RgbColor::new(0xA1, 0xB2, 0xC3));
}

#[test]
fn settings_hex_editor_rejects_invalid_or_oversized_paste_and_accepts_incomplete_draft() {
    let mut input = SingleLineInput::from_text("#282A36");
    input.select_all();
    let paste = |input: &mut SingleLineInput, text| {
        settings_background_editor_key(
            input,
            PhysicalKey::Code(KeyCode::KeyV),
            true,
            false,
            Some(text),
        )
    };
    let invalid = paste(&mut input, "#12GG34");
    assert!(!invalid.text_changed);
    assert_eq!(input.text, "#282A36");
    let oversized = paste(&mut input, "#1234567");
    assert!(!oversized.text_changed);
    assert_eq!(input.text, "#282A36");

    let incomplete = paste(&mut input, "#12");
    assert!(incomplete.text_changed);
    assert_eq!(input.text, "#12");
    assert_eq!(RgbColor::parse_hex(&input.text), None);
}

#[test]
fn settings_hex_mouse_drag_places_caret_and_selects_in_both_directions() {
    let mut input = SingleLineInput::from_text("#123456");
    assert!(begin_settings_background_pointer_selection(&mut input, 2));
    assert_eq!(input.cursor, 2);
    assert_eq!(input.selection_anchor, Some(2));
    assert!(update_settings_background_pointer_selection(&mut input, 6));
    assert_eq!(input.selection(), Some((2, 6)));
    assert!(update_settings_background_pointer_selection(&mut input, 1));
    assert_eq!(input.selection(), Some((1, 2)));
}

#[test]
fn settings_hex_backspace_delete_enter_and_reset_obey_commit_contract() {
    let mut app = App::from_config(AppConfig {
        terminal_background: RgbColor::new(0x11, 0x22, 0x33),
        ..AppConfig::default()
    });
    app.apply_settings_hit(SettingsHit::BackgroundField);
    app.settings.background_input.move_cursor(1, false);
    assert!(background_key(&mut app, KeyCode::Delete));
    assert_eq!(app.settings.background_input.text, "#12233");
    assert_eq!(app.settings.config.terminal_background, RgbColor::new(0x11, 0x22, 0x33));
    assert!(background_key(&mut app, KeyCode::Backspace));
    assert_eq!(app.settings.background_input.text, "12233");
    assert!(background_key(&mut app, KeyCode::Enter));
    assert!(!app.settings.background_editing);
    assert_eq!(app.settings.background_input.text, "#112233");

    app.apply_settings_hit(SettingsHit::BackgroundField);
    app.settings.background_input.select_all();
    let _ = background_key(&mut app, KeyCode::Backspace);
    app.apply_settings_hit(SettingsHit::BackgroundReset);
    assert_eq!(app.settings.config.terminal_background, RgbColor::default_background());
    assert_eq!(app.settings.background_input.text, RgbColor::default_background().to_hex());
    assert_eq!(app.settings.background_input.selection(), None);
}

#[test]
fn settings_scroll_buttons_use_tenth_steps_and_stable_display() {
    let mut app = new_app();
    app.apply_settings_hit(SettingsHit::ScrollIncrease);
    assert!((f32::from_bits(app.settings.config.scroll_sensitivity) - 1.1).abs() < 0.0001);
    assert_eq!(app.settings.scroll_value, "1.10");
    app.apply_settings_hit(SettingsHit::ScrollDecrease);
    assert!((f32::from_bits(app.settings.config.scroll_sensitivity) - 1.0).abs() < 0.0001);
    assert_eq!(app.settings.scroll_value, "1.00");
}

#[test]
fn settings_and_tab_cursor_policy_prioritizes_modal_and_caches_identical_icon() {
    assert_eq!(
        ui_cursor_icon(true, SettingsHit::BackgroundField, false, TerminalTabHit::Add, false),
        CursorKind::Text
    );
    assert_eq!(
        ui_cursor_icon(true, SettingsHit::Blank, false, TerminalTabHit::Add, false),
        CursorKind::Default
    );
    assert_eq!(
        ui_cursor_icon(false, SettingsHit::Blank, false, TerminalTabHit::Close(0), false),
        CursorKind::Pointer
    );
    assert_eq!(
        ui_cursor_icon(false, SettingsHit::Blank, false, TerminalTabHit::Add, false),
        CursorKind::Pointer
    );
    assert_eq!(
        ui_cursor_icon(false, SettingsHit::Blank, false, TerminalTabHit::Body(0), false),
        CursorKind::Default
    );
    assert_eq!(
        ui_cursor_icon(true, SettingsHit::Outside, true, TerminalTabHit::Outside, false),
        CursorKind::Text
    );
    assert_eq!(cursor_icon_change(CursorKind::Pointer, CursorKind::Pointer), None);
    assert_eq!(
        cursor_icon_change(CursorKind::Pointer, CursorKind::Default),
        Some(CursorKind::Default)
    );
}

#[test]
fn focus_loss_marks_one_unfocused_frame_dirty_for_separator_redraw() {
    let mut app = new_app();
    app.window.dirty = false;
    app.on_focus_changed(false);
    assert!(!app.window.focused);
    assert!(app.window.unfocused_redraw_pending);
    assert!(app.window.dirty);

    app.window.dirty = false;
    app.on_focus_changed(true);
    assert!(app.window.focused);
    assert!(!app.window.unfocused_redraw_pending);
    assert!(app.window.dirty);
}

#[test]
fn settings_open_and_focus_loss_clear_tracked_physical_mouse_buttons() {
    let mut settings_app = new_app();
    settings_app.terminals.list.push(terminal(1, false));
    settings_app.terminals.presented = true;
    settings_app.interaction.pressed_mouse_buttons = 1;
    settings_app.toggle_settings();
    assert_eq!(settings_app.interaction.pressed_mouse_buttons, 0);

    let mut focus_app = new_app();
    focus_app.terminals.list.push(terminal(1, false));
    focus_app.terminals.presented = true;
    focus_app.interaction.pressed_mouse_buttons = 1;
    focus_app.on_focus_changed(false);
    assert_eq!(focus_app.interaction.pressed_mouse_buttons, 0);
}

#[test]
fn focus_transition_clears_app_and_terminal_modifiers_and_stale_shortcuts() {
    let mut app = new_app();
    app.modifiers = Modifiers(Modifiers::CONTROL);
    app.interaction.set_modifiers(Modifiers(Modifiers::CONTROL));
    app.on_focus_changed(false);
    assert_eq!(app.modifiers, Modifiers::empty());
    assert_eq!(app.interaction.modifiers, Modifiers::empty());
    app.on_focus_changed(true);
    assert_eq!(app.modifiers, Modifiers::empty());
    for key in [KeyCode::KeyT, KeyCode::KeyF, KeyCode::Digit4] {
        assert_eq!(global_shortcut(PhysicalKey::Code(key), app.modifiers), None);
    }
    assert_eq!(
        global_shortcut(PhysicalKey::Code(KeyCode::F1), app.modifiers),
        Some(GlobalShortcut::ToggleSettings),
    );
}

#[test]
fn settings_open_and_focus_loss_both_cancel_terminal_tab_drag() {
    let drag = TabDrag { start_idx: 0, threshold_passed: true };

    let mut settings_app = new_app();
    settings_app.terminals.drag = Some(drag);
    settings_app.toggle_settings();
    assert!(settings_app.settings.open);
    assert!(settings_app.terminals.drag.is_none());

    let mut focus_app = new_app();
    focus_app.terminals.drag = Some(drag);
    focus_app.on_focus_changed(false);
    assert!(!focus_app.window.focused);
    assert!(focus_app.terminals.drag.is_none());
}

#[test]
fn active_terminal_selection_clear_helper_removes_manual_selection() {
    let mut app = new_app();
    app.terminals.list.push(terminal(1, false));
    let mut grid = TermGrid::new(80, 30);
    grid.selection = Some((1, 2, 5, 2));

    assert!(app.clear_active_terminal_text_selection(&mut grid));
    assert!(grid.selection.is_none());
    assert!(!app.clear_active_terminal_text_selection(&mut grid));
}

#[test]
fn exact_modifiers_leave_no_key_over() {
    assert!(exact_global_modifiers(Modifiers(Modifiers::CONTROL), false));
    assert!(!exact_global_modifiers(Modifiers(Modifiers::CONTROL), true));
    assert!(exact_global_modifiers(Modifiers::new(true, true, false, false), true));
    assert!(!exact_global_modifiers(Modifiers::new(true, true, true, false), true));
}

#[test]
fn first_terminal_is_started_with_the_window() {
    let mut app = new_app();
    app.on_runtime_ready(800, 600);
    assert!(app.renderable());
    assert_eq!(app.terminals.list.len(), 1);
    let effects = app.take_effects();
    assert!(effects.iter().any(|effect| matches!(effect, Effect::SpawnTerminal { .. })));
    assert!(app.take_effects().is_empty());
}

#[test]
fn closing_one_of_two_terminals_hands_its_process_over() {
    let mut app = new_app();
    app.terminals.list.push(TerminalTab { has_process: true, ..terminal(1, true) });
    app.terminals.list.push(TerminalTab { has_process: true, ..terminal(2, true) });
    app.terminals.presented = true;
    assert!(!app.close_terminal_tab_at(0, CleanupWorker::Accepting));
    assert_eq!(app.terminals.list.len(), 1);
    assert_eq!(app.terminals.list[0].number, 2);
    assert!(app.take_effects().contains(&Effect::EnqueueCleanup { terminal: 1 }));
    assert!(app.close_active_terminal(CleanupWorker::Accepting));
    assert!(app.take_effects().contains(&Effect::ShutDown { terminal: 2 }));
}

#[test]
fn full_cleanup_keeps_a_terminal_waiting() {
    let mut app = new_app();
    app.terminals.list.push(TerminalTab { has_process: true, ..terminal(1, true) });
    app.terminals.list.push(TerminalTab { has_process: true, ..terminal(2, true) });
    assert!(!app.close_terminal_tab_at(1, CleanupWorker::Full));
    assert_eq!(app.terminals.next_pending_cleanup(), Some(2));
    app.terminals.pending_cleanup_taken();
    assert_eq!(app.terminals.next_pending_cleanup(), None);
}

#[test]
fn closed_terminals_are_found_from_the_end() {
    let mut app = new_app();
    app.terminals.list.push(TerminalTab { closed: true, ..terminal(1, true) });
    app.terminals.list.push(terminal(2, true));
    app.terminals.list.push(TerminalTab { closed: true, ..terminal(3, true) });
    assert_eq!(app.terminals.closed_before(3), Some(2));
    assert_eq!(app.terminals.closed_before(2), Some(0));
    assert_eq!(app.terminals.closed_before(0), None);
}

#[test]
fn idle_window_waits_and_animation_polls() {
    let mut app = new_app();
    app.on_runtime_ready(800, 600);
    app.window.dirty = false;
    let still = AnimationSignals {
        scroll_unsettled: false,
        selection_room: false,
        tab_scroll_unsettled: false,
        tab_animation: false,
        settings_moving: false,
    };
    assert_eq!(app.on_about_to_wait(&still, 0), AppLoopControl::Wait);
    let moving = AnimationSignals { scroll_unsettled: true, ..still };
    assert_eq!(app.on_about_to_wait(&moving, 0), AppLoopControl::Poll);
    app.window.zero_sized = true;
    assert_eq!(app.on_about_to_wait(&moving, 0), AppLoopControl::Wait);
}

#[test]
fn keys_open_search_and_settings_before_they_reach_the_terminal() {
    let mut app = new_app();
    app.terminals.list.push(terminal(1, true));
    app.terminals.presented = true;
    let mut grid = TermGrid::new(8, 2);
    let key = |code| KeyInput { state: KeyState::Pressed, physical_key: PhysicalKey::Code(code) };

    app.on_modifiers(Modifiers(Modifiers::CONTROL));
    let result =
        app.on_key(&key(KeyCode::KeyF), &no_clipboard(), CleanupWorker::Accepting, &mut grid, 0);
    assert!(!result.exit);
    assert!(app.interaction.search.shown);

    app.on_modifiers(Modifiers::empty());
    app.on_key(&key(KeyCode::Escape), &no_clipboard(), CleanupWorker::Accepting, &mut grid, 0);
    assert!(!app.interaction.search.shown);

    let result =
        app.on_key(&key(KeyCode::Enter), &no_clipboard(), CleanupWorker::Accepting, &mut grid, 0);
    assert_eq!(result.outcome.send, Some(b"\r".to_vec()));
    let result = app.on_text("ж", &mut grid, 0);
    assert_eq!(result.outcome.send, Some("ж".as_bytes().to_vec()));

    app.on_key(&key(KeyCode::F1), &no_clipboard(), CleanupWorker::Accepting, &mut grid, 0);
    assert!(app.settings_modal_active());
    let result = app.on_text("x", &mut grid, 0);
    assert_eq!(result.outcome.send, None);
    let result = app.on_ime_commit("x", &mut grid, 0);
    assert_eq!(result.outcome.send, None);
}

#[test]
fn launches_wait_for_the_window_within_a_bound() {
    let mut app = new_app();
    for index in 0..PENDING_EXTERNAL_LAUNCH_CAPACITY + 3 {
        assert!(app.handle_external_launch(with_token(&format!("t{index}")), false).is_none());
    }
    assert_eq!(app.pending_external_launches.len(), PENDING_EXTERNAL_LAUNCH_CAPACITY);
    app.on_runtime_ready(10, 10);
    let first = app.next_pending_launch().unwrap_or_else(|| panic!("expected a launch"));
    assert!(first.activation_token.is_some());
    app.window.focused = true;
    assert!(matches!(
        app.handle_external_launch(with_token("now"), false),
        Some(ExternalLaunchAction::OpenDefaultTab)
    ));
}

#[test]
fn press_on_a_tab_selects_and_drags_it() {
    let mut app = new_app();
    app.on_runtime_ready(800, 600);
    app.terminals.list[0].presentation_ready = true;
    app.terminals.list.push(terminal(7, true));
    let mut grid = TermGrid::new(8, 2);
    app.on_pointer_button(
        &press(PointerButton::Left, TerminalTabHit::Body(1)),
        CleanupWorker::Accepting,
        &mut grid,
        0,
    );
    assert_eq!(app.terminals.drag, Some(TabDrag { start_idx: 1, threshold_passed: false }));
    let motion = PointerMotion {
        previous_hit: SettingsHit::Blank,
        current_hit: SettingsHit::Blank,
        field_cursor: None,
        threshold_passed: true,
        over_tabs: true,
        target: nowhere(),
        room_before: false,
        room_after: false,
        scrollbar_moves: false,
    };
    app.on_pointer_motion(&motion, &mut grid);
    assert_eq!(app.terminals.drag, Some(TabDrag { start_idx: 1, threshold_passed: true }));
    let release = PointerPress {
        state: KeyState::Released,
        destination: Some(0),
        ..press(PointerButton::Left, TerminalTabHit::Outside)
    };
    app.on_pointer_button(&release, CleanupWorker::Accepting, &mut grid, 0);
    assert_eq!(app.terminals.drag, None);
    assert_eq!(app.terminals.list[0].number, 7);
}

#[test]
fn left_press_clears_the_selection_before_anything_else() {
    let mut app = new_app();
    app.terminals.list.push(terminal(1, true));
    app.terminals.presented = true;
    let mut grid = TermGrid::new(8, 2);
    grid.selection = Some((0, 0, 3, 0));
    app.on_pointer_button(
        &press(PointerButton::Left, TerminalTabHit::Outside),
        CleanupWorker::Accepting,
        &mut grid,
        0,
    );
    assert_eq!(grid.selection, None);
}

#[test]
fn wheel_over_the_tabs_scrolls_them() {
    let mut app = new_app();
    app.terminals.list.push(terminal(1, true));
    app.terminals.presented = true;
    app.on_runtime_ready(800, 600);
    let grid = TermGrid::new(8, 2);
    assert_eq!(app.on_scroll(true, nowhere(), true, 1, &grid), ScrollAction::Tabs);
    let body = PointerTarget { body: true, ..nowhere() };
    assert_eq!(
        app.on_scroll(false, body, true, 1, &grid),
        ScrollAction::Terminal(WheelAction::Scroll)
    );
    app.toggle_settings();
    assert_eq!(app.on_scroll(true, nowhere(), true, 1, &grid), ScrollAction::Ignored);
}

#[test]
fn cursor_is_set_once_for_each_change() {
    let mut app = new_app();
    app.on_runtime_ready(800, 600);
    app.take_effects();
    let hits = PointerHits { settings: SettingsHit::Blank, tab: TerminalTabHit::Add };
    app.refresh_cursor_icon(&hits);
    assert!(app.take_effects().contains(&Effect::SetCursor(CursorKind::Pointer)));
    app.refresh_cursor_icon(&hits);
    assert!(app.take_effects().is_empty());
}

#[test]
fn frames_are_drawn_while_the_window_can_be_seen() {
    let mut app = new_app();
    assert!(!app.begin_frame());
    app.on_runtime_ready(800, 600);
    assert!(app.begin_frame());
    app.on_resize(0, 600, None);
    assert!(!app.begin_frame());
    app.on_resize(1280, 800, Some((1280.5f64.to_bits(), 800.0f64.to_bits())));
    assert_eq!(f64::from_bits(app.settings.config.window_width), 1280.5);
    assert!(app.settings.config_dirty);
}

#[test]
fn settings_are_saved_once_they_changed() {
    let mut app = new_app();
    assert!(!app.settings.begin_save());
    app.settings.mark_config_dirty();
    assert!(app.settings.begin_save());
    app.settings.saved();
    assert!(!app.settings.config_dirty);
    assert!(!app.settings.begin_save());
}

#[test]
fn lost_focus_lets_go_of_the_pointer() {
    let mut app = new_app();
    app.terminals.list.push(terminal(1, true));
    app.terminals.presented = true;
    app.interaction.pointer_capture = PointerCapture::TerminalSelection;
    app.on_focus_changed(false);
    assert_eq!(app.interaction.pointer_capture, PointerCapture::Free);
}

#[test]
fn earlier_time_wakes_the_loop() {
    assert_eq!(earliest(Some(5), Some(3)), Some(3));
    assert_eq!(earliest(Some(2), Some(3)), Some(2));
    assert_eq!(earliest(Some(2), None), Some(2));
    assert_eq!(earliest(None, Some(7)), Some(7));
    assert_eq!(earliest(None, None), None);
}
