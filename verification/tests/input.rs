//! What keys and the pointer send to a terminal.
use ronsole::input::{
    release_pointer_capture, terminal_alt_prefixed, terminal_bracketed_paste_bytes,
    terminal_cell_from_grid, terminal_clipboard_paste_bytes, terminal_ctrl_c_action,
    terminal_cursor_key, terminal_first_pressed_button_code, terminal_function_key,
    terminal_key_sequence, terminal_modifier, terminal_mouse_button_code,
    terminal_mouse_event_sequence, terminal_mouse_motion_sequence, terminal_mouse_protocol_cell,
    terminal_mouse_protocol_sequence, terminal_mouse_wheel_sequence, terminal_shell_escape_path,
    terminal_text_sequence, terminal_tilde_key, terminal_wheel_cursor_keys,
    update_pressed_mouse_buttons, PointerCapture, TerminalCtrlCAction,
};
use ronsole::input_types::{KeyCode, KeyInput, KeyState, Modifiers, PhysicalKey, PointerButton};
use ronsole::interaction::{
    search_key_falls_through_to_terminal, search_owns_keyboard, search_refresh_should_jump,
    ClipboardContents, TerminalInteraction,
};
use ronsole::pointer::{
    begin_search_pointer_selection, terminal_protocol_pointer_target,
    update_search_pointer_selection, SearchHit,
};
use ronsole::search::{SearchRefreshCause, TerminalSearchState};
use ronsole::terminal::{Cell, MouseTrackingMode, TermGrid};

/// Where the cells of a terminal lie in the window.
#[derive(Clone, Copy)]
struct Layout {
    body_x: f32,
    body_y: f32,
    body_w: f32,
    body_h: f32,
    text_x: f32,
    char_w: f32,
    char_h: f32,
    visible_rows: usize,
    cols: usize,
    scroll_offset: f32,
    bottom_pad: f32,
}

fn mouse_test_layout(scroll_offset: f32) -> Layout {
    Layout {
        body_x: 0.0,
        body_y: 100.0,
        body_w: 800.0,
        body_h: 600.0,
        text_x: 8.0,
        char_w: 10.0,
        char_h: 20.0,
        visible_rows: 29,
        cols: 80,
        scroll_offset,
        bottom_pad: 8.0,
    }
}

impl Layout {
    fn column(self, x: f32) -> usize {
        ((x - self.text_x).max(0.0) / self.char_w).floor() as usize
    }

    fn above_last(self, y: f32) -> usize {
        let offset =
            (self.body_y + self.body_h - self.bottom_pad - y + self.scroll_offset) / self.char_h;
        offset.max(0.0).floor() as usize
    }

    fn protocol_cell(self, x: f32, y: f32) -> Option<(usize, usize)> {
        terminal_mouse_protocol_cell(
            true,
            self.cols,
            self.visible_rows,
            self.column(x),
            self.above_last(y),
        )
    }

    fn selection_cell(self, grid: &TermGrid, x: f32, y: f32) -> Option<(usize, usize)> {
        let x = x.clamp(self.body_x, self.body_x + self.body_w);
        let y = y.clamp(self.body_y, self.body_y + self.body_h);
        terminal_cell_from_grid(grid, self.column(x), self.above_last(y))
    }
}

#[test]
fn terminal_encoder_keeps_plain_f1_and_ctrl_t_sequences() {
    assert_eq!(
        terminal_key_sequence(PhysicalKey::Code(KeyCode::F1), false, false, false, false),
        Some(b"\x1bOP".to_vec())
    );
    assert_eq!(
        terminal_key_sequence(PhysicalKey::Code(KeyCode::KeyT), false, true, false, false),
        Some(vec![0x14])
    );
}

#[test]
fn project_owned_keyboard_contract_separates_physical_keys_from_text() {
    assert_eq!(
        terminal_key_sequence(PhysicalKey::Code(KeyCode::KeyA), false, false, false, false),
        None,
    );
    assert_eq!(
        terminal_text_sequence("Ж界", false, false, false),
        Some("Ж界".as_bytes().to_vec()),
    );
    assert_eq!(terminal_text_sequence("x", false, true, false), Some(b"\x1bx".to_vec()));

    assert_eq!(
        terminal_key_sequence(PhysicalKey::Code(KeyCode::KeyA), false, true, false, false),
        Some(vec![0x01]),
    );
    assert_eq!(terminal_text_sequence("a", true, false, false), None);
    assert_eq!(terminal_text_sequence("a", false, false, true), None);
}

#[test]
fn project_owned_keyboard_contract_covers_navigation_modifiers_and_release() {
    let key = |code, shift, ctrl, alt| {
        terminal_key_sequence(PhysicalKey::Code(code), shift, ctrl, alt, false)
    };
    assert_eq!(key(KeyCode::ArrowUp, true, false, false), Some(b"\x1b[1;2A".to_vec()));
    assert_eq!(key(KeyCode::ArrowLeft, false, false, true), Some(b"\x1b[1;3D".to_vec()));
    assert_eq!(key(KeyCode::Home, false, true, false), Some(b"\x1b[1;5H".to_vec()));
    assert_eq!(key(KeyCode::End, false, false, false), Some(b"\x1b[F".to_vec()));
    assert_eq!(key(KeyCode::PageUp, false, false, false), Some(b"\x1b[5~".to_vec()));
    assert_eq!(key(KeyCode::PageDown, false, false, false), Some(b"\x1b[6~".to_vec()));
    assert_eq!(key(KeyCode::F5, false, false, false), Some(b"\x1b[15~".to_vec()));
    assert_eq!(key(KeyCode::F8, false, false, false), Some(b"\x1b[19~".to_vec()));
    assert_eq!(key(KeyCode::F8, true, false, false), Some(b"\x1b[19;2~".to_vec()));
    assert_eq!(key(KeyCode::F8, false, false, true), Some(b"\x1b[19;3~".to_vec()));
    assert_eq!(key(KeyCode::F12, false, true, true), Some(b"\x1b[24;7~".to_vec()));

    let mut interaction = TerminalInteraction::default();
    let mut grid = TermGrid::new(8, 2);
    let clipboard = ClipboardContents { available: false, file_list: None, text: None };
    let outcome = interaction.handle_key_event(
        &KeyInput {
            state: KeyState::Released,
            physical_key: PhysicalKey::Code(KeyCode::ArrowUp),
        },
        &mut grid,
        &clipboard,
        0,
    );
    assert!(!outcome.handled);
}

#[test]
fn focused_search_falls_through_for_modified_f1_and_ctrl_t_terminal_contract() {
    let mut search = TerminalSearchState::default();
    search.open();
    assert!(search_owns_keyboard(&search));

    let none = Modifiers::empty();
    let ctrl = Modifiers(Modifiers::CONTROL);
    let alt = Modifiers(Modifiers::ALT);
    let shift = Modifiers(Modifiers::SHIFT);
    let super_key = Modifiers(Modifiers::SUPER);
    let ctrl_shift = ctrl | shift;

    assert!(!search_key_falls_through_to_terminal(&search, PhysicalKey::Code(KeyCode::F1), none));
    for modifiers in [ctrl, alt, shift, super_key, ctrl_shift] {
        assert!(search_key_falls_through_to_terminal(
            &search,
            PhysicalKey::Code(KeyCode::F1),
            modifiers,
        ));
    }

    assert!(search_key_falls_through_to_terminal(
        &search,
        PhysicalKey::Code(KeyCode::KeyT),
        ctrl,
    ));
    assert_eq!(
        terminal_key_sequence(PhysicalKey::Code(KeyCode::KeyT), false, true, false, false),
        Some(vec![0x14]),
    );

    assert!(!search_key_falls_through_to_terminal(
        &search,
        PhysicalKey::Code(KeyCode::KeyA),
        none,
    ));
    assert!(!search_key_falls_through_to_terminal(
        &search,
        PhysicalKey::Code(KeyCode::ArrowLeft),
        none,
    ));
    assert!(!search_key_falls_through_to_terminal(
        &search,
        PhysicalKey::Code(KeyCode::KeyV),
        ctrl,
    ));
    assert!(!search_key_falls_through_to_terminal(
        &search,
        PhysicalKey::Code(KeyCode::KeyT),
        ctrl_shift,
    ));
}

#[test]
fn pointer_cancellation_clears_tracked_physical_buttons_even_without_capture() {
    let mut interaction = TerminalInteraction::default();
    interaction.pressed_mouse_buttons = 1;
    interaction.pointer_capture = PointerCapture::Free;

    interaction.cancel_pointer_interaction();

    let cell = mouse_test_layout(0.0).protocol_cell(30.0, 140.0);
    assert_eq!(interaction.pressed_mouse_buttons, 0);
    assert!(terminal_mouse_motion_sequence(
        MouseTrackingMode::ButtonMotion,
        true,
        interaction.pressed_mouse_buttons,
        cell,
    )
    .is_none());

    update_pressed_mouse_buttons(
        &mut interaction.pressed_mouse_buttons,
        PointerButton::Left,
        KeyState::Pressed,
    );
    assert_eq!(interaction.pressed_mouse_buttons, 1);
    assert!(terminal_mouse_motion_sequence(
        MouseTrackingMode::ButtonMotion,
        true,
        interaction.pressed_mouse_buttons,
        cell,
    )
    .is_some());
}

#[test]
fn cancelling_search_input_capture_preserves_search_and_stops_pointer_selection_drag() {
    let mut interaction = TerminalInteraction::default();
    interaction.search.open();
    interaction.search.insert_text("abcdef");
    begin_search_pointer_selection(&mut interaction.search, 1);
    assert!(update_search_pointer_selection(
        &mut interaction.search,
        PointerCapture::SearchInput,
        4,
    ));
    interaction.pointer_capture = PointerCapture::SearchInput;
    let before = interaction.search.input.clone();

    interaction.cancel_pointer_interaction();

    assert_eq!(interaction.pointer_capture, PointerCapture::Free);
    assert!(interaction.search.shown);
    assert!(interaction.search.focused);
    assert!(!update_search_pointer_selection(
        &mut interaction.search,
        interaction.pointer_capture,
        6,
    ));
    assert_eq!(interaction.search.input, before);
}

#[test]
fn cancelling_search_control_capture_only_releases_pointer_ownership() {
    let mut interaction = TerminalInteraction::default();
    interaction.search.open();
    interaction.search.insert_text("needle");
    interaction.pointer_capture = PointerCapture::SearchControl;

    interaction.cancel_pointer_interaction();

    assert_eq!(interaction.pointer_capture, PointerCapture::Free);
    assert!(interaction.search.shown);
    assert_eq!(interaction.search.input.text, "needle");
}

#[test]
fn cancelling_scrollbar_pointer_capture_ends_drag_without_moving_scroll() {
    let mut interaction = TerminalInteraction::default();
    interaction.pointer_capture = PointerCapture::TerminalScrollbar;

    let capture = interaction.cancel_pointer_interaction();

    assert_eq!(interaction.pointer_capture, PointerCapture::Free);
    assert_eq!(capture, PointerCapture::TerminalScrollbar);
}

#[test]
fn cancelling_terminal_selection_capture_prevents_followup_drag_ownership() {
    let mut interaction = TerminalInteraction::default();
    interaction.pointer_capture = PointerCapture::TerminalSelection;

    let capture = interaction.cancel_pointer_interaction();

    assert_eq!(interaction.pointer_capture, PointerCapture::Free);
    assert_ne!(capture, PointerCapture::TerminalScrollbar);
    assert!(!interaction.terminal_selection_active());
}

#[test]
fn modified_f1_remains_available_to_terminal_layer() {
    assert_eq!(
        terminal_key_sequence(PhysicalKey::Code(KeyCode::F1), false, true, true, false),
        Some(b"\x1b[1;7P".to_vec()),
    );
}

#[test]
fn terminal_key_sequences_cover_navigation_and_modifiers() {
    assert_eq!(
        terminal_key_sequence(PhysicalKey::Code(KeyCode::ArrowUp), false, false, false, false),
        Some(b"\x1b[A".to_vec())
    );
    assert_eq!(
        terminal_key_sequence(PhysicalKey::Code(KeyCode::ArrowUp), false, false, false, true),
        Some(b"\x1bOA".to_vec())
    );
    assert_eq!(
        terminal_key_sequence(PhysicalKey::Code(KeyCode::Delete), true, true, false, false),
        Some(b"\x1b[3;6~".to_vec())
    );
    assert_eq!(
        terminal_key_sequence(PhysicalKey::Code(KeyCode::F12), false, false, false, false),
        Some(b"\x1b[24~".to_vec())
    );
}

#[test]
fn ctrl_c_copies_selection_or_sends_sigint_byte() {
    assert_eq!(terminal_ctrl_c_action(true), TerminalCtrlCAction::CopySelection);
    assert_eq!(terminal_ctrl_c_action(false), TerminalCtrlCAction::SendInterrupt);
}

#[test]
fn passive_search_refresh_never_requests_a_scroll_jump() {
    assert!(search_refresh_should_jump(true, SearchRefreshCause::User));
    assert!(!search_refresh_should_jump(true, SearchRefreshCause::Grid));
    assert!(!search_refresh_should_jump(false, SearchRefreshCause::User));

    let mut scroll_target = 137.0f32;
    let before = scroll_target;
    if search_refresh_should_jump(true, SearchRefreshCause::Grid) {
        scroll_target = 999.0;
    }
    assert_eq!(scroll_target, before);
}

#[test]
fn dolphin_file_list_has_priority_and_shell_escapes_only_special_bytes() {
    let paths =
        vec!["/home/reyan/Загрузки/file.patch".as_bytes().to_vec(), b"/tmp/a b;$c".to_vec()];
    let bytes = terminal_clipboard_paste_bytes(Some(&paths), Some("ignored")).unwrap();
    assert_eq!(bytes, "/home/reyan/Загрузки/file.patch /tmp/a\\ b\\;\\$c".as_bytes());
}

#[test]
fn shell_escape_preserves_non_utf8_and_quotes_newline_cr_safely() {
    let raw = vec![b'/', b't', b'm', b'p', b'/', 0xff, b' ', b'x'];
    let mut out = Vec::new();
    terminal_shell_escape_path(&raw, &mut out);
    assert_eq!(out, vec![b'/', b't', b'm', b'p', b'/', 0xff, b'\\', b' ', b'x']);
    let mut special = Vec::new();
    terminal_shell_escape_path(b"a\rb\nc", &mut special);
    assert_eq!(special, b"a'\r'b'\n'c");
}

#[test]
fn bracketed_paste_wraps_text_and_shell_escaped_file_lists_through_one_path() {
    assert_eq!(terminal_bracketed_paste_bytes(b"plain".to_vec(), false), b"plain");
    assert_eq!(
        terminal_bracketed_paste_bytes(b"plain".to_vec(), true),
        b"\x1b[200~plain\x1b[201~"
    );

    let paths = vec![b"/tmp/a b".to_vec(), "/tmp/界".as_bytes().to_vec()];
    let payload = terminal_clipboard_paste_bytes(Some(&paths), Some("ignored")).unwrap();
    assert_eq!(
        terminal_bracketed_paste_bytes(payload, true),
        "\u{1b}[200~/tmp/a\\ b /tmp/界\u{1b}[201~".as_bytes()
    );
}

#[test]
fn dec_mouse_motion_modes_distinguish_button_and_any_motion() {
    let layout = mouse_test_layout(0.0);
    let x = layout.text_x + layout.char_w * 2.5;
    let y = layout.body_y + 100.0;
    let cell = layout.protocol_cell(x, y);

    assert!(
        terminal_mouse_motion_sequence(MouseTrackingMode::ButtonMotion, true, 0, cell).is_none()
    );
    assert_eq!(
        terminal_mouse_motion_sequence(MouseTrackingMode::ButtonMotion, true, 1, cell).unwrap(),
        b"\x1b[<32;3;5M"
    );
    assert_eq!(
        terminal_mouse_motion_sequence(MouseTrackingMode::AnyMotion, true, 0, cell).unwrap(),
        b"\x1b[<35;3;5M"
    );
}

#[test]
fn sgr_mouse_protocol_uses_one_based_cells_and_release_marker() {
    assert_eq!(terminal_mouse_protocol_sequence(0, 3, 4, true, true), b"\x1b[<0;3;4M");
    assert_eq!(terminal_mouse_protocol_sequence(2, 1, 1, false, true), b"\x1b[<2;1;1m");
    assert_eq!(
        terminal_mouse_protocol_sequence(0, 3, 4, true, false),
        vec![0x1b, b'[', b'M', 32, 35, 36]
    );
}

#[test]
fn terminal_selection_geometry_clamps_outside_body_to_grid_edges() {
    let grid = TermGrid::new(80, 30);
    let layout = mouse_test_layout(0.0);
    assert_eq!(layout.selection_cell(&grid, -50.0, 400.0), Some((0, 15)));
    assert_eq!(layout.selection_cell(&grid, 900.0, 400.0), Some((79, 15)));
    assert_eq!(layout.selection_cell(&grid, 400.0, 20.0), Some((39, 0)));
    assert_eq!(layout.selection_cell(&grid, 400.0, 760.0), Some((39, 29)));
}

#[test]
fn ui_pointer_capture_blocks_sgr_press_and_release_packets() {
    let layout = mouse_test_layout(0.0);
    let x = layout.text_x + layout.char_w * 2.5;
    let y = layout.body_y + 100.0;
    let cell = layout.protocol_cell(x, y);
    let report = |capture, state| {
        terminal_mouse_event_sequence(
            capture,
            MouseTrackingMode::Press,
            true,
            state,
            PointerButton::Left,
            cell,
        )
    };
    for capture in [
        PointerCapture::TerminalScrollbar,
        PointerCapture::SearchInput,
        PointerCapture::SearchControl,
    ] {
        assert!(report(capture, KeyState::Pressed).is_none());
        assert!(report(capture, KeyState::Released).is_none());
    }

    let press = report(PointerCapture::Free, KeyState::Pressed).unwrap();
    let release = report(PointerCapture::Free, KeyState::Released).unwrap();
    assert!(press.ends_with(b"M"));
    assert!(release.ends_with(b"m"));
}

#[test]
fn terminal_mouse_x_clamps_to_actual_grid_columns_not_body_padding() {
    let layout = mouse_test_layout(0.0);
    let first = layout.protocol_cell(layout.text_x, layout.body_y + 100.0).unwrap();
    assert_eq!(first.0, 1);
    let right_padding = layout
        .protocol_cell(layout.body_x + layout.body_w - 1.0, layout.body_y + 100.0)
        .unwrap();
    assert_eq!(right_padding.0, 80);
}

#[test]
fn unsupported_mouse_buttons_never_become_left_click_or_pressed_state() {
    let layout = mouse_test_layout(0.0);
    let x = layout.text_x + 5.0;
    let y = layout.body_y + 100.0;
    for button in [PointerButton::Back, PointerButton::Forward, PointerButton::Other(9)] {
        assert_eq!(terminal_mouse_button_code(button), None);
        assert!(terminal_mouse_event_sequence(
            PointerCapture::Free,
            MouseTrackingMode::Press,
            true,
            KeyState::Pressed,
            button,
            layout.protocol_cell(x, y),
        )
        .is_none());
        let mut pressed = 0u8;
        update_pressed_mouse_buttons(&mut pressed, button, KeyState::Pressed);
        assert_eq!(pressed, 0);
    }
}

#[test]
fn sgr_mouse_y_is_visible_viewport_coordinate_even_with_scrollback() {
    for scroll_offset in [0.0, 7.0, 83.0] {
        let layout = mouse_test_layout(scroll_offset);
        let top_center = layout.body_y + layout.body_h
            - layout.bottom_pad
            - layout.visible_rows as f32 * layout.char_h
            + layout.char_h * 0.5
            + scroll_offset;
        let bottom_center = layout.body_y + layout.body_h - layout.bottom_pad
            - layout.char_h * 0.5
            + scroll_offset;
        let row = |y| layout.protocol_cell(layout.text_x + 5.0, y).unwrap().1;
        assert_eq!(row(top_center), 1);
        assert_eq!(row(bottom_center), layout.visible_rows);

        let middle_y = top_center + 12.0 * layout.char_h;
        assert_eq!(row(middle_y), 13);
    }
}

#[test]
fn covered_pointer_is_not_reported() {
    assert_eq!(
        terminal_mouse_motion_sequence(MouseTrackingMode::AnyMotion, true, 0, None),
        None
    );
    assert_eq!(
        terminal_mouse_wheel_sequence(MouseTrackingMode::AnyMotion, true, None, true, 1),
        None
    );
    assert_eq!(
        terminal_mouse_wheel_sequence(MouseTrackingMode::AnyMotion, true, Some((2, 3)), true, 2)
            .unwrap(),
        b"\x1b[<64;2;3M\x1b[<64;2;3M"
    );
    assert_eq!(
        terminal_mouse_wheel_sequence(MouseTrackingMode::Press, true, Some((2, 3)), false, 1)
            .unwrap(),
        b"\x1b[<65;2;3M"
    );
    assert_eq!(
        terminal_mouse_wheel_sequence(MouseTrackingMode::Off, true, Some((2, 3)), false, 1),
        None
    );
}

#[test]
fn wheel_sends_cursor_keys_on_the_alternate_screen() {
    assert_eq!(terminal_wheel_cursor_keys(false, true, 2), b"\x1b[A\x1b[A");
    assert_eq!(terminal_wheel_cursor_keys(true, false, 1), b"\x1bOB");
}

#[test]
fn parts_of_key_sequences() {
    assert_eq!(terminal_alt_prefixed(b"x", true), b"\x1bx");
    assert_eq!(terminal_alt_prefixed(b"x", false), b"x");
    assert_eq!(terminal_modifier(false, false, false), None);
    assert_eq!(terminal_modifier(true, true, true), Some(8));
    assert_eq!(terminal_cursor_key(b'A', true, true, false, false), b"\x1b[1;2A");
    assert_eq!(terminal_tilde_key(3, false, false, false), b"\x1b[3~");
    assert_eq!(terminal_function_key(1, b'P', false, false, false), b"\x1bOP");
    assert_eq!(terminal_function_key(15, 0, false, false, true), b"\x1b[15;5~");
    assert_eq!(
        terminal_key_sequence(PhysicalKey::Code(KeyCode::Tab), true, false, false, false),
        Some(b"\x1b[Z".to_vec())
    );
    assert_eq!(
        terminal_key_sequence(PhysicalKey::Code(KeyCode::Enter), false, false, true, false),
        Some(b"\x1b\r".to_vec())
    );
    assert_eq!(
        terminal_key_sequence(PhysicalKey::Unidentified, false, true, false, false),
        None
    );
}

#[test]
fn buttons_follow_the_pointer() {
    let mut buttons = 0u8;
    update_pressed_mouse_buttons(&mut buttons, PointerButton::Right, KeyState::Pressed);
    update_pressed_mouse_buttons(&mut buttons, PointerButton::Middle, KeyState::Pressed);
    assert_eq!(terminal_first_pressed_button_code(buttons), Some(1));
    update_pressed_mouse_buttons(&mut buttons, PointerButton::Middle, KeyState::Released);
    assert_eq!(terminal_first_pressed_button_code(buttons), Some(2));
    update_pressed_mouse_buttons(&mut buttons, PointerButton::Right, KeyState::Released);
    assert_eq!(terminal_first_pressed_button_code(buttons), None);
    let mut capture = PointerCapture::TerminalScrollbar;
    assert_eq!(release_pointer_capture(&mut capture), PointerCapture::TerminalScrollbar);
    assert_eq!(capture, PointerCapture::Free);
}

#[test]
fn second_half_of_a_wide_character_selects_the_first() {
    let mut grid = TermGrid::new(4, 1);
    grid.lines[0][1] = Cell { text: "界".to_owned(), wide_spacer: false };
    grid.lines[0][2] = Cell { text: String::new(), wide_spacer: true };
    assert_eq!(terminal_cell_from_grid(&grid, 2, 0), Some((1, 0)));
    assert_eq!(terminal_cell_from_grid(&grid, 9, 9), Some((3, 0)));
}

#[test]
fn escaped_paths_come_apart_at_spaces() {
    let paths = vec![b"a'b".to_vec(), b"c".to_vec()];
    assert_eq!(
        terminal_clipboard_paste_bytes(Some(&paths), None).unwrap(),
        b"a\\'b c".to_vec()
    );
    assert_eq!(terminal_clipboard_paste_bytes(None, Some("x\ny")).unwrap(), b"x\ny".to_vec());
    assert_eq!(terminal_clipboard_paste_bytes(None, None), None);
}

#[test]
fn ronsole_overlays_own_mouse_motion_and_wheel_before_terminal_protocol() {
    let layout = mouse_test_layout(0.0);
    let body_x = layout.text_x + 20.0;
    let body_y = layout.body_y + 200.0;
    let cell = |search: Option<SearchHit>, track: bool| {
        terminal_mouse_protocol_cell(
            terminal_protocol_pointer_target(true, search, track),
            layout.cols,
            layout.visible_rows,
            layout.column(body_x),
            layout.above_last(body_y),
        )
    };
    let motion = |cell: Option<(usize, usize)>| {
        terminal_mouse_motion_sequence(MouseTrackingMode::AnyMotion, true, 0, cell)
    };
    let wheel = |cell: Option<(usize, usize)>| {
        terminal_mouse_wheel_sequence(MouseTrackingMode::AnyMotion, true, cell, true, 2)
    };

    for (search, track) in [
        (Some(SearchHit::Input), false),
        (Some(SearchHit::Close), false),
        (Some(SearchHit::Chrome), false),
        (Some(SearchHit::Outside), true),
    ] {
        assert!(motion(cell(search, track)).is_none());
        assert!(wheel(cell(search, track)).is_none());
    }

    assert!(motion(cell(Some(SearchHit::Outside), false)).is_some());
    assert!(wheel(cell(Some(SearchHit::Outside), false)).is_some());
    assert!(motion(cell(None, false)).is_some());
    assert!(!terminal_protocol_pointer_target(false, None, false));
}
