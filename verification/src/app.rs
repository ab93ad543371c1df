//! The decisions of the application: frames, shortcuts, the shape of the pointer, launches from
//! outside and the focus of terminals.
use vstd::prelude::*;

use crate::input;
use crate::input_types::{CursorKind, KeyCode, Modifiers, PhysicalKey};
use crate::platform::single_instance::ExternalLaunchRequest;
use crate::settings::{SettingsHit, TerminalTabHit};

pub mod terminals;
pub mod event_laws;
pub mod events;
pub mod laws;
pub mod lifecycle;
pub mod pointer_events;
pub mod settings_state;
pub mod state;
pub mod tab_laws;

verus! {

/// How the event loop goes on.
#[derive(Clone, Copy, Debug, PartialEq, Eq, Structural)]
pub enum LoopMode {
    /// It waits for an event.
    Wait,
    /// It goes on at once.
    Poll,
}

/// The earlier of two times, as far as there are any.
pub fn earliest(a: Option<u64>, b: Option<u64>) -> (time: Option<u64>)
    ensures
        time == match (a, b) {
            (Some(a), Some(b)) => Some(
                if a < b {
                    a
                } else {
                    b
                },
            ),
            (Some(a), None) => Some(a),
            (None, b) => b,
        },
{
    match (a, b) {
        (Some(a), Some(b)) => if a < b {
            Some(a)
        } else {
            Some(b)
        },
        (Some(a), None) => Some(a),
        (None, b) => b,
    }
}

/// What is to be done about the next frame.
#[derive(Clone, Copy, Debug, PartialEq, Eq, Structural)]
pub struct FramePlan {
    pub request_frame: bool,
    pub loop_mode: LoopMode,
}

/// What is to be done about the next frame: nothing where none can be drawn; otherwise it is asked for
/// where something changed or moves, and the loop goes on at once only for what moves.
pub fn frame_plan(renderable: bool, dirty: bool, animation_active: bool) -> (plan: FramePlan)
    ensures
        plan.request_frame == (renderable && (dirty || animation_active)),
        plan.loop_mode is Poll <==> renderable && animation_active,
{
    if !renderable {
        return FramePlan { request_frame: false, loop_mode: LoopMode::Wait };
    }
    FramePlan {
        request_frame: dirty || animation_active,
        loop_mode: if animation_active {
            LoopMode::Poll
        } else {
            LoopMode::Wait
        },
    }
}

/// What the event loop does next.
#[derive(Clone, Copy, Debug, PartialEq, Eq, Structural)]
pub enum AppLoopControl {
    Exit,
    Wait,
    /// It waits for an event until a time, in microseconds.
    WaitUntil(u64),
    Poll,
}

/// The shortcuts of the application.
#[derive(Clone, Copy, Debug, PartialEq, Eq, Structural)]
pub enum GlobalShortcut {
    ToggleSettings,
    NewTab,
    CloseTab,
    Search,
}

/// Whether Ctrl is held, Shift as given, and nothing else.
pub open spec fn exactly(modifiers: Modifiers, shift: bool) -> bool {
    &&& modifiers.has_control()
    &&& modifiers.has_shift() == shift
    &&& !modifiers.has_alt()
    &&& !modifiers.has_super()
}

/// Whether Ctrl is held, Shift as given, and nothing else.
pub fn exact_global_modifiers(modifiers: Modifiers, shift: bool) -> (exact: bool)
    ensures
        exact == exactly(modifiers, shift),
{
    modifiers.control_key() && modifiers.shift_key() == shift && !modifiers.alt_key()
        && !modifiers.super_key()
}

/// The shortcut of a key with the modifier keys that are held.
pub open spec fn shortcut_of(key: PhysicalKey, modifiers: Modifiers) -> Option<GlobalShortcut> {
    match key {
        PhysicalKey::Code(KeyCode::F1) => if modifiers == Modifiers(0) {
            Some(GlobalShortcut::ToggleSettings)
        } else {
            None
        },
        PhysicalKey::Code(KeyCode::KeyT) => if exactly(modifiers, true) {
            Some(GlobalShortcut::NewTab)
        } else {
            None
        },
        PhysicalKey::Code(KeyCode::Digit4) => if exactly(modifiers, false) {
            Some(GlobalShortcut::CloseTab)
        } else {
            None
        },
        PhysicalKey::Code(KeyCode::KeyF) => if exactly(modifiers, false) {
            Some(GlobalShortcut::Search)
        } else {
            None
        },
        _ => None,
    }
}

/// The shortcut of a key with the modifier keys that are held.
pub fn global_shortcut(key: PhysicalKey, modifiers: Modifiers) -> (shortcut: Option<GlobalShortcut>)
    ensures
        shortcut == shortcut_of(key, modifiers),
{
    match key {
        PhysicalKey::Code(KeyCode::F1) => if modifiers.is_empty() {
            Some(GlobalShortcut::ToggleSettings)
        } else {
            None
        },
        PhysicalKey::Code(KeyCode::KeyT) => if exact_global_modifiers(modifiers, true) {
            Some(GlobalShortcut::NewTab)
        } else {
            None
        },
        PhysicalKey::Code(KeyCode::Digit4) => if exact_global_modifiers(modifiers, false) {
            Some(GlobalShortcut::CloseTab)
        } else {
            None
        },
        PhysicalKey::Code(KeyCode::KeyF) => if exact_global_modifiers(modifiers, false) {
            Some(GlobalShortcut::Search)
        } else {
            None
        },
        _ => None,
    }
}

/// Without modifier keys, F1 is the only shortcut, and with Alt or Super held there is none.
pub proof fn shortcuts_need_exact_modifiers(key: PhysicalKey, modifiers: Modifiers)
    ensures
        modifiers == Modifiers(0) && shortcut_of(key, modifiers) is Some ==> key == PhysicalKey::Code(
            KeyCode::F1,
        ),
        modifiers.has_alt() || modifiers.has_super() ==> shortcut_of(key, modifiers) is None,
{
    assert(0u8 & 1 == 0 && 0u8 & 2 == 0 && 0u8 & 4 == 0 && 0u8 & 8 == 0) by (bit_vector);
}

/// The shape of the pointer over the settings and the tabs. The settings come before the tabs, and a
/// drag before what lies under the pointer.
pub open spec fn icon_for(
    settings_modal_active: bool,
    settings_hit: SettingsHit,
    settings_text_dragging: bool,
    tab_hit: TerminalTabHit,
    tab_dragging: bool,
) -> CursorKind {
    if settings_modal_active {
        if settings_text_dragging || settings_hit is BackgroundField {
            CursorKind::Text
        } else {
            CursorKind::Default
        }
    } else if !tab_dragging && (tab_hit is Close || tab_hit is Add) {
        CursorKind::Pointer
    } else {
        CursorKind::Default
    }
}

/// The shape of the pointer over the settings and the tabs.
pub fn ui_cursor_icon(
    settings_modal_active: bool,
    settings_hit: SettingsHit,
    settings_text_dragging: bool,
    tab_hit: TerminalTabHit,
    tab_dragging: bool,
) -> (icon: CursorKind)
    ensures
        icon == icon_for(
            settings_modal_active,
            settings_hit,
            settings_text_dragging,
            tab_hit,
            tab_dragging,
        ),
{
    if settings_modal_active {
        return if settings_text_dragging || settings_hit == SettingsHit::BackgroundField {
            CursorKind::Text
        } else {
            CursorKind::Default
        };
    }
    if tab_dragging {
        return CursorKind::Default;
    }
    match tab_hit {
        TerminalTabHit::Close(_) | TerminalTabHit::Add => CursorKind::Pointer,
        TerminalTabHit::Body(_) | TerminalTabHit::Outside => CursorKind::Default,
    }
}

/// The shape to give the pointer, where it has another one.
pub fn cursor_icon_change(current: CursorKind, desired: CursorKind) -> (change: Option<CursorKind>)
    ensures
        change == if current == desired {
            None
        } else {
            Some(desired)
        },
{
    if current == desired {
        None
    } else {
        Some(desired)
    }
}

/// What is done about a launch from outside.
#[derive(Debug, PartialEq, Eq)]
pub enum ExternalLaunchAction {
    /// A tab is opened.
    OpenDefaultTab,
    /// The window is raised with the token of the launch.
    WaylandXdgActivation { activation_token: String },
    /// The window is raised by the window manager.
    KdeForceActivate,
    /// The window asks to be raised.
    WaylandBestEffort,
}

/// What is done about a launch from outside: a tab, where the window has the focus; otherwise the
/// window is raised, with the token where there is one.
pub fn external_launch_action(focused: bool, kde_session: bool, request: ExternalLaunchRequest) -> (action:
    ExternalLaunchAction)
    ensures
        focused ==> action is OpenDefaultTab,
        !focused && request.activation_token is Some ==> (action matches
            ExternalLaunchAction::WaylandXdgActivation { activation_token } && activation_token@
            == request.activation_token->0@),
        !focused && request.activation_token is None ==> if kde_session {
            action is KdeForceActivate
        } else {
            action is WaylandBestEffort
        },
{
    if focused {
        return ExternalLaunchAction::OpenDefaultTab;
    }
    match request.activation_token {
        Some(activation_token) => ExternalLaunchAction::WaylandXdgActivation { activation_token },
        None => if kde_session {
            ExternalLaunchAction::KdeForceActivate
        } else {
            ExternalLaunchAction::WaylandBestEffort
        },
    }
}

/// The contents of an optional report.
pub open spec fn report_view(report: Option<Vec<u8>>) -> Option<Seq<u8>> {
    match report {
        Some(report) => Some(report@),
        None => None,
    }
}

/// What a terminal is sent when it gains or loses the focus, where it asked for it.
pub fn terminal_focus_report_sequence(enabled: bool, focused: bool) -> (report: Option<Vec<u8>>)
    ensures
        report_view(report) == input::focus_sequence(focused, enabled),
{
    if !enabled {
        return None;
    }
    let mut report: Vec<u8> = Vec::new();
    report.push(0x1b);
    report.push(0x5b);
    report.push(
        if focused {
            0x49
        } else {
            0x4f
        },
    );
    assert(Some(report@) =~= input::focus_sequence(focused, enabled));
    Some(report)
}

/// What two terminals are sent when the focus goes from one to the other: the first that it lost the
/// focus, the second that it has it. Nothing is sent where the window has not the focus, or the
/// terminal stays the same.
pub fn terminal_focus_transition_plan(
    window_focused: bool,
    identity_changed: bool,
    old_reporting: bool,
    new_reporting: bool,
) -> (plan: (Option<Vec<u8>>, Option<Vec<u8>>))
    ensures
        report_view(plan.0) == input::focus_sequence(
            false,
            window_focused && identity_changed && old_reporting,
        ),
        report_view(plan.1) == input::focus_sequence(
            true,
            window_focused && identity_changed && new_reporting,
        ),
{
    if !window_focused || !identity_changed {
        return (None, None);
    }
    (
        terminal_focus_report_sequence(old_reporting, false),
        terminal_focus_report_sequence(new_reporting, true),
    )
}

/// Whether a terminal waits to be shown.
#[derive(Clone, Copy, Debug, PartialEq, Eq, Structural)]
pub enum TerminalPresentationIntent {
    /// It does not.
    Idle,
    /// It is shown once it is ready.
    ActivateWhenReady,
}

/// What decides whether a terminal is shown.
#[derive(Clone, Copy, Debug, PartialEq, Eq, Structural)]
pub struct PresentationState {
    pub intent: TerminalPresentationIntent,
    /// Whether it is ready to be shown.
    pub ready: bool,
    /// Whether the end of the tabs is brought into view with it.
    pub reveal_tail: bool,
}

/// Whether a terminal is to be shown now.
pub open spec fn is_due(state: PresentationState) -> bool {
    state.intent is ActivateWhenReady && state.ready
}

/// The first terminal that is to be shown now.
pub open spec fn first_due(states: Seq<PresentationState>) -> Option<(int, bool)>
    decreases states.len(),
{
    if states.len() == 0 {
        None
    } else {
        match first_due(states.drop_last()) {
            Some(found) => Some(found),
            None => if is_due(states.last()) {
                Some((states.len() - 1, states.last().reveal_tail))
            } else {
                None
            },
        }
    }
}

/// The first terminal that is to be shown now, and whether the end of the tabs is brought into view
/// with it.
pub fn ready_terminal_presentation(states: &[PresentationState]) -> (ready: Option<(usize, bool)>)
    ensures
        match first_due(states@) {
            Some((index, reveal)) => {
                &&& ready matches Some((at, tail))
                &&& at == index
                &&& tail == reveal
                &&& at < states@.len()
            },
            None => ready is None,
        },
{
    let mut i: usize = 0;
    assert(first_due(states@.take(0)) is None);
    while i < states.len()
        invariant
            i <= states@.len(),
            first_due(states@.take(i as int)) is None,
        decreases states@.len() - i,
    {
        assert(states@.take(i + 1).drop_last() =~= states@.take(i as int));
        let state = states[i];
        if state.intent == TerminalPresentationIntent::ActivateWhenReady && state.ready {
            proof {
                first_due_stays(states@, i + 1);
            }
            return Some((i, state.reveal_tail));
        }
        i += 1;
    }
    assert(states@.take(i as int) =~= states@);
    None
}

proof fn first_due_stays(states: Seq<PresentationState>, len: int)
    requires
        0 <= len <= states.len(),
        first_due(states.take(len)) is Some,
    ensures
        first_due(states) == first_due(states.take(len)),
    decreases states.len(),
{
    if len == states.len() {
        assert(states.take(len) =~= states);
    } else {
        assert(states.drop_last().take(len) =~= states.take(len));
        first_due_stays(states.drop_last(), len);
    }
}

} // verus!
