//! What holds of every event of the window, the keyboard and the pointer.
use vstd::prelude::*;

use crate::app;
use crate::app::events;
use crate::app::events::{AnimationSignals, PointerHits};
use crate::app::pointer_events;
use crate::app::pointer_events::{PointerMotion, PointerPress};
use crate::app::settings_state;
use crate::app::settings_state::{SettingsChange, SettingsModel};
use crate::app::state::{AppModel, CleanupWorker, Effect, WindowState};
use crate::app::tab_laws;
use crate::app::terminals::{TabDrag, TerminalsModel};
use crate::app::{AppLoopControl, GlobalShortcut};
use crate::config;
use crate::config::{AppConfig, RgbColor};
use crate::input_types::{CursorKind, KeyCode, KeyInput, KeyState, Modifiers, PhysicalKey};
use crate::interaction;
use crate::number;
use crate::pointer;
use crate::search;
use crate::settings;
use crate::settings::{SettingsHit, SettingsTab, TerminalTabHit};
use crate::single_line_input;
use crate::terminal::TermGrid;

verus! {

/// The shortcuts are F1 without modifier keys, Ctrl with Shift and T, Ctrl with 4 and Ctrl with F, and
/// no others.
pub proof fn there_are_four_shortcuts(code: KeyCode, modifiers: Modifiers)
    ensures
        ({
            let bare = modifiers.0 == 0;
            let ctrl = modifiers.has_control() && !modifiers.has_shift() && !modifiers.has_alt()
                && !modifiers.has_super();
            let ctrl_shift = modifiers.has_control() && modifiers.has_shift() && !modifiers.has_alt()
                && !modifiers.has_super();
            let shortcut = app::shortcut_of(PhysicalKey::Code(code), modifiers);
            &&& shortcut == Some(GlobalShortcut::ToggleSettings) <==> code is F1 && bare
            &&& shortcut == Some(GlobalShortcut::NewTab) <==> code is KeyT && ctrl_shift
            &&& shortcut == Some(GlobalShortcut::CloseTab) <==> code is Digit4 && ctrl
            &&& shortcut == Some(GlobalShortcut::Search) <==> code is KeyF && ctrl
            &&& app::shortcut_of(PhysicalKey::Unidentified, modifiers) is None
        }),
{
}

/// Over the settings the pointer is a text cursor on the field of the background colour and while it
/// selects there; elsewhere it is a hand on the cross of a tab and on the sign that adds one, unless a
/// tab is dragged.
pub proof fn pointer_shows_what_it_is_over(
    settings_hit: SettingsHit,
    text_dragging: bool,
    tab_hit: TerminalTabHit,
    tab_dragging: bool,
)
    ensures
        app::icon_for(true, SettingsHit::BackgroundField, text_dragging, tab_hit, tab_dragging)
            == CursorKind::Text,
        app::icon_for(true, settings_hit, true, tab_hit, tab_dragging) == CursorKind::Text,
        !(settings_hit is BackgroundField) ==> app::icon_for(
            true,
            settings_hit,
            false,
            tab_hit,
            tab_dragging,
        ) == CursorKind::Default,
        app::icon_for(false, settings_hit, text_dragging, tab_hit, true) == CursorKind::Default,
        app::icon_for(false, settings_hit, text_dragging, tab_hit, false) == match tab_hit {
            TerminalTabHit::Close(_) | TerminalTabHit::Add => CursorKind::Pointer,
            TerminalTabHit::Body(_) | TerminalTabHit::Outside => CursorKind::Default,
        },
{
}

/// The pointer gets another shape where it has one, and the window hears of it where there is one.
pub proof fn pointer_changes_its_shape_once(before: AppModel, icon: CursorKind)
    ensures
        before.window.cursor_icon == icon ==> before.with_icon(icon) == before,
        before.with_icon(icon).window.cursor_icon == icon,
        before.window.cursor_icon != icon ==> before.with_icon(icon).effects == if before.window.ready {
            before.effects.push(Effect::SetCursor(icon))
        } else {
            before.effects
        },
        before.with_icon(icon).with_icon(icon) == before.with_icon(icon),
        before.with_icon(icon).terminals == before.terminals,
        before.with_icon(icon).settings == before.settings,
{
}

/// What is done after a change of the settings, in order: the background, the size of the text, the
/// shape of the pointer, a frame. The first two need a window, and so does the asking for a frame.
pub proof fn changes_are_followed_in_order(before: AppModel, change: SettingsChange)
    ensures
        ({
            let ready = before.window.ready;
            let background = if ready && change.background is Some {
                seq![Effect::SetBackground(change.background->0)]
            } else {
                Seq::empty()
            };
            let font = if ready && change.font_size is Some {
                seq![Effect::SetFontSize(change.font_size->0)]
            } else {
                Seq::empty()
            };
            let cursor = if change.cursor {
                seq![Effect::RefreshCursor]
            } else {
                Seq::empty()
            };
            let frame = if ready && change.frame {
                seq![Effect::RequestFrame]
            } else {
                Seq::empty()
            };
            let after = before.after_change(change);
            &&& after.effects == before.effects + background + font + cursor + frame
            &&& after.window.dirty == (before.window.dirty || change.frame)
            &&& after == (AppModel {
                effects: after.effects,
                window: WindowState { dirty: after.window.dirty, ..before.window },
                ..before
            })
        }),
{
    reveal(AppModel::after_change);
    let ready = before.window.ready;
    let background = if ready && change.background is Some {
        seq![Effect::SetBackground(change.background->0)]
    } else {
        Seq::empty()
    };
    let font = if ready && change.font_size is Some {
        seq![Effect::SetFontSize(change.font_size->0)]
    } else {
        Seq::empty()
    };
    let cursor = if change.cursor {
        seq![Effect::RefreshCursor]
    } else {
        Seq::empty()
    };
    let frame = if ready && change.frame {
        seq![Effect::RequestFrame]
    } else {
        Seq::empty()
    };
    let first = before.effects + background;
    let second = first + font;
    let third = second + cursor;
    let fourth = third + frame;
    assert(first == if background.len() > 0 {
        before.effects.push(background[0])
    } else {
        before.effects
    }) by {
        joined_effects(before.effects, background);
    }
    assert(second == if font.len() > 0 {
        first.push(font[0])
    } else {
        first
    }) by {
        joined_effects(first, font);
    }
    assert(third == if cursor.len() > 0 {
        second.push(cursor[0])
    } else {
        second
    }) by {
        joined_effects(second, cursor);
    }
    assert(fourth == if frame.len() > 0 {
        third.push(frame[0])
    } else {
        third
    }) by {
        joined_effects(third, frame);
    }
}

proof fn joined_effects(effects: Seq<Effect>, more: Seq<Effect>)
    requires
        more.len() <= 1,
    ensures
        effects + more == if more.len() > 0 {
            effects.push(more[0])
        } else {
            effects
        },
{
    if more.len() > 0 {
        assert(effects + more =~= effects.push(more[0]));
    } else {
        assert(effects + more =~= effects);
    }
}

/// When the pointer lets go of the terminal, a selection that it held is settled and a drag of the
/// scrollbar ended, no button is held and no tab dragged. Without a terminal only the tab is let go.
pub proof fn cancelled_pointer_is_free(before: AppModel)
    requires
        before.wf(),
    ensures
        ({
            let after = before.pointer_cancelled();
            &&& after.terminals == (TerminalsModel { drag: None, ..before.terminals })
            &&& after.settings == before.settings && after.window == before.window
            &&& after.modifiers == before.modifiers && after.launches == before.launches
            &&& before.terminals.list.len() == 0 ==> after.ui == before.ui && after.effects
                == before.effects
            &&& before.terminals.list.len() > 0 ==> {
                let terminal = before.terminals.list[before.terminals.active].number;
                &&& after.ui.buttons == 0 && after.ui.capture is Free && after.ui.anchor is None
                &&& after.ui.search == before.ui.search && after.ui.modifiers == before.ui.modifiers
                &&& before.ui.capture is TerminalSelection ==> after.effects == before.effects.push(
                    Effect::SettleSelection { terminal },
                )
                &&& before.ui.capture is TerminalScrollbar ==> after.effects == before.effects.push(
                    Effect::EndScrollbarDrag { terminal },
                )
                &&& !(before.ui.capture is TerminalSelection || before.ui.capture is TerminalScrollbar)
                    ==> after.effects == before.effects
            }
        }),
{
    reveal(AppModel::pointer_cancelled);
}

/// When the window gains the focus or loses it, no modifier keys are held any more and the terminal that
/// is shown is told, where it asked for it; a frame is asked for. A window without the focus is still
/// owed one frame.
pub proof fn focus_reaches_the_shown_terminal(before: AppModel, focused: bool)
    requires
        before.wf(),
        before.window.ready,
    ensures
        ({
            let after = before.focus_changed(focused);
            let from = before.effects.len() as int;
            let active = before.terminals.list[before.terminals.active];
            let hears = before.terminals.presented && before.terminals.list.len() > 0
                && active.focus_reporting;
            &&& after.window.focused == focused
            &&& after.window.unfocused_redraw_pending == !focused
            &&& after.window.dirty
            &&& after.modifiers.0 == 0 && after.ui.modifiers.0 == 0
            &&& hears ==> after.effects[from] == (Effect::ReportFocus {
                terminal: active.number,
                focused,
            })
            &&& !hears && focused ==> after.effects == before.effects.push(Effect::RequestFrame)
            &&& after.effects.last() == Effect::RequestFrame
            &&& focused ==> after.ui.capture == before.ui.capture && after.terminals
                == before.terminals && after.settings == before.settings
        }),
{
    reveal(AppModel::focus_changed);
    reveal(AppModel::focus_noted);
    reveal(AppModel::let_go);
    reveal(AppModel::told);
    let noted = before.focus_noted(focused);
    if !focused {
        cancelled_pointer_is_free(noted);
    }
}

/// Settings that open let the pointer go; the shape of the pointer is looked for anew and a frame asked
/// for whenever they open or close.
pub proof fn settings_open_and_close(before: AppModel)
    requires
        before.wf(),
        before.window.ready,
    ensures
        ({
            let after = before.settings_toggled();
            let cancelled = before.pointer_cancelled();
            &&& after.settings.open == !before.settings.open
            &&& after.window.dirty
            &&& !before.settings.open ==> after.effects == cancelled.effects.push(
                Effect::RefreshCursor,
            ).push(Effect::RequestFrame)
            &&& !before.settings.open ==> !after.settings.editing && !after.settings.dragging
                && after.ui == cancelled.ui
            &&& before.settings.open ==> after.ui == before.ui && after.terminals == before.terminals
            &&& before.settings.open && before.settings.draft() is None ==> after.effects
                == before.effects.push(Effect::RefreshCursor).push(Effect::RequestFrame)
        }),
{
    reveal(AppModel::settings_toggled);
    cancelled_pointer_is_free(before);
    let middle = if before.settings.open {
        before
    } else {
        before.pointer_cancelled()
    };
    let change = SettingsChange {
        background: if before.settings.open {
            before.settings.finishing().background
        } else {
            None
        },
        cursor: true,
        ..settings_state::frame_only()
    };
    let toggled = AppModel { settings: before.settings.toggled(), ..middle };
    changes_are_followed_in_order(toggled, change);
    if change.background is None {
        assert(toggled.after_change(change).effects =~= middle.effects.push(
            Effect::RefreshCursor,
        ).push(Effect::RequestFrame));
    }
}

/// A window without an extent keeps the size that is known of it; another one takes over the size, where
/// it is known, and is to be drawn.
pub proof fn resizing_keeps_a_known_size(before: AppModel, size: Option<(u64, u64)>)
    ensures
        before.resized(true, size).settings == before.settings,
        before.resized(true, size).window.zero_sized,
        before.resized(true, size).window.dirty == before.window.dirty,
        !before.resized(false, size).window.zero_sized,
        before.resized(false, size).window.dirty,
        before.resized(false, size).settings == before.settings.resized(size),
        before.resized(false, None).settings == before.settings,
        before.resized(false, size).effects == before.effects,
{
}

/// A size of the window that is positive and another than the one that is kept is kept, and the settings
/// are to be saved; any other size changes nothing.
pub proof fn known_sizes_are_kept(before: SettingsModel, width: u64, height: u64)
    ensures
        ({
            let after = before.resized(Some((width, height)));
            let same = width == before.config.window_width && height == before.config.window_height;
            if number::is_positive(width) && number::is_positive(height) && !same {
                &&& after.config == (AppConfig {
                    window_width: width,
                    window_height: height,
                    ..before.config
                })
                &&& after.config_dirty && !after.config_save_attempted
            } else {
                after == before
            }
        }),
        before.resized(None) == before,
{
}

/// Something moves where the view or the tabs scroll, a selection scrolls, tabs move in a window, a tab
/// is dragged far enough or the settings open or close, and only there.
pub proof fn these_things_move(before: AppModel, signals: AnimationSignals)
    ensures
        signals.tab_scroll_unsettled || signals.settings_moving ==> before.moves(signals),
        signals.tab_animation && before.window.ready ==> before.moves(signals),
        signals.scroll_unsettled && before.terminals.list.len() > 0 ==> before.moves(signals),
        signals.selection_room && before.terminals.list.len() > 0
            && before.ui.capture is TerminalSelection && before.ui.anchor is Some ==> before.moves(
            signals,
        ),
        (before.terminals.drag matches Some(drag) && drag.threshold_passed) ==> before.moves(signals),
        before.moves(signals) ==> signals.tab_scroll_unsettled || signals.settings_moving || (
        signals.tab_animation && before.window.ready) || (before.terminals.list.len() > 0 && (
        signals.scroll_unsettled || (signals.selection_room
            && before.ui.capture is TerminalSelection && before.ui.anchor is Some))) || (
        before.terminals.drag is Some && before.terminals.drag->0.threshold_passed),
{
}

/// The loop goes on at once for what moves in a window with the focus that can be drawn in; otherwise it
/// waits, until a scan of the search is due where one is.
pub proof fn loop_waits_for_the_search(before: AppModel, now: u64)
    ensures
        ({
            let drawn = before.window.renderable();
            let moving = drawn && before.window.focused && before.window.animation_active;
            let scan = drawn && before.window.focused && before.ui.search.shown;
            let due = before.ui.search.pending_passive_refresh_at;
            &&& before.search_deadline() == if scan {
                due
            } else {
                None
            }
            &&& moving ==> before.control(now) == AppLoopControl::Poll && before.frame_due(now)
            &&& !moving && scan && due is Some && due->0 > now ==> before.control(now)
                == AppLoopControl::WaitUntil(due->0)
            &&& !moving && !(scan && due is Some && due->0 > now) ==> before.control(now)
                == AppLoopControl::Wait
            &&& drawn && before.window.dirty ==> before.frame_due(now)
            &&& scan && due is Some && due->0 <= now ==> before.frame_due(now)
            &&& before.frame_due(now) ==> drawn && (before.window.dirty || moving || (scan
                && due is Some && due->0 <= now))
        }),
{
}

/// A key that goes down and is a shortcut does what it is for, but for the settings, which let only the
/// one pass that closes them. Other keys go to the settings while they are shown, and otherwise to the
/// active terminal; keys that go up reach the terminal alone.
pub proof fn keys_go_to_one_place(
    before: AppModel,
    grid: TermGrid,
    key: KeyInput,
    clipboard: interaction::ClipboardModel,
    worker: CleanupWorker,
    now: u64,
)
    ensures
        ({
            let step = events::key_step(before, grid, key, clipboard, worker, now);
            let shortcut = app::shortcut_of(key.physical_key, before.modifiers);
            let pressed = key.state is Pressed;
            let still = events::settled_step(before, grid);
            &&& pressed && shortcut is Some && !before.modal() ==> step == events::shortcut_step(
                before,
                grid,
                shortcut->0,
                worker,
                now,
            )
            &&& pressed && shortcut == Some(GlobalShortcut::ToggleSettings) ==> step.app
                == before.settings_toggled() && !step.exit
            &&& pressed && shortcut is Some && !(shortcut->0 is ToggleSettings) && before.modal()
                ==> step == still
            &&& pressed && shortcut is None && before.modal() ==> step == events::settings_key_step(
                before,
                grid,
                key.physical_key,
                clipboard,
            )
            &&& !pressed && before.modal() ==> step == still
            &&& (!pressed || shortcut is None) && !before.modal() && before.terminals.list.len() == 0
                ==> step == still
            &&& (!pressed || shortcut is None) && !before.modal() && before.terminals.list.len() > 0
                ==> {
                let inner = interaction::key_step(before.ui, grid, key, clipboard, now);
                &&& step.outcome == inner.outcome && step.selection == inner.selection
                &&& step.app.ui == inner.ui && !step.exit
                &&& step.app.window.dirty == (before.window.dirty || inner.outcome.handled)
                &&& step.app.terminals == before.terminals && step.app.settings == before.settings
            }
            &&& still.app == before && still.selection == grid.selection && !still.exit
                && !still.outcome.handled && still.outcome.send is None && still.outcome.copy is Nothing
                && still.outcome.jump is None
        }),
{
}

/// The shortcuts open and close the settings, add a terminal, close the active one, which ends the
/// application with the last, and open the search of a terminal with its query selected.
pub proof fn shortcuts_do_their_part(
    before: AppModel,
    grid: TermGrid,
    worker: CleanupWorker,
    now: u64,
)
    ensures
        ({
            let close = events::shortcut_step(before, grid, GlobalShortcut::CloseTab, worker, now);
            let add = events::shortcut_step(before, grid, GlobalShortcut::NewTab, worker, now);
            let find = events::shortcut_step(before, grid, GlobalShortcut::Search, worker, now);
            let line = before.ui.search.line;
            &&& close.app == before.closing(before.terminals.active, worker)
            &&& close.exit == (before.terminals.list.len() == 1)
            &&& add.app == before.added() && !add.exit
            &&& before.terminals.list.len() == 0 ==> find.app == before && !find.outcome.handled
            &&& before.terminals.list.len() > 0 ==> {
                let after = find.app.ui.search;
                let results = search::search_results(
                    grid,
                    line.text,
                    before.ui.search.case_sensitive,
                );
                &&& after.shown && after.focused && !find.exit && find.outcome.handled
                &&& after.line == (single_line_input::LineModel {
                    text: line.text,
                    cursor: line.text.len() as int,
                    anchor: Some(0),
                })
                &&& after.results == results
                &&& results.len() > 0 ==> after.active() == Some(results.last())
                    && find.outcome.jump == Some(interaction::rows_below(grid, results.last().y))
                &&& find.app.window.dirty
            }
        }),
{
}

/// In the settings Escape closes them, and other keys reach only the field of the background colour
/// while it is edited. There Enter takes over a whole colour and ends editing; a key that changes the
/// text takes over a whole colour at once.
pub proof fn settings_keys_edit_the_field(
    before: AppModel,
    grid: TermGrid,
    key: PhysicalKey,
    clipboard: interaction::ClipboardModel,
)
    ensures
        ({
            let step = events::settings_key_step(before, grid, key, clipboard);
            let enter = key == PhysicalKey::Code(KeyCode::Enter) || key == PhysicalKey::Code(
                KeyCode::NumpadEnter,
            );
            let escape = key == PhysicalKey::Code(KeyCode::Escape);
            let field = settings::after_editor_key(
                before.settings.field,
                key,
                before.modifiers.has_control(),
                before.modifiers.has_shift(),
                if before.modifiers.has_control() && key == PhysicalKey::Code(KeyCode::KeyV)
                    && clipboard.available {
                    clipboard.text
                } else {
                    None
                },
            );
            let after = step.app.settings;
            &&& !step.exit && step.outcome.send is None && step.selection == grid.selection
            &&& escape ==> !after.open
            &&& !escape && !before.settings.editing ==> step.app == before
                && step.outcome.copy is Nothing
            &&& !escape && before.settings.editing && enter ==> {
                &&& !after.editing
                &&& after.config.terminal_background == match config::hex_color(
                    before.settings.field.text,
                ) {
                    Some(color) => color,
                    None => before.settings.config.terminal_background,
                }
            }
            &&& !escape && before.settings.editing && !enter ==> {
                &&& after.editing && after.field == field
                &&& field.text != before.settings.field.text
                    ==> after.config.terminal_background == match config::hex_color(field.text) {
                    Some(color) => color,
                    None => before.settings.config.terminal_background,
                }
                &&& field.text == before.settings.field.text ==> after.config
                    == before.settings.config
                &&& match settings::copied(
                    before.settings.field,
                    key,
                    before.modifiers.has_control(),
                ) {
                    Some(copy) => step.outcome.copy == interaction::CopyModel::Text(copy),
                    None => step.outcome.copy is Nothing,
                }
            }
        }),
{
    reveal(AppModel::settings_hit);
    reveal(AppModel::after_change);
}

/// Typed text goes to the field of the background colour while the settings are shown, unless Ctrl, Alt
/// or Super is held, and otherwise to the active terminal; text from an input method goes the same way,
/// whatever is held.
pub proof fn text_goes_to_one_place(before: AppModel, grid: TermGrid, typed: Seq<char>, now: u64)
    ensures
        ({
            let step = events::text_step(before, grid, typed, now);
            let commit = events::commit_step(before, grid, typed, now);
            let still = events::settled_step(before, grid);
            let held = before.modifiers.has_control() || before.modifiers.has_alt()
                || before.modifiers.has_super();
            let terminals = before.terminals.list.len();
            &&& typed.len() == 0 ==> step == still
            &&& before.modal() && held ==> step == still
            &&& before.modal() && !held && typed.len() > 0 ==> step == events::settled_step(
                before.field_typed(typed),
                grid,
            )
            &&& before.modal() ==> commit == events::settled_step(before.field_typed(typed), grid)
            &&& !before.modal() && terminals == 0 ==> step == still && commit == still
            &&& !before.modal() && terminals > 0 && typed.len() > 0 ==> {
                let inner = interaction::text_step(before.ui, grid, typed, now);
                step.outcome == inner.outcome && step.app.ui == inner.ui && step.selection
                    == inner.selection && step.app.window.dirty == (before.window.dirty
                    || inner.outcome.handled)
            }
            &&& !before.modal() && terminals > 0 ==> {
                let inner = interaction::commit_step(before.ui, grid, typed, now);
                commit.outcome == inner.outcome && commit.app.ui == inner.ui && commit.selection
                    == inner.selection && commit.app.window.dirty == (before.window.dirty
                    || inner.outcome.handled)
            }
        }),
{
}

/// A text that the field takes while it is edited goes into it, and a whole colour that it then writes
/// is the background; otherwise nothing changes.
pub proof fn typed_colours_are_taken_over(before: AppModel, value: Seq<char>)
    ensures
        ({
            let after = before.field_typed(value);
            let field = settings::with_hex(before.settings.field, value);
            let taken = before.settings.editing && settings::takes(before.settings.field, value);
            &&& !taken ==> after == before
            &&& taken ==> {
                &&& after.settings.field == field
                &&& after.settings.config.terminal_background == match config::hex_color(field.text) {
                    Some(color) => color,
                    None => before.settings.config.terminal_background,
                }
                &&& after.window.dirty
            }
        }),
{
    reveal(AppModel::field_typed);
    reveal(AppModel::after_change);
}

/// A change that is not saved is marked, and is to be tried again.
pub proof fn changes_are_to_be_saved(before: SettingsModel)
    ensures
        before.marked() == (SettingsModel {
            config_dirty: true,
            config_save_attempted: false,
            ..before
        }),
{
}

/// Another background or the same, the field shows it when it is reset, the cursor at its end.
pub proof fn field_shows_the_background(before: SettingsModel, color: RgbColor)
    ensures
        before.with_background(color).config.terminal_background == color,
        before.with_background(color) == (SettingsModel {
            config: AppConfig { terminal_background: color, ..before.config },
            ..before
        }),
        before.with_field_reset().field.text == config::hex_text(before.config.terminal_background),
        before.with_field_reset().field.selection() is None,
        before.with_field_reset() == (SettingsModel {
            field: before.with_field_reset().field,
            ..before
        }),
        before.draft() is Some ==> before.draft() == config::hex_color(before.field.text)
            && before.draft()->0 != before.config.terminal_background,
        config::hex_color(before.field.text) matches Some(found) ==> found
            != before.config.terminal_background ==> before.draft() == Some(found),
{
}

/// A size or sensitivity that is a click away takes the place of the one that was; one that is as good
/// as the same does not.
pub proof fn near_values_do_not_count(value: u32, next: u32)
    ensures
        number::is_close(next, value) ==> settings_state::changed_to(value, next) == value,
        !number::is_close(next, value) ==> settings_state::changed_to(value, next) == next,
{
}

/// The controls of the size of the text make it one smaller, one larger or the default, those of the
/// sensitivity a step smaller, a step larger or the default, and other clicks change neither. What is
/// shown beside them and what is drawn follows.
pub proof fn controls_step_their_values(before: SettingsModel, hit: SettingsHit)
    requires
        !before.editing,
    ensures
        ({
            let size = before.config.terminal_font_size;
            let sensitivity = before.config.scroll_sensitivity;
            let after = before.hit(hit);
            let change = before.hitting(hit);
            let wanted = match hit {
                SettingsHit::FontDecrease => config::size_with(size, -config::TERMINAL_FONT_SIZE_STEP),
                SettingsHit::FontIncrease => config::size_with(
                    size,
                    config::TERMINAL_FONT_SIZE_STEP as int,
                ),
                SettingsHit::FontReset => config::DEFAULT_TERMINAL_FONT_SIZE,
                _ => size,
            };
            let scroll = match hit {
                SettingsHit::ScrollDecrease => config::sensitivity_with(
                    sensitivity,
                    -config::SCROLL_SENSITIVITY_STEP,
                ),
                SettingsHit::ScrollIncrease => config::sensitivity_with(
                    sensitivity,
                    config::SCROLL_SENSITIVITY_STEP as int,
                ),
                SettingsHit::ScrollReset => config::DEFAULT_SCROLL_SENSITIVITY,
                _ => sensitivity,
            };
            &&& after.config.terminal_font_size == wanted || (number::is_close(wanted, size)
                && after.config.terminal_font_size == size)
            &&& !number::is_close(wanted, size) && wanted != size ==> {
                &&& after.config.terminal_font_size == wanted
                &&& after.font_value == settings_state::size_text(wanted)
                &&& change.font_size == Some(wanted) && change.frame
                &&& after.config_dirty && !after.config_save_attempted
            }
            &&& after.config.scroll_sensitivity == scroll || (number::is_close(scroll, sensitivity)
                && after.config.scroll_sensitivity == sensitivity)
            &&& !number::is_close(scroll, sensitivity) && scroll != sensitivity ==> {
                &&& after.config.scroll_sensitivity == scroll
                &&& after.scroll_value == settings_state::sensitivity_text(scroll)
                &&& change.frame && change.font_size is None
                &&& after.config_dirty && !after.config_save_attempted
            }
        }),
{
}

/// A click on a page shows it, one beside the settings closes them, one on the field begins to edit it,
/// and one that resets the background makes it the default, in the field too.
pub proof fn clicks_do_their_part(before: SettingsModel, tab: SettingsTab)
    requires
        !before.editing,
    ensures
        before.hit(SettingsHit::Tab(tab)).active_tab == tab,
        before.hitting(SettingsHit::Tab(tab)).frame == (tab != before.active_tab),
        before.hit(SettingsHit::Tab(tab)).open == before.open,
        !before.hit(SettingsHit::Outside).open,
        before.open ==> before.hitting(SettingsHit::Outside).frame && before.hitting(
            SettingsHit::Outside,
        ).cursor,
        !before.open ==> before.hit(SettingsHit::Outside) == before && before.hitting(
            SettingsHit::Outside,
        ) == settings_state::nothing(),
        before.hit(SettingsHit::BackgroundField).editing,
        before.hit(SettingsHit::BackgroundField).field.text == config::hex_text(
            before.config.terminal_background,
        ),
        before.hitting(SettingsHit::BackgroundField).frame,
        before.hit(SettingsHit::Blank) == before,
        before.hitting(SettingsHit::Blank) == settings_state::nothing(),
        ({
            let after = before.hit(SettingsHit::BackgroundReset);
            let default = config::default_background_color();
            &&& after.config.terminal_background == default
            &&& after.field.text == config::hex_text(default)
            &&& default != before.config.terminal_background ==> before.hitting(
                SettingsHit::BackgroundReset,
            ).background == Some(default) && after.config_dirty
        }),
{
}

/// A click ends editing first, unless it is on the field: a whole colour is taken over, drawn and shown.
pub proof fn clicks_end_editing(before: SettingsModel, hit: SettingsHit)
    requires
        before.editing,
        !(hit is BackgroundField),
        !(hit is Outside) || before.open,
    ensures
        ({
            let after = before.hit(hit);
            let change = before.hitting(hit);
            let typed = config::hex_color(before.field.text);
            let kept = if typed is Some {
                typed->0
            } else {
                before.config.terminal_background
            };
            &&& !after.editing && !after.dragging && change.frame
            &&& !(hit is BackgroundReset) ==> after.config.terminal_background == kept
                && after.field.text == config::hex_text(kept)
            &&& !(hit is BackgroundReset) && kept != before.config.terminal_background
                ==> change.background == Some(kept) && after.config_dirty
            &&& !(hit is BackgroundReset) && kept == before.config.terminal_background
                ==> change.background is None
        }),
        before.hit(SettingsHit::BackgroundField) == before,
{
}

/// A press on the field begins to edit it, with the cursor and the start of a selection at its
/// character.
pub proof fn pressed_field_is_edited(before: SettingsModel, cursor: int)
    requires
        0 <= cursor <= 6,
        !before.editing,
        config::hex_text(before.config.terminal_background).len() == 7,
    ensures
        ({
            let after = before.field_clicked(cursor);
            &&& after.editing && after.dragging
            &&& after.field.text == config::hex_text(before.config.terminal_background)
            &&& after.field.cursor == cursor && after.field.anchor == Some(cursor)
            &&& after.config == before.config
        }),
        before.field_clicked(8).field.cursor == 7,
{
}

/// Settings as they were loaded are saved, their window is closed and shows the first page, and what it
/// shows are their values.
pub proof fn loaded_settings_are_saved(values: AppConfig)
    ensures
        ({
            let loaded = settings_state::unchanged(values);
            &&& loaded.config == values && !loaded.config_dirty && !loaded.config_save_attempted
            &&& !loaded.open && !loaded.editing && !loaded.dragging
            &&& loaded.active_tab is General
            &&& loaded.field.text == config::hex_text(values.terminal_background)
            &&& loaded.font_value == settings_state::size_text(values.terminal_font_size)
            &&& loaded.scroll_value == settings_state::sensitivity_text(values.scroll_sensitivity)
        }),
        ({
            let app = events::unstarted(values);
            &&& !app.window.ready && app.window.focused && app.window.dirty
            &&& !app.window.occluded && !app.window.zero_sized && !app.window.animation_active
            &&& !app.window.unfocused_redraw_pending && !app.window.settings_visible
            &&& app.window.cursor_icon is Default
            &&& app.terminals.list.len() == 0 && app.launches.len() == 0 && app.effects.len() == 0
            &&& app.modifiers.0 == 0
        }),
{
}

/// A motion over the settings selects in the field where that is dragged; a tab that is dragged takes
/// every other motion, then the tabs, then the terminal. The shape of the pointer is always looked for
/// anew.
pub proof fn motion_goes_to_one_place(before: AppModel, grid: TermGrid, motion: PointerMotion)
    ensures
        ({
            let step = pointer_events::motion_step(before, grid, motion);
            let from = before.effects.len() as int;
            let over = !(before.ui.capture is TerminalSelection) && before.window.ready
                && motion.over_tabs;
            let reaches = !before.modal() && before.terminals.drag is None && !over
                && before.window.ready && before.terminals.list.len() > 0;
            &&& !step.exit
            &&& step.app.effects.len() > from && step.app.effects[from] == Effect::RefreshCursor
            &&& before.modal() ==> {
                let field = before.settings.field;
                let after = step.app.settings.field;
                &&& step.app.ui == before.ui && step.selection == grid.selection
                &&& step.app.terminals == before.terminals
                &&& before.settings.dragging && motion.field_cursor is Some ==> after
                    == field.with_cursor(motion.field_cursor->0 as int, true)
                &&& !before.settings.dragging || motion.field_cursor is None ==> after == field
                &&& step.app.window.dirty == (before.window.dirty || motion.previous_hit
                    != motion.current_hit || after != field)
            }
            &&& !before.modal() && before.terminals.drag is Some ==> {
                let drag = before.terminals.drag->0;
                &&& step.app.ui == before.ui && step.selection == grid.selection
                &&& step.app.terminals.drag == Some(
                    TabDrag {
                        start_idx: drag.start_idx,
                        threshold_passed: drag.threshold_passed || motion.threshold_passed,
                    },
                )
                &&& step.app.terminals.list == before.terminals.list && step.app.window.dirty
            }
            &&& !before.modal() && before.terminals.drag is None && over ==> step.app.ui == before.ui
                && step.selection == grid.selection && step.app.window.dirty
                && !step.outcome.handled
            &&& reaches ==> {
                let inner = pointer::motion_step(
                    before.ui,
                    grid,
                    motion.target,
                    motion.room_before,
                    motion.room_after,
                    motion.scrollbar_moves,
                );
                step.app.ui == inner.ui && step.selection == inner.selection && step.outcome
                    == inner.outcome
            }
        }),
{
    reveal(pointer_events::motion_step);
    reveal(AppModel::settings_motion);
    reveal(AppModel::tab_motion);
}

/// A press of the left button closes a tab on its cross, presses it elsewhere and adds one on the sign
/// for it; letting it go drops a tab that is dragged. What the tabs and the settings do not take goes to
/// the terminal.
pub proof fn buttons_go_to_one_place(
    before: AppModel,
    grid: TermGrid,
    press: PointerPress,
    worker: CleanupWorker,
    now: u64,
)
    requires
        !before.modal(),
        !pointer_events::cleared(before, grid, press),
        before.window.ready,
    ensures
        ({
            let step = pointer_events::button_step(before, grid, press, worker, now);
            let down = press.button is Left && press.state is Pressed;
            let up = press.button is Left && press.state is Released;
            let on_tabs = down && !(press.tab_hit is Outside);
            &&& down ==> match press.tab_hit {
                TerminalTabHit::Close(index) => step.app == before.closing(index as int, worker)
                    && step.exit == (before.terminals.list.len() == 1 && index == 0),
                TerminalTabHit::Body(index) => step.app == before.tab_pressed(index) && !step.exit,
                TerminalTabHit::Add => step.app == before.added() && !step.exit,
                TerminalTabHit::Outside => true,
            }
            &&& up && before.terminals.drag is Some ==> step.app == before.tab_released(
                before.terminals.drag->0,
                press.destination,
            ) && !step.exit
            &&& !on_tabs && !(up && before.terminals.drag is Some) && before.terminals.list.len() > 0
                ==> {
                let inner = pointer::button_step(
                    before.ui,
                    grid,
                    press.state,
                    press.button,
                    press.target,
                    now,
                );
                step.app.ui == inner.ui && step.selection == inner.selection && step.outcome
                    == inner.outcome && !step.exit
            }
        }),
{
    reveal(pointer_events::button_step);
    reveal(pointer_events::press_step);
}

/// The left button takes a selection of the terminal away as it goes down, unless the search owns it.
pub proof fn left_button_clears(before: AppModel, grid: TermGrid, press: PointerPress)
    ensures
        pointer_events::cleared(before, grid, press) == (press.button is Left
            && press.state is Pressed && before.terminals.list.len() > 0 && grid.selection is Some
            && !before.ui.search.grid_selection_owned),
{
}

/// A tab that is pressed is dragged from then on and asked for; one that is let go takes its new place
/// only where it was dragged far enough, and is dragged no more.
pub proof fn tabs_are_dragged_and_dropped(
    before: AppModel,
    index: usize,
    destination: usize,
    far: bool,
)
    requires
        before.wf(),
        before.window.ready,
        index < before.terminals.list.len(),
        destination < before.terminals.list.len(),
    ensures
        ({
            let pressed = before.tab_pressed(index);
            &&& pressed.terminals.drag == Some(
                TabDrag { start_idx: index, threshold_passed: false },
            )
            &&& pressed.window.dirty
            &&& before.terminals.list[index as int].presentation_ready ==> pressed.terminals.active
                == index && pressed.terminals.presented
        }),
        ({
            let drag = TabDrag { start_idx: index, threshold_passed: far };
            let dropped = before.tab_released(drag, Some(destination));
            let left = before.tab_released(drag, None);
            &&& dropped.terminals.drag is None && left.terminals.drag is None
            &&& left.terminals.list == before.terminals.list
            &&& !far || index == destination ==> dropped.terminals.list == before.terminals.list
            &&& far ==> dropped.terminals.list[destination as int]
                == before.terminals.list[index as int] && dropped.terminals.list.remove(
                destination as int,
            ) == before.terminals.list.remove(index as int)
            &&& dropped.terminals.list[dropped.terminals.active]
                == before.terminals.list[before.terminals.active]
            &&& dropped.window.dirty && left.window.dirty
        }),
{
    reveal(AppModel::tab_released);
    let drag = TabDrag { start_idx: index, threshold_passed: far };
    let still = AppModel { terminals: TerminalsModel { drag: None, ..before.terminals }, ..before };
    assert(still.wf());
    tab_laws::tabs_move_within_the_list(still, index as int, destination as int);
    tab_press_keeps_the_drag(before, index);
}

proof fn tab_press_keeps_the_drag(before: AppModel, index: usize)
    requires
        before.wf(),
        index < before.terminals.list.len(),
    ensures
        ({
            let pressed = before.tab_pressed(index);
            &&& pressed.terminals.drag == Some(
                TabDrag { start_idx: index, threshold_passed: false },
            )
            &&& pressed.window.dirty
            &&& before.terminals.list[index as int].presentation_ready ==> pressed.terminals.active
                == index && pressed.terminals.presented
        }),
{
    reveal(AppModel::tab_pressed);
    let dragged = AppModel {
        terminals: TerminalsModel {
            drag: Some(TabDrag { start_idx: index, threshold_passed: false }),
            ..before.terminals
        },
        ..before
    };
    assert(dragged.wf());
    if before.terminals.list[index as int].presentation_ready {
        tab_laws::ready_terminal_is_shown_at_once(dragged, index as int, false);
    }
    reveal(AppModel::asked);
    reveal(AppModel::presenting);
    let waiting = AppModel {
        terminals: dragged.terminals.waiting(index as int, false),
        ..dragged
    };
    match waiting.terminals.due() {
        Some((at, reveal_tail)) => {
            let idle = AppModel { terminals: waiting.terminals.idle(), ..waiting };
            let states = waiting.terminals.list.map_values(
                |tab: crate::app::terminals::TerminalTab|
                    crate::app::terminals::presentation_state(tab),
            );
            tab_laws::first_ready_terminal_is_due(states);
            activation_keeps_the_drag(idle, at, reveal_tail);
        },
        None => {},
    }
}

proof fn activation_keeps_the_drag(before: AppModel, index: int, reveal_tail: bool)
    ensures
        before.activated(index, reveal_tail).terminals.drag == before.terminals.drag,
{
    reveal(AppModel::activated);
    reveal(AppModel::handed_over);
    reveal(AppModel::left);
    reveal(AppModel::focus_moved);
    reveal(AppModel::told);
}

/// In the settings only the left button counts: on the field it begins to edit and to select, elsewhere
/// it does what the place is for, and letting it go ends the selecting.
pub proof fn settings_take_the_left_button(before: AppModel, press: PointerPress)
    ensures
        ({
            let after = before.settings_press(press);
            let down = press.state is Pressed;
            &&& !(press.button is Left) ==> after == before
            &&& press.button is Left && down && press.settings_hit is BackgroundField ==> {
                &&& after.settings == before.settings.field_clicked(
                    match press.field_cursor {
                        Some(cursor) => cursor as int,
                        None => before.settings.field.cursor,
                    },
                )
                &&& after.effects.last() == Effect::RefreshCursor
            }
            &&& press.button is Left && down && !(press.settings_hit is BackgroundField) ==> {
                &&& after.settings == (SettingsModel { dragging: false, ..before.settings }).hit(
                    press.settings_hit,
                )
                &&& after.effects.last() == Effect::RefreshCursor
            }
            &&& press.button is Left && !down ==> !after.settings.dragging && after.settings
                == (SettingsModel { dragging: false, ..before.settings })
            &&& press.button is Left && !down && before.settings.dragging ==> after.window.dirty
            &&& press.button is Left && !down && !before.settings.dragging ==> after == before
            &&& after.terminals == before.terminals && after.ui == before.ui
        }),
{
    reveal(AppModel::settings_press);
    reveal(AppModel::field_pressed);
    reveal(AppModel::settings_hit);
    reveal(AppModel::after_change);
}

/// What the application holds is what is said of it, field by field.
pub proof fn application_holds_its_fields(app: crate::app::state::App)
    ensures
        app@.window == app.window,
        app@.modifiers == app.modifiers,
        app@.effects == app.effects@,
        app@.launches == app.pending_external_launches@,
        app@.settings.open == app.settings.open,
        app@.settings.config == app.settings.config,
        app@.settings.editing == app.settings.background_editing,
        app@.settings.dragging == app.settings.background_dragging,
        app@.settings.config_dirty == app.settings.config_dirty,
        app@.settings.config_save_attempted == app.settings.config_save_attempted,
        app@.settings.active_tab == app.settings.active_tab,
        app@.settings.font_value == app.settings.font_value@,
        app@.settings.scroll_value == app.settings.scroll_value@,
        app@.settings.field.text == app.settings.background_input.text@,
        app@.settings.field.cursor == app.settings.background_input.cursor,
        app@.terminals.list == app.terminals.list@,
        app@.terminals.active == app.terminals.active,
        app@.terminals.presented == app.terminals.presented,
        app@.terminals.next_number == app.terminals.next_number,
        app@.terminals.drag == app.terminals.drag,
        app@.terminals.reveal == app.terminals.reveal,
        app@.terminals.cleanup == app.terminals.cleanup@,
        app@.ui.modifiers == app.interaction.modifiers,
        app@.ui.buttons == app.interaction.pressed_mouse_buttons,
        app@.ui.capture == app.interaction.pointer_capture,
        app@.ui.anchor == app.interaction.terminal_selection_anchor,
        app@.ui.search.shown == app.interaction.search.shown,
        app@.ui.search.focused == app.interaction.search.focused,
        app@.ui.search.case_sensitive == app.interaction.search.case_sensitive,
        app@.ui.search.results == app.interaction.search.results@,
        app@.ui.search.line.text == app.interaction.search.input.text@,
        app@.ui.search.line.cursor == app.interaction.search.input.cursor,
        app.interaction.search.current is None ==> app@.ui.search.current is None,
        app.interaction.search.current matches Some(index) ==> app@.ui.search.current == Some(
            index as int,
        ),
        app@.ui.search.query_revision == app.interaction.search.query_revision,
        app@.ui.search.scanned_query_revision == app.interaction.search.scanned_query_revision,
        app@.ui.search.scanned_grid_generation == app.interaction.search.scanned_grid_generation,
        app@.ui.search.last_passive_scan_at == app.interaction.search.last_passive_scan_at,
        app@.ui.search.pending_passive_refresh_at
            == app.interaction.search.pending_passive_refresh_at,
        app@.ui.search.grid_selection_owned == app.interaction.search.grid_selection_owned,
{
}

} // verus!
