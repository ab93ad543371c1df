//! What holds of every key and every text that is typed, committed or pasted.
use vstd::prelude::*;
use vstd::utf8::*;

use crate::input;
use crate::input_types::{KeyCode, KeyInput, KeyState, PhysicalKey};
use crate::interaction;
use crate::interaction::{ClipboardModel, CopyModel, InteractionModel, Step};
use crate::search;
use crate::search::{SearchModel, SearchRefreshCause};
use crate::single_line_input::LineModel;
use crate::terminal;
use crate::terminal::TermGrid;

verus! {

/// A key of the keyboard that goes down.
pub open spec fn press(code: KeyCode) -> KeyInput {
    KeyInput { state: KeyState::Pressed, physical_key: PhysicalKey::Code(code) }
}

/// Whether the search is shown and takes the keyboard.
pub open spec fn is_searching(ui: InteractionModel) -> bool {
    ui.search.shown && ui.search.focused
}

/// Whether a step sends nothing, copies nothing, scrolls nowhere and takes no hold of the scrollbar.
pub open spec fn is_quiet(step: Step) -> bool {
    &&& step.outcome.send is None
    &&& step.outcome.copy is Nothing
    &&& step.outcome.jump is None
    &&& step.outcome.drag is Keep
}

/// Whether a step changes nothing of the interaction but the search.
pub open spec fn is_of_search(step: Step, ui: InteractionModel) -> bool {
    &&& step.ui.modifiers == ui.modifiers
    &&& step.ui.buttons == ui.buttons
    &&& step.ui.capture == ui.capture
    &&& step.ui.anchor == ui.anchor
}

/// The rows below a row, the row itself and those above it are all rows.
pub proof fn rows_below_and_above_are_all(grid: TermGrid, y: usize)
    requires
        y < terminal::all_rows(grid).len(),
    ensures
        interaction::rows_below(grid, y) + 1 + y == terminal::all_rows(grid).len(),
{
}

/// A text without its line breaks holds none and keeps every other character, in order: what is joined
/// is joined, one other character stays and one line break goes.
pub proof fn only_breaks_are_removed(left: Seq<char>, right: Seq<char>, c: char)
    ensures
        interaction::without_breaks(left + right) == interaction::without_breaks(left)
            + interaction::without_breaks(right),
        interaction::without_breaks(seq![c]) == if c == '\n' || c == '\r' {
            Seq::empty()
        } else {
            seq![c]
        },
        interaction::has_break(left) == (left.contains('\n') || left.contains('\r')),
        !interaction::has_break(left) ==> interaction::without_breaks(left) == left,
    decreases left.len() + right.len(),
{
    assert(seq![c].drop_last() =~= Seq::empty());
    assert(interaction::without_breaks(seq![c].drop_last()) =~= Seq::empty());
    assert(interaction::without_breaks(seq![c]) =~= if c == '\n' || c == '\r' {
        Seq::empty()
    } else {
        seq![c]
    });
    if right.len() > 0 {
        only_breaks_are_removed(left, right.drop_last(), c);
        assert((left + right).drop_last() =~= left + right.drop_last());
        assert(interaction::without_breaks(left + right) =~= interaction::without_breaks(left)
            + interaction::without_breaks(right));
    } else {
        assert(left + right =~= left);
        assert(interaction::without_breaks(left) + interaction::without_breaks(right)
            =~= interaction::without_breaks(left));
        if left.len() > 0 {
            only_breaks_are_removed(left.drop_last(), right, c);
            if !interaction::has_break(left) {
                assert(left[left.len() - 1] != '\n' && left[left.len() - 1] != '\r');
                assert(!interaction::has_break(left.drop_last())) by {
                    if interaction::has_break(left.drop_last()) {
                        let i = choose|i: int|
                            0 <= i < left.len() - 1 && ((#[trigger] left.drop_last()[i]) == '\r'
                                || left.drop_last()[i] == '\n');
                        assert(left[i] == left.drop_last()[i]);
                    }
                }
                assert(left.drop_last().push(left.last()) =~= left);
            }
        } else {
            assert(interaction::without_breaks(left) =~= left);
        }
    }
    if interaction::has_break(left) {
        let i = choose|i: int|
            0 <= i < left.len() && ((#[trigger] left[i]) == '\r' || left[i] == '\n');
        assert(left.contains(left[i]));
    }
}

/// A search that is edited is scanned at once: it shows the results of its new query, the last of them
/// is active, selected and scrolled to; without results nothing is scrolled.
pub proof fn edited_search_shows_its_last_result(
    ui: InteractionModel,
    line: LineModel,
    grid: TermGrid,
    now: u64,
    copy: CopyModel,
)
    requires
        is_searching(ui),
        ui.search.scanned_query_revision == ui.search.query_revision,
    ensures
        ({
            let step = interaction::search_edited(
                ui,
                ui.search.with_line(line, true),
                grid,
                now,
                copy,
            );
            let results = search::search_results(grid, line.text, ui.search.case_sensitive);
            let after = step.ui.search;
            &&& after.line == line
            &&& after.results == results
            &&& step.outcome.handled && step.outcome.send is None
            &&& step.outcome.copy == copy
            &&& is_of_search(step, ui)
            &&& results.len() > 0 ==> {
                let last = results.last();
                &&& after.active() == Some(last)
                &&& after.grid_selection_owned
                &&& step.selection == Some((last.start_x, last.y, last.end_x, last.y))
                &&& step.outcome.jump == Some(interaction::rows_below(grid, last.y))
            }
            &&& results.len() == 0 ==> {
                &&& after.current is None && !after.grid_selection_owned
                &&& step.outcome.jump is None
                &&& step.selection == if ui.search.grid_selection_owned {
                    None
                } else {
                    grid.selection
                }
            }
        }),
{
}

/// Escape closes a search that takes the keyboard, and takes away its results and the selection.
pub proof fn escape_closes_the_search(
    ui: InteractionModel,
    grid: TermGrid,
    clipboard: ClipboardModel,
    now: u64,
)
    requires
        is_searching(ui),
    ensures
        ({
            let step = interaction::key_step(ui, grid, press(KeyCode::Escape), clipboard, now);
            &&& !step.ui.search.shown && !step.ui.search.focused
            &&& step.ui.search.results.len() == 0 && step.ui.search.current is None
            &&& step.ui.search.line == ui.search.line
            &&& step.selection is None
            &&& step.outcome.handled && is_quiet(step)
            &&& is_of_search(step, ui)
        }),
{
    reveal(interaction::key_step);
    reveal(interaction::search_key_step);
}

/// Whether a step of a search went to a result: it is active, selected and scrolled to.
pub open spec fn went_to(step: Step, ui: InteractionModel, grid: TermGrid, at: int) -> bool {
    let found = ui.search.results[at];
    &&& step.ui.search == (SearchModel {
        current: Some(at),
        grid_selection_owned: true,
        ..ui.search
    })
    &&& step.selection == Some((found.start_x, found.y, found.end_x, found.y))
    &&& step.outcome.jump == Some(interaction::rows_below(grid, found.y))
    &&& step.outcome.handled && step.outcome.send is None && step.outcome.copy is Nothing
    &&& is_of_search(step, ui)
}

/// In a search Enter and the down key go to the next result, Enter with Shift and the up key to the one
/// before, round the ends.
pub proof fn search_keys_go_round_the_results(
    ui: InteractionModel,
    grid: TermGrid,
    clipboard: ClipboardModel,
    now: u64,
)
    requires
        is_searching(ui),
        ui.search.wf(),
        ui.search.current is Some,
    ensures
        ({
            let len = ui.search.results.len() as int;
            let at = ui.search.current->0;
            let next = if at + 1 < len {
                at + 1
            } else {
                0
            };
            let previous = if at == 0 {
                len - 1
            } else {
                at - 1
            };
            let enter = interaction::key_step(ui, grid, press(KeyCode::Enter), clipboard, now);
            let down = interaction::key_step(ui, grid, press(KeyCode::ArrowDown), clipboard, now);
            let up = interaction::key_step(ui, grid, press(KeyCode::ArrowUp), clipboard, now);
            &&& went_to(down, ui, grid, next)
            &&& went_to(up, ui, grid, previous)
            &&& ui.modifiers.has_shift() ==> went_to(enter, ui, grid, previous)
            &&& !ui.modifiers.has_shift() ==> went_to(enter, ui, grid, next)
        }),
{
    reveal(interaction::key_step);
    reveal(interaction::search_key_step);
    search::laws::steps_go_round(ui.search);
}

/// Whether a step of a search only moved the cursor of its query, and selected up to there where
/// `selecting`.
pub open spec fn moved_to(
    step: Step,
    ui: InteractionModel,
    grid: TermGrid,
    cursor: int,
    selecting: bool,
) -> bool {
    &&& step.ui.search == (SearchModel {
        line: LineModel {
            text: ui.search.line.text,
            cursor,
            anchor: if !selecting {
                None
            } else if ui.search.line.anchor is Some {
                ui.search.line.anchor
            } else {
                Some(ui.search.line.cursor)
            },
        },
        ..ui.search
    })
    &&& step.selection == grid.selection
    &&& step.outcome.handled && is_quiet(step)
    &&& is_of_search(step, ui)
}

/// In a search the cursor keys move through the query, by one character and not over its ends; Home goes
/// to the start and End to the end. With Shift they select.
pub proof fn search_cursor_stays_in_the_query(
    ui: InteractionModel,
    grid: TermGrid,
    clipboard: ClipboardModel,
    now: u64,
)
    requires
        is_searching(ui),
        ui.search.wf(),
    ensures
        ({
            let line = ui.search.line;
            let selecting = ui.modifiers.has_shift();
            let left = interaction::key_step(ui, grid, press(KeyCode::ArrowLeft), clipboard, now);
            let right = interaction::key_step(ui, grid, press(KeyCode::ArrowRight), clipboard, now);
            let home = interaction::key_step(ui, grid, press(KeyCode::Home), clipboard, now);
            let end = interaction::key_step(ui, grid, press(KeyCode::End), clipboard, now);
            &&& line.cursor > 0 ==> moved_to(left, ui, grid, line.cursor - 1, selecting)
            &&& line.cursor == 0 ==> moved_to(left, ui, grid, 0, selecting)
            &&& line.cursor < line.text.len() ==> moved_to(
                right,
                ui,
                grid,
                line.cursor + 1,
                selecting,
            )
            &&& line.cursor == line.text.len() ==> moved_to(right, ui, grid, line.cursor, selecting)
            &&& moved_to(home, ui, grid, 0, selecting)
            &&& moved_to(end, ui, grid, line.text.len() as int, selecting)
        }),
{
    reveal(interaction::key_step);
    reveal(interaction::search_key_step);
}

/// In a search Backspace takes out the selection or the character before the cursor, and Delete the
/// selection or the character behind it; where that changes nothing, nothing is looked for.
pub proof fn search_keys_take_characters_out(
    ui: InteractionModel,
    grid: TermGrid,
    clipboard: ClipboardModel,
    now: u64,
)
    requires
        is_searching(ui),
        ui.search.wf(),
    ensures
        ({
            let line = ui.search.line;
            let back = interaction::key_step(ui, grid, press(KeyCode::Backspace), clipboard, now);
            let delete = interaction::key_step(ui, grid, press(KeyCode::Delete), clipboard, now);
            let selected = line.selection() is Some;
            let none = CopyModel::Nothing;
            &&& selected ==> back == interaction::search_edited(
                ui,
                ui.search.with_line(line.without_selection(), true),
                grid,
                now,
                none,
            ) && delete == back
            &&& !selected && line.cursor > 0 ==> back == interaction::search_edited(
                ui,
                ui.search.with_line(
                    LineModel {
                        text: line.text.remove(line.cursor - 1),
                        cursor: line.cursor - 1,
                        anchor: line.anchor,
                    },
                    true,
                ),
                grid,
                now,
                none,
            )
            &&& !selected && line.cursor < line.text.len() ==> delete == interaction::search_edited(
                ui,
                ui.search.with_line(
                    LineModel {
                        text: line.text.remove(line.cursor),
                        cursor: line.cursor,
                        anchor: line.anchor,
                    },
                    true,
                ),
                grid,
                now,
                none,
            )
            &&& !selected && line.cursor == 0 ==> back.ui.search.line == line
                && back.ui.search.query_revision == ui.search.query_revision
            &&& !selected && line.cursor == line.text.len() ==> delete.ui.search.line == line
                && delete.ui.search.query_revision == ui.search.query_revision
        }),
{
    reveal(interaction::key_step);
    reveal(interaction::search_key_step);
    crate::single_line_input::one_character_is_taken_out(ui.search.line);
}

/// In a search Ctrl with A selects the query, with C copies what is selected, with X copies it and takes
/// it out, and with V puts in the text of the clipboard without its line breaks. Without Ctrl, without
/// anything selected or without a clipboard, these keys do nothing there.
pub proof fn search_keys_cut_and_paste(
    ui: InteractionModel,
    grid: TermGrid,
    clipboard: ClipboardModel,
    now: u64,
)
    requires
        is_searching(ui),
        ui.search.wf(),
    ensures
        ({
            let line = ui.search.line;
            let a = interaction::key_step(ui, grid, press(KeyCode::KeyA), clipboard, now);
            let c = interaction::key_step(ui, grid, press(KeyCode::KeyC), clipboard, now);
            let x = interaction::key_step(ui, grid, press(KeyCode::KeyX), clipboard, now);
            let v = interaction::key_step(ui, grid, press(KeyCode::KeyV), clipboard, now);
            let still = interaction::unchanged(ui, grid, true);
            let pasted = interaction::without_breaks(clipboard.text->0);
            &&& !ui.modifiers.has_control() ==> a == still && c == still && x == still && v == still
            &&& ui.modifiers.has_control() ==> {
                &&& a.ui.search == (SearchModel {
                    line: LineModel {
                        text: line.text,
                        cursor: line.text.len() as int,
                        anchor: Some(0),
                    },
                    ..ui.search
                })
                &&& a.outcome.handled && is_quiet(a) && a.selection == grid.selection
                &&& line.selection() is None || !clipboard.available ==> c == still && x == still
                &&& clipboard.available ==> (line.selection() matches Some((start, end)) ==> {
                    let last = if end < line.text.len() {
                        end
                    } else {
                        line.text.len() as int
                    };
                    let selected = line.text.subrange(start, last);
                    &&& c.outcome.copy == CopyModel::Text(selected)
                    &&& c.ui == ui && c.selection == grid.selection && c.outcome.handled
                        && c.outcome.send is None && c.outcome.jump is None
                    &&& x == interaction::search_edited(
                        ui,
                        ui.search.with_line(line.without_selection(), true),
                        grid,
                        now,
                        CopyModel::Text(selected),
                    )
                })
                &&& clipboard.text is None || !clipboard.available || pasted.len() == 0 ==> v == still
                &&& clipboard.text is Some && clipboard.available && pasted.len() > 0 ==> v
                    == interaction::search_edited(
                    ui,
                    ui.search.with_line(line.with_inserted(pasted), true),
                    grid,
                    now,
                    CopyModel::Nothing,
                )
            }
        }),
{
    reveal(interaction::key_step);
    reveal(interaction::search_key_step);
}

/// A search that takes the keyboard leaves no key that goes down to the terminal but F1 with a modifier
/// key and T with Ctrl alone; without such a search every key is the terminal's.
pub proof fn two_keys_pass_the_search(ui: InteractionModel, code: KeyCode)
    ensures
        interaction::search_takes_key(ui, press(code)) == (is_searching(ui) && !(code is F1 && (
        ui.modifiers.has_shift() || ui.modifiers.has_control() || ui.modifiers.has_alt()
            || ui.modifiers.has_super())) && !(code is KeyT && ui.modifiers.has_control()
            && !ui.modifiers.has_shift() && !ui.modifiers.has_alt() && !ui.modifiers.has_super())),
        !interaction::search_takes_key(
            ui,
            KeyInput { state: KeyState::Released, physical_key: PhysicalKey::Code(code) },
        ),
{
}

/// Without a search a key that goes up does nothing, Ctrl with V sends what the clipboard holds, marked
/// where the terminal asked for it, Ctrl with C copies what is selected or sends the interrupt, and
/// every other key sends its sequence, or is left to others where it has none.
pub proof fn keys_reach_the_terminal(
    ui: InteractionModel,
    grid: TermGrid,
    code: KeyCode,
    clipboard: ClipboardModel,
    now: u64,
)
    requires
        !is_searching(ui),
    ensures
        ({
            let step = interaction::key_step(ui, grid, press(code), clipboard, now);
            let released = KeyInput {
                state: KeyState::Released,
                physical_key: PhysicalKey::Code(code),
            };
            let ctrl = ui.modifiers.has_control();
            let sequence = input::key_sequence(
                PhysicalKey::Code(code),
                ui.modifiers.has_shift(),
                ctrl,
                ui.modifiers.has_alt(),
                grid.app_cursor_keys,
            );
            &&& interaction::key_step(ui, grid, released, clipboard, now) == interaction::unchanged(
                ui,
                grid,
                false,
            )
            &&& step.ui == ui && step.outcome.jump is None && step.outcome.drag is Keep
            &&& ctrl && code is KeyV ==> {
                &&& step.outcome.handled && step.selection == grid.selection
                &&& step.outcome.copy is Nothing
                &&& !clipboard.available ==> step.outcome.send is None
                &&& clipboard.available ==> match input::pasted(
                    clipboard.file_list,
                    clipboard.text,
                ) {
                    Some(payload) => step.outcome.send == Some(
                        input::paste_sequence(payload, grid.bracketed_paste),
                    ),
                    None => step.outcome.send is None,
                }
            }
            &&& ctrl && code is KeyC ==> {
                &&& step.outcome.handled && step.selection is None
                &&& match grid.selection {
                    Some(cells) => step.outcome.copy == CopyModel::Cells(cells)
                        && step.outcome.send is None,
                    None => step.outcome.copy is Nothing && step.outcome.send == Some(seq![3u8]),
                }
            }
            &&& !(ctrl && (code is KeyV || code is KeyC)) ==> {
                &&& step.outcome.send == sequence
                &&& step.outcome.handled == (sequence is Some)
                &&& step.outcome.copy is Nothing && step.selection == grid.selection
            }
        }),
{
    reveal(interaction::key_step);
}

/// Typed text goes to the search where it takes the keyboard and otherwise to the terminal, in UTF-8 and
/// with Alt after an escape; with Ctrl or Super it is not text, and the search takes no line breaks.
pub proof fn typed_text_arrives(ui: InteractionModel, grid: TermGrid, typed: Seq<char>, now: u64)
    ensures
        ({
            let step = interaction::text_step(ui, grid, typed, now);
            let held = ui.modifiers.has_control() || ui.modifiers.has_super();
            let left = interaction::unchanged(ui, grid, false);
            &&& typed.len() == 0 || held ==> step == left
            &&& typed.len() > 0 && !held && is_searching(ui) ==> if typed.contains('\n')
                || typed.contains('\r') {
                step == left
            } else {
                step == interaction::search_edited(
                    ui,
                    ui.search.with_line(ui.search.line.with_inserted(typed), true),
                    grid,
                    now,
                    CopyModel::Nothing,
                )
            }
            &&& typed.len() > 0 && !held && !is_searching(ui) ==> {
                let bytes = encode_utf8(typed);
                &&& step.ui == ui && step.selection == grid.selection
                &&& step.outcome.handled && step.outcome.copy is Nothing && step.outcome.jump is None
                &&& !ui.modifiers.has_alt() ==> step.outcome.send == Some(bytes)
                &&& ui.modifiers.has_alt() ==> step.outcome.send == Some(seq![0x1bu8] + bytes)
            }
        }),
{
    reveal(interaction::text_step);
    only_breaks_are_removed(typed, typed, 'a');
}

/// Text from an input method goes to the search where it takes the keyboard, without its line breaks,
/// and otherwise to the terminal as it is, in UTF-8.
pub proof fn committed_text_arrives(ui: InteractionModel, grid: TermGrid, commit: Seq<char>, now: u64)
    ensures
        ({
            let step = interaction::commit_step(ui, grid, commit, now);
            let clean = interaction::without_breaks(commit);
            &&& is_searching(ui) && clean.len() == 0 ==> step == interaction::unchanged(
                ui,
                grid,
                true,
            )
            &&& is_searching(ui) && clean.len() > 0 ==> step == interaction::search_edited(
                ui,
                ui.search.with_line(ui.search.line.with_inserted(clean), true),
                grid,
                now,
                CopyModel::Nothing,
            )
            &&& !is_searching(ui) && commit.len() == 0 ==> step == interaction::unchanged(
                ui,
                grid,
                false,
            )
            &&& !is_searching(ui) && commit.len() > 0 ==> {
                &&& step.ui == ui && step.selection == grid.selection && step.outcome.handled
                &&& step.outcome.send is Some && decode_utf8(step.outcome.send->0) == commit
                &&& step.outcome.copy is Nothing && step.outcome.jump is None
            }
        }),
{
    reveal(interaction::commit_step);
    encode_utf8_decode_utf8(commit);
}

/// What a step that leaves everything as it is leaves: the interaction, the selection, the clipboard,
/// the terminal and the view.
pub proof fn nothing_changes(ui: InteractionModel, grid: TermGrid, handled: bool)
    ensures
        interaction::unchanged(ui, grid, handled).ui == ui,
        interaction::unchanged(ui, grid, handled).selection == grid.selection,
        interaction::unchanged(ui, grid, handled).outcome.handled == handled,
        is_quiet(interaction::unchanged(ui, grid, handled)),
{
}

/// A change by the user that is scanned scrolls to the active result; one of the rows selects it where
/// the search owns the selection, and never scrolls.
pub proof fn refresh_scrolls_for_the_user(
    search: SearchModel,
    grid: TermGrid,
    cause: SearchRefreshCause,
    now: u64,
)
    ensures
        ({
            let (after, selection, jump) = interaction::search_refreshed(search, grid, cause, now);
            let scanned = search.refreshed(grid, cause, now).0;
            &&& cause is Grid || !scanned ==> jump is None && selection == search.refreshed(
                grid,
                cause,
                now,
            ).2 && after == search.refreshed(grid, cause, now).1
            &&& cause is User && scanned ==> match after.active() {
                Some(found) => jump == Some(interaction::rows_below(grid, found.y)) && selection
                    == Some((found.start_x, found.y, found.end_x, found.y))
                    && after.grid_selection_owned,
                None => jump is None && !after.grid_selection_owned,
            }
        }),
{
}

/// Before any key, no modifier key and no button is held, the pointer is free, nothing is selected and
/// no search is shown.
pub proof fn untouched_is_at_rest()
    ensures
        interaction::untouched().modifiers.0 == 0,
        interaction::untouched().buttons == 0,
        interaction::untouched().capture is Free,
        interaction::untouched().anchor is None,
        !interaction::untouched().search.shown,
{
}

} // verus!
