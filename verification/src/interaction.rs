//! What the keyboard does to the terminal that is shown and to its search.
use vstd::prelude::*;
use vstd::utf8::*;

use crate::bytes;
use crate::input;
use crate::input::{PointerCapture, TerminalCtrlCAction};
use crate::input_types::{KeyCode, KeyInput, Modifiers, PhysicalKey};
use crate::search;
use crate::search::{SearchRefreshCause, TerminalSearchState};
use crate::terminal;
use crate::terminal::TermGrid;
use crate::text;

pub mod laws;

verus! {

/// What is asked of the clipboard.
#[derive(Debug, PartialEq, Eq)]
pub enum CopyRequest {
    /// Nothing.
    Nothing,
    /// To hold a text.
    Text(String),
    /// To hold the text of these cells of the terminal, where there is any.
    Cells((usize, usize, usize, usize)),
}

/// The contents of a request to the clipboard.
pub enum CopyModel {
    Nothing,
    Text(Seq<char>),
    Cells((usize, usize, usize, usize)),
}

impl View for CopyRequest {
    type V = CopyModel;

    open spec fn view(&self) -> CopyModel {
        match self {
            CopyRequest::Nothing => CopyModel::Nothing,
            CopyRequest::Text(text) => CopyModel::Text(text@),
            CopyRequest::Cells(cells) => CopyModel::Cells(*cells),
        }
    }
}

/// What becomes of a drag of the scrollbar.
#[derive(Clone, Copy, Debug, PartialEq, Eq, Structural)]
pub enum ScrollDrag {
    /// It stays as it is.
    Keep,
    /// It starts, and the view goes with it.
    Start,
    /// The view goes on with it.
    Move,
    /// It ends.
    End,
}

/// What an event came to, and what is left to do for it outside the terminal's state.
#[derive(Debug, PartialEq, Eq)]
pub struct Outcome {
    /// Whether the event was taken.
    pub handled: bool,
    /// The bytes to send to the terminal.
    pub send: Option<Vec<u8>>,
    /// What is asked of the clipboard.
    pub copy: CopyRequest,
    /// The rows below the one to scroll to.
    pub jump: Option<usize>,
    /// What becomes of a drag of the scrollbar.
    pub drag: ScrollDrag,
}

/// The contents of an outcome.
pub struct OutcomeModel {
    pub handled: bool,
    pub send: Option<Seq<u8>>,
    pub copy: CopyModel,
    pub jump: Option<int>,
    pub drag: ScrollDrag,
}

/// The contents of optional bytes.
pub open spec fn bytes_view(send: Option<Vec<u8>>) -> Option<Seq<u8>> {
    match send {
        Some(send) => Some(send@),
        None => None,
    }
}

impl View for Outcome {
    type V = OutcomeModel;

    open spec fn view(&self) -> OutcomeModel {
        OutcomeModel {
            handled: self.handled,
            send: bytes_view(self.send),
            copy: self.copy@,
            jump: search::index_view(self.jump),
            drag: self.drag,
        }
    }
}

/// An outcome that leaves nothing to do.
pub open spec fn only(handled: bool) -> OutcomeModel {
    OutcomeModel {
        handled,
        send: None,
        copy: CopyModel::Nothing,
        jump: None,
        drag: ScrollDrag::Keep,
    }
}

impl Outcome {
    /// An outcome that leaves nothing to do.
    pub fn only(handled: bool) -> (outcome: Self)
        ensures
            outcome@ == only(handled),
    {
        Outcome {
            handled,
            send: None,
            copy: CopyRequest::Nothing,
            jump: None,
            drag: ScrollDrag::Keep,
        }
    }

    /// An event that was taken, with bytes to send.
    pub fn sending(bytes: Vec<u8>) -> (outcome: Self)
        ensures
            outcome@ == (OutcomeModel { send: Some(bytes@), ..only(true) }),
    {
        Outcome {
            handled: true,
            send: Some(bytes),
            copy: CopyRequest::Nothing,
            jump: None,
            drag: ScrollDrag::Keep,
        }
    }

    /// An event that was taken, with a row to scroll to where there is one.
    pub fn jumping(jump: Option<usize>) -> (outcome: Self)
        ensures
            outcome@ == (OutcomeModel { jump: search::index_view(jump), ..only(true) }),
    {
        Outcome {
            handled: true,
            send: None,
            copy: CopyRequest::Nothing,
            jump,
            drag: ScrollDrag::Keep,
        }
    }
}

/// What the clipboard holds, as far as it was read.
pub struct ClipboardContents {
    /// Whether there is a clipboard.
    pub available: bool,
    /// The files that it holds.
    pub file_list: Option<Vec<Vec<u8>>>,
    /// The text that it holds.
    pub text: Option<String>,
}

/// The contents of what was read of the clipboard.
pub struct ClipboardModel {
    pub available: bool,
    pub file_list: Option<Seq<Seq<u8>>>,
    pub text: Option<Seq<char>>,
}

impl View for ClipboardContents {
    type V = ClipboardModel;

    open spec fn view(&self) -> ClipboardModel {
        ClipboardModel {
            available: self.available,
            file_list: match self.file_list {
                Some(files) => Some(bytes::views(files@)),
                None => None,
            },
            text: match self.text {
                Some(text) => Some(text@),
                None => None,
            },
        }
    }
}

/// What the keyboard and the pointer have done so far.
pub struct TerminalInteraction {
    /// The search of the terminal.
    pub search: TerminalSearchState,
    /// The modifier keys that are held.
    pub modifiers: Modifiers,
    /// The pointer buttons that are held.
    pub pressed_mouse_buttons: u8,
    /// What the pointer holds on to.
    pub pointer_capture: PointerCapture,
    /// The cell that the selection started at.
    pub terminal_selection_anchor: Option<(usize, usize)>,
}

/// The contents of an interaction.
pub struct InteractionModel {
    pub search: search::SearchModel,
    pub modifiers: Modifiers,
    pub buttons: u8,
    pub capture: PointerCapture,
    pub anchor: Option<(usize, usize)>,
}

impl View for TerminalInteraction {
    type V = InteractionModel;

    open spec fn view(&self) -> InteractionModel {
        InteractionModel {
            search: self.search@,
            modifiers: self.modifiers,
            buttons: self.pressed_mouse_buttons,
            capture: self.pointer_capture,
            anchor: self.terminal_selection_anchor,
        }
    }
}

/// The cells that are selected in a terminal.
pub type Selection = Option<(usize, usize, usize, usize)>;

/// The interaction, the selection of the terminal and what is left to do after an event.
pub struct Step {
    pub ui: InteractionModel,
    pub selection: Selection,
    pub outcome: OutcomeModel,
}

/// The rows below a row of the terminal.
pub open spec fn rows_below(grid: TermGrid, y: usize) -> int {
    let total = terminal::all_rows(grid).len();
    if y + 1 < total {
        total - 1 - y
    } else {
        0
    }
}

/// The search, the selection and the row to scroll to when the active result is shown.
pub open spec fn jumped(search: search::SearchModel, grid: TermGrid) -> (
    search::SearchModel,
    Selection,
    Option<int>,
) {
    let (after, selection) = search.selecting(grid.selection);
    (
        after,
        selection,
        match search.active() {
            Some(found) => Some(rows_below(grid, found.y)),
            None => None,
        },
    )
}

/// The search, the selection and the row to scroll to when the search is brought up to date. Only a
/// change by the user scrolls.
pub open spec fn search_refreshed(
    search: search::SearchModel,
    grid: TermGrid,
    cause: SearchRefreshCause,
    now: u64,
) -> (search::SearchModel, Selection, Option<int>) {
    let (changed, after, selection) = search.refreshed(grid, cause, now);
    if changed && cause is User {
        jumped(after, TermGrid { selection, ..grid })
    } else {
        (after, selection, None)
    }
}

/// Whether a refresh of the search scrolls to its active result.
pub fn search_refresh_should_jump(changed: bool, cause: SearchRefreshCause) -> (jump: bool)
    ensures
        jump == (changed && cause is User),
{
    match cause {
        SearchRefreshCause::User => changed,
        SearchRefreshCause::Grid => false,
    }
}

/// Whether the search takes the keyboard.
pub fn search_owns_keyboard(search: &TerminalSearchState) -> (owns: bool)
    ensures
        owns == (search@.shown && search@.focused),
{
    search.shown && search.focused
}

/// Whether a key goes to the terminal though the search takes the keyboard: F1 with a modifier, and T
/// with Ctrl alone.
pub open spec fn falls_through(search: search::SearchModel, key: PhysicalKey, modifiers: Modifiers) -> bool {
    search.shown && search.focused && match key {
        PhysicalKey::Code(KeyCode::F1) => modifiers.has_control() || modifiers.has_shift()
            || modifiers.has_alt() || modifiers.has_super(),
        PhysicalKey::Code(KeyCode::KeyT) => modifiers.has_control() && !modifiers.has_shift()
            && !modifiers.has_alt() && !modifiers.has_super(),
        _ => false,
    }
}

/// Whether a key goes to the terminal though the search takes the keyboard.
pub fn search_key_falls_through_to_terminal(
    search: &TerminalSearchState,
    physical_key: PhysicalKey,
    modifiers: Modifiers,
) -> (falls: bool)
    ensures
        falls == falls_through(search@, physical_key, modifiers),
{
    if !search_owns_keyboard(search) {
        return false;
    }
    let ctrl = modifiers.control_key();
    let shift = modifiers.shift_key();
    let alt = modifiers.alt_key();
    let super_key = modifiers.super_key();
    match physical_key {
        PhysicalKey::Code(KeyCode::F1) => ctrl || shift || alt || super_key,
        PhysicalKey::Code(KeyCode::KeyT) => ctrl && !shift && !alt && !super_key,
        _ => false,
    }
}

/// A text without its line breaks.
pub open spec fn without_breaks(chars: Seq<char>) -> Seq<char>
    decreases chars.len(),
{
    if chars.len() == 0 {
        Seq::empty()
    } else if chars.last() == '\r' || chars.last() == '\n' {
        without_breaks(chars.drop_last())
    } else {
        without_breaks(chars.drop_last()).push(chars.last())
    }
}

/// Whether a text holds a line break.
pub open spec fn has_break(chars: Seq<char>) -> bool {
    exists|i: int| 0 <= i < chars.len() && ((#[trigger] chars[i]) == '\r' || chars[i] == '\n')
}

/// A text without its line breaks.
pub fn remove_breaks(text: &str) -> (clean: String)
    ensures
        clean@ == without_breaks(text@),
{
    let chars = text::chars_of(text);
    let mut clean = String::new();
    let mut i: usize = 0;
    assert(clean@ =~= without_breaks(chars@.take(0)));
    while i < chars.len()
        invariant
            i <= chars@.len(),
            clean@ == without_breaks(chars@.take(i as int)),
        decreases chars@.len() - i,
    {
        assert(chars@.take(i + 1).drop_last() =~= chars@.take(i as int));
        let c = chars[i];
        if c != '\r' && c != '\n' {
            clean.push(c);
        }
        i += 1;
    }
    assert(chars@.take(i as int) =~= chars@);
    clean
}

/// Whether a text holds a line break.
fn contains_break(text: &str) -> (found: bool)
    ensures
        found == has_break(text@),
{
    let chars = text::chars_of(text);
    let mut i: usize = 0;
    while i < chars.len()
        invariant
            i <= chars@.len(),
            chars@ == text@,
            forall|j: int| 0 <= j < i ==> (#[trigger] chars@[j]) != '\r' && chars@[j] != '\n',
        decreases chars@.len() - i,
    {
        let c = chars[i];
        if c == '\r' || c == '\n' {
            assert(text@[i as int] == c);
            return true;
        }
        i += 1;
    }
    false
}

/// A step that leaves everything as it is.
pub open spec fn unchanged(ui: InteractionModel, grid: TermGrid, handled: bool) -> Step {
    Step { ui, selection: grid.selection, outcome: only(handled) }
}

/// The step in which the search is closed, and the selection with it.
pub open spec fn search_closed(ui: InteractionModel) -> Step {
    Step {
        ui: InteractionModel { search: ui.search.closed(), ..ui },
        selection: None,
        outcome: only(true),
    }
}

/// The step in which a search goes to its active result.
pub open spec fn search_jump(
    ui: InteractionModel,
    search: search::SearchModel,
    grid: TermGrid,
) -> Step {
    let (after, selection, jump) = jumped(search, grid);
    Step {
        ui: InteractionModel { search: after, ..ui },
        selection,
        outcome: OutcomeModel { jump, ..only(true) },
    }
}

/// The step in which the query of a search was edited.
pub open spec fn search_edited(
    ui: InteractionModel,
    search: search::SearchModel,
    grid: TermGrid,
    now: u64,
    copy: CopyModel,
) -> Step {
    let (after, selection, jump) = search_refreshed(search, grid, SearchRefreshCause::User, now);
    Step {
        ui: InteractionModel { search: after, ..ui },
        selection,
        outcome: OutcomeModel { jump, copy, ..only(true) },
    }
}

/// The step in which a search changes in itself alone.
pub open spec fn search_step(
    ui: InteractionModel,
    search: search::SearchModel,
    grid: TermGrid,
    copy: CopyModel,
) -> Step {
    Step {
        ui: InteractionModel { search, ..ui },
        selection: grid.selection,
        outcome: OutcomeModel { copy, ..only(true) },
    }
}

/// The selected part of a query.
pub open spec fn selected_query(search: search::SearchModel) -> Option<Seq<char>> {
    match search.line.selection() {
        Some((start, end)) => Some(search.line.text.subrange(start, search.line.clamped(end))),
        None => None,
    }
}

/// What the keys do that close the search or go from result to result.
pub open spec fn search_result_step(ui: InteractionModel, grid: TermGrid, code: KeyCode) -> Step {
    match code {
        KeyCode::Escape => search_closed(ui),
        KeyCode::ArrowUp => search_jump(ui, ui.search.stepped_previous(), grid),
        KeyCode::Enter if ui.modifiers.has_shift() => search_jump(
            ui,
            ui.search.stepped_previous(),
            grid,
        ),
        _ => search_jump(ui, ui.search.stepped_next(), grid),
    }
}

/// What the keys do that move the cursor of the query; with Shift they select.
pub open spec fn search_cursor_step(ui: InteractionModel, grid: TermGrid, code: KeyCode) -> Step {
    let line = ui.search.line;
    let cursor = match code {
        KeyCode::ArrowLeft => if line.cursor > 0 {
            line.cursor - 1
        } else {
            0
        },
        KeyCode::ArrowRight => line.cursor + 1,
        KeyCode::Home => 0,
        _ => line.text.len() as int,
    };
    search_step(
        ui,
        ui.search.with_line(line.with_cursor(cursor, ui.modifiers.has_shift()), false),
        grid,
        CopyModel::Nothing,
    )
}

/// What the keys do, held with Ctrl, that select, copy, cut and paste.
pub open spec fn search_clipboard_step(
    ui: InteractionModel,
    grid: TermGrid,
    code: KeyCode,
    clipboard: ClipboardModel,
    now: u64,
) -> Step {
    let search = ui.search;
    let line = search.line;
    if !ui.modifiers.has_control() {
        unchanged(ui, grid, true)
    } else {
        match code {
            KeyCode::KeyA => search_step(
                ui,
                search.with_line(line.all_selected(), false),
                grid,
                CopyModel::Nothing,
            ),
            KeyCode::KeyC => match selected_query(search) {
                Some(selected) if clipboard.available => search_step(
                    ui,
                    search,
                    grid,
                    CopyModel::Text(selected),
                ),
                _ => unchanged(ui, grid, true),
            },
            KeyCode::KeyX => match selected_query(search) {
                Some(selected) if clipboard.available => search_edited(
                    ui,
                    search.with_line(line.without_selection(), true),
                    grid,
                    now,
                    CopyModel::Text(selected),
                ),
                _ => unchanged(ui, grid, true),
            },
            _ => match clipboard.text {
                Some(pasted) if clipboard.available && without_breaks(pasted).len() > 0 =>
                search_edited(
                    ui,
                    search.with_line(line.with_inserted(without_breaks(pasted)), true),
                    grid,
                    now,
                    CopyModel::Nothing,
                ),
                _ => unchanged(ui, grid, true),
            },
        }
    }
}

/// What a key does to a search that takes the keyboard.
pub open spec fn search_key(
    ui: InteractionModel,
    grid: TermGrid,
    code: KeyCode,
    clipboard: ClipboardModel,
    now: u64,
) -> Step {
    let search = ui.search;
    let line = search.line;
    match code {
        KeyCode::Escape | KeyCode::Enter | KeyCode::ArrowUp | KeyCode::ArrowDown =>
        search_result_step(ui, grid, code),
        KeyCode::ArrowLeft | KeyCode::ArrowRight | KeyCode::Home | KeyCode::End =>
        search_cursor_step(ui, grid, code),
        KeyCode::Backspace => search_edited(
            ui,
            search.with_line(line.after_backspace(), line.selection() is Some || line.cursor > 0),
            grid,
            now,
            CopyModel::Nothing,
        ),
        KeyCode::Delete => search_edited(
            ui,
            search.with_line(
                line.after_delete(),
                line.selection() is Some || line.cursor < line.text.len(),
            ),
            grid,
            now,
            CopyModel::Nothing,
        ),
        KeyCode::KeyA | KeyCode::KeyC | KeyCode::KeyX | KeyCode::KeyV => search_clipboard_step(
            ui,
            grid,
            code,
            clipboard,
            now,
        ),
        _ => unchanged(ui, grid, true),
    }
}

/// Whether the search takes a key: it takes the keyboard, and the key went down and does not fall
/// through to the terminal.
pub open spec fn search_takes_key(ui: InteractionModel, key: KeyInput) -> bool {
    &&& ui.search.shown && ui.search.focused
    &&& key.state is Pressed
    &&& !falls_through(ui.search, key.physical_key, ui.modifiers)
}

/// What a key does to the search, where the search takes it.
#[verifier::opaque]
pub open spec fn search_key_step(
    ui: InteractionModel,
    grid: TermGrid,
    key: KeyInput,
    clipboard: ClipboardModel,
    now: u64,
) -> Step {
    if !search_takes_key(ui, key) {
        unchanged(ui, grid, false)
    } else {
        match key.physical_key {
            PhysicalKey::Code(code) => search_key(ui, grid, code, clipboard, now),
            PhysicalKey::Unidentified => unchanged(ui, grid, true),
        }
    }
}

/// What a key does to the terminal and its search.
#[verifier::opaque]
pub open spec fn key_step(
    ui: InteractionModel,
    grid: TermGrid,
    key: KeyInput,
    clipboard: ClipboardModel,
    now: u64,
) -> Step {
    let ctrl = ui.modifiers.has_control();
    if search_takes_key(ui, key) {
        search_key_step(ui, grid, key, clipboard, now)
    } else if !(key.state is Pressed) {
        unchanged(ui, grid, false)
    } else if ctrl && key.physical_key == PhysicalKey::Code(KeyCode::KeyV) {
        Step {
            ui,
            selection: grid.selection,
            outcome: OutcomeModel {
                send: if clipboard.available {
                    match input::pasted(clipboard.file_list, clipboard.text) {
                        Some(payload) => Some(input::paste_sequence(payload, grid.bracketed_paste)),
                        None => None,
                    }
                } else {
                    None
                },
                ..only(true)
            },
        }
    } else if ctrl && key.physical_key == PhysicalKey::Code(KeyCode::KeyC) {
        match grid.selection {
            Some(cells) => Step {
                ui,
                selection: None,
                outcome: OutcomeModel { copy: CopyModel::Cells(cells), ..only(true) },
            },
            None => Step {
                ui,
                selection: None,
                outcome: OutcomeModel { send: Some(seq![0x03u8]), ..only(true) },
            },
        }
    } else {
        match input::key_sequence(
            key.physical_key,
            ui.modifiers.has_shift(),
            ctrl,
            ui.modifiers.has_alt(),
            grid.app_cursor_keys,
        ) {
            Some(sequence) => Step {
                ui,
                selection: grid.selection,
                outcome: OutcomeModel { send: Some(sequence), ..only(true) },
            },
            None => unchanged(ui, grid, false),
        }
    }
}

/// What text from an input method does.
#[verifier::opaque]
pub open spec fn commit_step(ui: InteractionModel, grid: TermGrid, commit: Seq<char>, now: u64) -> Step {
    if ui.search.shown && ui.search.focused {
        if without_breaks(commit).len() > 0 {
            search_edited(
                ui,
                ui.search.with_line(ui.search.line.with_inserted(without_breaks(commit)), true),
                grid,
                now,
                CopyModel::Nothing,
            )
        } else {
            unchanged(ui, grid, true)
        }
    } else if commit.len() > 0 {
        Step {
            ui,
            selection: grid.selection,
            outcome: OutcomeModel { send: Some(encode_utf8(commit)), ..only(true) },
        }
    } else {
        unchanged(ui, grid, false)
    }
}

/// What typed text does.
#[verifier::opaque]
pub open spec fn text_step(ui: InteractionModel, grid: TermGrid, typed: Seq<char>, now: u64) -> Step {
    let ctrl = ui.modifiers.has_control();
    let super_key = ui.modifiers.has_super();
    if typed.len() == 0 || ctrl || super_key {
        unchanged(ui, grid, false)
    } else if ui.search.shown && ui.search.focused {
        if has_break(typed) {
            unchanged(ui, grid, false)
        } else {
            search_edited(
                ui,
                ui.search.with_line(ui.search.line.with_inserted(typed), true),
                grid,
                now,
                CopyModel::Nothing,
            )
        }
    } else {
        Step {
            ui,
            selection: grid.selection,
            outcome: OutcomeModel {
                send: Some(input::alt_prefixed(encode_utf8(typed), ui.modifiers.has_alt())),
                ..only(true)
            },
        }
    }
}

/// The state before any key, button or search.
pub open spec fn untouched() -> InteractionModel {
    InteractionModel {
        search: search::unopened(),
        modifiers: Modifiers(0),
        buttons: 0,
        capture: PointerCapture::Free,
        anchor: None,
    }
}

impl Default for TerminalInteraction {
    fn default() -> (interaction: Self)
        ensures
            interaction@ == untouched(),
            interaction@.search.wf(),
    {
        TerminalInteraction {
            search: TerminalSearchState::default(),
            modifiers: Modifiers::empty(),
            pressed_mouse_buttons: 0,
            pointer_capture: PointerCapture::Free,
            terminal_selection_anchor: None,
        }
    }
}

impl TerminalInteraction {
    /// Notes the modifier keys that are held.
    pub fn set_modifiers(&mut self, modifiers: Modifiers)
        ensures
            final(self)@ == (InteractionModel { modifiers, ..old(self)@ }),
    {
        self.modifiers = modifiers;
    }

    /// Selects the active result in the terminal. The rows below it, where there is one.
    pub(crate) fn jump_to_search_match(&mut self, grid: &mut TermGrid) -> (jump: Option<usize>)
        requires
            old(grid).wf(),
        ensures
            ({
                let (after, selection, rows) = jumped(old(self)@.search, *old(grid));
                &&& final(self)@ == (InteractionModel { search: after, ..old(self)@ })
                &&& final(grid).selection == selection
                &&& search::index_view(jump) == rows
            }),
            *final(grid) == (TermGrid { selection: final(grid).selection, ..*old(grid) }),
    {
        match self.search.set_active_grid_selection(grid) {
            Some(found) => {
                let total_lines: usize = grid.total_lines();
                Some(total_lines.saturating_sub(1).saturating_sub(found.y))
            },
            None => None,
        }
    }

    /// Brings the search up to date with the rows, at the time `now` in microseconds. The rows below
    /// the one to scroll to, where there is one.
    pub fn refresh_search(&mut self, grid: &mut TermGrid, cause: SearchRefreshCause, now: u64) -> (jump:
        Option<usize>)
        requires
            old(self)@.search.wf(),
            old(grid).wf(),
        ensures
            ({
                let (after, selection, rows) = search_refreshed(
                    old(self)@.search,
                    *old(grid),
                    cause,
                    now,
                );
                &&& final(self)@ == (InteractionModel { search: after, ..old(self)@ })
                &&& final(grid).selection == selection
                &&& search::index_view(jump) == rows
            }),
            *final(grid) == (TermGrid { selection: final(grid).selection, ..*old(grid) }),
            final(self)@.search.wf(),
    {
        let changed = self.search.refresh_for_grid_at(grid, cause, now);
        if search_refresh_should_jump(changed, cause) {
            self.jump_to_search_match(grid)
        } else {
            None
        }
    }

    /// Brings the search up to date with the rows before they are drawn, where it is shown.
    pub fn prepare_search_for_render(&mut self, grid: &mut TermGrid, now: u64)
        requires
            old(self)@.search.wf(),
            old(grid).wf(),
        ensures
            if old(self)@.search.shown {
                let (_, after, selection) = old(self)@.search.refreshed(
                    *old(grid),
                    SearchRefreshCause::Grid,
                    now,
                );
                &&& final(self)@ == (InteractionModel { search: after, ..old(self)@ })
                &&& *final(grid) == (TermGrid { selection, ..*old(grid) })
            } else {
                &&& final(self)@ == old(self)@
                &&& *final(grid) == *old(grid)
            },
            final(self)@.search.wf(),
    {
        if self.search.shown {
            self.search.refresh_for_grid_at(grid, SearchRefreshCause::Grid, now);
        }
    }

    /// Shows the search with its query selected, and looks for its results.
    pub fn open_search(&mut self, grid: &mut TermGrid, now: u64) -> (jump: Option<usize>)
        requires
            old(self)@.search.wf(),
            old(grid).wf(),
        ensures
            ({
                let opened = old(self)@.search.opened();
                let (after, selection, rows) = search_refreshed(
                    opened.with_line(opened.line.all_selected(), false),
                    *old(grid),
                    SearchRefreshCause::User,
                    now,
                );
                &&& final(self)@ == (InteractionModel { search: after, ..old(self)@ })
                &&& final(grid).selection == selection
                &&& search::index_view(jump) == rows
            }),
            *final(grid) == (TermGrid { selection: final(grid).selection, ..*old(grid) }),
            final(self)@.search.wf(),
    {
        self.search.open();
        self.search.select_all();
        self.refresh_search(grid, SearchRefreshCause::User, now)
    }

    /// Puts the search away, and the selection with it.
    pub(crate) fn close_search(&mut self, grid: &mut TermGrid)
        ensures
            final(self)@ == search_closed(old(self)@).ui,
            *final(grid) == (TermGrid { selection: None, ..*old(grid) }),
    {
        self.search.close();
        grid.selection = None;
    }

    /// The outcome after the query was edited.
    fn edited(&mut self, grid: &mut TermGrid, now: u64, copy: CopyRequest) -> (outcome: Outcome)
        requires
            old(self)@.search.wf(),
            old(grid).wf(),
        ensures
            ({
                let step = search_edited(
                    old(self)@,
                    old(self)@.search,
                    *old(grid),
                    now,
                    copy@,
                );
                &&& final(self)@ == step.ui
                &&& final(grid).selection == step.selection
                &&& outcome@ == step.outcome
            }),
            *final(grid) == (TermGrid { selection: final(grid).selection, ..*old(grid) }),
            final(self)@.search.wf(),
    {
        let jump = self.refresh_search(grid, SearchRefreshCause::User, now);
        Outcome { handled: true, send: None, copy, jump, drag: ScrollDrag::Keep }
    }

    /// The keys that close the search or go from result to result.
    fn search_result_key(
        &mut self,
        code: KeyCode,
        grid: &mut TermGrid,
    ) -> (outcome: Outcome)
        requires
            old(self)@.search.wf(),
            old(grid).wf(),
            code is Escape || code is Enter || code is ArrowUp || code is ArrowDown,
        ensures
            ({
                let step = search_result_step(old(self)@, *old(grid), code);
                &&& final(self)@ == step.ui
                &&& final(grid).selection == step.selection
                &&& outcome@ == step.outcome
            }),
            *final(grid) == (TermGrid { selection: final(grid).selection, ..*old(grid) }),
            final(self)@.search.wf(),
    {
        if code == KeyCode::Escape {
            self.close_search(grid);
            return Outcome::only(true);
        }
        let shift = self.modifiers.shift_key();
        if code == KeyCode::ArrowUp || (code == KeyCode::Enter && shift) {
            self.search.previous();
        } else {
            self.search.next();
        }
        let jump = self.jump_to_search_match(grid);
        Outcome::jumping(jump)
    }

    /// The keys that move the cursor of the query.
    fn search_cursor_key(
        &mut self,
        code: KeyCode,
        grid: &mut TermGrid,
    ) -> (outcome: Outcome)
        requires
            old(self)@.search.wf(),
            old(grid).wf(),
            code is ArrowLeft || code is ArrowRight || code is Home || code is End,
        ensures
            ({
                let step = search_cursor_step(old(self)@, *old(grid), code);
                &&& final(self)@ == step.ui
                &&& final(grid).selection == step.selection
                &&& outcome@ == step.outcome
            }),
            *final(grid) == (TermGrid { selection: final(grid).selection, ..*old(grid) }),
            final(self)@.search.wf(),
    {
        let shift = self.modifiers.shift_key();
        match code {
            KeyCode::ArrowLeft => {
                self.search.move_left(shift);
            },
            KeyCode::ArrowRight => {
                self.search.move_right(shift);
            },
            KeyCode::Home => {
                self.search.move_cursor(0, shift);
            },
            _ => {
                let end: usize = self.search.input.char_count();
                self.search.move_cursor(end, shift);
            },
        }
        Outcome::only(true)
    }

    /// The keys that select, copy, cut and paste, with Ctrl.
    fn search_clipboard_key(
        &mut self,
        code: KeyCode,
        grid: &mut TermGrid,
        clipboard: &ClipboardContents,
        now: u64,
    ) -> (outcome: Outcome)
        requires
            old(self)@.search.wf(),
            old(grid).wf(),
            code is KeyA || code is KeyC || code is KeyX || code is KeyV,
        ensures
            ({
                let step = search_clipboard_step(old(self)@, *old(grid), code, clipboard@, now);
                &&& final(self)@ == step.ui
                &&& final(grid).selection == step.selection
                &&& outcome@ == step.outcome
            }),
            *final(grid) == (TermGrid { selection: final(grid).selection, ..*old(grid) }),
            final(self)@.search.wf(),
    {
        if !self.modifiers.control_key() {
            return Outcome::only(true);
        }
        match code {
            KeyCode::KeyA => {
                self.search.select_all();
                Outcome::only(true)
            },
            KeyCode::KeyC => {
                let mut outcome = Outcome::only(true);
                if clipboard.available {
                    if let Some(selected) = self.search.selected_text() {
                        outcome.copy = CopyRequest::Text(selected);
                    }
                }
                outcome
            },
            KeyCode::KeyX => {
                if clipboard.available {
                    if let Some(selected) = self.search.selected_text() {
                        self.search.insert_text("");
                        proof {
                            reveal_strlit("");
                        }
                        return self.edited(grid, now, CopyRequest::Text(selected));
                    }
                }
                Outcome::only(true)
            },
            _ => {
                if clipboard.available {
                    if let Some(pasted) = &clipboard.text {
                        let clean = remove_breaks(pasted.as_str());
                        if !clean.as_str().is_empty() {
                            self.search.insert_text(clean.as_str());
                            return self.edited(grid, now, CopyRequest::Nothing);
                        }
                    }
                }
                Outcome::only(true)
            },
        }
    }

    /// Gives a key to the search, where the search takes it.
    pub fn handle_search_key(
        &mut self,
        key_event: &KeyInput,
        grid: &mut TermGrid,
        clipboard: &ClipboardContents,
        now: u64,
    ) -> (outcome: Outcome)
        requires
            old(self)@.search.wf(),
            old(grid).wf(),
        ensures
            ({
                let step = search_key_step(old(self)@, *old(grid), *key_event, clipboard@, now);
                &&& final(self)@ == step.ui
                &&& final(grid).selection == step.selection
                &&& outcome@ == step.outcome
            }),
            *final(grid) == (TermGrid { selection: final(grid).selection, ..*old(grid) }),
            final(self)@.search.wf(),
    {
        reveal(search_key_step);
        if !search_owns_keyboard(&self.search) || !key_event.state.is_pressed() {
            return Outcome::only(false);
        }
        if search_key_falls_through_to_terminal(
            &self.search,
            key_event.physical_key,
            self.modifiers,
        ) {
            return Outcome::only(false);
        }
        let code = match key_event.physical_key {
            PhysicalKey::Code(code) => code,
            PhysicalKey::Unidentified => {
                return Outcome::only(true);
            },
        };
        match code {
            KeyCode::Escape | KeyCode::Enter | KeyCode::ArrowUp | KeyCode::ArrowDown => {
                self.search_result_key(code, grid)
            },
            KeyCode::ArrowLeft | KeyCode::ArrowRight | KeyCode::Home | KeyCode::End => {
                self.search_cursor_key(code, grid)
            },
            KeyCode::Backspace => {
                self.search.backspace();
                self.edited(grid, now, CopyRequest::Nothing)
            },
            KeyCode::Delete => {
                self.search.delete_forward();
                self.edited(grid, now, CopyRequest::Nothing)
            },
            KeyCode::KeyA | KeyCode::KeyC | KeyCode::KeyX | KeyCode::KeyV => {
                self.search_clipboard_key(code, grid, clipboard, now)
            },
            _ => Outcome::only(true),
        }
    }

    /// Gives text from an input method to the search or to the terminal.
    pub fn handle_ime_commit(&mut self, commit: &str, grid: &mut TermGrid, now: u64) -> (outcome:
        Outcome)
        requires
            old(self)@.search.wf(),
            old(grid).wf(),
        ensures
            ({
                let step = commit_step(old(self)@, *old(grid), commit@, now);
                &&& final(self)@ == step.ui
                &&& final(grid).selection == step.selection
                &&& outcome@ == step.outcome
            }),
            *final(grid) == (TermGrid { selection: final(grid).selection, ..*old(grid) }),
            final(self)@.search.wf(),
    {
        reveal(commit_step);
        if search_owns_keyboard(&self.search) {
            let clean = remove_breaks(commit);
            if !clean.as_str().is_empty() {
                self.search.insert_text(clean.as_str());
                return self.edited(grid, now, CopyRequest::Nothing);
            }
            return Outcome::only(true);
        }
        if !commit.is_empty() {
            return Outcome::sending(bytes::copy(commit.as_bytes()));
        }
        Outcome::only(false)
    }

    /// Whether a key pastes, so that the clipboard is to be read for it.
    pub fn pastes(&self, key_event: &KeyInput) -> (pastes: bool)
        ensures
            pastes == (key_event.state is Pressed && self@.modifiers.has_control()
                && key_event.physical_key == PhysicalKey::Code(KeyCode::KeyV)),
    {
        let is_v = match key_event.physical_key {
            PhysicalKey::Code(KeyCode::KeyV) => true,
            _ => false,
        };
        key_event.state.is_pressed() && self.modifiers.control_key() && is_v
    }

    /// Gives a key to the search or to the terminal.
    pub fn handle_key_event(
        &mut self,
        key_event: &KeyInput,
        grid: &mut TermGrid,
        clipboard: &ClipboardContents,
        now: u64,
    ) -> (outcome: Outcome)
        requires
            old(self)@.search.wf(),
            old(grid).wf(),
        ensures
            ({
                let step = key_step(old(self)@, *old(grid), *key_event, clipboard@, now);
                &&& final(self)@ == step.ui
                &&& final(grid).selection == step.selection
                &&& outcome@ == step.outcome
            }),
            *final(grid) == (TermGrid { selection: final(grid).selection, ..*old(grid) }),
            final(self)@.search.wf(),
    {
        reveal(key_step);
        reveal(search_key_step);
        let searched = self.handle_search_key(key_event, grid, clipboard, now);
        if searched.handled {
            return searched;
        }
        if !key_event.state.is_pressed() {
            return Outcome::only(false);
        }
        let ctrl = self.modifiers.control_key();
        let shift = self.modifiers.shift_key();
        let alt = self.modifiers.alt_key();
        if self.pastes(key_event) {
            let mut outcome = Outcome::only(true);
            if clipboard.available {
                let paste = input::terminal_clipboard_paste_bytes(
                    clipboard.file_list.as_ref(),
                    match &clipboard.text {
                        Some(pasted) => Some(pasted.as_str()),
                        None => None,
                    },
                );
                if let Some(payload) = paste {
                    outcome.send = Some(
                        input::terminal_bracketed_paste_bytes(payload, grid.bracketed_paste),
                    );
                }
            }
            return outcome;
        }
        let is_c = match key_event.physical_key {
            PhysicalKey::Code(KeyCode::KeyC) => true,
            _ => false,
        };
        if ctrl && is_c {
            match input::terminal_ctrl_c_action(grid.selection.is_some()) {
                TerminalCtrlCAction::CopySelection => {
                    let mut outcome = Outcome::only(true);
                    if let Some(cells) = grid.selection {
                        outcome.copy = CopyRequest::Cells(cells);
                    }
                    grid.selection = None;
                    return outcome;
                },
                TerminalCtrlCAction::SendInterrupt => {
                    let mut interrupt: Vec<u8> = Vec::new();
                    interrupt.push(0x03);
                    assert(interrupt@ =~= seq![0x03u8]);
                    return Outcome::sending(interrupt);
                },
            }
        }
        match input::terminal_key_sequence(
            key_event.physical_key,
            shift,
            ctrl,
            alt,
            grid.app_cursor_keys,
        ) {
            Some(sequence) => Outcome::sending(sequence),
            None => Outcome::only(false),
        }
    }

    /// Gives typed text to the search or to the terminal.
    pub fn handle_text(&mut self, typed: &str, grid: &mut TermGrid, now: u64) -> (outcome: Outcome)
        requires
            old(self)@.search.wf(),
            old(grid).wf(),
        ensures
            ({
                let step = text_step(old(self)@, *old(grid), typed@, now);
                &&& final(self)@ == step.ui
                &&& final(grid).selection == step.selection
                &&& outcome@ == step.outcome
            }),
            *final(grid) == (TermGrid { selection: final(grid).selection, ..*old(grid) }),
            final(self)@.search.wf(),
    {
        reveal(text_step);
        if typed.is_empty() {
            return Outcome::only(false);
        }
        let ctrl = self.modifiers.control_key();
        let alt = self.modifiers.alt_key();
        let super_key = self.modifiers.super_key();
        if search_owns_keyboard(&self.search) {
            if ctrl || super_key || contains_break(typed) {
                return Outcome::only(false);
            }
            self.search.insert_text(typed);
            return self.edited(grid, now, CopyRequest::Nothing);
        }
        match input::terminal_text_sequence(typed, ctrl, alt, super_key) {
            Some(sequence) => Outcome::sending(sequence),
            None => Outcome::only(false),
        }
    }
}

/// What comes from the terminal's own output never scrolls the view.
pub proof fn passive_refresh_never_scrolls(search: search::SearchModel, grid: TermGrid, now: u64)
    ensures
        search_refreshed(search, grid, SearchRefreshCause::Grid, now).2 is None,
{
}

/// Nothing that the search takes reaches the terminal: neither its keys, nor text that is typed or
/// committed while it takes the keyboard.
pub proof fn search_keeps_its_keys(
    ui: InteractionModel,
    grid: TermGrid,
    key: KeyInput,
    clipboard: ClipboardModel,
    typed: Seq<char>,
    now: u64,
)
    ensures
        search_takes_key(ui, key) ==> {
            let step = key_step(ui, grid, key, clipboard, now);
            step.outcome.handled && step.outcome.send is None
        },
        ui.search.shown && ui.search.focused ==> commit_step(
            ui,
            grid,
            typed,
            now,
        ).outcome.send is None,
        ui.search.shown && ui.search.focused ==> text_step(
            ui,
            grid,
            typed,
            now,
        ).outcome.send is None,
{
    reveal(key_step);
    reveal(search_key_step);
    reveal(commit_step);
    reveal(text_step);
}

/// Ctrl+C copies a selection and takes it away, so that the next Ctrl+C interrupts.
pub proof fn second_interrupt_reaches_program(
    ui: InteractionModel,
    grid: TermGrid,
    key: KeyInput,
    clipboard: ClipboardModel,
    now: u64,
)
    requires
        key.state is Pressed,
        key.physical_key == PhysicalKey::Code(KeyCode::KeyC),
        ui.modifiers.has_control(),
        !search_takes_key(ui, key),
        grid.selection is Some,
    ensures
        ({
            let first = key_step(ui, grid, key, clipboard, now);
            let second = key_step(
                first.ui,
                TermGrid { selection: first.selection, ..grid },
                key,
                clipboard,
                now,
            );
            &&& first.outcome.send is None
            &&& first.outcome.copy == CopyModel::Cells(grid.selection->0)
            &&& second.outcome.send == Some(seq![0x03u8])
            &&& second.outcome.copy == CopyModel::Nothing
        }),
{
    reveal(key_step);
}

} // verus!
