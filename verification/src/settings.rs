//! The settings window: its texts, what a click in it is for, and the field of the background colour.
use vstd::prelude::*;

use crate::input_types::{KeyCode, PhysicalKey};
use crate::single_line_input;
use crate::single_line_input::SingleLineInput;
use crate::text;

pub mod laws;

verus! {

/// The pages of the settings.
#[derive(Clone, Copy, Debug, PartialEq, Eq, Structural)]
pub enum SettingsTab {
    General,
    Help,
}

/// What a click in the settings is for.
#[derive(Clone, Copy, Debug, PartialEq, Eq, Structural)]
pub enum SettingsHit {
    /// Nothing: it is between the controls.
    Blank,
    /// It is beside the settings.
    Outside,
    Tab(SettingsTab),
    FontDecrease,
    FontIncrease,
    FontReset,
    ScrollDecrease,
    ScrollIncrease,
    ScrollReset,
    BackgroundField,
    BackgroundReset,
}

/// What a click on the tabs of the terminals is for.
#[derive(Clone, Copy, Debug, PartialEq, Eq, Structural)]
pub enum TerminalTabHit {
    /// It is not on them.
    Outside,
    /// The tab itself.
    Body(usize),
    /// The cross of a tab.
    Close(usize),
    /// The sign that adds a tab.
    Add,
}

pub const SETTINGS_TITLE: &'static str = "Настройки";

pub const SETTINGS_FONT_LABEL: &'static str = "Размер шрифта";

pub const SETTINGS_SCROLL_LABEL: &'static str = "Чувствительность прокрутки";

/// The title of a page.
pub fn settings_tab_title(tab: SettingsTab) -> (title: &'static str)
    ensures
        title@ == match tab {
            SettingsTab::General => "Основные"@,
            SettingsTab::Help => "Помощь"@,
        },
{
    match tab {
        SettingsTab::General => "Основные",
        SettingsTab::Help => "Помощь",
    }
}

/// The pages in the order in which they stand.
pub fn settings_tabs() -> (tabs: Vec<SettingsTab>)
    ensures
        tabs@ == seq![SettingsTab::General, SettingsTab::Help],
{
    let tabs = vec![SettingsTab::General, SettingsTab::Help];
    assert(tabs@ =~= seq![SettingsTab::General, SettingsTab::Help]);
    tabs
}

/// A shortcut and what it does.
#[derive(Clone, Copy, Debug, PartialEq, Eq)]
pub struct SettingsHelpEntry {
    pub shortcut: &'static str,
    pub description: &'static str,
}

/// How many shortcuts the help page explains.
pub const SETTINGS_HELP_ENTRY_COUNT: usize = 5;

/// The shortcuts that the help page explains, in their order.
pub fn settings_help_entry(index: usize) -> (entry: Option<SettingsHelpEntry>)
    ensures
        entry is Some <==> index < SETTINGS_HELP_ENTRY_COUNT,
        entry matches Some(entry) ==> (entry.shortcut@, entry.description@) == (match index {
            0 => ("F1"@, "Открыть/закрыть настройки"@),
            1 => ("Ctrl + Shift + T"@, "Новая вкладка"@),
            2 => ("Ctrl + 4"@, "Закрыть текущую вкладку"@),
            3 => ("Ctrl + F"@, "Поиск в терминале"@),
            _ => ("Esc"@, "Закрыть настройки или активный поиск"@),
        }),
{
    match index {
        0 => Some(
            SettingsHelpEntry { shortcut: "F1", description: "Открыть/закрыть настройки" },
        ),
        1 => Some(
            SettingsHelpEntry { shortcut: "Ctrl + Shift + T", description: "Новая вкладка" },
        ),
        2 => Some(
            SettingsHelpEntry { shortcut: "Ctrl + 4", description: "Закрыть текущую вкладку" },
        ),
        3 => Some(SettingsHelpEntry { shortcut: "Ctrl + F", description: "Поиск в терминале" }),
        4 => Some(
            SettingsHelpEntry {
                shortcut: "Esc",
                description: "Закрыть настройки или активный поиск",
            },
        ),
        _ => None,
    }
}

/// The controls of the settings that a point lies on, as they are laid out.
#[derive(Clone, Copy, Debug, PartialEq, Eq, Structural)]
pub struct SettingsRegions {
    pub general_tab: bool,
    pub help_tab: bool,
    pub font_minus: bool,
    pub font_plus: bool,
    pub scroll_minus: bool,
    pub scroll_plus: bool,
}

/// What a click is for, by the controls that it lies on: the pages come first, then the size of the
/// text, then the scrolling, and less before more.
pub fn settings_hit(regions: &SettingsRegions) -> (hit: SettingsHit)
    ensures
        hit == if regions.general_tab {
            SettingsHit::Tab(SettingsTab::General)
        } else if regions.help_tab {
            SettingsHit::Tab(SettingsTab::Help)
        } else if regions.font_minus {
            SettingsHit::FontDecrease
        } else if regions.font_plus {
            SettingsHit::FontIncrease
        } else if regions.scroll_minus {
            SettingsHit::ScrollDecrease
        } else if regions.scroll_plus {
            SettingsHit::ScrollIncrease
        } else {
            SettingsHit::Blank
        },
{
    if regions.general_tab {
        SettingsHit::Tab(SettingsTab::General)
    } else if regions.help_tab {
        SettingsHit::Tab(SettingsTab::Help)
    } else if regions.font_minus {
        SettingsHit::FontDecrease
    } else if regions.font_plus {
        SettingsHit::FontIncrease
    } else if regions.scroll_minus {
        SettingsHit::ScrollDecrease
    } else if regions.scroll_plus {
        SettingsHit::ScrollIncrease
    } else {
        SettingsHit::Blank
    }
}

/// The most characters that the field of the background colour holds.
pub const SETTINGS_BACKGROUND_MAX_CHARS: usize = 7;

/// A character as the field of the background colour takes it: `#`, or a hexadecimal digit in upper
/// case.
pub open spec fn hex_char(c: char) -> Option<char> {
    if c == '#' || '0' <= c <= '9' || 'A' <= c <= 'F' {
        Some(c)
    } else if 'a' <= c <= 'f' {
        Some((c as u32 - 32) as char)
    } else {
        None
    }
}

/// Whether a character is a line break.
pub open spec fn is_break(c: char) -> bool {
    c == '\r' || c == '\n'
}

/// A text as the field of the background colour takes it, without line breaks; none where it does not
/// take it.
pub open spec fn hex_clean(chars: Seq<char>) -> Option<Seq<char>>
    decreases chars.len(),
{
    if chars.len() == 0 {
        Some(Seq::empty())
    } else {
        match hex_clean(chars.drop_last()) {
            Some(clean) => if is_break(chars.last()) {
                Some(clean)
            } else {
                match hex_char(chars.last()) {
                    Some(c) => Some(clean.push(c)),
                    None => None,
                }
            },
            None => None,
        }
    }
}

fn hex_upper(c: char) -> (upper: Option<char>)
    ensures
        upper == hex_char(c),
{
    if c == '#' || ('0' <= c && c <= '9') || ('A' <= c && c <= 'F') {
        Some(c)
    } else if 'a' <= c && c <= 'f' {
        let code: u8 = c as u8;
        Some((code - 32) as char)
    } else {
        None
    }
}

proof fn unclean_stays_unclean(chars: Seq<char>, len: int)
    requires
        0 <= len <= chars.len(),
        hex_clean(chars.take(len)) is None,
    ensures
        hex_clean(chars) is None,
    decreases chars.len(),
{
    if len == chars.len() {
        assert(chars.take(len) =~= chars);
    } else {
        assert(chars.drop_last().take(len) =~= chars.take(len));
        unclean_stays_unclean(chars.drop_last(), len);
    }
}

fn clean_hex(value: &str) -> (clean: Option<String>)
    ensures
        match hex_clean(value@) {
            Some(expected) => clean is Some && clean->0@ == expected,
            None => clean is None,
        },
{
    let chars = text::chars_of(value);
    let mut clean = String::new();
    let mut i: usize = 0;
    assert(hex_clean(chars@.take(0)) == Some(clean@)) by {
        assert(clean@ =~= Seq::empty());
    }
    while i < chars.len()
        invariant
            i <= chars@.len(),
            chars@ == value@,
            hex_clean(chars@.take(i as int)) == Some(clean@),
        decreases chars@.len() - i,
    {
        assert(chars@.take(i + 1).drop_last() =~= chars@.take(i as int));
        let c = chars[i];
        if c != '\r' && c != '\n' {
            match hex_upper(c) {
                Some(upper) => {
                    clean.push(upper);
                },
                None => {
                    proof {
                        unclean_stays_unclean(chars@, i + 1);
                    }
                    return None;
                },
            }
        }
        i += 1;
    }
    assert(chars@.take(i as int) =~= chars@);
    Some(clean)
}

/// The number of characters that are selected.
pub open spec fn selected_count(line: single_line_input::LineModel) -> int {
    match line.selection() {
        Some((start, end)) => end - start,
        None => 0,
    }
}

/// Whether the field of the background colour takes a text: it has something to take, nothing but `#`
/// and hexadecimal digits, and fits with what is not selected.
pub open spec fn takes(line: single_line_input::LineModel, value: Seq<char>) -> bool {
    match hex_clean(value) {
        Some(clean) => {
            let count = line.text.len() - selected_count(line);
            let remaining = if count > 0 {
                count
            } else {
                0
            };
            clean.len() > 0 && remaining + clean.len() <= SETTINGS_BACKGROUND_MAX_CHARS
        },
        None => false,
    }
}

/// The field of the background colour after a text was put in.
pub open spec fn with_hex(line: single_line_input::LineModel, value: Seq<char>) -> single_line_input::LineModel {
    if takes(line, value) {
        line.with_inserted(hex_clean(value)->0)
    } else {
        line
    }
}

/// Puts a text into the field of the background colour, where it takes it. Whether it did.
pub fn settings_hex_insert_text(input: &mut SingleLineInput, value: &str) -> (edited: bool)
    requires
        old(input)@.wf(),
    ensures
        edited == takes(old(input)@, value@),
        final(input)@ == with_hex(old(input)@, value@),
        final(input)@.wf(),
{
    let clean = match clean_hex(value) {
        Some(clean) => clean,
        None => {
            return false;
        },
    };
    let added: usize = clean.as_str().unicode_len();
    if added == 0 {
        return false;
    }
    let remaining: usize = input.char_count().saturating_sub(input.selected_char_count());
    if added > SETTINGS_BACKGROUND_MAX_CHARS || remaining > SETTINGS_BACKGROUND_MAX_CHARS - added {
        return false;
    }
    input.insert_text(clean.as_str())
}

/// What a key did in the field of the background colour.
#[derive(Debug, PartialEq, Eq)]
pub struct SettingsBackgroundKeyOutcome {
    /// Whether the key is one of the field's.
    pub consumed: bool,
    /// Whether the text changed.
    pub text_changed: bool,
    /// Whether the text, the cursor or the selection changed.
    pub visual_changed: bool,
    /// The text to put into the clipboard.
    pub copy_text: Option<String>,
    /// Whether editing is over.
    pub finish: bool,
}

/// Whether a key is one of the field's.
pub open spec fn is_editor_key(key: PhysicalKey, ctrl: bool) -> bool {
    match key {
        PhysicalKey::Code(code) => match code {
            KeyCode::Enter
            | KeyCode::NumpadEnter
            | KeyCode::ArrowLeft
            | KeyCode::ArrowRight
            | KeyCode::Home
            | KeyCode::End
            | KeyCode::Backspace
            | KeyCode::Delete => true,
            KeyCode::KeyA | KeyCode::KeyC | KeyCode::KeyX | KeyCode::KeyV => ctrl,
            _ => false,
        },
        PhysicalKey::Unidentified => false,
    }
}

/// The field of the background colour after a key.
pub open spec fn after_editor_key(
    line: single_line_input::LineModel,
    key: PhysicalKey,
    ctrl: bool,
    shift: bool,
    paste: Option<Seq<char>>,
) -> single_line_input::LineModel {
    match key {
        PhysicalKey::Code(code) => match code {
            KeyCode::ArrowLeft => line.with_cursor(
                if line.cursor > 0 {
                    line.cursor - 1
                } else {
                    0
                },
                shift,
            ),
            KeyCode::ArrowRight => line.with_cursor(line.cursor + 1, shift),
            KeyCode::Home => line.with_cursor(0, shift),
            KeyCode::End => line.with_cursor(line.text.len() as int, shift),
            KeyCode::Backspace => line.after_backspace(),
            KeyCode::Delete => line.after_delete(),
            KeyCode::KeyA if ctrl => line.all_selected(),
            KeyCode::KeyX if ctrl => line.without_selection(),
            KeyCode::KeyV if ctrl => match paste {
                Some(paste) => with_hex(line, paste),
                None => line,
            },
            _ => line,
        },
        PhysicalKey::Unidentified => line,
    }
}

/// The text that a key puts into the clipboard.
pub open spec fn copied(line: single_line_input::LineModel, key: PhysicalKey, ctrl: bool) -> Option<
    Seq<char>,
> {
    let copies = ctrl && (key == PhysicalKey::Code(KeyCode::KeyC) || key == PhysicalKey::Code(
        KeyCode::KeyX,
    ));
    match line.selection() {
        Some((start, end)) if copies => Some(line.text.subrange(start, line.clamped(end))),
        _ => None,
    }
}

/// Gives a key to the field of the background colour.
pub fn settings_background_editor_key(
    input: &mut SingleLineInput,
    key: PhysicalKey,
    ctrl: bool,
    shift: bool,
    paste_text: Option<&str>,
) -> (outcome: SettingsBackgroundKeyOutcome)
    requires
        old(input)@.wf(),
    ensures
        final(input)@ == after_editor_key(
            old(input)@,
            key,
            ctrl,
            shift,
            match paste_text {
                Some(paste) => Some(paste@),
                None => None,
            },
        ),
        final(input)@.wf(),
        outcome.consumed == is_editor_key(key, ctrl),
        outcome.text_changed == (final(input)@.text != old(input)@.text),
        outcome.visual_changed == (final(input)@ != old(input)@),
        match copied(old(input)@, key, ctrl) {
            Some(expected) => outcome.copy_text is Some && outcome.copy_text->0@ == expected,
            None => outcome.copy_text is None,
        },
        outcome.finish == (key == PhysicalKey::Code(KeyCode::Enter) || key == PhysicalKey::Code(
            KeyCode::NumpadEnter,
        )),
{
    let before_text = input.text.clone();
    let before_cursor: usize = input.cursor;
    let before_anchor: Option<usize> = input.selection_anchor;
    let mut consumed = true;
    let mut finish = false;
    let mut copy_text: Option<String> = None;
    match key {
        PhysicalKey::Code(KeyCode::Enter) | PhysicalKey::Code(KeyCode::NumpadEnter) => {
            finish = true;
        },
        PhysicalKey::Code(KeyCode::ArrowLeft) => {
            input.move_left(shift);
        },
        PhysicalKey::Code(KeyCode::ArrowRight) => {
            input.move_right(shift);
        },
        PhysicalKey::Code(KeyCode::Home) => {
            input.move_home(shift);
        },
        PhysicalKey::Code(KeyCode::End) => {
            input.move_end(shift);
        },
        PhysicalKey::Code(KeyCode::Backspace) => {
            input.backspace();
        },
        PhysicalKey::Code(KeyCode::Delete) => {
            input.delete_forward();
        },
        PhysicalKey::Code(KeyCode::KeyA) => {
            if ctrl {
                input.select_all();
            } else {
                consumed = false;
            }
        },
        PhysicalKey::Code(KeyCode::KeyC) => {
            if ctrl {
                copy_text = input.selected_text();
            } else {
                consumed = false;
            }
        },
        PhysicalKey::Code(KeyCode::KeyX) => {
            if ctrl {
                copy_text = input.selected_text();
                input.delete_selection();
            } else {
                consumed = false;
            }
        },
        PhysicalKey::Code(KeyCode::KeyV) => {
            if ctrl {
                if let Some(paste) = paste_text {
                    settings_hex_insert_text(input, paste);
                }
            } else {
                consumed = false;
            }
        },
        _ => {
            consumed = false;
        },
    }
    let text_changed = !(input.text == before_text);
    let same_anchor = match (before_anchor, input.selection_anchor) {
        (Some(before), Some(anchor)) => before == anchor,
        (None, None) => true,
        _ => false,
    };
    let visual_changed = text_changed || input.cursor != before_cursor || !same_anchor;
    SettingsBackgroundKeyOutcome { consumed, text_changed, visual_changed, copy_text, finish }
}

/// Puts the cursor where the field was clicked, and starts a selection there. Whether the cursor or
/// the selection changed.
pub fn begin_settings_background_pointer_selection(input: &mut SingleLineInput, cursor: usize) -> (changed:
    bool)
    requires
        old(input)@.wf(),
    ensures
        final(input)@ == clicked(old(input)@, cursor as int),
        changed == (final(input)@ != old(input)@),
        final(input)@.wf(),
{
    let previous_cursor: usize = input.cursor;
    let previous_anchor: Option<usize> = input.selection_anchor;
    input.move_cursor(cursor, false);
    input.selection_anchor = Some(input.cursor);
    let same_anchor = match previous_anchor {
        Some(previous) => previous == input.cursor,
        None => false,
    };
    previous_cursor != input.cursor || !same_anchor
}

/// A line that was clicked at a character.
pub open spec fn clicked(line: single_line_input::LineModel, cursor: int) -> single_line_input::LineModel {
    single_line_input::LineModel { anchor: Some(line.clamped(cursor)), ..line.with_cursor(cursor, false) }
}

/// Moves the end of the selection. Whether the cursor or the selection changed.
pub fn update_settings_background_pointer_selection(input: &mut SingleLineInput, cursor: usize) -> (changed:
    bool)
    requires
        old(input)@.wf(),
    ensures
        final(input)@ == old(input)@.with_cursor(cursor as int, true),
        changed == (final(input)@ != old(input)@),
        final(input)@.wf(),
{
    input.move_cursor(cursor, true)
}

/// Whether a text has no characters but those of the field.
pub open spec fn is_hex_text(chars: Seq<char>) -> bool {
    forall|i: int| 0 <= i < chars.len() ==> hex_char(#[trigger] chars[i]) == Some(chars[i])
}

proof fn clean_text_is_hex(chars: Seq<char>)
    requires
        hex_clean(chars) is Some,
    ensures
        is_hex_text(hex_clean(chars)->0),
    decreases chars.len(),
{
    if chars.len() > 0 {
        clean_text_is_hex(chars.drop_last());
    }
}

/// Whatever key is pressed or text put in, the field keeps to its characters, and to its length as
/// long as the selection ends in its text.
pub proof fn field_keeps_its_bounds(
    line: single_line_input::LineModel,
    key: PhysicalKey,
    ctrl: bool,
    shift: bool,
    paste: Option<Seq<char>>,
)
    requires
        line.wf(),
        line.anchor matches Some(anchor) ==> anchor <= line.text.len(),
        line.text.len() <= SETTINGS_BACKGROUND_MAX_CHARS,
        is_hex_text(line.text),
    ensures
        ({
            let after = after_editor_key(line, key, ctrl, shift, paste);
            &&& after.text.len() <= SETTINGS_BACKGROUND_MAX_CHARS
            &&& is_hex_text(after.text)
        }),
{
    match paste {
        Some(paste) => {
            if hex_clean(paste) is Some {
                clean_text_is_hex(paste);
                let clean = hex_clean(paste)->0;
                let rest = line.without_selection();
                assert(is_hex_text(rest.text));
                assert(is_hex_text(rest.text.take(rest.cursor) + clean + rest.text.skip(rest.cursor)));
            }
        },
        None => {},
    }
}

} // verus!
