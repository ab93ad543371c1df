//! What holds of all that is typed or pasted into the field of the background colour.
use vstd::prelude::*;

use crate::input_types::{KeyCode, PhysicalKey};
use crate::settings;
use crate::single_line_input;
use crate::single_line_input::LineModel;

verus! {

/// The field takes `#` and the hexadecimal digits, small letters as capitals, and nothing else. What it
/// takes it takes again as it is.
pub proof fn field_takes_hexadecimal_digits(c: char)
    ensures
        "#0123456789ABCDEF"@.contains(c) ==> settings::hex_char(c) == Some(c),
        settings::hex_char(c) matches Some(taken) ==> "#0123456789ABCDEF"@.contains(taken)
            && settings::hex_char(taken) == Some(taken) && (taken == c || ('a' <= c <= 'f' && taken as u32
            + 32 == c as u32)),
        'a' <= c <= 'f' ==> settings::hex_char(c) is Some,
{
    reveal_strlit("#0123456789ABCDEF");
    let all = "#0123456789ABCDEF"@;
    if let Some(taken) = settings::hex_char(c) {
        let at = if taken == '#' {
            0
        } else if taken <= '9' {
            taken as u32 - '0' as u32 + 1
        } else {
            taken as u32 - 'A' as u32 + 11
        };
        assert(all[at] == taken);
    }
    if all.contains(c) {
        let i = choose|i: int| 0 <= i < all.len() && all[i] == c;
        assert(0 <= i < 17);
    }
}

/// What is joined is taken where both parts are, and as both; a line break is left out.
pub proof fn field_takes_part_by_part(left: Seq<char>, right: Seq<char>, c: char)
    ensures
        settings::hex_clean(left + right) == match (
            settings::hex_clean(left),
            settings::hex_clean(right),
        ) {
            (Some(start), Some(end)) => Some(start + end),
            _ => None,
        },
        settings::hex_clean(seq![c]) == if c == '\n' || c == '\r' {
            Some(Seq::empty())
        } else {
            match settings::hex_char(c) {
                Some(taken) => Some(seq![taken]),
                None => None,
            }
        },
    decreases right.len(),
{
    assert(seq![c].drop_last() =~= Seq::empty());
    let nothing = Seq::<char>::empty();
    assert(settings::hex_clean(seq![c].drop_last()) == Some(nothing));
    if let Some(taken) = settings::hex_char(c) {
        assert(nothing.push(taken) =~= seq![taken]);
    }
    if right.len() == 0 {
        assert(left + right =~= left);
        if let Some(start) = settings::hex_clean(left) {
            assert(start + nothing =~= start);
        }
    } else {
        field_takes_part_by_part(left, right.drop_last(), c);
        assert((left + right).drop_last() =~= left + right.drop_last());
        if let Some(start) = settings::hex_clean(left) {
            if let Some(end) = settings::hex_clean(right.drop_last()) {
                if let Some(taken) = settings::hex_char(right.last()) {
                    assert(start + end.push(taken) =~= (start + end).push(taken));
                }
            }
        }
    }
}

/// The field takes a text where it is left with seven characters at most when the text stands for what
/// is selected; otherwise it stays as it is.
pub proof fn field_holds_seven_characters(line: LineModel, value: Seq<char>)
    requires
        line.wf(),
        line.anchor matches Some(anchor) ==> anchor <= line.text.len(),
    ensures
        ({
            let clean = settings::hex_clean(value);
            let after = settings::with_hex(line, value);
            &&& settings::takes(line, value) == (clean is Some && clean->0.len() > 0
                && line.with_inserted(clean->0).text.len() <= 7)
            &&& settings::takes(line, value) ==> after == line.with_inserted(clean->0)
            &&& !settings::takes(line, value) ==> after == line
        }),
{
}

/// The keys of the field are Enter, the cursor keys, Home, End, Backspace and Delete, and with Ctrl
/// alone A, C, X and V.
pub proof fn field_has_these_keys(code: KeyCode)
    ensures
        ({
            let always = code is Enter || code is NumpadEnter || code is ArrowLeft || code is ArrowRight
                || code is Home || code is End || code is Backspace || code is Delete;
            let held = code is KeyA || code is KeyC || code is KeyX || code is KeyV;
            &&& settings::is_editor_key(PhysicalKey::Code(code), false) == always
            &&& settings::is_editor_key(PhysicalKey::Code(code), true) == (always || held)
            &&& !settings::is_editor_key(PhysicalKey::Unidentified, true)
            &&& !settings::is_editor_key(PhysicalKey::Unidentified, false)
        }),
{
}

/// A key that is not one of the field's changes nothing in it, and Enter changes nothing either.
pub proof fn other_keys_leave_the_field(
    line: LineModel,
    key: PhysicalKey,
    ctrl: bool,
    shift: bool,
    paste: Option<Seq<char>>,
)
    ensures
        !settings::is_editor_key(key, ctrl) ==> settings::after_editor_key(
            line,
            key,
            ctrl,
            shift,
            paste,
        ) == line && settings::copied(line, key, ctrl) is None,
        key == PhysicalKey::Code(KeyCode::Enter) || key == PhysicalKey::Code(KeyCode::NumpadEnter)
            || key == PhysicalKey::Code(KeyCode::KeyC) ==> settings::after_editor_key(
            line,
            key,
            ctrl,
            shift,
            paste,
        ) == line,
{
}

/// The cursor keys go one character back or on and not over the ends, Home and End go to them; with
/// Shift what was passed is selected, without nothing is.
pub proof fn field_cursor_stays_in_the_text(
    line: LineModel,
    ctrl: bool,
    shift: bool,
    paste: Option<Seq<char>>,
)
    requires
        line.wf(),
    ensures
        ({
            let left = settings::after_editor_key(
                line,
                PhysicalKey::Code(KeyCode::ArrowLeft),
                ctrl,
                shift,
                paste,
            );
            let right = settings::after_editor_key(
                line,
                PhysicalKey::Code(KeyCode::ArrowRight),
                ctrl,
                shift,
                paste,
            );
            let home = settings::after_editor_key(
                line,
                PhysicalKey::Code(KeyCode::Home),
                ctrl,
                shift,
                paste,
            );
            let end = settings::after_editor_key(
                line,
                PhysicalKey::Code(KeyCode::End),
                ctrl,
                shift,
                paste,
            );
            let anchor = if !shift {
                None
            } else if line.anchor is Some {
                line.anchor
            } else {
                Some(line.cursor)
            };
            &&& left.text == line.text && left.anchor == anchor
            &&& right.text == line.text && right.anchor == anchor
            &&& home == (LineModel { text: line.text, cursor: 0, anchor })
            &&& end == (LineModel { text: line.text, cursor: line.text.len() as int, anchor })
            &&& line.cursor > 0 ==> left.cursor == line.cursor - 1
            &&& line.cursor == 0 ==> left.cursor == 0
            &&& line.cursor < line.text.len() ==> right.cursor == line.cursor + 1
            &&& line.cursor == line.text.len() ==> right.cursor == line.cursor
        }),
{
}

/// Backspace and Delete take out one character or the selection. With Ctrl, A selects all, C and X copy
/// what is selected, X takes it out and V puts the clipboard in its place; without Ctrl the letters do
/// nothing.
pub proof fn field_is_edited(line: LineModel, shift: bool, paste: Seq<char>)
    requires
        line.wf(),
    ensures
        settings::after_editor_key(
            line,
            PhysicalKey::Code(KeyCode::Backspace),
            false,
            shift,
            None,
        ) == line.after_backspace(),
        settings::after_editor_key(line, PhysicalKey::Code(KeyCode::Delete), false, shift, None)
            == line.after_delete(),
        settings::after_editor_key(line, PhysicalKey::Code(KeyCode::KeyA), true, shift, None) == (
        LineModel { text: line.text, cursor: line.text.len() as int, anchor: Some(0) }),
        settings::after_editor_key(line, PhysicalKey::Code(KeyCode::KeyX), true, shift, None)
            == line.without_selection(),
        settings::after_editor_key(line, PhysicalKey::Code(KeyCode::KeyV), true, shift, Some(paste))
            == settings::with_hex(line, paste),
        settings::after_editor_key(line, PhysicalKey::Code(KeyCode::KeyV), true, shift, None) == line,
        settings::after_editor_key(line, PhysicalKey::Code(KeyCode::KeyV), false, shift, Some(paste))
            == line,
        line.selection() matches Some((start, end)) ==> {
            let last = if end < line.text.len() {
                end
            } else {
                line.text.len() as int
            };
            &&& settings::copied(line, PhysicalKey::Code(KeyCode::KeyC), true) == Some(
                line.text.subrange(start, last),
            )
            &&& settings::copied(line, PhysicalKey::Code(KeyCode::KeyX), true) == Some(
                line.text.subrange(start, last),
            )
        },
        settings::copied(line, PhysicalKey::Code(KeyCode::KeyV), true) is None,
        settings::copied(line, PhysicalKey::Code(KeyCode::KeyA), true) is None,
        settings::copied(line, PhysicalKey::Code(KeyCode::KeyC), false) is None,
        settings::copied(line, PhysicalKey::Code(KeyCode::KeyX), false) is None,
        line.selection() is None ==> settings::copied(
            line,
            PhysicalKey::Code(KeyCode::KeyC),
            true,
        ) is None,
{
}

/// A click puts the cursor at its character, or at the end where that is sooner, and selects nothing
/// yet; a drag from there selects up to where it goes.
pub proof fn click_begins_a_selection(line: LineModel, at: int, to: int)
    requires
        line.wf(),
        0 <= at <= line.text.len(),
        0 <= to <= line.text.len(),
    ensures
        settings::clicked(line, at).text == line.text,
        settings::clicked(line, at).cursor == at,
        settings::clicked(line, line.text.len() as int + 1).cursor == line.text.len(),
        settings::clicked(line, at).selection() is None,
        at < to ==> settings::clicked(line, at).with_cursor(to, true).selection() == Some((at, to)),
        to < at ==> settings::clicked(line, at).with_cursor(to, true).selection() == Some((to, at)),
{
    single_line_input::cursor_goes_where_it_is_sent(line, at, to);
}

} // verus!
