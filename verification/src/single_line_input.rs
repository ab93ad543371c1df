//! A line of text that is edited: a cursor, a selection and the operations on them. Positions count
//! characters.
use vstd::prelude::*;

verus! {

/// A line of text that is edited.
#[derive(Debug, PartialEq, Eq)]
pub struct SingleLineInput {
    /// The text.
    pub text: String,
    /// The number of characters before the cursor.
    pub cursor: usize,
    /// The other end of the selection, where there is one.
    pub selection_anchor: Option<usize>,
}

/// The contents of an edited line.
pub struct LineModel {
    pub text: Seq<char>,
    pub cursor: int,
    pub anchor: Option<int>,
}

impl LineModel {
    /// Whether the cursor stands in the text. The other end of the selection may stand behind it: it
    /// stays where it is when a character before it goes.
    pub open spec fn wf(self) -> bool {
        &&& 0 <= self.cursor <= self.text.len()
        &&& self.anchor matches Some(anchor) ==> 0 <= anchor
    }

    /// The place of a position in the text: the end, where the position is behind it.
    pub open spec fn clamped(self, position: int) -> int {
        if position < self.text.len() {
            position
        } else {
            self.text.len() as int
        }
    }

    /// The positions that are selected, from the first to behind the last.
    pub open spec fn selection(self) -> Option<(int, int)> {
        match self.anchor {
            Some(anchor) => if anchor < self.cursor {
                Some((anchor, self.cursor))
            } else if self.cursor < anchor {
                Some((self.cursor, anchor))
            } else {
                None
            },
            None => None,
        }
    }

    /// The line without the characters from `start` to before `end`, the cursor in their place.
    pub open spec fn without(self, start: int, end: int) -> LineModel {
        LineModel {
            text: self.text.take(start) + self.text.skip(self.clamped(end)),
            cursor: start,
            anchor: self.anchor,
        }
    }

    /// The line without the selection.
    pub open spec fn without_selection(self) -> LineModel {
        match self.selection() {
            Some((start, end)) => LineModel { anchor: None, ..self.without(start, end) },
            None => self,
        }
    }

    /// The line with `insert` in the place of the selection, or at the cursor.
    pub open spec fn with_inserted(self, insert: Seq<char>) -> LineModel {
        let line = self.without_selection();
        if insert.len() == 0 {
            line
        } else {
            LineModel {
                text: line.text.take(line.cursor) + insert + line.text.skip(line.cursor),
                cursor: line.cursor + insert.len(),
                anchor: None,
            }
        }
    }

    /// The line with the cursor at `cursor`, or at the end where that is sooner; where selecting, the
    /// selection starts at the cursor unless it has started, otherwise there is none.
    pub open spec fn with_cursor(self, cursor: int, selecting: bool) -> LineModel {
        LineModel {
            text: self.text,
            cursor: self.clamped(cursor),
            anchor: if !selecting {
                None
            } else if self.anchor is None {
                Some(self.cursor)
            } else {
                self.anchor
            },
        }
    }

    /// The line after a backspace.
    pub open spec fn after_backspace(self) -> LineModel {
        if self.selection() is Some {
            self.without_selection()
        } else if self.cursor == 0 {
            self
        } else {
            self.without(self.cursor - 1, self.cursor)
        }
    }

    /// The line after a deletion of what follows the cursor.
    pub open spec fn after_delete(self) -> LineModel {
        if self.selection() is Some {
            self.without_selection()
        } else if self.cursor >= self.text.len() {
            self
        } else {
            self.without(self.cursor, self.cursor + 1)
        }
    }

    /// The line with all of it selected.
    pub open spec fn all_selected(self) -> LineModel {
        LineModel { text: self.text, cursor: self.text.len() as int, anchor: Some(0) }
    }
}

/// A line that holds `text`, with the cursor at its end.
pub open spec fn line_of(text: Seq<char>) -> LineModel {
    LineModel { text, cursor: text.len() as int, anchor: None }
}

/// Every operation keeps the cursor in the text.
pub proof fn editing_stays_in_text(line: LineModel, insert: Seq<char>, cursor: int, selecting: bool)
    requires
        line.wf(),
        0 <= cursor,
    ensures
        line.without_selection().wf(),
        line.with_inserted(insert).wf(),
        line.after_backspace().wf(),
        line.after_delete().wf(),
        line.with_cursor(cursor, selecting).wf(),
        line.all_selected().wf(),
{
}

/// A backspace takes back the character that was typed.
pub proof fn backspace_undoes_typing(line: LineModel, c: char)
    requires
        line.wf(),
        line.anchor is None,
    ensures
        line.with_inserted(seq![c]).after_backspace() == line,
{
    let typed = line.with_inserted(seq![c]);
    assert(typed.after_backspace().text =~= line.text);
}

/// Deleting the selection takes out the selected characters and nothing else.
pub proof fn deletion_takes_selection(line: LineModel, start: int, end: int)
    requires
        line.wf(),
        line.selection() == Some((start, end)),
    ensures
        line.text == line.without_selection().text.take(start) + line.text.subrange(
            start,
            line.clamped(end),
        ) + line.without_selection().text.skip(start),
        line.without_selection().cursor == start,
        line.without_selection().selection() is None,
{
    let rest = line.without_selection().text;
    let last = line.clamped(end);
    assert(rest.take(start) =~= line.text.take(start));
    assert(rest.skip(start) =~= line.text.skip(last));
    assert(line.text =~= rest.take(start) + line.text.subrange(start, last) + rest.skip(start));
}

/// A whole line that is selected is all that is replaced by what is typed.
pub proof fn typing_replaces_selected_line(line: LineModel, insert: Seq<char>)
    requires
        line.wf(),
        insert.len() > 0,
    ensures
        line.text.len() > 0 ==> line.all_selected().with_inserted(insert) == line_of(insert),
{
    if line.text.len() > 0 {
        assert(line.all_selected().with_inserted(insert).text =~= insert);
    }
}

/// What is typed without a selection stands between what was before the cursor and what was behind it,
/// and the cursor stands behind it.
pub proof fn typing_goes_to_the_cursor(line: LineModel, insert: Seq<char>)
    requires
        line.wf(),
        line.selection() is None,
        insert.len() > 0,
    ensures
        ({
            let typed = line.with_inserted(insert);
            &&& typed.text.len() == line.text.len() + insert.len()
            &&& typed.text.take(line.cursor) == line.text.take(line.cursor)
            &&& typed.text.subrange(line.cursor, line.cursor + insert.len()) == insert
            &&& typed.text.skip(line.cursor + insert.len()) == line.text.skip(line.cursor)
            &&& typed.cursor == line.cursor + insert.len()
            &&& typed.anchor is None
        }),
{
    let typed = line.with_inserted(insert);
    assert(typed.text.take(line.cursor) =~= line.text.take(line.cursor));
    assert(typed.text.subrange(line.cursor, line.cursor + insert.len()) =~= insert);
    assert(typed.text.skip(line.cursor + insert.len()) =~= line.text.skip(line.cursor));
}

/// What is typed over a selection is typed where it was taken out; without any text it is only taken
/// out.
pub proof fn typing_replaces_the_selection(line: LineModel, insert: Seq<char>)
    ensures
        line.with_inserted(insert) == line.without_selection().with_inserted(insert),
        line.with_inserted(Seq::empty()) == line.without_selection(),
        line.selection() is None ==> line.without_selection() == line,
{
}

/// Without a selection a backspace takes out the character before the cursor, and a deletion the one
/// behind it; where there is none, nothing changes. With a selection both take it out.
pub proof fn one_character_is_taken_out(line: LineModel)
    requires
        line.wf(),
    ensures
        line.selection() is Some ==> line.after_backspace() == line.without_selection()
            && line.after_delete() == line.without_selection(),
        line.selection() is None ==> {
            &&& line.cursor == 0 ==> line.after_backspace() == line
            &&& line.cursor > 0 ==> line.after_backspace() == (LineModel {
                text: line.text.remove(line.cursor - 1),
                cursor: line.cursor - 1,
                anchor: line.anchor,
            })
            &&& line.cursor == line.text.len() ==> line.after_delete() == line
            &&& line.cursor < line.text.len() ==> line.after_delete() == (LineModel {
                text: line.text.remove(line.cursor),
                cursor: line.cursor,
                anchor: line.anchor,
            })
        },
{
    if line.selection() is None {
        if line.cursor > 0 {
            assert(line.after_backspace().text =~= line.text.remove(line.cursor - 1));
        }
        if line.cursor < line.text.len() {
            assert(line.after_delete().text =~= line.text.remove(line.cursor));
        }
    }
}

/// What is selected lies between the cursor and the other end, whichever comes first, and there is no
/// selection without another end or where it stands at the cursor.
pub proof fn selection_lies_between_its_ends(line: LineModel)
    ensures
        line.anchor is None ==> line.selection() is None,
        line.anchor == Some(line.cursor) ==> line.selection() is None,
        line.anchor matches Some(anchor) ==> anchor != line.cursor ==> {
            let (start, end) = line.selection()->0;
            &&& line.selection() is Some
            &&& start < end
            &&& (start == anchor && end == line.cursor) || (start == line.cursor && end == anchor)
        },
        line.text.len() > 0 ==> line.all_selected().selection() == Some((0int, line.text.len() as int)),
        line.all_selected().text == line.text,
        line.all_selected().cursor == line.text.len(),
{
}

/// The cursor goes where it is sent, or to the end where that is sooner, and the text stays. With a
/// selection what lies between the place where it began and the cursor is selected, without one nothing
/// is.
pub proof fn cursor_goes_where_it_is_sent(line: LineModel, cursor: int, then: int)
    requires
        line.wf(),
        0 <= cursor,
        0 <= then,
    ensures
        ({
            let moved = line.with_cursor(cursor, false);
            let selecting = line.with_cursor(cursor, true);
            &&& moved.text == line.text && selecting.text == line.text
            &&& cursor <= line.text.len() ==> moved.cursor == cursor && selecting.cursor == cursor
            &&& cursor > line.text.len() ==> moved.cursor == line.text.len() && selecting.cursor
                == line.text.len()
            &&& moved.anchor is None
            &&& line.anchor is Some ==> selecting.anchor == line.anchor
            &&& line.anchor is None ==> selecting.anchor == Some(line.cursor)
            &&& selecting.with_cursor(then, true) == line.with_cursor(then, true)
        }),
{
}

/// A new line holds its text, with the cursor behind it and nothing selected.
pub proof fn new_line_ends_with_the_cursor(text: Seq<char>)
    ensures
        line_of(text).text == text,
        line_of(text).cursor == text.len(),
        line_of(text).selection() is None,
{
}

impl View for SingleLineInput {
    type V = LineModel;

    open spec fn view(&self) -> LineModel {
        LineModel {
            text: self.text@,
            cursor: self.cursor as int,
            anchor: match self.selection_anchor {
                Some(anchor) => Some(anchor as int),
                None => None,
            },
        }
    }
}

impl Default for SingleLineInput {
    fn default() -> (input: Self)
        ensures
            input@ == line_of(Seq::empty()),
    {
        SingleLineInput { text: String::new(), cursor: 0, selection_anchor: None }
    }
}

impl Clone for SingleLineInput {
    fn clone(&self) -> (copy: Self)
        ensures
            copy@ == self@,
    {
        SingleLineInput {
            text: self.text.clone(),
            cursor: self.cursor,
            selection_anchor: self.selection_anchor,
        }
    }
}

impl SingleLineInput {
    /// A line that holds `text`, with the cursor at its end.
    pub fn from_text(text: &str) -> (input: Self)
        ensures
            input@ == line_of(text@),
    {
        SingleLineInput { text: text.to_owned(), cursor: text.unicode_len(), selection_anchor: None }
    }

    /// Puts `text` in the place of the whole line.
    pub fn set_text(&mut self, text: &str)
        ensures
            final(self)@ == line_of(text@),
    {
        self.text = text.to_owned();
        self.cursor = self.char_count();
        self.selection_anchor = None;
    }

    /// The number of characters.
    pub fn char_count(&self) -> (count: usize)
        ensures
            count == self@.text.len(),
    {
        self.text.as_str().unicode_len()
    }

    /// The characters that are selected, from the first to behind the last.
    pub fn selection(&self) -> (selection: Option<(usize, usize)>)
        ensures
            match self@.selection() {
                Some((start, end)) => selection is Some && selection->0 == (
                    start as usize,
                    end as usize,
                ),
                None => selection is None,
            },
    {
        match self.selection_anchor {
            Some(anchor) => {
                if anchor < self.cursor {
                    Some((anchor, self.cursor))
                } else if self.cursor < anchor {
                    Some((self.cursor, anchor))
                } else {
                    None
                }
            },
            None => None,
        }
    }

    /// The number of characters that are selected.
    pub fn selected_char_count(&self) -> (count: usize)
        ensures
            count == match self@.selection() {
                Some((start, end)) => end - start,
                None => 0,
            },
    {
        match self.selection() {
            Some((start, end)) => end - start,
            None => 0,
        }
    }

    /// Takes out the characters from `start` to before `end` and puts the cursor in their place.
    fn remove(&mut self, start: usize, end: usize)
        requires
            old(self)@.wf(),
            start <= end,
            start <= old(self)@.text.len(),
        ensures
            final(self)@ == old(self)@.without(start as int, end as int),
    {
        let count: usize = self.char_count();
        let end: usize = if end < count {
            end
        } else {
            count
        };
        let ghost before = self.text@;
        let mut rest = self.text.as_str().substring_char(0, start).to_owned();
        rest.push_str(self.text.as_str().substring_char(end, count));
        assert(before.subrange(0, start as int) =~= before.take(start as int));
        assert(before.subrange(end as int, count as int) =~= before.skip(end as int));
        self.text = rest;
        self.cursor = start;
    }

    /// Takes the selection out. Whether there was one.
    pub fn delete_selection(&mut self) -> (deleted: bool)
        requires
            old(self)@.wf(),
        ensures
            deleted == (old(self)@.selection() is Some),
            final(self)@ == old(self)@.without_selection(),
            final(self)@.wf(),
    {
        match self.selection() {
            Some((start, end)) => {
                self.remove(start, end);
                self.selection_anchor = None;
                true
            },
            None => false,
        }
    }

    /// Selects the whole line.
    pub fn select_all(&mut self)
        ensures
            final(self)@ == old(self)@.all_selected(),
            final(self)@.wf(),
    {
        self.selection_anchor = Some(0);
        self.cursor = self.char_count();
    }

    /// The selected text.
    pub fn selected_text(&self) -> (selected: Option<String>)
        requires
            self@.wf(),
        ensures
            match self@.selection() {
                Some((start, end)) => selected is Some && selected->0@ == self@.text.subrange(
                    start,
                    self@.clamped(end),
                ),
                None => selected is None,
            },
    {
        match self.selection() {
            Some((start, end)) => {
                let count: usize = self.char_count();
                let end: usize = if end < count {
                    end
                } else {
                    count
                };
                Some(self.text.as_str().substring_char(start, end).to_owned())
            },
            None => None,
        }
    }

    /// Puts `text` in the place of the selection, or at the cursor. Whether the line was edited.
    pub fn insert_text(&mut self, text: &str) -> (edited: bool)
        requires
            old(self)@.wf(),
        ensures
            edited == (old(self)@.selection() is Some || text@.len() > 0),
            final(self)@ == old(self)@.with_inserted(text@),
            final(self)@.wf(),
    {
        let had_selection = self.delete_selection();
        if text.is_empty() {
            return had_selection;
        }
        let count: usize = self.char_count();
        let ghost before = self.text@;
        let mut edited = self.text.as_str().substring_char(0, self.cursor).to_owned();
        edited.push_str(text);
        let cursor: usize = edited.as_str().unicode_len();
        edited.push_str(self.text.as_str().substring_char(self.cursor, count));
        assert(before.subrange(0, self.cursor as int) =~= before.take(self.cursor as int));
        assert(before.subrange(self.cursor as int, count as int) =~= before.skip(
            self.cursor as int,
        ));
        self.text = edited;
        self.cursor = cursor;
        self.selection_anchor = None;
        true
    }

    /// Takes out the selection, or the character before the cursor. Whether the line was edited.
    pub fn backspace(&mut self) -> (edited: bool)
        requires
            old(self)@.wf(),
        ensures
            edited == (old(self)@.selection() is Some || old(self)@.cursor > 0),
            final(self)@ == old(self)@.after_backspace(),
            final(self)@.wf(),
    {
        if self.delete_selection() {
            return true;
        }
        if self.cursor == 0 {
            return false;
        }
        let end: usize = self.cursor;
        self.remove(end - 1, end);
        true
    }

    /// Takes out the selection, or the character after the cursor. Whether the line was edited.
    pub fn delete_forward(&mut self) -> (edited: bool)
        requires
            old(self)@.wf(),
        ensures
            edited == (old(self)@.selection() is Some || old(self)@.cursor < old(self)@.text.len()),
            final(self)@ == old(self)@.after_delete(),
            final(self)@.wf(),
    {
        if self.delete_selection() {
            return true;
        }
        if self.cursor >= self.char_count() {
            return false;
        }
        let start: usize = self.cursor;
        self.remove(start, start + 1);
        true
    }

    /// Moves the cursor to `new_cursor`, or to the end where that is sooner. Whether the cursor or the
    /// selection changed.
    pub fn move_cursor(&mut self, new_cursor: usize, selecting: bool) -> (moved: bool)
        requires
            old(self)@.wf(),
        ensures
            final(self)@ == old(self)@.with_cursor(new_cursor as int, selecting),
            moved == (final(self)@ != old(self)@),
            final(self)@.wf(),
    {
        let previous_cursor: usize = self.cursor;
        let previous_anchor: Option<usize> = self.selection_anchor;
        let count: usize = self.char_count();
        if selecting {
            if self.selection_anchor.is_none() {
                self.selection_anchor = Some(self.cursor);
            }
        } else {
            self.selection_anchor = None;
        }
        self.cursor = if new_cursor < count {
            new_cursor
        } else {
            count
        };
        let same_anchor = match (previous_anchor, self.selection_anchor) {
            (Some(previous), Some(anchor)) => previous == anchor,
            (None, None) => true,
            _ => false,
        };
        previous_cursor != self.cursor || !same_anchor
    }

    /// Moves the cursor one character back.
    pub fn move_left(&mut self, selecting: bool) -> (moved: bool)
        requires
            old(self)@.wf(),
        ensures
            final(self)@ == old(self)@.with_cursor(
                if old(self)@.cursor > 0 {
                    old(self)@.cursor - 1
                } else {
                    0
                },
                selecting,
            ),
            moved == (final(self)@ != old(self)@),
            final(self)@.wf(),
    {
        self.move_cursor(self.cursor.saturating_sub(1), selecting)
    }

    /// Moves the cursor one character on.
    pub fn move_right(&mut self, selecting: bool) -> (moved: bool)
        requires
            old(self)@.wf(),
        ensures
            final(self)@ == old(self)@.with_cursor(old(self)@.cursor + 1, selecting),
            moved == (final(self)@ != old(self)@),
            final(self)@.wf(),
    {
        let count: usize = self.char_count();
        if self.cursor < count {
            self.move_cursor(self.cursor + 1, selecting)
        } else {
            self.move_cursor(count, selecting)
        }
    }

    /// Moves the cursor to the start.
    pub fn move_home(&mut self, selecting: bool) -> (moved: bool)
        requires
            old(self)@.wf(),
        ensures
            final(self)@ == old(self)@.with_cursor(0, selecting),
            moved == (final(self)@ != old(self)@),
            final(self)@.wf(),
    {
        self.move_cursor(0, selecting)
    }

    /// Moves the cursor to the end.
    pub fn move_end(&mut self, selecting: bool) -> (moved: bool)
        requires
            old(self)@.wf(),
        ensures
            final(self)@ == old(self)@.with_cursor(old(self)@.text.len() as int, selecting),
            moved == (final(self)@ != old(self)@),
            final(self)@.wf(),
    {
        let count: usize = self.char_count();
        self.move_cursor(count, selecting)
    }
}

} // verus!
