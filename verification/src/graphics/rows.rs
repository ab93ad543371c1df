//! What is drawn of the rows of a terminal, of its tabs and of its search.
use vstd::prelude::*;

use crate::search::{TerminalSearchMatch, TerminalSearchState};
use crate::settings::TerminalTabHit;
use crate::terminal::Cell;
use crate::text;

verus! {

/// Whether a terminal gets another size.
pub fn terminal_dimensions_changed(
    cols: usize,
    rows: usize,
    new_cols: usize,
    new_rows: usize,
) -> (changed: bool)
    ensures
        changed == ((cols, rows) != (new_cols, new_rows)),
{
    cols != new_cols || rows != new_rows
}

/// A number of columns or rows as the system takes it: at most the largest of sixteen bits.
pub fn pty_dimension(count: usize) -> (dimension: u16)
    ensures
        dimension == if count <= u16::MAX {
            count as int
        } else {
            u16::MAX as int
        },
{
    if count <= 0xffff {
        count as u16
    } else {
        0xffff
    }
}

/// The rows that can be seen, from the first to behind the last, when `scrolled` rows lie below
/// them: as many as fit and one more.
pub open spec fn visible_rows_of(total: int, visible: int, scrolled: int) -> (int, int) {
    if total == 0 || visible == 0 {
        (0, 0)
    } else {
        let bottom = if scrolled >= total {
            0
        } else {
            total - 1 - scrolled
        };
        let start = if bottom >= visible {
            bottom - visible
        } else {
            0
        };
        (start, bottom + 1)
    }
}

/// The rows that can be seen, from the first to behind the last, when `scrolled_lines` rows lie
/// below them.
pub fn visible_row_range(
    total_lines: usize,
    visible_rows: usize,
    scrolled_lines: usize,
) -> (range: (usize, usize))
    ensures
        (range.0 as int, range.1 as int) == visible_rows_of(
            total_lines as int,
            visible_rows as int,
            scrolled_lines as int,
        ),
        range.0 <= range.1 <= total_lines,
{
    if total_lines == 0 || visible_rows == 0 {
        return (0, 0);
    }
    let bottom: usize = if scrolled_lines >= total_lines {
        0
    } else {
        total_lines - 1 - scrolled_lines
    };
    let start: usize = if bottom >= visible_rows {
        bottom - visible_rows
    } else {
        0
    };
    (start, bottom + 1)
}

/// The drawn rows are few and, while the terminal is not scrolled, reach the last row.
pub proof fn few_rows_are_drawn(total: int, visible: int, scrolled: int)
    requires
        total >= 0,
        visible >= 0,
        scrolled >= 0,
    ensures
        ({
            let (start, end) = visible_rows_of(total, visible, scrolled);
            &&& 0 <= start <= end <= total
            &&& end - start <= visible + 1
            &&& scrolled == 0 && visible > 0 ==> end == total
            &&& total > 0 && visible > 0 ==> start < end
        }),
{
}

/// Whether a cell lies in a selection between two cells, which it holds, whatever their order.
pub open spec fn is_selected(
    selection: Option<(usize, usize, usize, usize)>,
    column: int,
    row: int,
) -> bool {
    match selection {
        None => false,
        Some((sx, sy, ex, ey)) => {
            let forward = sy < ey || sy == ey && sx <= ex;
            let (x1, y1, x2, y2) = if forward {
                (sx, sy, ex, ey)
            } else {
                (ex, ey, sx, sy)
            };
            &&& y1 < row || y1 == row && x1 <= column
            &&& row < y2 || row == y2 && column <= x2
        },
    }
}

/// Whether a cell lies in a selection.
pub fn cell_selected(
    selection: Option<(usize, usize, usize, usize)>,
    column: usize,
    row: usize,
) -> (selected: bool)
    ensures
        selected == is_selected(selection, column as int, row as int),
{
    match selection {
        None => false,
        Some((sx, sy, ex, ey)) => {
            let forward = sy < ey || (sy == ey && sx <= ex);
            let (x1, y1, x2, y2) = if forward {
                (sx, sy, ex, ey)
            } else {
                (ex, ey, sx, sy)
            };
            (y1 < row || (y1 == row && x1 <= column)) && (row < y2 || (row == y2 && column <= x2))
        },
    }
}

/// What is drawn behind a cell.
#[derive(Clone, Copy, Debug, PartialEq, Eq, Structural)]
pub enum CellBackground {
    /// What the cell has by itself.
    Own,
    /// The colour of selected text.
    Selected,
    /// The colour of a result of the search.
    Match,
    /// The colour of the active result.
    ActiveMatch,
}

/// The column by which a cell is found: the second cell of a wide character goes with the first.
pub open spec fn logical_column(row: Seq<Cell>, column: int) -> int {
    if row[column].wide_spacer && column > 0 {
        column - 1
    } else {
        column
    }
}

/// The first of the results from `from` to before `to` that reaches a column, or `to`.
pub open spec fn first_reaching(
    results: Seq<TerminalSearchMatch>,
    from: int,
    to: int,
    column: int,
) -> int
    decreases to - from,
{
    if from >= to || results[from].end_x >= column {
        from
    } else {
        first_reaching(results, from + 1, to, column)
    }
}

/// What is drawn behind a cell, where the results of its row are those from `range.0` to before
/// `range.1`: results before the selection, the active one before others.
pub open spec fn background_of(
    row: Seq<Cell>,
    column: int,
    y: int,
    selection: Option<(usize, usize, usize, usize)>,
    results: Seq<TerminalSearchMatch>,
    range: (int, int),
    active: Option<TerminalSearchMatch>,
) -> CellBackground {
    let logical = logical_column(row, column);
    let found = first_reaching(results, range.0, range.1, logical);
    if found < range.1 && results[found].start_x <= logical {
        if active == Some(results[found]) {
            CellBackground::ActiveMatch
        } else {
            CellBackground::Match
        }
    } else if is_selected(selection, logical, y) {
        CellBackground::Selected
    } else {
        CellBackground::Own
    }
}

/// Results that do not reach a column can be passed over.
proof fn reaching_skips(results: Seq<TerminalSearchMatch>, from: int, at: int, to: int, column: int)
    requires
        from <= at <= to,
        forall|i: int| from <= i < at ==> (#[trigger] results[i]).end_x < column,
    ensures
        first_reaching(results, from, to, column) == first_reaching(results, at, to, column),
    decreases at - from,
{
    if from < at {
        reaching_skips(results, from + 1, at, to, column);
    }
}

/// What is drawn behind the first `cols` cells of a row, where the results of the row are those from
/// `range.0` to before `range.1`.
pub fn row_backgrounds(
    row: &Vec<Cell>,
    cols: usize,
    y: usize,
    selection: Option<(usize, usize, usize, usize)>,
    results: &Vec<TerminalSearchMatch>,
    range: (usize, usize),
    active: Option<TerminalSearchMatch>,
) -> (backgrounds: Vec<CellBackground>)
    requires
        range.0 <= range.1 <= results@.len(),
    ensures
        backgrounds@.len() == if cols < row@.len() {
            cols as int
        } else {
            row@.len() as int
        },
        forall|x: int|
            0 <= x < backgrounds@.len() ==> #[trigger] backgrounds@[x] == background_of(
                row@,
                x,
                y as int,
                selection,
                results@,
                (range.0 as int, range.1 as int),
                active,
            ),
{
    let count: usize = if cols < row.len() { cols } else { row.len() };
    let mut backgrounds: Vec<CellBackground> = Vec::new();
    let mut at: usize = range.0;
    let mut x: usize = 0;
    let ghost mut reached: int = 0;
    while x < count
        invariant
            x <= count <= row@.len(),
            range.0 <= at <= range.1 <= results@.len(),
            0 <= reached,
            reached <= x,
            forall|i: int| range.0 <= i < at ==> (#[trigger] results@[i]).end_x < reached,
            x > 0 ==> reached <= logical_column(row@, x - 1),
            x == 0 ==> at == range.0,
            backgrounds@.len() == x,
            forall|j: int|
                0 <= j < x ==> #[trigger] backgrounds@[j] == background_of(
                    row@,
                    j,
                    y as int,
                    selection,
                    results@,
                    (range.0 as int, range.1 as int),
                    active,
                ),
        decreases count - x,
    {
        let logical: usize = if row[x].wide_spacer && x > 0 {
            x - 1
        } else {
            x
        };
        assert(logical == logical_column(row@, x as int));
        assert(x == 0 || logical >= logical_column(row@, x - 1));
        while at < range.1 && results[at].end_x < logical
            invariant
                range.0 <= at <= range.1 <= results@.len(),
                forall|i: int| range.0 <= i < at ==> (#[trigger] results@[i]).end_x < logical,
            decreases range.1 - at,
        {
            at += 1;
        }
        proof {
            reaching_skips(
                results@,
                range.0 as int,
                at as int,
                range.1 as int,
                logical as int,
            );
            reached = logical as int;
        }
        let background = if at < range.1 && results[at].start_x <= logical {
            let found = results[at];
            let is_active = match active {
                Some(active) => active.start_x == found.start_x && active.y == found.y
                    && active.end_x == found.end_x,
                None => false,
            };
            if is_active {
                CellBackground::ActiveMatch
            } else {
                CellBackground::Match
            }
        } else if cell_selected(selection, logical, y) {
            CellBackground::Selected
        } else {
            CellBackground::Own
        };
        backgrounds.push(background);
        x += 1;
    }
    backgrounds
}

/// The two halves of a wide character are drawn on the same colour.
pub proof fn wide_characters_are_drawn_whole(
    row: Seq<Cell>,
    column: int,
    y: int,
    selection: Option<(usize, usize, usize, usize)>,
    results: Seq<TerminalSearchMatch>,
    range: (int, int),
    active: Option<TerminalSearchMatch>,
)
    requires
        0 <= column,
        column + 1 < row.len(),
        !row[column].wide_spacer,
        row[column + 1].wide_spacer,
    ensures
        background_of(row, column, y, selection, results, range, active) == background_of(
            row,
            column + 1,
            y,
            selection,
            results,
            range,
            active,
        ),
{
}

/// A colour of a cell.
#[derive(Clone, Copy, Debug, PartialEq, Eq, Structural)]
pub enum CellColor {
    /// That of its text.
    Text,
    /// That behind it.
    Ground,
}

/// The colours that a cell is drawn with.
#[derive(Clone, Copy, Debug, PartialEq, Eq, Structural)]
pub struct CellPaint {
    /// The colour of the character.
    pub character: CellColor,
    /// Whether the character is drawn darker.
    pub dim: bool,
    /// What is filled behind it, unless that is the window's own colour.
    pub fill: Option<CellColor>,
}

/// The colours that a cell is drawn with: swapped where it is inverse, and without a fill where what
/// lies behind is the window's own colour.
pub fn cell_paint(inverse: bool, dim: bool, default_background: bool) -> (paint: CellPaint)
    ensures
        paint.dim == dim,
        paint.character == if inverse {
            CellColor::Ground
        } else {
            CellColor::Text
        },
        paint.fill == if inverse {
            Some(CellColor::Text)
        } else if default_background {
            None
        } else {
            Some(CellColor::Ground)
        },
{
    if inverse {
        CellPaint { character: CellColor::Ground, dim, fill: Some(CellColor::Text) }
    } else {
        CellPaint {
            character: CellColor::Text,
            dim,
            fill: if default_background {
                None
            } else {
                Some(CellColor::Ground)
            },
        }
    }
}

/// What is drawn in the field of a search besides its text.
#[derive(Debug)]
pub struct SearchOverlay {
    /// The characters that are selected, from the first to behind the last.
    pub selection: Option<(usize, usize)>,
    /// Whether the caret is drawn.
    pub caret: bool,
    /// The count of results.
    pub counter: String,
}

/// The count of results: which one is active and how many there are, or that there are none.
pub open spec fn counter_text(
    query_len: int,
    results: int,
    current: Option<usize>,
    room: bool,
) -> Seq<char> {
    if results > 0 {
        let place = match current {
            Some(index) => index as nat,
            None => 0,
        };
        text::decimal(place + 1) + "/"@ + text::decimal(results as nat)
    } else if query_len > 0 && room {
        "Нет"@
    } else {
        Seq::empty()
    }
}

/// What is drawn in the field of a search, `room` telling whether there is room for a word behind
/// it.
pub fn search_overlay(search: &TerminalSearchState, room: bool) -> (overlay: SearchOverlay)
    requires
        search.current matches Some(index) ==> index < search.results@.len(),
    ensures
        overlay.selection == match search.input.selection_anchor {
            Some(anchor) => if anchor < search.input.cursor {
                Some((anchor, search.input.cursor))
            } else if search.input.cursor < anchor {
                Some((search.input.cursor, anchor))
            } else {
                None
            },
            None => None,
        },
        overlay.caret == (search.focused && overlay.selection is None),
        overlay.counter@ == counter_text(
            search.input.text@.len() as int,
            search.results@.len() as int,
            search.current,
            room,
        ),
{
    let selection = match search.input.selection_anchor {
        Some(anchor) => if anchor < search.input.cursor {
            Some((anchor, search.input.cursor))
        } else if search.input.cursor < anchor {
            Some((search.input.cursor, anchor))
        } else {
            None
        },
        None => None,
    };
    let mut counter = String::new();
    if search.results.len() > 0 {
        let place: usize = match search.current {
            Some(index) => index,
            None => 0,
        };
        text::push_decimal(&mut counter, place as u64 + 1);
        counter.push_str("/");
        text::push_decimal(&mut counter, search.results.len() as u64);
        assert(counter@ =~= counter_text(
            search.input.text@.len() as int,
            search.results@.len() as int,
            search.current,
            room,
        ));
    } else if room && text::chars_of(search.input.text.as_str()).len() > 0 {
        counter.push_str("Нет");
        assert(counter@ =~= "Нет"@);
    }
    SearchOverlay { caret: search.focused && selection.is_none(), selection, counter }
}

/// Which parts of a tab the pointer is over.
#[derive(Clone, Copy, Debug, PartialEq, Eq, Structural)]
pub struct TabContact {
    /// Its close button.
    pub close: bool,
    /// The rest of it.
    pub body: bool,
}

/// Whether a tab is under the pointer.
pub open spec fn is_touched(tab: TabContact) -> bool {
    tab.close || tab.body
}

/// What the pointer is over: the first tab that it touches, its close button before the rest, then
/// the button for a new tab.
pub fn terminal_tab_hit(tabs: &[TabContact], add: bool) -> (hit: TerminalTabHit)
    ensures
        match hit {
            TerminalTabHit::Close(index) => {
                &&& index < tabs@.len()
                &&& tabs@[index as int].close
                &&& forall|i: int| 0 <= i < index ==> !is_touched(#[trigger] tabs@[i])
            },
            TerminalTabHit::Body(index) => {
                &&& index < tabs@.len()
                &&& tabs@[index as int].body
                &&& !tabs@[index as int].close
                &&& forall|i: int| 0 <= i < index ==> !is_touched(#[trigger] tabs@[i])
            },
            TerminalTabHit::Add => add && forall|i: int|
                0 <= i < tabs@.len() ==> !is_touched(#[trigger] tabs@[i]),
            TerminalTabHit::Outside => !add && forall|i: int|
                0 <= i < tabs@.len() ==> !is_touched(#[trigger] tabs@[i]),
        },
{
    let mut i: usize = 0;
    while i < tabs.len()
        invariant
            i <= tabs@.len(),
            forall|j: int| 0 <= j < i ==> !is_touched(#[trigger] tabs@[j]),
        decreases tabs@.len() - i,
    {
        if tabs[i].close {
            return TerminalTabHit::Close(i);
        }
        if tabs[i].body {
            return TerminalTabHit::Body(i);
        }
        i += 1;
    }
    if add {
        TerminalTabHit::Add
    } else {
        TerminalTabHit::Outside
    }
}

/// Where the tabs are scrolled to show one of them.
#[derive(Clone, Copy, Debug, PartialEq, Eq, Structural)]
pub enum RevealTarget {
    /// To the start: there is no such tab.
    Start,
    /// To the end.
    End,
    /// As little as shows the tab.
    Tab,
}

/// Where the tabs are scrolled to show one of them: to the end where that is wanted and it is the
/// last.
pub fn tab_reveal_target(index: usize, count: usize, reveal_tail: bool) -> (target: RevealTarget)
    ensures
        target == if index >= count {
            RevealTarget::Start
        } else if reveal_tail && index == count - 1 {
            RevealTarget::End
        } else {
            RevealTarget::Tab
        },
{
    if index >= count {
        RevealTarget::Start
    } else if reveal_tail && index == count - 1 {
        RevealTarget::End
    } else {
        RevealTarget::Tab
    }
}

} // verus!
