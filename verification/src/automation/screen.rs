//! What the scripted run reads off the screen.
use vstd::prelude::*;

use crate::search;
use crate::terminal::{Cell, TermGrid};
use crate::text;

verus! {

/// How many rows of a terminal are read, from the last.
pub const ROWS_READ: usize = 96;

/// Whether a text holds another at a place.
pub open spec fn holds_at(chars: Seq<char>, needle: Seq<char>, at: int) -> bool {
    0 <= at && at + needle.len() <= chars.len() && chars.subrange(at, at + needle.len()) == needle
}

/// Whether a text holds another.
pub open spec fn holds(chars: Seq<char>, needle: Seq<char>) -> bool {
    exists|at: int| #[trigger] holds_at(chars, needle, at)
}

/// Whether a text holds another.
pub fn contains_text(chars: &[char], needle: &[char]) -> (found: bool)
    ensures
        found == holds(chars@, needle@),
{
    if needle.len() > chars.len() {
        return false;
    }
    let count: usize = chars.len();
    let last: usize = count - needle.len();
    let mut at: usize = 0;
    loop
        invariant
            at <= last,
            count == chars@.len(),
            last + needle@.len() == count,
            forall|i: int| 0 <= i < at ==> !(#[trigger] holds_at(chars@, needle@, i)),
        decreases last - at,
    {
        let mut matched: usize = 0;
        while matched < needle.len() && chars[at + matched] == needle[matched]
            invariant
                at <= last,
                count == chars@.len(),
                last + needle@.len() == count,
                matched <= needle@.len(),
                forall|i: int| 0 <= i < matched ==> chars@[at + i] == needle@[i],
            decreases needle@.len() - matched,
        {
            matched += 1;
        }
        if matched == needle.len() {
            assert(chars@.subrange(at as int, at + needle@.len()) =~= needle@);
            assert(holds_at(chars@, needle@, at as int));
            return true;
        }
        assert(!holds_at(chars@, needle@, at as int)) by {
            assert(chars@.subrange(at as int, at + needle@.len())[matched as int] == chars@[at
                + matched]);
        }
        if at == last {
            assert forall|i: int| !(#[trigger] holds_at(chars@, needle@, i)) by {
                if i > at {
                    assert(i + needle@.len() > chars@.len());
                }
            }
            return false;
        }
        at += 1;
    }
}

/// The rows of a terminal, those that have scrolled away before those on the screen.
pub open spec fn rows(grid: TermGrid) -> Seq<Vec<Cell>> {
    grid.scrollback@ + grid.lines@
}

/// Whether one of the last rows of a terminal holds a text.
pub open spec fn shows(grid: TermGrid, needle: Seq<char>) -> bool {
    exists|y: int|
        0 <= y < rows(grid).len() && rows(grid).len() <= y + ROWS_READ && holds(
            search::row_text(search::shown_cells((#[trigger] rows(grid)[y])@, grid.cols)),
            needle,
        )
}

/// Whether one of the last rows of a terminal holds a text.
pub fn active_grid_contains(grid: &TermGrid, needle: &str) -> (found: bool)
    requires
        rows(*grid).len() <= usize::MAX,
    ensures
        found == shows(*grid, needle@),
{
    let wanted = text::chars_of(needle);
    let scrolled: usize = grid.scrollback.len();
    let total: usize = scrolled + grid.lines.len();
    let first: usize = total.saturating_sub(ROWS_READ);
    let mut y: usize = first;
    while y < total
        invariant
            wanted@ == needle@,
            scrolled == grid.scrollback@.len(),
            total == rows(*grid).len(),
            first <= y <= total,
            first == if total > ROWS_READ {
                total - ROWS_READ
            } else {
                0
            },
            forall|i: int|
                first <= i < y ==> !holds(
                    search::row_text(
                        search::shown_cells((#[trigger] rows(*grid)[i])@, grid.cols),
                    ),
                    needle@,
                ),
        decreases total - y,
    {
        let row = if y < scrolled {
            &grid.scrollback[y]
        } else {
            &grid.lines[y - scrolled]
        };
        assert(*row == rows(*grid)[y as int]);
        let (line, _) = search::row_contents(row, grid.cols);
        let chars = text::chars_of(line.as_str());
        if contains_text(chars.as_slice(), wanted.as_slice()) {
            return true;
        }
        y += 1;
    }
    false
}

} // verus!
