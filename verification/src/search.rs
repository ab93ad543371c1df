//! Searching the rows of a terminal.
use vstd::prelude::*;
use vstd::utf8::*;

use crate::single_line_input;
use crate::single_line_input::SingleLineInput;
use crate::terminal;
use crate::terminal::{Cell, TermGrid};

pub mod laws;

verus! {

/// The most results that are kept.
pub const TERMINAL_SEARCH_MAX_RESULTS: usize = 65_536;

/// The least time between two scans that new output causes, in microseconds.
pub const TERMINAL_SEARCH_PASSIVE_REFRESH_INTERVAL_US: u64 = 75_000;

/// Whether a character has a meaning of its own in a regular expression.
pub open spec fn is_meta(c: char) -> bool {
    ||| c == '\\'
    ||| c == '.'
    ||| c == '+'
    ||| c == '*'
    ||| c == '?'
    ||| c == '('
    ||| c == ')'
    ||| c == '|'
    ||| c == '['
    ||| c == ']'
    ||| c == '{'
    ||| c == '}'
    ||| c == '^'
    ||| c == '$'
    ||| c == '#'
    ||| c == '&'
    ||| c == '-'
    ||| c == '~'
}

/// The regular expression of a literal text: a backslash stands before each character that has a
/// meaning of its own.
pub open spec fn escaped(chars: Seq<char>) -> Seq<char>
    decreases chars.len(),
{
    if chars.len() == 0 {
        Seq::empty()
    } else if is_meta(chars.last()) {
        escaped(chars.drop_last()).push('\\').push(chars.last())
    } else {
        escaped(chars.drop_last()).push(chars.last())
    }
}

/// `regex::escape` puts a backslash before each meta character and leaves the others.
#[verifier::external_body]
pub(crate) fn escape_literal(literal: &str) -> (pattern: String)
    ensures
        pattern@ == escaped(literal@),
{
    regex::escape(literal)
}

/// The byte ranges that a regular expression finds in a text; none where it cannot be compiled.
pub uninterp spec fn regex_found(pattern: Seq<char>, case_insensitive: bool, haystack: Seq<char>) -> Option<
    Seq<(usize, usize)>,
>;

/// Whether ranges lie in a text of `len` bytes, one after the other.
pub open spec fn ordered_ranges(ranges: Seq<(usize, usize)>, len: nat) -> bool {
    &&& forall|i: int| 0 <= i < ranges.len() ==> (#[trigger] ranges[i]).0 <= ranges[i].1 <= len
    &&& forall|i: int, j: int|
        0 <= i < j < ranges.len() ==> (#[trigger] ranges[i]).1 <= (#[trigger] ranges[j]).0
}

/// Whether a byte string stands in another one at a place.
pub open spec fn stands_at(haystack: Seq<u8>, needle: Seq<u8>, at: int) -> bool {
    &&& 0 <= at
    &&& at + needle.len() <= haystack.len()
    &&& haystack.subrange(at, at + needle.len()) == needle
}

/// Whether one of the ranges covers a byte.
pub open spec fn covers(ranges: Seq<(usize, usize)>, at: int) -> bool {
    exists|k: int| 0 <= k < ranges.len() && (#[trigger] ranges[k]).0 <= at < ranges[k].1
}

/// Compiles once with `regex::RegexBuilder` and walks `Regex::find_iter` in each text: what they find
/// is only named, but whether the expression can be compiled rests on it alone, the matches lie in
/// their text, in order and without overlap, and the expression of a literal text finds, where case
/// matters, that text alone. Every place of a literal text is covered by a match, whether case matters
/// or not.
#[verifier::external_body]
pub(crate) fn find_ranges(pattern: &str, case_insensitive: bool, texts: &Vec<String>) -> (found: Option<
    Vec<Vec<(usize, usize)>>,
>)
    ensures
        found is None ==> forall|text: Seq<char>|
            (#[trigger] regex_found(pattern@, case_insensitive, text)) is None,
        found matches Some(lists) ==> lists@.len() == texts@.len(),
        found matches Some(lists) ==> forall|i: int|
            0 <= i < lists@.len() ==> regex_found(pattern@, case_insensitive, texts@[i]@) == Some(
                (#[trigger] lists@[i])@,
            ),
        found matches Some(lists) ==> forall|i: int|
            0 <= i < lists@.len() ==> ordered_ranges(
                (#[trigger] lists@[i])@,
                encode_utf8(texts@[i]@).len(),
            ),
        found matches Some(lists) ==> !case_insensitive ==> forall|literal: Seq<char>, i: int, k: int|
            pattern@ == #[trigger] escaped(literal) && 0 <= i < lists@.len() && 0 <= k
                < lists@[i]@.len() ==> encode_utf8(texts@[i]@).subrange(
                (#[trigger] lists@[i]@[k]).0 as int,
                lists@[i]@[k].1 as int,
            ) == encode_utf8(literal),
        found matches Some(lists) ==> forall|literal: Seq<char>, i: int, at: int|
            pattern@ == #[trigger] escaped(literal) && literal.len() > 0 && 0 <= i < lists@.len()
                && stands_at(encode_utf8(texts@[i]@), encode_utf8(literal), at) ==> #[trigger] covers(
                lists@[i]@,
                at,
            ),
{
    let regex = regex::RegexBuilder::new(pattern).case_insensitive(case_insensitive).build().ok()?;
    let ranges_in = |text: &String| {
        regex.find_iter(text).map(|found| (found.start(), found.end())).collect()
    };
    Some(texts.iter().map(ranges_in).collect())
}

/// The columns that a character takes, by `unicode_width`; none for a control character.
pub uninterp spec fn char_width(c: char) -> Option<usize>;

/// `unicode_width::UnicodeWidthChar::width`: what it says of a character is only named.
#[verifier::external_body]
pub(crate) fn width_of(c: char) -> (width: Option<usize>)
    ensures
        width == char_width(c),
{
    unicode_width::UnicodeWidthChar::width(c)
}

/// The columns of a character in a terminal: two at most.
pub open spec fn cell_width(c: char) -> nat {
    match char_width(c) {
        Some(width) => if width < 2 {
            width as nat
        } else {
            2
        },
        None => 0,
    }
}

/// The columns of a text in a terminal.
pub open spec fn columns(chars: Seq<char>) -> nat
    decreases chars.len(),
{
    if chars.len() == 0 {
        0
    } else {
        columns(chars.drop_last()) + cell_width(chars.last())
    }
}

/// The columns of a text.
fn count_columns(chars: &str) -> (total: usize)
    requires
        2 * chars@.len() <= usize::MAX,
    ensures
        total == columns(chars@),
        total <= 2 * chars@.len(),
{
    let list = crate::text::chars_of(chars);
    let mut total: usize = 0;
    let mut i: usize = 0;
    while i < list.len()
        invariant
            i <= list@.len(),
            2 * list@.len() <= usize::MAX,
            total == columns(list@.take(i as int)),
            total <= 2 * i,
        decreases list@.len() - i,
    {
        assert(list@.take(i + 1).drop_last() =~= list@.take(i as int));
        let width: usize = match width_of(list[i]) {
            Some(width) => if width < 2 {
                width
            } else {
                2
            },
            None => 0,
        };
        total += width;
        i += 1;
    }
    assert(list@.take(i as int) =~= list@);
    total
}

/// The columns from the first to the last that a byte range of a line covers; none where the range
/// is empty or does not lie between characters of the line.
pub fn terminal_match_cell_range(line: &str, match_start: usize, match_end: usize) -> (range: Option<
    (usize, usize),
>)
    requires
        2 * line@.len() < usize::MAX,
    ensures
        ({
            let bytes = encode_utf8(line@);
            let valid = match_start < match_end <= bytes.len() && is_char_boundary(
                bytes,
                match_start as int,
            ) && is_char_boundary(bytes, match_end as int);
            let start = columns(decode_utf8(bytes.take(match_start as int)));
            let width = columns(decode_utf8(bytes.subrange(match_start as int, match_end as int)));
            &&& range is Some <==> valid
            &&& valid ==> range->0 == (
                start as usize,
                (start + (if width > 0 {
                    width
                } else {
                    1
                }) - 1) as usize,
            )
            &&& valid ==> start + width <= 2 * line@.len()
        }),
{
    broadcast use group_utf8_lib;

    let ghost bytes = encode_utf8(line@);
    if match_start >= match_end || match_end > line.as_bytes().len() || !line.is_char_boundary(
        match_start,
    ) || !line.is_char_boundary(match_end) {
        return None;
    }
    let (head, _) = line.split_at(match_end);
    proof {
        assert(encode_utf8(head@) =~= bytes.take(match_end as int));
        boundary_in_prefix(bytes, match_start as int, match_end as int);
    }
    let (before, matched) = head.split_at(match_start);
    proof {
        assert(encode_utf8(before@) =~= bytes.take(match_start as int));
        assert(encode_utf8(matched@) =~= bytes.subrange(match_start as int, match_end as int));
        encode_utf8_decode_utf8(before@);
        encode_utf8_decode_utf8(matched@);
        encode_utf8_decode_utf8(head@);
        encode_utf8_decode_utf8(line@);
        decode_utf8_split(encode_utf8(head@), match_start as int);
        decode_utf8_split(bytes, match_end as int);
    }
    let start_col: usize = count_columns(before);
    let matched_width: usize = count_columns(matched);
    let width: usize = if matched_width > 0 {
        matched_width
    } else {
        1
    };
    Some((start_col, start_col + width - 1))
}

/// A boundary between characters of a text is one of its start too.
proof fn boundary_in_prefix(bytes: Seq<u8>, index: int, end: int)
    requires
        valid_utf8(bytes),
        0 <= index < end <= bytes.len(),
        is_char_boundary(bytes, index),
        is_char_boundary(bytes, end),
    ensures
        valid_utf8(bytes.take(end)),
        is_char_boundary(bytes.take(end), index),
{
    broadcast use group_utf8_lib;

    valid_utf8_split(bytes, end);
    assert(bytes.take(end) =~= bytes.subrange(0, end));
    is_char_boundary_iff_not_is_continuation_byte(bytes, index);
    is_char_boundary_iff_not_is_continuation_byte(bytes.take(end), index);
}

/// A stretch of cells that a search found: its row, and its columns from the first to the last.
#[derive(Clone, Copy, Debug, PartialEq, Eq, Structural)]
pub struct TerminalSearchMatch {
    pub start_x: usize,
    pub y: usize,
    pub end_x: usize,
}

impl TerminalSearchMatch {
    /// Whether this match comes before `other`: by row, then by first column, then by last.
    pub open spec fn before(self, other: TerminalSearchMatch) -> bool {
        ||| self.y < other.y
        ||| self.y == other.y && self.start_x < other.start_x
        ||| self.y == other.y && self.start_x == other.start_x && self.end_x < other.end_x
    }

    /// Whether this match comes before `other`.
    fn comes_before(self, other: TerminalSearchMatch) -> (before: bool)
        ensures
            before == self.before(other),
    {
        self.y < other.y || (self.y == other.y && (self.start_x < other.start_x || (self.start_x
            == other.start_x && self.end_x < other.end_x)))
    }
}

/// What matches are ordered by: row, first column, last column.
pub fn terminal_search_match_key(item: &TerminalSearchMatch) -> (key: (usize, usize, usize))
    ensures
        key == (item.y, item.start_x, item.end_x),
{
    (item.y, item.start_x, item.end_x)
}

/// Whether matches stand in order.
pub open spec fn in_order(results: Seq<TerminalSearchMatch>) -> bool {
    forall|i: int, j: int|
        0 <= i < j < results.len() ==> !(#[trigger] results[j]).before(#[trigger] results[i])
}

/// The number of matches that come before `target` at the start of the list.
pub open spec fn first_not_before(
    results: Seq<TerminalSearchMatch>,
    target: TerminalSearchMatch,
) -> int
    decreases results.len(),
{
    if results.len() == 0 || !results[0].before(target) {
        0
    } else {
        1 + first_not_before(results.skip(1), target)
    }
}

/// In a list in order, the place of `target` parts what comes before it from what does not.
proof fn first_not_before_parts(
    results: Seq<TerminalSearchMatch>,
    target: TerminalSearchMatch,
    place: int,
)
    requires
        0 <= place <= results.len(),
        forall|i: int| 0 <= i < place ==> (#[trigger] results[i]).before(target),
        place < results.len() ==> !results[place].before(target),
    ensures
        first_not_before(results, target) == place,
    decreases results.len(),
{
    if results.len() > 0 && results[0].before(target) {
        assert(place > 0);
        let rest = results.skip(1);
        assert forall|i: int| 0 <= i < place - 1 implies (#[trigger] rest[i]).before(target) by {
            assert(rest[i] == results[i + 1]);
        }
        if place < results.len() {
            assert(rest[place - 1] == results[place]);
        }
        first_not_before_parts(rest, target, place - 1);
    }
}

/// Where `target` stands among results in order, or else where it would stand.
pub open spec fn position(
    results: Seq<TerminalSearchMatch>,
    target: TerminalSearchMatch,
) -> Result<int, int> {
    let place = first_not_before(results, target);
    if place < results.len() && results[place] == target {
        Ok(place)
    } else {
        Err(place)
    }
}

/// Where `target` stands among results in order, or else where it would stand.
pub fn terminal_search_result_position(
    results: &[TerminalSearchMatch],
    target: TerminalSearchMatch,
) -> (found: Result<usize, usize>)
    requires
        in_order(results@),
    ensures
        match position(results@, target) {
            Ok(place) => found == Ok::<usize, usize>(place as usize) && 0 <= place < results@.len(),
            Err(place) => found == Err::<usize, usize>(place as usize) && 0 <= place
                <= results@.len(),
        },
{
    let mut low: usize = 0;
    let mut high: usize = results.len();
    while low < high
        invariant
            low <= high <= results@.len(),
            in_order(results@),
            forall|i: int| 0 <= i < low ==> (#[trigger] results@[i]).before(target),
            forall|i: int| high <= i < results@.len() ==> !(#[trigger] results@[i]).before(target),
        decreases high - low,
    {
        let middle: usize = low + (high - low) / 2;
        if results[middle].comes_before(target) {
            assert forall|i: int| 0 <= i < middle + 1 implies (#[trigger] results@[i]).before(
                target,
            ) by {
                if i < middle {
                    assert(!results@[middle as int].before(results@[i]));
                }
            }
            low = middle + 1;
        } else {
            assert forall|i: int| middle <= i < results@.len() implies !(#[trigger] results@[i]).before(
                target,
            ) by {
                if i > middle {
                    assert(!results@[i].before(results@[middle as int]));
                }
            }
            high = middle;
        }
    }
    proof {
        first_not_before_parts(results@, target, low as int);
    }
    if low < results.len() && results[low] == target {
        Ok(low)
    } else {
        Err(low)
    }
}

/// The text of cells.
pub open spec fn row_text(cells: Seq<Cell>) -> Seq<char>
    decreases cells.len(),
{
    if cells.len() == 0 {
        Seq::empty()
    } else {
        row_text(cells.drop_last()) + cells.last().text@
    }
}

/// The cell of each byte of the text of cells.
pub open spec fn byte_cells(cells: Seq<Cell>) -> Seq<usize>
    decreases cells.len(),
{
    if cells.len() == 0 {
        Seq::empty()
    } else {
        byte_cells(cells.drop_last()) + Seq::new(
            encode_utf8(cells.last().text@).len(),
            |i: int| (cells.len() - 1) as usize,
        )
    }
}

/// The cells of a row that are shown.
pub open spec fn shown_cells(row: Seq<Cell>, cols: usize) -> Seq<Cell> {
    if row.len() < cols {
        row
    } else {
        row.take(cols as int)
    }
}

/// Encoding goes through a concatenation.
pub proof fn encode_utf8_concat(a: Seq<char>, b: Seq<char>)
    ensures
        encode_utf8(a + b) == encode_utf8(a) + encode_utf8(b),
    decreases a.len(),
{
    if a.len() == 0 {
        assert(a + b =~= b);
        assert(encode_utf8(a) + encode_utf8(b) =~= encode_utf8(b));
    } else {
        encode_utf8_concat(a.drop_first(), b);
        assert((a + b).drop_first() =~= a.drop_first() + b);
        assert(encode_utf8(a + b) =~= encode_utf8(a) + encode_utf8(b));
    }
}

/// A text that is not empty has bytes.
proof fn encoded_char_is_not_empty(chars: Seq<char>)
    requires
        chars.len() > 0,
    ensures
        encode_utf8(chars).len() > 0,
{
}

/// Every byte of a row's text belongs to one of its cells, and the cells come in the order of their
/// bytes.
pub proof fn bytes_have_cells(cells: Seq<Cell>)
    requires
        cells.len() <= usize::MAX,
    ensures
        byte_cells(cells).len() == encode_utf8(row_text(cells)).len(),
        forall|i: int| 0 <= i < byte_cells(cells).len() ==> #[trigger] byte_cells(cells)[i]
            < cells.len(),
        forall|i: int, j: int|
            0 <= i <= j < byte_cells(cells).len() ==> #[trigger] byte_cells(cells)[i]
                <= #[trigger] byte_cells(cells)[j],
    decreases cells.len(),
{
    if cells.len() > 0 {
        bytes_have_cells(cells.drop_last());
        encode_utf8_concat(row_text(cells.drop_last()), cells.last().text@);
    }
}

/// The cells from the first to the last that a byte range covers, by the cell of each byte; none
/// where the range is empty or leaves the text.
pub open spec fn cell_range(cells: Seq<usize>, start: usize, end: usize) -> Option<(usize, usize)> {
    if start < end <= cells.len() {
        Some((cells[start as int], cells[end - 1]))
    } else {
        None
    }
}

/// The cells from the first to the last that a byte range covers.
pub fn terminal_match_cell_range_from_map(cells: &[usize], match_start: usize, match_end: usize) -> (range:
    Option<(usize, usize)>)
    ensures
        range == cell_range(cells@, match_start, match_end),
{
    if match_start >= match_end || match_end > cells.len() {
        return None;
    }
    Some((cells[match_start], cells[match_end - 1]))
}

/// The matches of a row, by the byte ranges that were found in its text.
pub open spec fn row_found(cells: Seq<usize>, ranges: Seq<(usize, usize)>, y: usize) -> Seq<
    TerminalSearchMatch,
>
    decreases ranges.len(),
{
    if ranges.len() == 0 {
        Seq::empty()
    } else {
        let before = row_found(cells, ranges.drop_last(), y);
        match cell_range(cells, ranges.last().0, ranges.last().1) {
            Some((start_x, end_x)) => before.push(TerminalSearchMatch { start_x, y, end_x }),
            None => before,
        }
    }
}

/// At most the number of results that is kept.
pub open spec fn capped(found: Seq<TerminalSearchMatch>) -> Seq<TerminalSearchMatch> {
    if found.len() <= TERMINAL_SEARCH_MAX_RESULTS {
        found
    } else {
        found.take(TERMINAL_SEARCH_MAX_RESULTS as int)
    }
}

/// Adds the matches of a row to the results, as far as they are kept. Whether there is room for more.
pub fn collect_row_matches(
    results: &mut Vec<TerminalSearchMatch>,
    cells: &[usize],
    ranges: &[(usize, usize)],
    y: usize,
) -> (room: bool)
    requires
        old(results)@.len() < TERMINAL_SEARCH_MAX_RESULTS,
    ensures
        final(results)@ == capped(old(results)@ + row_found(cells@, ranges@, y)),
        room == (final(results)@.len() < TERMINAL_SEARCH_MAX_RESULTS),
{
    let ghost before = results@;
    let mut i: usize = 0;
    assert(results@ =~= before + row_found(cells@, ranges@.take(0), y));
    while i < ranges.len()
        invariant
            i <= ranges@.len(),
            before == old(results)@,
            results@.len() < TERMINAL_SEARCH_MAX_RESULTS,
            results@ == before + row_found(cells@, ranges@.take(i as int), y),
        decreases ranges@.len() - i,
    {
        assert(ranges@.take(i + 1).drop_last() =~= ranges@.take(i as int));
        let (match_start, match_end) = ranges[i];
        if let Some((start_x, end_x)) = terminal_match_cell_range_from_map(
            cells,
            match_start,
            match_end,
        ) {
            results.push(TerminalSearchMatch { start_x, y, end_x });
            assert(results@ =~= before + row_found(cells@, ranges@.take(i + 1), y));
            if results.len() >= TERMINAL_SEARCH_MAX_RESULTS {
                proof {
                    row_found_prefix(cells@, ranges@, y, i + 1);
                    let part = row_found(cells@, ranges@.take(i + 1), y);
                    let whole = row_found(cells@, ranges@, y);
                    let all = before + whole;
                    assert(all.take(TERMINAL_SEARCH_MAX_RESULTS as int) =~= before + whole.take(
                        part.len() as int,
                    ));
                    assert(all.take(TERMINAL_SEARCH_MAX_RESULTS as int) =~= results@);
                    if all.len() == TERMINAL_SEARCH_MAX_RESULTS {
                        assert(all =~= results@);
                    }
                }
                return false;
            }
        }
        i += 1;
    }
    assert(ranges@.take(i as int) =~= ranges@);
    true
}

/// The matches of the first ranges come first.
proof fn row_found_prefix(cells: Seq<usize>, ranges: Seq<(usize, usize)>, y: usize, len: int)
    requires
        0 <= len <= ranges.len(),
    ensures
        row_found(cells, ranges.take(len), y).len() <= row_found(cells, ranges, y).len(),
        row_found(cells, ranges, y).take(row_found(cells, ranges.take(len), y).len() as int)
            == row_found(cells, ranges.take(len), y),
    decreases ranges.len(),
{
    let part = row_found(cells, ranges.take(len), y);
    let all = row_found(cells, ranges, y);
    if len == ranges.len() {
        assert(ranges.take(len) =~= ranges);
        assert(all.take(part.len() as int) =~= part);
    } else {
        row_found_prefix(cells, ranges.drop_last(), y, len);
        assert(ranges.drop_last().take(len) =~= ranges.take(len));
        let shorter = row_found(cells, ranges.drop_last(), y);
        assert(all.take(part.len() as int) =~= shorter.take(part.len() as int));
    }
}

/// The matches of one row stand in order, in that row.
proof fn row_found_in_order(cells: Seq<usize>, ranges: Seq<(usize, usize)>, y: usize)
    requires
        ordered_ranges(ranges, cells.len()),
        forall|i: int, j: int|
            0 <= i <= j < cells.len() ==> #[trigger] cells[i] <= #[trigger] cells[j],
    ensures
        in_order(row_found(cells, ranges, y)),
        forall|i: int|
            0 <= i < row_found(cells, ranges, y).len() ==> {
                let item = #[trigger] row_found(cells, ranges, y)[i];
                item.y == y && exists|k: int|
                    0 <= k < ranges.len() && cell_range(cells, (#[trigger] ranges[k]).0, ranges[k].1)
                        == Some((item.start_x, item.end_x))
            },
    decreases ranges.len(),
{
    if ranges.len() > 0 {
        let shorter = ranges.drop_last();
        let last = ranges.last();
        assert forall|i: int| 0 <= i < shorter.len() implies (#[trigger] shorter[i]).0 <= shorter[i].1
            <= cells.len() by {
            assert(shorter[i] == ranges[i]);
        }
        assert forall|i: int, j: int| 0 <= i < j < shorter.len() implies (#[trigger] shorter[i]).1 <= (
        #[trigger] shorter[j]).0 by {
            assert(shorter[i] == ranges[i] && shorter[j] == ranges[j]);
        }
        row_found_in_order(cells, shorter, y);
        let before = row_found(cells, shorter, y);
        let all = row_found(cells, ranges, y);
        assert forall|i: int| 0 <= i < all.len() implies {
            let item = #[trigger] all[i];
            item.y == y && exists|k: int|
                0 <= k < ranges.len() && cell_range(cells, (#[trigger] ranges[k]).0, ranges[k].1)
                    == Some((item.start_x, item.end_x))
        } by {
            if i < before.len() {
                assert(all[i] == before[i]);
                let k = choose|k: int|
                    0 <= k < shorter.len() && cell_range(
                        cells,
                        (#[trigger] shorter[k]).0,
                        shorter[k].1,
                    ) == Some((before[i].start_x, before[i].end_x));
                assert(ranges[k] == shorter[k]);
            } else {
                assert(ranges[ranges.len() - 1] == last);
            }
        }
        assert forall|i: int, j: int| 0 <= i < j < all.len() implies !(#[trigger] all[j]).before(
            #[trigger] all[i],
        ) by {
            if j < before.len() {
                assert(all[i] == before[i] && all[j] == before[j]);
            } else {
                assert(all[i] == before[i]);
                let k = choose|k: int|
                    0 <= k < shorter.len() && cell_range(
                        cells,
                        (#[trigger] shorter[k]).0,
                        shorter[k].1,
                    ) == Some((before[i].start_x, before[i].end_x));
                assert(ranges[k] == shorter[k] && ranges[ranges.len() - 1] == last);
                assert(ranges[k].1 <= last.0);
                assert(cells[ranges[k].0 as int] <= cells[last.0 as int]);
                assert(cells[ranges[k].1 - 1] <= cells[last.1 - 1]);
            }
        }
    }
}

/// The byte ranges that are found in a text; none where the expression cannot be compiled.
pub open spec fn ranges_in(pattern: Seq<char>, case_insensitive: bool, haystack: Seq<char>) -> Seq<
    (usize, usize),
> {
    match regex_found(pattern, case_insensitive, haystack) {
        Some(ranges) => ranges,
        None => Seq::empty(),
    }
}

/// The matches in the first `count` rows.
pub open spec fn found_in(
    rows: Seq<Vec<Cell>>,
    cols: usize,
    pattern: Seq<char>,
    case_insensitive: bool,
    count: nat,
) -> Seq<TerminalSearchMatch>
    decreases count,
{
    if count == 0 {
        Seq::empty()
    } else {
        let y = (count - 1) as nat;
        let cells = shown_cells(rows[y as int]@, cols);
        found_in(rows, cols, pattern, case_insensitive, y) + row_found(
            byte_cells(cells),
            ranges_in(pattern, case_insensitive, row_text(cells)),
            y as usize,
        )
    }
}

/// What a search finds: the matches of the query in the rows, in order, as far as they are kept.
pub open spec fn search_results(grid: TermGrid, query: Seq<char>, case_sensitive: bool) -> Seq<
    TerminalSearchMatch,
> {
    if query.len() == 0 {
        Seq::empty()
    } else {
        capped(
            found_in(
                terminal::all_rows(grid),
                grid.cols,
                escaped(query),
                !case_sensitive,
                terminal::all_rows(grid).len(),
            ),
        )
    }
}

/// The matches of fewer rows come first.
proof fn found_in_prefix(
    rows: Seq<Vec<Cell>>,
    cols: usize,
    pattern: Seq<char>,
    case_insensitive: bool,
    count: nat,
    total: nat,
)
    requires
        count <= total,
    ensures
        found_in(rows, cols, pattern, case_insensitive, count).len() <= found_in(
            rows,
            cols,
            pattern,
            case_insensitive,
            total,
        ).len(),
        found_in(rows, cols, pattern, case_insensitive, total).take(
            found_in(rows, cols, pattern, case_insensitive, count).len() as int,
        ) == found_in(rows, cols, pattern, case_insensitive, count),
    decreases total,
{
    let part = found_in(rows, cols, pattern, case_insensitive, count);
    let all = found_in(rows, cols, pattern, case_insensitive, total);
    if count == total {
        assert(all.take(part.len() as int) =~= part);
    } else {
        let less = (total - 1) as nat;
        found_in_prefix(rows, cols, pattern, case_insensitive, count, less);
        let shorter = found_in(rows, cols, pattern, case_insensitive, less);
        assert(all.take(part.len() as int) =~= shorter.take(part.len() as int));
    }
}

/// The text of the cells of a row that are shown, and the cell of each of its bytes.
pub(crate) fn row_contents(row: &Vec<Cell>, cols: usize) -> (contents: (String, Vec<usize>))
    ensures
        contents.0@ == row_text(shown_cells(row@, cols)),
        contents.1@ == byte_cells(shown_cells(row@, cols)),
{
    let ghost shown = shown_cells(row@, cols);
    let count: usize = if row.len() < cols {
        row.len()
    } else {
        cols
    };
    let mut line = String::new();
    let mut cells: Vec<usize> = Vec::new();
    let mut x: usize = 0;
    assert(line@ =~= row_text(shown.take(0)));
    assert(cells@ =~= byte_cells(shown.take(0)));
    while x < count
        invariant
            x <= count == shown.len(),
            count <= row@.len(),
            forall|i: int| 0 <= i < count ==> shown[i] == row@[i],
            line@ == row_text(shown.take(x as int)),
            cells@ == byte_cells(shown.take(x as int)),
        decreases count - x,
    {
        proof {
            assert(shown.take(x + 1).drop_last() =~= shown.take(x as int));
        }
        line.push_str(row[x].text.as_str());
        let len: usize = row[x].text.as_str().as_bytes().len();
        let ghost before = cells@;
        let mut i: usize = 0;
        while i < len
            invariant
                i <= len,
                cells@ == before + Seq::new(i as nat, |k: int| x),
            decreases len - i,
        {
            cells.push(x);
            i += 1;
            assert(cells@ =~= before + Seq::new(i as nat, |k: int| x));
        }
        proof {
            assert(cells@ =~= byte_cells(shown.take(x + 1)));
        }
        x += 1;
    }
    assert(shown.take(x as int) =~= shown);
    (line, cells)
}

/// Whether the cells of a match show a text: some bytes of the row spell it, and they belong to the
/// cells from the first to the last.
pub open spec fn shows_text(grid: TermGrid, found: TerminalSearchMatch, literal: Seq<char>) -> bool {
    let cells = shown_cells(terminal::all_rows(grid)[found.y as int]@, grid.cols);
    exists|start: usize, end: usize|
        #[trigger] cell_range(byte_cells(cells), start, end) == Some((found.start_x, found.end_x))
            && encode_utf8(row_text(cells)).subrange(start as int, end as int) == encode_utf8(
            literal,
        )
}

/// An expression that cannot be compiled finds nothing.
proof fn nothing_found(
    rows: Seq<Vec<Cell>>,
    cols: usize,
    pattern: Seq<char>,
    case_insensitive: bool,
    count: nat,
)
    requires
        forall|text: Seq<char>|
            (#[trigger] regex_found(pattern, case_insensitive, text)) is None,
    ensures
        found_in(rows, cols, pattern, case_insensitive, count).len() == 0,
    decreases count,
{
    if count > 0 {
        nothing_found(rows, cols, pattern, case_insensitive, (count - 1) as nat);
    }
}

/// The cells of a row that are searched.
pub open spec fn searched_cells(grid: TermGrid, y: int) -> Seq<Cell> {
    shown_cells(terminal::all_rows(grid)[y]@, grid.cols)
}

/// Whether one of the results covers a cell.
pub open spec fn result_covers(results: Seq<TerminalSearchMatch>, x: usize, y: int) -> bool {
    exists|i: int|
        0 <= i < results.len() && (#[trigger] results[i]).y == y && results[i].start_x <= x
            <= results[i].end_x
}

/// Whether every place of the first rows at which a text stands, letter for letter, has a result over
/// it, in the rows that could be searched.
pub open spec fn marked(
    grid: TermGrid,
    results: Seq<TerminalSearchMatch>,
    literal: Seq<char>,
    case_sensitive: bool,
    count: int,
) -> bool {
    forall|y: int, at: int|
        0 <= y < count && (regex_found(
            escaped(literal),
            !case_sensitive,
            row_text(searched_cells(grid, y)),
        ) is Some) && #[trigger] stands_at(
            encode_utf8(row_text(searched_cells(grid, y))),
            encode_utf8(literal),
            at,
        ) ==> result_covers(results, byte_cells(searched_cells(grid, y))[at], y)
}

/// A byte that a range covers has its cell covered by the match of the range.
proof fn covered_byte_is_marked(
    cells: Seq<usize>,
    ranges: Seq<(usize, usize)>,
    y: usize,
    at: int,
)
    requires
        ordered_ranges(ranges, cells.len()),
        forall|i: int, j: int|
            0 <= i <= j < cells.len() ==> #[trigger] cells[i] <= #[trigger] cells[j],
        0 <= at < cells.len(),
        covers(ranges, at),
    ensures
        result_covers(row_found(cells, ranges, y), cells[at], y as int),
    decreases ranges.len(),
{
    let k = choose|k: int| 0 <= k < ranges.len() && (#[trigger] ranges[k]).0 <= at < ranges[k].1;
    let shorter = ranges.drop_last();
    let before = row_found(cells, shorter, y);
    let all = row_found(cells, ranges, y);
    if k == ranges.len() - 1 {
        let start = ranges[k].0;
        let end = ranges[k].1;
        assert(cells[start as int] <= cells[at] <= cells[end - 1]);
        assert(all[all.len() - 1].start_x == cells[start as int]);
        assert(all[all.len() - 1].end_x == cells[end - 1]);
    } else {
        assert forall|i: int| 0 <= i < shorter.len() implies (#[trigger] shorter[i]).0 <= shorter[i].1
            <= cells.len() by {
            assert(shorter[i] == ranges[i]);
        }
        assert forall|i: int, j: int| 0 <= i < j < shorter.len() implies (#[trigger] shorter[i]).1 <= (
        #[trigger] shorter[j]).0 by {
            assert(shorter[i] == ranges[i] && shorter[j] == ranges[j]);
        }
        assert(shorter[k] == ranges[k]);
        covered_byte_is_marked(cells, shorter, y, at);
        let i = choose|i: int|
            0 <= i < before.len() && (#[trigger] before[i]).y == y && before[i].start_x <= cells[at]
                <= before[i].end_x;
        assert(all[i] == before[i]);
    }
}

/// The texts of the rows that are searched.
fn row_texts(grid: &TermGrid) -> (texts: Vec<String>)
    requires
        grid.wf(),
    ensures
        texts@.len() == terminal::all_rows(*grid).len(),
        forall|y: int|
            0 <= y < texts@.len() ==> (#[trigger] texts@[y])@ == row_text(searched_cells(*grid, y)),
{
    let total_lines: usize = grid.total_lines();
    let mut texts: Vec<String> = Vec::new();
    let mut y: usize = 0;
    while y < total_lines
        invariant
            grid.wf(),
            y <= total_lines == terminal::all_rows(*grid).len(),
            texts@.len() == y,
            forall|i: int|
                0 <= i < y ==> (#[trigger] texts@[i])@ == row_text(searched_cells(*grid, i)),
        decreases total_lines - y,
    {
        if let Some(row) = grid.row(y) {
            let (line, _) = row_contents(row, grid.cols);
            texts.push(line);
        }
        y += 1;
    }
    texts
}

/// Adds the matches of a row to the results, as far as they are kept. Whether there is room for more.
fn collect_grid_row(
    results: &mut Vec<TerminalSearchMatch>,
    grid: &TermGrid,
    ranges: &Vec<(usize, usize)>,
    y: usize,
) -> (room: bool)
    requires
        grid.wf(),
        y < terminal::all_rows(*grid).len(),
        old(results)@.len() < TERMINAL_SEARCH_MAX_RESULTS,
    ensures
        final(results)@ == capped(
            old(results)@ + row_found(byte_cells(searched_cells(*grid, y as int)), ranges@, y),
        ),
        room == (final(results)@.len() < TERMINAL_SEARCH_MAX_RESULTS),
{
    if ranges.len() == 0 {
        assert(results@ + row_found(byte_cells(searched_cells(*grid, y as int)), ranges@, y)
            =~= results@);
        return true;
    }
    match grid.row(y) {
        Some(row) => {
            let (_, cells) = row_contents(row, grid.cols);
            collect_row_matches(results, cells.as_slice(), ranges.as_slice(), y)
        },
        None => true,
    }
}

/// What the results keep when those of a row are added to them.
proof fn row_extends(
    grid: TermGrid,
    before: Seq<TerminalSearchMatch>,
    after: Seq<TerminalSearchMatch>,
    ranges: Seq<(usize, usize)>,
    y: usize,
    literal: Seq<char>,
    case_sensitive: bool,
)
    requires
        grid.wf(),
        y < terminal::all_rows(grid).len(),
        before.len() < TERMINAL_SEARCH_MAX_RESULTS,
        after == capped(before + row_found(byte_cells(searched_cells(grid, y as int)), ranges, y)),
        in_order(before),
        forall|i: int| 0 <= i < before.len() ==> (#[trigger] before[i]).y < y,
        ordered_ranges(ranges, encode_utf8(row_text(searched_cells(grid, y as int))).len()),
        case_sensitive ==> forall|i: int|
            0 <= i < before.len() ==> shows_text(grid, #[trigger] before[i], literal),
        case_sensitive ==> forall|k: int|
            0 <= k < ranges.len() ==> encode_utf8(
                row_text(searched_cells(grid, y as int)),
            ).subrange((#[trigger] ranges[k]).0 as int, ranges[k].1 as int) == encode_utf8(literal),
        marked(grid, before, literal, case_sensitive, y as int),
        forall|at: int|
            stands_at(
                encode_utf8(row_text(searched_cells(grid, y as int))),
                encode_utf8(literal),
                at,
            ) ==> #[trigger] covers(ranges, at),
        encode_utf8(literal).len() > 0,
    ensures
        in_order(after),
        forall|i: int| 0 <= i < after.len() ==> (#[trigger] after[i]).y < y + 1,
        case_sensitive ==> forall|i: int|
            0 <= i < after.len() ==> shows_text(grid, #[trigger] after[i], literal),
        after.len() < TERMINAL_SEARCH_MAX_RESULTS ==> marked(
            grid,
            after,
            literal,
            case_sensitive,
            y + 1,
        ),
{
    let shown = searched_cells(grid, y as int);
    let cells = byte_cells(shown);
    let more = row_found(cells, ranges, y);
    let all = before + more;
    bytes_have_cells(shown);
    row_found_in_order(cells, ranges, y);
    assert forall|i: int, j: int| 0 <= i < j < after.len() implies !(#[trigger] after[j]).before(
        #[trigger] after[i],
    ) by {
        assert(after[i] == all[i] && after[j] == all[j]);
        if i >= before.len() {
            assert(all[i] == more[i - before.len()]);
            assert(all[j] == more[j - before.len()]);
        } else if j >= before.len() {
            assert(all[j] == more[j - before.len()]);
            assert(all[i].y < y && all[j].y == y);
        }
    }
    assert forall|i: int| 0 <= i < after.len() implies (#[trigger] after[i]).y < y + 1 by {
        assert(after[i] == all[i]);
        if i >= before.len() {
            assert(all[i] == more[i - before.len()]);
        }
    }
    assert forall|i: int| case_sensitive && 0 <= i < after.len() implies shows_text(
        grid,
        #[trigger] after[i],
        literal,
    ) by {
        assert(after[i] == all[i]);
        if i >= before.len() {
            let item = more[i - before.len()];
            assert(all[i] == item);
            let k = choose|k: int|
                0 <= k < ranges.len() && cell_range(cells, (#[trigger] ranges[k]).0, ranges[k].1)
                    == Some((item.start_x, item.end_x));
            assert(cell_range(byte_cells(shown), ranges[k].0, ranges[k].1) == Some(
                (item.start_x, item.end_x),
            ));
        } else {
            assert(all[i] == before[i]);
        }
    }
    if after.len() < TERMINAL_SEARCH_MAX_RESULTS {
        assert(after =~= all);
        assert forall|row: int, at: int|
            0 <= row < y + 1 && (regex_found(
                escaped(literal),
                !case_sensitive,
                row_text(searched_cells(grid, row)),
            ) is Some) && #[trigger] stands_at(
                encode_utf8(row_text(searched_cells(grid, row))),
                encode_utf8(literal),
                at,
            ) implies result_covers(after, byte_cells(searched_cells(grid, row))[at], row) by {
            if row < y {
                let x = byte_cells(searched_cells(grid, row))[at];
                assert(result_covers(before, x, row));
                let i = choose|i: int|
                    0 <= i < before.len() && (#[trigger] before[i]).y == row && before[i].start_x
                        <= x <= before[i].end_x;
                assert(after[i] == before[i]);
            } else {
                assert(covers(ranges, at));
                covered_byte_is_marked(cells, ranges, y, at);
                let i = choose|i: int|
                    0 <= i < more.len() && (#[trigger] more[i]).y == y && more[i].start_x <= cells[at]
                        <= more[i].end_x;
                assert(after[before.len() + i] == more[i]);
            }
        }
    }
}

/// Searches the rows for a query. Where the case of letters matters, what is found shows the query. As
/// long as there are not too many results, every place of the query has one over it, whether the case
/// of letters matters or not.
pub fn scan_rows(grid: &TermGrid, query: &str, case_sensitive: bool) -> (results: Vec<
    TerminalSearchMatch,
>)
    requires
        grid.wf(),
    ensures
        results@ == search_results(*grid, query@, case_sensitive),
        results@.len() <= TERMINAL_SEARCH_MAX_RESULTS,
        in_order(results@),
        forall|i: int| 0 <= i < results@.len() ==> (#[trigger] results@[i]).y < terminal::all_rows(
            *grid,
        ).len(),
        case_sensitive ==> forall|i: int|
            0 <= i < results@.len() ==> shows_text(*grid, #[trigger] results@[i], query@),
        query@.len() > 0 && results@.len() < TERMINAL_SEARCH_MAX_RESULTS ==> marked(
            *grid,
            results@,
            query@,
            case_sensitive,
            terminal::all_rows(*grid).len() as int,
        ),
{
    let mut results: Vec<TerminalSearchMatch> = Vec::new();
    if query.is_empty() {
        assert(results@ =~= Seq::empty());
        return results;
    }
    let pattern = escape_literal(query);
    let ghost rows = terminal::all_rows(*grid);
    let texts = row_texts(grid);
    let found = find_ranges(pattern.as_str(), !case_sensitive, &texts);
    let lists = match found {
        Some(lists) => lists,
        None => {
            proof {
                nothing_found(rows, grid.cols, pattern@, !case_sensitive, rows.len());
                assert(results@ =~= search_results(*grid, query@, case_sensitive));
            }
            return results;
        },
    };
    proof {
        encoded_char_is_not_empty(query@);
    }
    let mut y: usize = 0;
    let mut room = true;
    assert(results@ =~= found_in(rows, grid.cols, pattern@, !case_sensitive, 0));
    while y < lists.len() && room
        invariant
            grid.wf(),
            rows == terminal::all_rows(*grid),
            y <= lists@.len() == texts@.len() == rows.len(),
            pattern@ == escaped(query@),
            encode_utf8(query@).len() > 0,
            query@.len() > 0,
            forall|i: int|
                0 <= i < texts@.len() ==> (#[trigger] texts@[i])@ == row_text(searched_cells(*grid, i)),
            forall|i: int|
                0 <= i < lists@.len() ==> regex_found(pattern@, !case_sensitive, texts@[i]@) == Some(
                    (#[trigger] lists@[i])@,
                ),
            forall|i: int|
                0 <= i < lists@.len() ==> ordered_ranges(
                    (#[trigger] lists@[i])@,
                    encode_utf8(texts@[i]@).len(),
                ),
            case_sensitive ==> forall|literal: Seq<char>, i: int, k: int|
                pattern@ == #[trigger] escaped(literal) && 0 <= i < lists@.len() && 0 <= k
                    < lists@[i]@.len() ==> encode_utf8(texts@[i]@).subrange(
                    (#[trigger] lists@[i]@[k]).0 as int,
                    lists@[i]@[k].1 as int,
                ) == encode_utf8(literal),
            forall|literal: Seq<char>, i: int, at: int|
                pattern@ == #[trigger] escaped(literal) && literal.len() > 0 && 0 <= i < lists@.len()
                    && stands_at(encode_utf8(texts@[i]@), encode_utf8(literal), at)
                    ==> #[trigger] covers(lists@[i]@, at),
            room == (results@.len() < TERMINAL_SEARCH_MAX_RESULTS),
            results@.len() <= TERMINAL_SEARCH_MAX_RESULTS,
            results@ == capped(
                found_in(rows, grid.cols, pattern@, !case_sensitive, y as nat),
            ),
            in_order(results@),
            forall|i: int| 0 <= i < results@.len() ==> (#[trigger] results@[i]).y < y,
            case_sensitive ==> forall|i: int|
                0 <= i < results@.len() ==> shows_text(*grid, #[trigger] results@[i], query@),
            room ==> marked(*grid, results@, query@, case_sensitive, y as int),
        decreases lists@.len() - y,
    {
        let ghost before = results@;
        let ghost shown = searched_cells(*grid, y as int);
        room = collect_grid_row(&mut results, grid, &lists[y], y);
        proof {
            let ranges = lists@[y as int]@;
            assert(texts@[y as int]@ == row_text(shown));
            assert(before == found_in(rows, grid.cols, pattern@, !case_sensitive, y as nat));
            assert(found_in(rows, grid.cols, pattern@, !case_sensitive, (y + 1) as nat) == before
                + row_found(byte_cells(shown), ranges, y));
            assert(escaped(query@) == pattern@);
            if case_sensitive {
                assert forall|k: int| 0 <= k < ranges.len() implies encode_utf8(
                    row_text(shown),
                ).subrange((#[trigger] ranges[k]).0 as int, ranges[k].1 as int) == encode_utf8(
                    query@,
                ) by {
                    assert(lists@[y as int]@[k] == ranges[k]);
                }
            }
            row_extends(*grid, before, results@, ranges, y, query@, case_sensitive);
        }
        y += 1;
    }
    proof {
        found_in_prefix(rows, grid.cols, pattern@, !case_sensitive, y as nat, rows.len());
        let part = found_in(rows, grid.cols, pattern@, !case_sensitive, y as nat);
        let all = found_in(rows, grid.cols, pattern@, !case_sensitive, rows.len());
        if y < rows.len() {
            assert(part.len() >= TERMINAL_SEARCH_MAX_RESULTS);
            assert(capped(all) =~= capped(part)) by {
                assert(all.take(part.len() as int) == part);
                assert(all.take(TERMINAL_SEARCH_MAX_RESULTS as int) =~= part.take(
                    TERMINAL_SEARCH_MAX_RESULTS as int,
                ));
                if all.len() == TERMINAL_SEARCH_MAX_RESULTS {
                    assert(all.take(part.len() as int) =~= all);
                }
                assert(part.take(TERMINAL_SEARCH_MAX_RESULTS as int) =~= capped(part));
            }
        }
    }
    results
}

/// How many results stand in a row before `row`, that row included or not.
fn rows_before(results: &Vec<TerminalSearchMatch>, row: usize, inclusive: bool) -> (count: usize)
    requires
        in_order(results@),
    ensures
        count <= results@.len(),
        forall|i: int|
            0 <= i < results@.len() ==> (i < count <==> ((#[trigger] results@[i]).y < row || (inclusive
                && results@[i].y == row))),
{
    let mut low: usize = 0;
    let mut high: usize = results.len();
    while low < high
        invariant
            low <= high <= results@.len(),
            in_order(results@),
            forall|i: int|
                0 <= i < low ==> ((#[trigger] results@[i]).y < row || (inclusive && results@[i].y
                    == row)),
            forall|i: int|
                high <= i < results@.len() ==> !((#[trigger] results@[i]).y < row || (inclusive
                    && results@[i].y == row)),
        decreases high - low,
    {
        let middle: usize = low + (high - low) / 2;
        let y: usize = results[middle].y;
        proof {
            assert forall|i: int| 0 <= i < middle implies (#[trigger] results@[i]).y <= y by {
                assert(!results@[middle as int].before(results@[i]));
            }
            assert forall|i: int| middle < i < results@.len() implies y <= (
            #[trigger] results@[i]).y by {
                assert(!results@[i].before(results@[middle as int]));
            }
        }
        if y < row || (inclusive && y == row) {
            low = middle + 1;
        } else {
            high = middle;
        }
    }
    low
}

/// Why results are looked for anew.
#[derive(Clone, Copy, Debug, PartialEq, Eq, Structural)]
pub enum SearchRefreshCause {
    /// The user changed the search.
    User,
    /// The rows changed.
    Grid,
}

/// The search of a terminal: its query, its results and how fresh they are.
pub struct TerminalSearchState {
    /// Whether the search is shown.
    pub shown: bool,
    /// Whether it takes the keyboard.
    pub focused: bool,
    /// Whether the case of letters matters.
    pub case_sensitive: bool,
    /// The query.
    pub input: SingleLineInput,
    /// The results, in order.
    pub results: Vec<TerminalSearchMatch>,
    /// The index of the active result.
    pub current: Option<usize>,
    /// Changes whenever the query does.
    pub query_revision: u64,
    /// The revision of the query that the results are of.
    pub scanned_query_revision: u64,
    /// The generation of the rows that the results are of.
    pub scanned_grid_generation: u64,
    /// When a change of the rows last caused a scan, in microseconds.
    pub last_passive_scan_at: Option<u64>,
    /// When the next scan of changed rows is due, in microseconds.
    pub pending_passive_refresh_at: Option<u64>,
    /// Whether the selection of the terminal shows the active result.
    pub grid_selection_owned: bool,
}

/// The contents of a search.
pub struct SearchModel {
    pub shown: bool,
    pub focused: bool,
    pub case_sensitive: bool,
    pub line: single_line_input::LineModel,
    pub results: Seq<TerminalSearchMatch>,
    pub current: Option<int>,
    pub query_revision: u64,
    pub scanned_query_revision: u64,
    pub scanned_grid_generation: u64,
    pub last_passive_scan_at: Option<u64>,
    pub pending_passive_refresh_at: Option<u64>,
    pub grid_selection_owned: bool,
}

/// The contents of an optional index.
pub open spec fn index_view(index: Option<usize>) -> Option<int> {
    match index {
        Some(index) => Some(index as int),
        None => None,
    }
}

impl View for TerminalSearchState {
    type V = SearchModel;

    open spec fn view(&self) -> SearchModel {
        SearchModel {
            shown: self.shown,
            focused: self.focused,
            case_sensitive: self.case_sensitive,
            line: self.input@,
            results: self.results@,
            current: index_view(self.current),
            query_revision: self.query_revision,
            scanned_query_revision: self.scanned_query_revision,
            scanned_grid_generation: self.scanned_grid_generation,
            last_passive_scan_at: self.last_passive_scan_at,
            pending_passive_refresh_at: self.pending_passive_refresh_at,
            grid_selection_owned: self.grid_selection_owned,
        }
    }
}

/// One more, or zero after the last number.
pub open spec fn after_revision(revision: u64) -> u64 {
    if revision < u64::MAX {
        (revision + 1) as u64
    } else {
        0
    }
}

/// One less, or the last number before zero.
pub open spec fn before_revision(revision: u64) -> u64 {
    if revision > 0 {
        (revision - 1) as u64
    } else {
        u64::MAX
    }
}

/// The time at which a scan of changed rows is allowed again.
pub open spec fn next_scan(last: u64) -> u64 {
    if last + TERMINAL_SEARCH_PASSIVE_REFRESH_INTERVAL_US <= u64::MAX {
        (last + TERMINAL_SEARCH_PASSIVE_REFRESH_INTERVAL_US) as u64
    } else {
        u64::MAX
    }
}

/// The index of the result that is active in a list that is not empty: after a change by the user the
/// last; after a change of the rows the one that was active, or the one in its place.
pub open spec fn chosen(
    results: Seq<TerminalSearchMatch>,
    cause: SearchRefreshCause,
    previous_active: Option<TerminalSearchMatch>,
    previous_index: Option<int>,
) -> int {
    let last = results.len() - 1;
    match cause {
        SearchRefreshCause::User => last,
        SearchRefreshCause::Grid => match previous_active {
            Some(active) => match position(results, active) {
                Ok(index) => index,
                Err(index) => if index < last {
                    index
                } else {
                    last
                },
            },
            None => match previous_index {
                Some(index) => if index < last {
                    index
                } else {
                    last
                },
                None => last,
            },
        },
    }
}

impl SearchModel {
    /// Whether the query is a line, the results are in order and no more than are kept, and the
    /// active one is among them.
    pub open spec fn wf(self) -> bool {
        &&& self.line.wf()
        &&& self.results.len() <= TERMINAL_SEARCH_MAX_RESULTS
        &&& in_order(self.results)
        &&& self.current matches Some(index) ==> 0 <= index < self.results.len()
    }

    /// Whether the results are of the query and of the rows as they are.
    pub open spec fn fresh(self, generation: u64) -> bool {
        self.scanned_query_revision == self.query_revision && self.scanned_grid_generation
            == generation
    }

    /// The active result.
    pub open spec fn active(self) -> Option<TerminalSearchMatch> {
        match self.current {
            Some(index) => if 0 <= index < self.results.len() {
                Some(self.results[index])
            } else {
                None
            },
            None => None,
        }
    }

    /// The search when it is opened.
    pub open spec fn opened(self) -> SearchModel {
        SearchModel {
            shown: true,
            focused: true,
            scanned_query_revision: before_revision(self.query_revision),
            last_passive_scan_at: None,
            pending_passive_refresh_at: None,
            ..self
        }
    }

    /// The search when it is closed.
    pub open spec fn closed(self) -> SearchModel {
        SearchModel {
            shown: false,
            focused: false,
            current: None,
            results: Seq::empty(),
            grid_selection_owned: false,
            last_passive_scan_at: None,
            pending_passive_refresh_at: None,
            ..self
        }
    }

    /// The search with another query, which counts as changed where it was `edited`.
    pub open spec fn with_line(self, line: single_line_input::LineModel, edited: bool) -> SearchModel {
        SearchModel {
            line,
            query_revision: if edited {
                after_revision(self.query_revision)
            } else {
                self.query_revision
            },
            ..self
        }
    }

    /// The search after a scan of the rows; whether there was one.
    pub open spec fn recomputed(self, grid: TermGrid, cause: SearchRefreshCause) -> (
        bool,
        SearchModel,
    ) {
        if !self.shown || self.fresh(grid.content_generation) {
            (false, self)
        } else {
            let results = search_results(grid, self.line.text, self.case_sensitive);
            (
                true,
                SearchModel {
                    scanned_query_revision: self.query_revision,
                    scanned_grid_generation: grid.content_generation,
                    results,
                    current: if results.len() == 0 {
                        None
                    } else {
                        Some(chosen(results, cause, self.active(), self.current))
                    },
                    ..self
                },
            )
        }
    }

    /// Whether a scan has to wait: the rows alone changed, and were scanned a moment ago.
    pub open spec fn must_wait(self, cause: SearchRefreshCause, now: u64) -> bool {
        &&& cause is Grid
        &&& self.scanned_query_revision == self.query_revision
        &&& self.last_passive_scan_at matches Some(last) && now < next_scan(last)
    }

    /// The search, and the selection of the terminal, after the search was brought up to date with
    /// the rows; whether the rows were scanned for it.
    pub open spec fn refreshed(self, grid: TermGrid, cause: SearchRefreshCause, now: u64) -> (
        bool,
        SearchModel,
        Option<(usize, usize, usize, usize)>,
    ) {
        if !self.shown || self.fresh(grid.content_generation) {
            (false, SearchModel { pending_passive_refresh_at: None, ..self }, grid.selection)
        } else if self.must_wait(cause, now) {
            (
                false,
                SearchModel {
                    pending_passive_refresh_at: Some(next_scan(self.last_passive_scan_at->0)),
                    ..self
                },
                grid.selection,
            )
        } else {
            let scanned = self.recomputed(grid, cause).1;
            let after = SearchModel {
                last_passive_scan_at: if cause is Grid {
                    Some(now)
                } else {
                    self.last_passive_scan_at
                },
                pending_passive_refresh_at: None,
                ..scanned
            };
            if !self.grid_selection_owned {
                (true, after, grid.selection)
            } else {
                match after.active() {
                    Some(found) => (
                        true,
                        after,
                        Some((found.start_x, found.y, found.end_x, found.y)),
                    ),
                    None => (true, SearchModel { grid_selection_owned: false, ..after }, None),
                }
            }
        }
    }

    /// The search, and the selection of the terminal, when the active result is to be selected.
    pub open spec fn selecting(self, selection: Option<(usize, usize, usize, usize)>) -> (
        SearchModel,
        Option<(usize, usize, usize, usize)>,
    ) {
        match self.active() {
            Some(found) => (
                SearchModel { grid_selection_owned: true, ..self },
                Some((found.start_x, found.y, found.end_x, found.y)),
            ),
            None => if self.grid_selection_owned {
                (SearchModel { grid_selection_owned: false, ..self }, None)
            } else {
                (self, selection)
            },
        }
    }

    /// The search with the next result active.
    pub open spec fn stepped_next(self) -> SearchModel {
        SearchModel {
            current: if self.results.len() == 0 {
                None
            } else {
                Some(
                    ((match self.current {
                        Some(index) => index,
                        None => 0,
                    }) + 1) % self.results.len() as int,
                )
            },
            ..self
        }
    }

    /// The search with the previous result active.
    pub open spec fn stepped_previous(self) -> SearchModel {
        let index = match self.current {
            Some(index) => index,
            None => 0,
        };
        SearchModel {
            current: if self.results.len() == 0 {
                None
            } else if index == 0 {
                Some(self.results.len() - 1)
            } else {
                Some(index - 1)
            },
            ..self
        }
    }
}

/// A search that was never opened: nothing is typed and nothing was looked for.
pub open spec fn unopened() -> SearchModel {
    SearchModel {
        shown: false,
        focused: false,
        case_sensitive: false,
        line: single_line_input::line_of(Seq::empty()),
        results: Seq::empty(),
        current: None,
        query_revision: 1,
        scanned_query_revision: 0,
        scanned_grid_generation: u64::MAX,
        last_passive_scan_at: None,
        pending_passive_refresh_at: None,
        grid_selection_owned: false,
    }
}

impl Default for TerminalSearchState {
    fn default() -> (search: Self)
        ensures
            search@ == unopened(),
            search@.wf(),
    {
        TerminalSearchState {
            shown: false,
            focused: false,
            case_sensitive: false,
            input: SingleLineInput::default(),
            results: Vec::new(),
            current: None,
            query_revision: 1,
            scanned_query_revision: 0,
            scanned_grid_generation: u64::MAX,
            last_passive_scan_at: None,
            pending_passive_refresh_at: None,
            grid_selection_owned: false,
        }
    }
}

impl TerminalSearchState {
    /// Shows the search and gives it the keyboard. Its results are looked for anew.
    pub fn open(&mut self)
        ensures
            final(self)@ == old(self)@.opened(),
    {
        self.shown = true;
        self.focused = true;
        self.scanned_query_revision = if self.query_revision > 0 {
            self.query_revision - 1
        } else {
            u64::MAX
        };
        self.last_passive_scan_at = None;
        self.pending_passive_refresh_at = None;
    }

    /// Puts the search away, with its results. The query stays.
    pub fn close(&mut self)
        ensures
            final(self)@ == old(self)@.closed(),
    {
        self.shown = false;
        self.focused = false;
        self.current = None;
        self.results.clear();
        self.grid_selection_owned = false;
        self.last_passive_scan_at = None;
        self.pending_passive_refresh_at = None;
    }

    /// Notes that the query changed.
    fn touch_query(&mut self)
        ensures
            final(self)@ == old(self)@.with_line(old(self)@.line, true),
    {
        self.query_revision = if self.query_revision < u64::MAX {
            self.query_revision + 1
        } else {
            0
        };
    }

    /// Selects the whole query.
    pub fn select_all(&mut self)
        ensures
            final(self)@ == old(self)@.with_line(old(self)@.line.all_selected(), false),
            final(self)@.line.wf(),
    {
        self.input.select_all();
    }

    /// The selected part of the query.
    pub fn selected_text(&self) -> (selected: Option<String>)
        requires
            self@.line.wf(),
        ensures
            match self@.line.selection() {
                Some((start, end)) => selected is Some && selected->0@ == self@.line.text.subrange(
                    start,
                    self@.line.clamped(end),
                ),
                None => selected is None,
            },
    {
        self.input.selected_text()
    }

    /// Puts `text` into the query.
    pub fn insert_text(&mut self, text: &str)
        requires
            old(self)@.line.wf(),
        ensures
            final(self)@ == old(self)@.with_line(
                old(self)@.line.with_inserted(text@),
                old(self)@.line.selection() is Some || text@.len() > 0,
            ),
            final(self)@.line.wf(),
    {
        if self.input.insert_text(text) {
            self.touch_query();
        }
    }

    /// Takes out the selection, or the character before the cursor.
    pub fn backspace(&mut self)
        requires
            old(self)@.line.wf(),
        ensures
            final(self)@ == old(self)@.with_line(
                old(self)@.line.after_backspace(),
                old(self)@.line.selection() is Some || old(self)@.line.cursor > 0,
            ),
            final(self)@.line.wf(),
    {
        if self.input.backspace() {
            self.touch_query();
        }
    }

    /// Takes out the selection, or the character after the cursor.
    pub fn delete_forward(&mut self)
        requires
            old(self)@.line.wf(),
        ensures
            final(self)@ == old(self)@.with_line(
                old(self)@.line.after_delete(),
                old(self)@.line.selection() is Some || old(self)@.line.cursor
                    < old(self)@.line.text.len(),
            ),
            final(self)@.line.wf(),
    {
        if self.input.delete_forward() {
            self.touch_query();
        }
    }

    /// Moves the cursor of the query.
    pub fn move_cursor(&mut self, new_cursor: usize, selecting: bool)
        requires
            old(self)@.line.wf(),
        ensures
            final(self)@ == old(self)@.with_line(
                old(self)@.line.with_cursor(new_cursor as int, selecting),
                false,
            ),
            final(self)@.line.wf(),
    {
        let _ = self.input.move_cursor(new_cursor, selecting);
    }

    /// Moves the cursor of the query one character back.
    pub fn move_left(&mut self, selecting: bool)
        requires
            old(self)@.line.wf(),
        ensures
            final(self)@ == old(self)@.with_line(
                old(self)@.line.with_cursor(
                    if old(self)@.line.cursor > 0 {
                        old(self)@.line.cursor - 1
                    } else {
                        0
                    },
                    selecting,
                ),
                false,
            ),
            final(self)@.line.wf(),
    {
        let _ = self.input.move_left(selecting);
    }

    /// Moves the cursor of the query one character on.
    pub fn move_right(&mut self, selecting: bool)
        requires
            old(self)@.line.wf(),
        ensures
            final(self)@ == old(self)@.with_line(
                old(self)@.line.with_cursor(old(self)@.line.cursor + 1, selecting),
                false,
            ),
            final(self)@.line.wf(),
    {
        let _ = self.input.move_right(selecting);
    }

    /// Changes whether the case of letters matters.
    pub fn toggle_case(&mut self)
        ensures
            final(self)@ == (SearchModel {
                case_sensitive: !old(self)@.case_sensitive,
                ..old(self)@.with_line(old(self)@.line, true)
            }),
    {
        self.case_sensitive = !self.case_sensitive;
        self.touch_query();
    }

    /// The index of the active result in new results.
    fn choose_current(
        results: &Vec<TerminalSearchMatch>,
        cause: SearchRefreshCause,
        previous_active: Option<TerminalSearchMatch>,
        previous_index: Option<usize>,
    ) -> (index: Option<usize>)
        requires
            in_order(results@),
        ensures
            index_view(index) == if results@.len() == 0 {
                None
            } else {
                Some(chosen(results@, cause, previous_active, index_view(previous_index)))
            },
            index is Some ==> index->0 < results@.len(),
    {
        if results.len() == 0 {
            return None;
        }
        let last: usize = results.len() - 1;
        let index: usize = match cause {
            SearchRefreshCause::User => last,
            SearchRefreshCause::Grid => match previous_active {
                Some(active) => match terminal_search_result_position(results.as_slice(), active) {
                    Ok(index) => index,
                    Err(insertion) => if insertion < last {
                        insertion
                    } else {
                        last
                    },
                },
                None => match previous_index {
                    Some(index) => if index < last {
                        index
                    } else {
                        last
                    },
                    None => last,
                },
            },
        };
        Some(index)
    }

    /// Looks for the results anew, unless they are fresh. Whether they were looked for.
    pub fn recompute_if_needed(&mut self, grid: &TermGrid, cause: SearchRefreshCause) -> (changed:
        bool)
        requires
            old(self)@.wf(),
            grid.wf(),
        ensures
            (changed, final(self)@) == old(self)@.recomputed(*grid, cause),
            final(self)@.wf(),
    {
        if !self.shown || (self.scanned_query_revision == self.query_revision
            && self.scanned_grid_generation == grid.content_generation) {
            return false;
        }
        let previous_active = self.active_match();
        let previous_index = self.current;
        self.scanned_query_revision = self.query_revision;
        self.scanned_grid_generation = grid.content_generation;
        self.results = scan_rows(grid, self.input.text.as_str(), self.case_sensitive);
        self.current = TerminalSearchState::choose_current(
            &self.results,
            cause,
            previous_active,
            previous_index,
        );
        true
    }

    /// Brings the results up to date with the rows, at the time `now` in microseconds, and the
    /// selection of the terminal with the active result, where it shows it. Whether the rows were
    /// scanned.
    pub fn refresh_for_grid_at(
        &mut self,
        grid: &mut TermGrid,
        cause: SearchRefreshCause,
        now: u64,
    ) -> (changed: bool)
        requires
            old(self)@.wf(),
            old(grid).wf(),
        ensures
            (changed, final(self)@, final(grid).selection) == old(self)@.refreshed(
                *old(grid),
                cause,
                now,
            ),
            *final(grid) == (TermGrid { selection: final(grid).selection, ..*old(grid) }),
            final(self)@.wf(),
    {
        let stale_query = self.scanned_query_revision != self.query_revision;
        let stale_grid = self.scanned_grid_generation != grid.content_generation;
        if !self.shown || (!stale_query && !stale_grid) {
            self.pending_passive_refresh_at = None;
            return false;
        }
        if let SearchRefreshCause::Grid = cause {
            if !stale_query {
                if let Some(last_scan) = self.last_passive_scan_at {
                    let deadline: u64 = last_scan.saturating_add(
                        TERMINAL_SEARCH_PASSIVE_REFRESH_INTERVAL_US,
                    );
                    if now < deadline {
                        self.pending_passive_refresh_at = Some(deadline);
                        return false;
                    }
                }
            }
        }
        let _ = self.recompute_if_needed(grid, cause);
        if let SearchRefreshCause::Grid = cause {
            self.last_passive_scan_at = Some(now);
        }
        self.pending_passive_refresh_at = None;
        if self.grid_selection_owned {
            match self.active_match() {
                Some(found) => {
                    grid.selection = Some((found.start_x, found.y, found.end_x, found.y));
                },
                None => {
                    grid.selection = None;
                    self.grid_selection_owned = false;
                },
            }
        }
        true
    }

    /// When the next scan of changed rows is due, in microseconds.
    pub fn pending_passive_refresh_deadline(&self) -> (deadline: Option<u64>)
        ensures
            deadline == if self.shown {
                self.pending_passive_refresh_at
            } else {
                None
            },
    {
        if self.shown {
            self.pending_passive_refresh_at
        } else {
            None
        }
    }

    /// Selects the active result in the terminal. Without one, a selection that showed one goes.
    pub fn set_active_grid_selection(&mut self, grid: &mut TermGrid) -> (found: Option<
        TerminalSearchMatch,
    >)
        ensures
            found == old(self)@.active(),
            (final(self)@, final(grid).selection) == old(self)@.selecting(old(grid).selection),
            *final(grid) == (TermGrid { selection: final(grid).selection, ..*old(grid) }),
    {
        let found = self.active_match();
        match found {
            Some(item) => {
                grid.selection = Some((item.start_x, item.y, item.end_x, item.y));
                self.grid_selection_owned = true;
            },
            None => {
                if self.grid_selection_owned {
                    grid.selection = None;
                    self.grid_selection_owned = false;
                }
            },
        }
        found
    }

    /// Leaves the selection of the terminal to the user.
    pub fn release_grid_selection_ownership(&mut self)
        ensures
            final(self)@ == (SearchModel { grid_selection_owned: false, ..old(self)@ }),
    {
        self.grid_selection_owned = false;
    }

    /// Whether the selection of the terminal shows the active result.
    pub fn owns_grid_selection(&self) -> (owns: bool)
        ensures
            owns == self@.grid_selection_owned,
    {
        self.grid_selection_owned
    }

    /// Makes the next result active, the first after the last.
    pub fn next(&mut self)
        requires
            old(self)@.wf(),
        ensures
            final(self)@ == old(self)@.stepped_next(),
            final(self)@.wf(),
    {
        if self.results.len() == 0 {
            self.current = None;
            return ;
        }
        let current: usize = match self.current {
            Some(current) => current,
            None => 0,
        };
        self.current = Some((current + 1) % self.results.len());
    }

    /// Makes the previous result active, the last before the first.
    pub fn previous(&mut self)
        requires
            old(self)@.wf(),
        ensures
            final(self)@ == old(self)@.stepped_previous(),
            final(self)@.wf(),
    {
        if self.results.len() == 0 {
            self.current = None;
            return ;
        }
        let current: usize = match self.current {
            Some(current) => current,
            None => 0,
        };
        self.current = Some(
            if current == 0 {
                self.results.len() - 1
            } else {
                current - 1
            },
        );
    }

    /// The active result.
    pub fn active_match(&self) -> (found: Option<TerminalSearchMatch>)
        ensures
            found == self@.active(),
    {
        match self.current {
            Some(index) => {
                if index < self.results.len() {
                    Some(self.results[index])
                } else {
                    None
                }
            },
            None => None,
        }
    }

    /// The results of a row: from the first index to behind the last.
    pub fn row_matches(&self, row: usize) -> (range: (usize, usize))
        requires
            self@.wf(),
        ensures
            range.0 <= range.1 <= self.results@.len(),
            forall|i: int|
                0 <= i < self.results@.len() ==> ((#[trigger] self.results@[i]).y == row
                    <==> range.0 <= i < range.1),
            range.0 == range.1 ==> forall|i: int|
                0 <= i < self.results@.len() ==> ((#[trigger] self.results@[i]).y < row
                    <==> i < range.0),
    {
        let start: usize = rows_before(&self.results, row, false);
        let end: usize = rows_before(&self.results, row, true);
        proof {
            if start > end {
                assert(self.results@[end as int].y < row);
            }
        }
        (start, end)
    }
}

/// A match that is among results in order is found there.
proof fn position_finds(results: Seq<TerminalSearchMatch>, index: int)
    requires
        in_order(results),
        0 <= index < results.len(),
    ensures
        position(results, results[index]) is Ok,
        0 <= position(results, results[index])->Ok_0 < results.len(),
        results[position(results, results[index])->Ok_0] == results[index],
{
    let target = results[index];
    first_not_before_bounds(results, target);
    let place = first_not_before(results, target);
    if place > index {
        assert(results[index].before(target));
    }
    if place < index {
        assert(!results[index].before(results[place]));
    }
}

proof fn first_not_before_bounds(
    results: Seq<TerminalSearchMatch>,
    target: TerminalSearchMatch,
)
    ensures
        0 <= first_not_before(results, target) <= results.len(),
        forall|i: int|
            0 <= i < first_not_before(results, target) ==> (#[trigger] results[i]).before(target),
        first_not_before(results, target) < results.len() ==> !results[first_not_before(
            results,
            target,
        )].before(target),
    decreases results.len(),
{
    if results.len() > 0 && results[0].before(target) {
        let rest = results.skip(1);
        first_not_before_bounds(rest, target);
        let place = first_not_before(results, target);
        assert forall|i: int| 0 <= i < place implies (#[trigger] results[i]).before(target) by {
            if i > 0 {
                assert(results[i] == rest[i - 1]);
            }
        }
        if place < results.len() {
            assert(results[place] == rest[place - 1]);
        }
    }
}

/// A change of the rows leaves the active result active, as long as it is still found, whatever else
/// is found.
pub proof fn passive_refresh_keeps_active_match(search: SearchModel, grid: TermGrid, index: int)
    requires
        search.shown,
        !search.fresh(grid.content_generation),
        search.active() is Some,
        ({
            let results = search_results(grid, search.line.text, search.case_sensitive);
            in_order(results) && 0 <= index < results.len() && results[index] == search.active()->0
        }),
    ensures
        search.recomputed(grid, SearchRefreshCause::Grid).1.active() == search.active(),
{
    let results = search_results(grid, search.line.text, search.case_sensitive);
    position_finds(results, index);
}

/// Going to the next result and back leaves the active one active, and so does going back and on.
pub proof fn next_and_previous_undo_each_other(search: SearchModel)
    requires
        search.wf(),
        search.current is Some,
    ensures
        search.stepped_next().stepped_previous() == search,
        search.stepped_previous().stepped_next() == search,
{
    let len = search.results.len() as int;
    let index = search.current->0;
    if index + 1 < len {
        vstd::arithmetic::div_mod::lemma_small_mod((index + 1) as nat, len as nat);
    } else {
        vstd::arithmetic::div_mod::lemma_mod_self_0(len);
    }
    vstd::arithmetic::div_mod::lemma_small_mod(index as nat, len as nat);
    if index == 0 {
        vstd::arithmetic::div_mod::lemma_mod_self_0(len);
    }
}

/// A search that is opened again looks for its results again, whatever the rows are.
pub proof fn reopened_search_is_not_fresh(search: SearchModel, generation: u64)
    ensures
        !search.closed().opened().fresh(generation),
        search.closed().results.len() == 0,
        search.closed().active() is None,
        search.closed().opened().shown,
        search.closed().opened().line == search.line,
{
}

/// However often the rows change, they are scanned at most once in each interval for it: after such a
/// scan the next one waits until the interval is over, and is due then.
pub proof fn passive_scans_are_spaced(search: SearchModel, grid: TermGrid, later: TermGrid, now: u64, then: u64)
    requires
        search.shown,
        search.scanned_query_revision == search.query_revision,
        search.refreshed(grid, SearchRefreshCause::Grid, now).0,
        now <= then,
        later.content_generation != grid.content_generation,
    ensures
        ({
            let scanned = search.refreshed(grid, SearchRefreshCause::Grid, now).1;
            let next = scanned.refreshed(later, SearchRefreshCause::Grid, then);
            &&& next.0 <==> then >= next_scan(now)
            &&& then < next_scan(now) ==> next.1.pending_passive_refresh_at == Some(next_scan(now))
            &&& then >= next_scan(now) ==> next.1.pending_passive_refresh_at is None
                && next.1.scanned_grid_generation == later.content_generation
        }),
{
}

/// A query that the user edits is never kept waiting.
pub proof fn user_search_is_immediate(search: SearchModel, grid: TermGrid, now: u64)
    requires
        search.shown,
        !search.fresh(grid.content_generation),
    ensures
        search.refreshed(grid, SearchRefreshCause::User, now).0,
        search.refreshed(grid, SearchRefreshCause::User, now).1.fresh(grid.content_generation),
{
}

/// Editing the query makes its results stale.
pub proof fn edited_query_is_stale(search: SearchModel, line: single_line_input::LineModel, generation: u64)
    requires
        search.fresh(generation),
    ensures
        !search.with_line(line, true).fresh(generation),
        search.with_line(line, false).fresh(generation),
{
}

} // verus!
