//! What holds of every search, whatever the rows and the query are.
use vstd::prelude::*;
use vstd::utf8::*;

use crate::search;
use crate::search::{SearchModel, SearchRefreshCause, TerminalSearchMatch};
use crate::terminal;
use crate::terminal::{Cell, TermGrid};

verus! {

/// The rows that are searched are those of the history, the oldest first, and after them those of the
/// screen; on the alternate screen those of the screen alone.
pub proof fn history_comes_before_the_screen(grid: TermGrid, i: int)
    ensures
        ({
            let rows = terminal::all_rows(grid);
            let history = if grid.is_alt {
                0
            } else {
                grid.scrollback@.len()
            };
            &&& rows.len() == history + grid.lines@.len()
            &&& 0 <= i < history ==> rows[i] == grid.scrollback@[i]
            &&& history <= i < rows.len() ==> rows[i] == grid.lines@[i - history]
        }),
{
}

/// The cells of a row that are shown are its first ones, as many as there are columns.
pub proof fn shown_cells_come_first(row: Seq<Cell>, cols: usize, i: int)
    ensures
        row.len() <= cols ==> search::shown_cells(row, cols).len() == row.len(),
        row.len() >= cols ==> search::shown_cells(row, cols).len() == cols,
        0 <= i < row.len() && i < cols ==> search::shown_cells(row, cols)[i] == row[i],
{
}

/// The text of cells begins with the text of the first of them.
proof fn text_begins(cells: Seq<Cell>, len: int)
    requires
        0 <= len <= cells.len(),
    ensures
        encode_utf8(search::row_text(cells.take(len))).len() <= encode_utf8(
            search::row_text(cells),
        ).len(),
        encode_utf8(search::row_text(cells)).take(
            encode_utf8(search::row_text(cells.take(len))).len() as int,
        ) == encode_utf8(search::row_text(cells.take(len))),
        search::byte_cells(cells.take(len)).len() <= search::byte_cells(cells).len(),
        search::byte_cells(cells).take(search::byte_cells(cells.take(len)).len() as int)
            == search::byte_cells(cells.take(len)),
    decreases cells.len(),
{
    let part = encode_utf8(search::row_text(cells.take(len)));
    let all = encode_utf8(search::row_text(cells));
    let some = search::byte_cells(cells.take(len));
    let every = search::byte_cells(cells);
    if len == cells.len() {
        assert(cells.take(len) =~= cells);
        assert(all.take(part.len() as int) =~= part);
        assert(every.take(some.len() as int) =~= some);
    } else {
        let shorter = cells.drop_last();
        text_begins(shorter, len);
        assert(shorter.take(len) =~= cells.take(len));
        search::encode_utf8_concat(search::row_text(shorter), cells.last().text@);
        let middle = encode_utf8(search::row_text(shorter));
        assert(all.take(part.len() as int) =~= middle.take(part.len() as int));
        assert(every.take(some.len() as int) =~= search::byte_cells(shorter).take(some.len() as int));
    }
}

/// The text of a cell stands in the text of its row after the texts of the cells before it, and each of
/// its bytes belongs to that cell.
pub proof fn bytes_belong_to_their_cells(cells: Seq<Cell>, x: int, k: int)
    requires
        0 <= x < cells.len() <= usize::MAX,
        0 <= k < encode_utf8(cells[x].text@).len(),
    ensures
        ({
            let at = encode_utf8(search::row_text(cells.take(x))).len() + k;
            &&& at < encode_utf8(search::row_text(cells)).len()
            &&& encode_utf8(search::row_text(cells))[at] == encode_utf8(cells[x].text@)[k]
            &&& at < search::byte_cells(cells).len()
            &&& search::byte_cells(cells)[at] == x
        }),
{
    let before = cells.take(x);
    let upto = cells.take(x + 1);
    assert(upto.drop_last() =~= before);
    search::encode_utf8_concat(search::row_text(before), cells[x].text@);
    text_begins(cells, x + 1);
    search::bytes_have_cells(before);
    search::bytes_have_cells(upto);
    let at = encode_utf8(search::row_text(before)).len() + k;
    let some = encode_utf8(search::row_text(upto));
    let all = encode_utf8(search::row_text(cells));
    assert(all.take(some.len() as int)[at] == some[at]);
    let every = search::byte_cells(cells);
    assert(every.take(search::byte_cells(upto).len() as int)[at] == search::byte_cells(upto)[at]);
}

/// Whether one match stands over the cells of a range of bytes in a row: from the cell of its first byte
/// to the cell of its last.
pub open spec fn is_over(
    found: TerminalSearchMatch,
    cells: Seq<usize>,
    range: (usize, usize),
    y: int,
) -> bool {
    &&& range.0 < range.1 <= cells.len()
    &&& found.y == y
    &&& found.start_x == cells[range.0 as int]
    &&& found.end_x == cells[range.1 - 1]
}

proof fn row_matches_are_over(
    cells: Seq<usize>,
    ranges: Seq<(usize, usize)>,
    y: usize,
    k: int,
    i: int,
)
    ensures
        0 <= k < ranges.len() && ranges[k].0 < ranges[k].1 <= cells.len() ==> exists|at: int|
            0 <= at < search::row_found(cells, ranges, y).len() && is_over(
                #[trigger] search::row_found(cells, ranges, y)[at],
                cells,
                ranges[k],
                y as int,
            ),
        0 <= i < search::row_found(cells, ranges, y).len() ==> exists|at: int|
            0 <= at < ranges.len() && is_over(
                search::row_found(cells, ranges, y)[i],
                cells,
                #[trigger] ranges[at],
                y as int,
            ),
        search::row_found(cells, ranges, y).len() <= ranges.len(),
    decreases ranges.len(),
{
    if ranges.len() > 0 {
        let shorter = ranges.drop_last();
        let before = search::row_found(cells, shorter, y);
        let all = search::row_found(cells, ranges, y);
        row_matches_are_over(cells, shorter, y, k, i);
        if 0 <= k < shorter.len() && ranges[k].0 < ranges[k].1 <= cells.len() {
            let at = choose|at: int|
                0 <= at < before.len() && is_over(
                    #[trigger] before[at],
                    cells,
                    shorter[k],
                    y as int,
                );
            assert(all[at] == before[at]);
        }
        if k == shorter.len() && ranges[k].0 < ranges[k].1 <= cells.len() {
            assert(is_over(all[all.len() - 1], cells, ranges[k], y as int));
        }
        if 0 <= i < before.len() {
            let at = choose|at: int|
                0 <= at < shorter.len() && is_over(before[i], cells, #[trigger] shorter[at], y as int);
            assert(ranges[at] == shorter[at]);
            assert(all[i] == before[i]);
        } else if 0 <= i < all.len() {
            assert(is_over(all[i], cells, ranges[ranges.len() - 1], y as int));
        }
    }
}

/// Whether a match stands over one of the ranges that are found in its row.
pub open spec fn is_over_one(
    grid: TermGrid,
    query: Seq<char>,
    ignoring_case: bool,
    found: TerminalSearchMatch,
) -> bool {
    let cells = search::searched_cells(grid, found.y as int);
    let ranges = search::ranges_in(
        search::escaped(query),
        ignoring_case,
        search::row_text(cells),
    );
    exists|k: int|
        0 <= k < ranges.len() && is_over(
            found,
            search::byte_cells(cells),
            #[trigger] ranges[k],
            found.y as int,
        )
}

proof fn matches_are_over(
    grid: TermGrid,
    query: Seq<char>,
    ignoring_case: bool,
    count: nat,
    y: int,
    k: int,
    i: int,
)
    requires
        count <= terminal::all_rows(grid).len() <= usize::MAX,
    ensures
        ({
            let all = search::found_in(
                terminal::all_rows(grid),
                grid.cols,
                search::escaped(query),
                ignoring_case,
                count,
            );
            let cells = search::searched_cells(grid, y);
            let ranges = search::ranges_in(
                search::escaped(query),
                ignoring_case,
                search::row_text(cells),
            );
            &&& 0 <= y < count && 0 <= k < ranges.len() && ranges[k].0 < ranges[k].1
                <= search::byte_cells(cells).len() ==> exists|at: int|
                0 <= at < all.len() && is_over(
                    #[trigger] all[at],
                    search::byte_cells(cells),
                    ranges[k],
                    y,
                )
            &&& 0 <= i < all.len() ==> all[i].y < count && is_over_one(
                grid,
                query,
                ignoring_case,
                all[i],
            )
        }),
    decreases count,
{
    if count > 0 {
        let less = (count - 1) as nat;
        let rows = terminal::all_rows(grid);
        matches_are_over(grid, query, ignoring_case, less, y, k, i);
        let before = search::found_in(
            rows,
            grid.cols,
            search::escaped(query),
            ignoring_case,
            less,
        );
        let all = search::found_in(rows, grid.cols, search::escaped(query), ignoring_case, count);
        let last = search::searched_cells(grid, less as int);
        let found = search::ranges_in(
            search::escaped(query),
            ignoring_case,
            search::row_text(last),
        );
        let more = search::row_found(search::byte_cells(last), found, less as usize);
        assert(all == before + more);
        row_matches_are_over(search::byte_cells(last), found, less as usize, k, i - before.len());
        let cells = search::searched_cells(grid, y);
        let ranges = search::ranges_in(
            search::escaped(query),
            ignoring_case,
            search::row_text(cells),
        );
        if 0 <= y < count && 0 <= k < ranges.len() && ranges[k].0 < ranges[k].1
            <= search::byte_cells(cells).len() {
            if y < less {
                let at = choose|at: int|
                    0 <= at < before.len() && is_over(
                        #[trigger] before[at],
                        search::byte_cells(cells),
                        ranges[k],
                        y,
                    );
                assert(all[at] == before[at]);
            } else {
                let at = choose|at: int|
                    0 <= at < more.len() && is_over(
                        #[trigger] more[at],
                        search::byte_cells(cells),
                        ranges[k],
                        y,
                    );
                assert(all[before.len() + at] == more[at]);
                assert(is_over(all[before.len() + at], search::byte_cells(cells), ranges[k], y));
            }
        }
        if before.len() <= i < all.len() {
            let at = choose|at: int|
                0 <= at < found.len() && is_over(
                    more[i - before.len()],
                    search::byte_cells(last),
                    #[trigger] found[at],
                    less as int,
                );
            assert(all[i] == more[i - before.len()]);
            assert(is_over(all[i], search::byte_cells(last), found[at], all[i].y as int));
            assert(search::searched_cells(grid, all[i].y as int) == last);
            assert(is_over_one(grid, query, ignoring_case, all[i]));
        } else if 0 <= i < before.len() {
            assert(all[i] == before[i]);
        }
    }
}

/// A search for a text that is not empty, whether the case of letters matters or not, has a result over
/// every range that is found in a row of the history or the screen, unless there are 65536 results; it
/// has no other results, and never more than these.
pub proof fn every_match_has_a_result(
    grid: TermGrid,
    query: Seq<char>,
    case_sensitive: bool,
    y: int,
    k: int,
)
    requires
        terminal::all_rows(grid).len() <= usize::MAX,
        query.len() > 0,
    ensures
        ({
            let results = search::search_results(grid, query, case_sensitive);
            let cells = search::searched_cells(grid, y);
            let ranges = search::ranges_in(
                search::escaped(query),
                !case_sensitive,
                search::row_text(cells),
            );
            &&& results.len() <= 65_536
            &&& results.len() < 65_536 && 0 <= y < terminal::all_rows(grid).len() && 0 <= k
                < ranges.len() && ranges[k].0 < ranges[k].1 <= search::byte_cells(cells).len()
                ==> exists|at: int|
                0 <= at < results.len() && is_over(
                    #[trigger] results[at],
                    search::byte_cells(cells),
                    ranges[k],
                    y,
                )
            &&& forall|i: int|
                0 <= i < results.len() ==> (#[trigger] results[i]).y < terminal::all_rows(grid).len()
                    && is_over_one(grid, query, !case_sensitive, results[i])
        }),
{
    let rows = terminal::all_rows(grid);
    let all = search::found_in(
        rows,
        grid.cols,
        search::escaped(query),
        !case_sensitive,
        rows.len(),
    );
    let results = search::search_results(grid, query, case_sensitive);
    matches_are_over(grid, query, !case_sensitive, rows.len(), y, k, 0);
    assert forall|i: int| 0 <= i < results.len() implies (#[trigger] results[i]).y < rows.len()
        && is_over_one(grid, query, !case_sensitive, results[i]) by {
        matches_are_over(grid, query, !case_sensitive, rows.len(), y, k, i);
        assert(results[i] == all[i]);
    }
    if results.len() < 65_536 {
        assert(results =~= all);
    }
}

/// An empty query finds nothing.
pub proof fn empty_query_finds_nothing(grid: TermGrid, case_sensitive: bool)
    ensures
        search::search_results(grid, Seq::empty(), case_sensitive).len() == 0,
{
}

/// Matches are ordered by row, then by first column, then by last column.
pub proof fn matches_are_ordered(first: TerminalSearchMatch, second: TerminalSearchMatch)
    ensures
        first.y < second.y ==> first.before(second),
        first.y == second.y && first.start_x < second.start_x ==> first.before(second),
        first.y == second.y && first.start_x == second.start_x && first.end_x < second.end_x
            ==> first.before(second),
        !(first.before(second) && second.before(first)),
        first.before(second) || second.before(first) || first == second,
{
}

/// What stands in results in order is found where it stands; for what does not, the place parts the
/// results before it from those after it.
pub proof fn position_parts_the_results(
    results: Seq<TerminalSearchMatch>,
    target: TerminalSearchMatch,
    i: int,
)
    requires
        search::in_order(results),
        0 <= i < results.len(),
    ensures
        match search::position(results, target) {
            Ok(place) => 0 <= place < results.len() && results[place] == target,
            Err(place) => 0 <= place <= results.len() && results[i] != target && (i < place
                ==> results[i].before(target)) && (i >= place ==> target.before(results[i])),
        },
{
    place_parts(results, target);
    let place = search::first_not_before(results, target);
    if i >= place && place < results.len() {
        if i > place {
            assert(!results[i].before(results[place]));
        }
        matches_are_ordered(results[i], target);
        matches_are_ordered(results[i], results[place]);
        matches_are_ordered(results[place], target);
    }
}

proof fn place_parts(results: Seq<TerminalSearchMatch>, target: TerminalSearchMatch)
    ensures
        0 <= search::first_not_before(results, target) <= results.len(),
        forall|i: int|
            0 <= i < search::first_not_before(results, target) ==> (#[trigger] results[i]).before(
                target,
            ),
        search::first_not_before(results, target) < results.len()
            ==> !results[search::first_not_before(results, target)].before(target),
    decreases results.len(),
{
    if results.len() > 0 && results[0].before(target) {
        place_parts(results.skip(1), target);
        let place = search::first_not_before(results, target);
        assert forall|i: int| 0 <= i < place implies (#[trigger] results[i]).before(target) by {
            if i > 0 {
                assert(results.skip(1)[i - 1] == results[i]);
            }
        }
        if place < results.len() {
            assert(results.skip(1)[place - 1] == results[place]);
        }
    }
}

/// After a change by the user the last result is active. After a change of the rows the active result
/// stays active; where it is gone, the first one after it is, or the last of all.
pub proof fn active_result_is_kept(
    results: Seq<TerminalSearchMatch>,
    active: TerminalSearchMatch,
    index: Option<int>,
    i: int,
)
    requires
        search::in_order(results),
        0 <= i < results.len(),
    ensures
        search::chosen(results, SearchRefreshCause::User, Some(active), index) == results.len() - 1,
        search::chosen(results, SearchRefreshCause::User, None, index) == results.len() - 1,
        ({
            let place = search::chosen(results, SearchRefreshCause::Grid, Some(active), index);
            &&& 0 <= place < results.len()
            &&& results[i] == active ==> results[place] == active
            &&& results[place] != active ==> (active.before(results[i]) ==> place <= i) && (
            results[place].before(active) ==> place == results.len() - 1)
        }),
        search::chosen(results, SearchRefreshCause::Grid, None, Some(i)) == i,
        search::chosen(results, SearchRefreshCause::Grid, None, Some(results.len() as int))
            == results.len() - 1,
        search::chosen(results, SearchRefreshCause::Grid, None, None) == results.len() - 1,
{
    position_parts_the_results(results, active, i);
    place_parts(results, active);
    let place = search::chosen(results, SearchRefreshCause::Grid, Some(active), index);
    matches_are_ordered(active, results[place]);
    matches_are_ordered(active, results[i]);
    position_parts_the_results(results, active, place);
}

/// Stepping goes round the results: forth to the one after the active one or from the last to the
/// first, and back again to where it was. Nothing else of the search changes.
pub proof fn steps_go_round(search: SearchModel)
    requires
        search.wf(),
        search.current is Some,
    ensures
        ({
            let at = search.current->0;
            let next = search.stepped_next();
            let previous = search.stepped_previous();
            &&& at + 1 < search.results.len() ==> next.current == Some(at + 1)
            &&& at + 1 == search.results.len() ==> next.current == Some(0int)
            &&& next.stepped_previous() == search
            &&& previous.stepped_next() == search
            &&& next == SearchModel { current: next.current, ..search }
            &&& previous == SearchModel { current: previous.current, ..search }
        }),
{
    let len = search.results.len() as int;
    let at = search.current->0;
    assert((at + 1) % len == if at + 1 < len {
        at + 1
    } else {
        0
    }) by (nonlinear_arith)
        requires
            0 <= at < len,
    ;
    let before = if at == 0 {
        len - 1
    } else {
        at - 1
    };
    assert((before + 1) % len == at) by (nonlinear_arith)
        requires
            0 <= at < len,
            before == if at == 0 {
                len - 1
            } else {
                at - 1
            },
    ;
}

/// Without an active result a step goes to the second result or to the last, and without results to
/// none.
pub proof fn steps_from_nowhere(search: SearchModel)
    requires
        search.wf(),
        search.current is None,
    ensures
        search.results.len() == 0 ==> search.stepped_next().current is None
            && search.stepped_previous().current is None,
        search.results.len() == 1 ==> search.stepped_next().current == Some(0int),
        search.results.len() > 1 ==> search.stepped_next().current == Some(1int),
        search.results.len() > 0 ==> search.stepped_previous().current == Some(
            search.results.len() - 1,
        ),
{
    if search.results.len() > 1 {
        vstd::arithmetic::div_mod::lemma_small_mod(1, search.results.len());
    }
}

/// An opened search is shown, takes the keyboard and is to be scanned, whatever the rows; its query and
/// results stay. A closed one is not shown and has no results; its query stays, and it takes a new scan
/// when it is opened again.
pub proof fn opening_asks_for_a_scan(search: SearchModel, generation: u64)
    ensures
        search.opened().shown && search.opened().focused,
        !search.opened().fresh(generation),
        search.opened().line == search.line,
        search.opened().case_sensitive == search.case_sensitive,
        search.opened().results == search.results,
        search.opened().current == search.current,
        search.opened().query_revision == search.query_revision,
        search.opened().grid_selection_owned == search.grid_selection_owned,
        search.opened().last_passive_scan_at is None,
        search.opened().pending_passive_refresh_at is None,
        !search.closed().shown && !search.closed().focused,
        search.closed().results.len() == 0 && search.closed().current is None,
        !search.closed().grid_selection_owned,
        search.closed().line == search.line,
        search.closed().case_sensitive == search.case_sensitive,
        search.closed().query_revision == search.query_revision,
        search.closed().scanned_query_revision == search.scanned_query_revision,
        search.closed().scanned_grid_generation == search.scanned_grid_generation,
        search.closed().last_passive_scan_at is None,
        search.closed().pending_passive_refresh_at is None,
{
}

/// An edited query is another one than the one that was scanned, so the results are not fresh; a query
/// that was not edited stays as fresh as it was.
pub proof fn edits_ask_for_a_scan(
    search: SearchModel,
    line: crate::single_line_input::LineModel,
    generation: u64,
)
    ensures
        search.fresh(generation) ==> !search.with_line(line, true).fresh(generation),
        search.with_line(line, false).fresh(generation) == search.fresh(generation),
        search.with_line(line, true).line == line,
        search.with_line(line, false).line == line,
        search.with_line(line, false).query_revision == search.query_revision,
        search.query_revision < u64::MAX ==> search.with_line(line, true).query_revision
            == search.query_revision + 1,
        search.with_line(line, true).results == search.results,
        search.with_line(line, true).current == search.current,
        search.with_line(line, true).shown == search.shown,
        search.with_line(line, true).case_sensitive == search.case_sensitive,
{
}

/// A search that is shown and not fresh is scanned: its results are those of its query and it is fresh.
/// One that is not shown, or fresh, stays as it is.
pub proof fn scans_make_fresh(search: SearchModel, grid: TermGrid, cause: SearchRefreshCause)
    ensures
        ({
            let (scanned, after) = search.recomputed(grid, cause);
            &&& scanned == (search.shown && (search.scanned_query_revision != search.query_revision
                || search.scanned_grid_generation != grid.content_generation))
            &&& !scanned ==> after == search
            &&& scanned ==> {
                &&& after.fresh(grid.content_generation)
                &&& after.results == search::search_results(
                    grid,
                    search.line.text,
                    search.case_sensitive,
                )
                &&& after.current is Some <==> after.results.len() > 0
                &&& after.line == search.line
                &&& after.shown == search.shown && after.focused == search.focused
                &&& after.case_sensitive == search.case_sensitive
                &&& after.query_revision == search.query_revision
                &&& after.grid_selection_owned == search.grid_selection_owned
                &&& cause is User && after.results.len() > 0 ==> after.active() == Some(
                    after.results.last(),
                )
            }
        }),
{
}

/// New output alone causes no scan within 75 milliseconds of the last scan that it caused; the scan is
/// then due when these are over. What the user changes is looked for at once.
pub proof fn output_waits_75_milliseconds(
    search: SearchModel,
    grid: TermGrid,
    last: u64,
    now: u64,
)
    requires
        search.shown,
        search.scanned_query_revision == search.query_revision,
        search.scanned_grid_generation != grid.content_generation,
        search.last_passive_scan_at == Some(last),
        last <= now,
        last + 75_000 <= u64::MAX,
    ensures
        search.refreshed(grid, SearchRefreshCause::User, now).0,
        search.refreshed(grid, SearchRefreshCause::User, now).1.last_passive_scan_at == Some(last),
        search.refreshed(grid, SearchRefreshCause::Grid, now).0 == (now - last >= 75_000),
        now - last >= 75_000 ==> {
            let after = search.refreshed(grid, SearchRefreshCause::Grid, now).1;
            after.last_passive_scan_at == Some(now) && after.pending_passive_refresh_at is None
        },
        now - last < 75_000 ==> {
            let (_, after, selection) = search.refreshed(grid, SearchRefreshCause::Grid, now);
            &&& after.pending_passive_refresh_at == Some((last + 75_000) as u64)
            &&& after.results == search.results && after.current == search.current
            &&& after.last_passive_scan_at == Some(last)
            &&& selection == grid.selection
        },
{
}

/// The selection of the terminal shows the active result as long as the search owns it, and is left
/// alone otherwise. Where no result is left, the search gives it up and nothing is selected.
pub proof fn owned_selection_shows_the_active_result(
    search: SearchModel,
    grid: TermGrid,
    cause: SearchRefreshCause,
    now: u64,
)
    ensures
        ({
            let (scanned, after, selection) = search.refreshed(grid, cause, now);
            &&& !scanned || !search.grid_selection_owned ==> selection == grid.selection
                && after.grid_selection_owned == search.grid_selection_owned
            &&& scanned && search.grid_selection_owned ==> match after.active() {
                Some(found) => selection == Some((found.start_x, found.y, found.end_x, found.y))
                    && after.grid_selection_owned,
                None => selection is None && !after.grid_selection_owned,
            }
        }),
        ({
            let (after, selection) = search.selecting(grid.selection);
            &&& after.results == search.results && after.current == search.current
            &&& match search.active() {
                Some(found) => selection == Some((found.start_x, found.y, found.end_x, found.y))
                    && after.grid_selection_owned,
                None => !after.grid_selection_owned && (if search.grid_selection_owned {
                    selection is None
                } else {
                    selection == grid.selection
                }),
            }
        }),
        match search.current {
            Some(index) => 0 <= index < search.results.len() ==> search.active() == Some(
                search.results[index],
            ),
            None => search.active() is None,
        },
{
}

/// The columns of a text are those of its parts together, and a character takes no column, one or two.
pub proof fn columns_add_up(left: Seq<char>, right: Seq<char>, c: char)
    ensures
        search::columns(left + right) == search::columns(left) + search::columns(right),
        search::columns(seq![c]) == match search::char_width(c) {
            None => 0nat,
            Some(0) => 0,
            Some(1) => 1,
            Some(_) => 2,
        },
    decreases right.len(),
{
    assert(seq![c].drop_last() =~= Seq::empty());
    assert(search::columns(seq![c].drop_last()) == 0);
    if right.len() == 0 {
        assert(left + right =~= left);
    } else {
        columns_add_up(left, right.drop_last(), c);
        assert((left + right).drop_last() =~= left + right.drop_last());
    }
}

/// A search that was never opened is not shown, has nothing typed or found, and is not fresh.
pub proof fn new_search_is_empty(generation: u64)
    ensures
        !search::unopened().shown && !search::unopened().focused,
        !search::unopened().case_sensitive,
        search::unopened().line.text.len() == 0,
        search::unopened().results.len() == 0 && search::unopened().current is None,
        !search::unopened().fresh(generation),
        !search::unopened().grid_selection_owned,
{
}

} // verus!
