//! The search in a terminal.
use ronsole::search::{
    collect_row_matches, scan_rows, terminal_match_cell_range,
    terminal_match_cell_range_from_map, terminal_search_match_key,
    terminal_search_result_position, SearchRefreshCause, TerminalSearchMatch,
    TerminalSearchState, TERMINAL_SEARCH_MAX_RESULTS,
    TERMINAL_SEARCH_PASSIVE_REFRESH_INTERVAL_US,
};
use ronsole::terminal::{Cell, TermGrid};

fn set_row(grid: &mut TermGrid, row: usize, text: &str) {
    for (x, c) in text.chars().enumerate() {
        grid.lines[row][x].text = c.to_string();
    }
    grid.content_generation = grid.content_generation.wrapping_add(1);
}

fn clear_row(grid: &mut TermGrid, row: usize) {
    for cell in &mut grid.lines[row] {
        *cell = Cell::default();
    }
}

fn found(start_x: usize, y: usize, end_x: usize) -> TerminalSearchMatch {
    TerminalSearchMatch { start_x, y, end_x }
}

#[test]
fn utf8_search_offsets_are_terminal_columns() {
    let line = "é界needle";
    let start = line.find("needle").unwrap();
    let end = start + "needle".len();
    assert_eq!(terminal_match_cell_range(line, start, end), Some((3, 8)));
}

#[test]
fn search_maps_wide_and_combining_text_to_physical_grid_columns() {
    let mut grid = TermGrid::new(32, 1);
    grid.lines[0][0].text = "é".to_owned();
    grid.lines[0][1].text = "界".to_owned();
    grid.lines[0][2] = Cell { text: String::new(), wide_spacer: true };
    grid.lines[0][3].text = "e\u{0301}".to_owned();
    for (index, c) in "needle".chars().enumerate() {
        grid.lines[0][4 + index].text = c.to_string();
    }
    grid.content_generation += 1;

    let mut search = TerminalSearchState::default();
    search.open();
    search.insert_text("needle");
    assert!(search.recompute_if_needed(&grid, SearchRefreshCause::User));
    assert_eq!(search.active_match(), Some(found(4, 0, 9)));

    let mut search = TerminalSearchState::default();
    search.open();
    search.insert_text("e\u{0301}");
    assert!(search.recompute_if_needed(&grid, SearchRefreshCause::User));
    assert_eq!(search.active_match(), Some(found(3, 0, 3)));
}

#[test]
fn search_reuses_results_until_query_or_grid_generation_changes() {
    let mut grid = TermGrid::new(32, 2);
    set_row(&mut grid, 0, "Alpha alpha");
    let mut search = TerminalSearchState::default();
    search.open();
    search.insert_text("alpha");
    search.recompute_if_needed(&grid, SearchRefreshCause::User);
    assert_eq!(search.results.len(), 2);
    search.toggle_case();
    search.recompute_if_needed(&grid, SearchRefreshCause::User);
    assert_eq!(search.results.len(), 1);
    set_row(&mut grid, 1, "alpha");
    search.recompute_if_needed(&grid, SearchRefreshCause::User);
    assert_eq!(search.results.len(), 2);
    assert!(!search.recompute_if_needed(&grid, SearchRefreshCause::User));
}

#[test]
fn reopening_search_rebuilds_results_after_close_clears_them() {
    let mut grid = TermGrid::new(16, 1);
    set_row(&mut grid, 0, "needle");
    let mut search = TerminalSearchState::default();
    search.open();
    search.insert_text("needle");
    assert!(search.recompute_if_needed(&grid, SearchRefreshCause::User));
    assert_eq!(search.results.len(), 1);
    search.close();
    assert!(search.results.is_empty());
    search.open();
    assert!(search.recompute_if_needed(&grid, SearchRefreshCause::User));
    assert_eq!(search.results.len(), 1);
}

#[test]
fn search_results_remain_bounded_under_match_flood() {
    let mut grid = TermGrid::new(256, 300);
    for row in &mut grid.lines {
        for cell in row {
            cell.text = "a".to_owned();
        }
    }
    grid.content_generation = grid.content_generation.wrapping_add(1);
    let mut search = TerminalSearchState::default();
    search.open();
    search.insert_text("a");
    assert!(search.recompute_if_needed(&grid, SearchRefreshCause::User));
    assert_eq!(search.results.len(), TERMINAL_SEARCH_MAX_RESULTS);
}

#[test]
fn passive_grid_refresh_preserves_exact_active_match() {
    let mut grid = TermGrid::new(32, 4);
    set_row(&mut grid, 0, "needle");
    set_row(&mut grid, 1, "needle");
    set_row(&mut grid, 2, "needle");
    let mut search = TerminalSearchState::default();
    search.open();
    search.insert_text("needle");
    assert!(search.recompute_if_needed(&grid, SearchRefreshCause::User));
    search.current = Some(1);
    let before = search.active_match().unwrap();
    assert_eq!(search.set_active_grid_selection(&mut grid), Some(before));

    set_row(&mut grid, 3, "unrelated output");
    assert!(search.refresh_for_grid_at(&mut grid, SearchRefreshCause::Grid, 0));

    assert_eq!(search.active_match(), Some(before));
    assert_eq!(search.current, Some(1));
    assert_eq!(grid.selection, Some((before.start_x, before.y, before.end_x, before.y)));
}

#[test]
fn passive_refresh_preserves_cross_row_match_when_start_x_decreases() {
    let mut grid = TermGrid::new(32, 3);
    set_row(&mut grid, 0, "..........needle");
    set_row(&mut grid, 1, "needle");
    let mut search = TerminalSearchState::default();
    search.open();
    search.insert_text("needle");
    assert!(search.recompute_if_needed(&grid, SearchRefreshCause::User));
    assert_eq!(search.results, vec![found(10, 0, 15), found(0, 1, 5)]);

    search.current = Some(0);
    let active = search.active_match().unwrap();
    set_row(&mut grid, 2, "unrelated output");
    assert!(search.recompute_if_needed(&grid, SearchRefreshCause::Grid));

    assert_eq!(search.active_match(), Some(active));
    assert_eq!(search.current, Some(0));
}

#[test]
fn passive_refresh_fallback_uses_row_major_insertion_order() {
    let mut grid = TermGrid::new(40, 3);
    set_row(&mut grid, 0, "..........needle");
    set_row(&mut grid, 1, "needle");
    set_row(&mut grid, 2, "....................needle");
    let mut search = TerminalSearchState::default();
    search.open();
    search.insert_text("needle");
    assert!(search.recompute_if_needed(&grid, SearchRefreshCause::User));
    search.current = Some(0);
    let removed = search.active_match().unwrap();
    assert_eq!(removed, found(10, 0, 15));

    clear_row(&mut grid, 0);
    grid.content_generation = grid.content_generation.wrapping_add(1);
    assert!(search.recompute_if_needed(&grid, SearchRefreshCause::Grid));

    assert_eq!(search.active_match(), Some(found(0, 1, 5)));
    assert_eq!(search.current, Some(0));
}

#[test]
fn terminal_search_match_key_is_explicitly_row_major() {
    let first = found(10, 0, 15);
    let second = found(0, 1, 5);
    assert!(terminal_search_match_key(&first) < terminal_search_match_key(&second));
    assert_eq!(terminal_search_match_key(&first), (0, 10, 15));
    assert_eq!(terminal_search_match_key(&second), (1, 0, 5));
}

#[test]
fn passive_new_matching_output_does_not_steal_current_result() {
    let mut grid = TermGrid::new(32, 4);
    set_row(&mut grid, 0, "needle");
    set_row(&mut grid, 1, "needle");
    set_row(&mut grid, 2, "needle");
    let mut search = TerminalSearchState::default();
    search.open();
    search.insert_text("needle");
    assert!(search.recompute_if_needed(&grid, SearchRefreshCause::User));
    search.current = Some(0);
    let before = search.active_match().unwrap();
    search.set_active_grid_selection(&mut grid);

    set_row(&mut grid, 3, "new needle");
    assert!(search.refresh_for_grid_at(&mut grid, SearchRefreshCause::Grid, 0));

    assert_eq!(search.results.len(), 4);
    assert_eq!(search.active_match(), Some(before));
    assert_ne!(search.current, Some(search.results.len() - 1));
    assert_eq!(grid.selection, Some((before.start_x, before.y, before.end_x, before.y)));
}

#[test]
fn passive_refresh_uses_nearby_fallback_and_clears_stale_selection_when_empty() {
    let mut grid = TermGrid::new(32, 3);
    set_row(&mut grid, 0, "needle");
    set_row(&mut grid, 1, "needle");
    set_row(&mut grid, 2, "needle");
    let mut search = TerminalSearchState::default();
    search.open();
    search.insert_text("needle");
    assert!(search.recompute_if_needed(&grid, SearchRefreshCause::User));
    search.current = Some(1);
    let removed = search.active_match().unwrap();
    search.set_active_grid_selection(&mut grid);
    let now = 1_000_000;

    clear_row(&mut grid, 1);
    grid.content_generation = grid.content_generation.wrapping_add(1);
    assert!(search.refresh_for_grid_at(&mut grid, SearchRefreshCause::Grid, now));
    let fallback = search.active_match().expect("nearby result should remain");
    assert_ne!(fallback, removed);
    assert_eq!(fallback.y, 2);
    assert!(search.current.is_some_and(|index| index < search.results.len()));
    assert_eq!(
        grid.selection,
        Some((fallback.start_x, fallback.y, fallback.end_x, fallback.y))
    );

    for row in 0..3 {
        clear_row(&mut grid, row);
    }
    grid.content_generation = grid.content_generation.wrapping_add(1);
    assert!(search.refresh_for_grid_at(
        &mut grid,
        SearchRefreshCause::Grid,
        now + TERMINAL_SEARCH_PASSIVE_REFRESH_INTERVAL_US,
    ));
    assert!(search.results.is_empty());
    assert_eq!(search.current, None);
    assert_eq!(grid.selection, None);
}

#[test]
fn passive_search_refresh_coalesces_generation_flood_and_finishes_after_quiescence() {
    let mut grid = TermGrid::new(32, 2);
    set_row(&mut grid, 0, "needle");
    let mut search = TerminalSearchState::default();
    search.open();
    search.insert_text("needle");
    let base = 5_000_000;
    assert!(search.refresh_for_grid_at(&mut grid, SearchRefreshCause::User, base));

    let mut passive_scan_count = 0usize;
    for update in 0..100u64 {
        grid.content_generation = grid.content_generation.wrapping_add(1);
        let now = base + update * 100;
        passive_scan_count +=
            usize::from(search.refresh_for_grid_at(&mut grid, SearchRefreshCause::Grid, now));
    }
    assert_eq!(passive_scan_count, 1);
    let latest_generation = grid.content_generation;
    let deadline = search
        .pending_passive_refresh_deadline()
        .expect("coalesced passive search needs a final wakeup");
    assert_eq!(deadline, base + TERMINAL_SEARCH_PASSIVE_REFRESH_INTERVAL_US);
    assert_ne!(search.scanned_grid_generation, latest_generation);

    assert!(search.refresh_for_grid_at(&mut grid, SearchRefreshCause::Grid, deadline));
    assert_eq!(search.scanned_grid_generation, latest_generation);
    assert!(search.pending_passive_refresh_deadline().is_none());

    search.insert_text("x");
    grid.content_generation = grid.content_generation.wrapping_add(1);
    assert!(search.refresh_for_grid_at(&mut grid, SearchRefreshCause::User, deadline + 1_000));
    assert_eq!(search.scanned_grid_generation, grid.content_generation);
    assert!(search.pending_passive_refresh_deadline().is_none());
}

#[test]
fn search_editor_handles_utf8_selection_without_byte_cursor_mixing() {
    let mut search = TerminalSearchState::default();
    search.insert_text("a界b");
    search.move_cursor(1, false);
    search.move_right(true);
    assert_eq!(search.selected_text().as_deref(), Some("界"));
    search.insert_text("Z");
    assert_eq!(search.input.text, "aZb");
    assert_eq!(search.input.cursor, 2);
}

#[test]
fn special_characters_of_the_query_are_taken_as_they_are() {
    let mut grid = TermGrid::new(16, 1);
    set_row(&mut grid, 0, "axb a.b [a-z]");
    assert_eq!(scan_rows(&grid, "a.b", true), vec![found(4, 0, 6)]);
    assert_eq!(scan_rows(&grid, "[a-z]", true), vec![found(8, 0, 12)]);
    assert_eq!(scan_rows(&grid, "A.B", true), vec![]);
    assert_eq!(scan_rows(&grid, "A.B", false), vec![found(4, 0, 6)]);
    assert_eq!(scan_rows(&grid, "", true), vec![]);
}

#[test]
fn every_place_of_the_query_has_a_result_over_it() {
    let mut grid = TermGrid::new(16, 2);
    set_row(&mut grid, 0, "aaa baab");
    set_row(&mut grid, 1, "Aaa");
    assert_eq!(
        scan_rows(&grid, "aa", true),
        vec![found(0, 0, 1), found(5, 0, 6), found(1, 1, 2)]
    );
    assert_eq!(
        scan_rows(&grid, "aa", false),
        vec![found(0, 0, 1), found(5, 0, 6), found(0, 1, 1)]
    );
}

#[test]
fn rows_that_left_the_screen_are_searched_first() {
    let mut grid = TermGrid::new(8, 1);
    let mut old = Vec::new();
    for c in "needle  ".chars() {
        old.push(Cell { text: c.to_string(), wide_spacer: false });
    }
    grid.scrollback.push(old);
    set_row(&mut grid, 0, " needle");
    assert_eq!(scan_rows(&grid, "needle", true), vec![found(0, 0, 5), found(1, 1, 6)]);
    grid.is_alt = true;
    assert_eq!(scan_rows(&grid, "needle", true), vec![found(1, 0, 6)]);
}

#[test]
fn next_and_previous_go_round() {
    let mut grid = TermGrid::new(16, 1);
    set_row(&mut grid, 0, "a a a");
    let mut search = TerminalSearchState::default();
    search.open();
    search.insert_text("a");
    search.recompute_if_needed(&grid, SearchRefreshCause::User);
    let first = search.current;
    search.previous();
    search.next();
    assert_eq!(search.current, first);
    for _ in 0..3 {
        search.next();
    }
    assert_eq!(search.current, first);
    assert_eq!(search.row_matches(0), (0, 3));
    assert_eq!(search.row_matches(1), (3, 3));
}

#[test]
fn results_are_found_by_row_then_column() {
    let results = [found(1, 0, 2), found(0, 1, 1)];
    assert_eq!(terminal_search_result_position(&results, found(0, 1, 1)), Ok(1));
    assert_eq!(terminal_search_result_position(&results, found(5, 0, 6)), Err(1));
    assert_eq!(terminal_match_cell_range_from_map(&[0, 1, 1, 2], 1, 3), Some((1, 1)));
    assert_eq!(terminal_match_cell_range_from_map(&[0, 1], 1, 1), None);
    let mut collected = Vec::new();
    assert!(collect_row_matches(&mut collected, &[0, 1, 2], &[(0, 1), (2, 3)], 7));
    assert_eq!(collected, vec![found(0, 7, 0), found(2, 7, 2)]);
}

#[test]
fn only_an_owned_selection_is_taken_back() {
    let mut grid = TermGrid::new(16, 1);
    set_row(&mut grid, 0, "needle");
    let mut search = TerminalSearchState::default();
    search.open();
    search.insert_text("needle");
    search.recompute_if_needed(&grid, SearchRefreshCause::User);
    assert!(!search.owns_grid_selection());
    search.set_active_grid_selection(&mut grid);
    assert!(search.owns_grid_selection());
    search.release_grid_selection_ownership();
    assert!(!search.owns_grid_selection());
}
