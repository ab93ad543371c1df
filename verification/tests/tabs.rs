//! The order of tabs.
use ronsole::tabs::{
    active_index_after_move, active_index_after_remove, tab_drag_destination, tab_drag_order,
    tab_drag_render_order, take_terminal_creation_number,
};

/// Which other tabs the middle of a dragged tab has passed, from widths and the way it moved.
fn passed(base_x: f32, widths: &[f32], start: usize, moved: f32) -> Vec<bool> {
    let start_x = base_x + widths[..start].iter().sum::<f32>();
    let middle = start_x + moved + widths[start] * 0.5;
    let mut x = base_x;
    widths
        .iter()
        .map(|width| {
            let center = x + width * 0.5;
            x += width;
            middle > center
        })
        .collect()
}

#[test]
fn active_identity_survives_moves_and_removals() {
    assert_eq!(active_index_after_move(0, 0, 2), 2);
    assert_eq!(active_index_after_move(1, 0, 2), 0);
    assert_eq!(active_index_after_move(1, 2, 0), 2);
    assert_eq!(active_index_after_move(2, 1, 0), 2);
    assert_eq!(active_index_after_remove(2, 0, 2), 1);
    assert_eq!(active_index_after_remove(1, 1, 2), 1);
    assert_eq!(active_index_after_remove(0, 0, 0), 0);
}

#[test]
fn creation_numbers_are_monotonic_and_not_reused() {
    let mut next = 1;
    assert_eq!(take_terminal_creation_number(&mut next), 1);
    assert_eq!(take_terminal_creation_number(&mut next), 2);
    assert_eq!(take_terminal_creation_number(&mut next), 3);
    assert_eq!(take_terminal_creation_number(&mut next), 4);
    assert_eq!(next, 5);
}

#[test]
fn drag_uses_centers_and_renders_dragged_tab_last() {
    let widths = [100.0, 120.0, 80.0];
    let destination = tab_drag_destination(0, &passed(0.0, &widths, 0, 270.0 - 50.0));
    assert_eq!(destination, 2);

    let order = tab_drag_order(3, 0, destination);
    assert_eq!(order, vec![1, 2, 0]);

    let render_order = tab_drag_render_order(&order, Some(0));
    assert_eq!(render_order.last().copied(), Some(0));
}

#[test]
fn one_tab_drag_keeps_identity_and_position() {
    let widths = [120.0];
    assert_eq!(tab_drag_destination(0, &passed(10.0, &widths, 0, 70.0 - 40.0)), 0);
    assert_eq!(tab_drag_order(1, 0, 0), vec![0]);
}

#[test]
fn order_without_a_drag_is_kept() {
    assert_eq!(tab_drag_render_order(&[0, 1, 2], None), vec![0, 1, 2]);
    assert_eq!(tab_drag_render_order(&[1, 2, 0], Some(2)), vec![1, 0, 2]);
    assert_eq!(tab_drag_order(3, 2, 0), vec![2, 0, 1]);
}
