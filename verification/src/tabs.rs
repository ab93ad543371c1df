//! The order of the tabs, and which of them is active.
use vstd::prelude::*;

verus! {

/// A list with one of its items taken out and put back at another place.
pub open spec fn moved<T>(items: Seq<T>, from: int, to: int) -> Seq<T> {
    items.remove(from).insert(to, items[from])
}

/// Where a place of a list has gone when an item moved from one place to another.
pub open spec fn place_after_move(place: int, from: int, to: int) -> int {
    if place == from {
        to
    } else if from < place <= to {
        place - 1
    } else if to <= place < from {
        place + 1
    } else {
        place
    }
}

/// The index of the active tab after a tab moved.
pub fn active_index_after_move(active: usize, from: usize, to: usize) -> (index: usize)
    ensures
        index == place_after_move(active as int, from as int, to as int),
{
    if active == from {
        to
    } else if from < to && active > from && active <= to {
        active - 1
    } else if to < from && active >= to && active < from {
        active + 1
    } else {
        active
    }
}

/// The active tab is the same one after a tab moved.
pub proof fn active_tab_survives_move<T>(items: Seq<T>, active: int, from: int, to: int)
    requires
        0 <= active < items.len(),
        0 <= from < items.len(),
        0 <= to < items.len(),
    ensures
        0 <= place_after_move(active, from, to) < items.len(),
        moved(items, from, to).len() == items.len(),
        moved(items, from, to)[place_after_move(active, from, to)] == items[active],
{
}

/// A moved item stands where it was put, and the others stand in the order in which they stood.
pub proof fn moving_keeps_the_others_in_order<T>(items: Seq<T>, from: int, to: int)
    requires
        0 <= from < items.len(),
        0 <= to < items.len(),
    ensures
        moved(items, from, to).len() == items.len(),
        moved(items, from, to)[to] == items[from],
        moved(items, from, to).remove(to) == items.remove(from),
{
    assert(moved(items, from, to).remove(to) =~= items.remove(from));
}

/// The place of the active tab when a tab was removed and `remaining` are left: it follows its tab;
/// where the active tab itself went, the next one takes its place, or the last.
pub open spec fn place_after_remove(active: int, removed: int, remaining: int) -> int {
    if remaining == 0 {
        0
    } else if active > removed {
        active - 1
    } else if active < remaining {
        active
    } else {
        remaining - 1
    }
}

/// The index of the active tab after a tab was removed and `remaining` are left.
pub fn active_index_after_remove(active: usize, removed: usize, remaining: usize) -> (index: usize)
    ensures
        index == place_after_remove(active as int, removed as int, remaining as int),
{
    if remaining == 0 {
        return 0;
    }
    if active > removed {
        active - 1
    } else if active < remaining {
        active
    } else {
        remaining - 1
    }
}

/// The active tab is the same one after another tab was removed. Where the active tab itself was
/// removed, the tab after it is active, or the one before it where it was the last.
pub proof fn active_tab_survives_removal<T>(items: Seq<T>, active: int, removed: int)
    requires
        0 <= active < items.len(),
        0 <= removed < items.len(),
    ensures
        ({
            let after = items.remove(removed);
            let place = place_after_remove(active, removed, after.len() as int);
            &&& after.len() > 0 ==> 0 <= place < after.len()
            &&& active != removed ==> after[place] == items[active]
            &&& active == removed && removed + 1 < items.len() ==> after[place] == items[removed + 1]
            &&& active == removed && removed + 1 == items.len() && removed > 0 ==> after[place]
                == items[removed - 1]
            &&& after.len() == 0 ==> place == 0
        }),
{
}

/// The number after a number: one more, or the last that there is.
pub open spec fn number_after(number: u64) -> u64 {
    if number < u64::MAX {
        (number + 1) as u64
    } else {
        u64::MAX
    }
}

/// The number of a new terminal. Numbers go up by one, and stay at the last that there is.
pub fn take_terminal_creation_number(next: &mut u64) -> (number: u64)
    ensures
        number == *old(next),
        *final(next) == number_after(*old(next)),
{
    let number: u64 = *next;
    *next = number.saturating_add(1);
    number
}

/// Numbers follow each other without a gap, up to the last that there is.
pub proof fn numbers_follow_each_other(number: u64)
    ensures
        number < u64::MAX ==> number_after(number) - number == 1,
        number_after(u64::MAX) == u64::MAX,
{
}

/// Numbers only go up, so none is used twice before they run out.
pub proof fn numbers_are_not_reused(number: u64, later: u64)
    requires
        number < u64::MAX,
        later >= number_after(number),
    ensures
        later > number,
        number_after(later) > number,
{
}

/// Where a dragged tab goes, by the tabs whose centre it passed.
pub open spec fn is_destination(start: int, passed: Seq<bool>, destination: int) -> bool {
    if exists|i: int| start < i < passed.len() && #[trigger] passed[i] {
        &&& start < destination < passed.len()
        &&& passed[destination]
        &&& forall|i: int| destination < i < passed.len() ==> !#[trigger] passed[i]
    } else if exists|i: int| 0 <= i < start && #[trigger] passed[i] {
        &&& 0 <= destination < start
        &&& passed[destination]
        &&& forall|i: int| 0 <= i < destination ==> !#[trigger] passed[i]
    } else {
        destination == start
    }
}

/// Where a dragged tab goes: behind the last tab after it whose centre it passed; where there is none,
/// before the first such tab ahead of it.
pub fn tab_drag_destination(start: usize, passed: &[bool]) -> (destination: usize)
    requires
        start < passed@.len(),
    ensures
        is_destination(start as int, passed@, destination as int),
        destination < passed@.len(),
{
    let count: usize = passed.len();
    let mut destination: usize = start;
    let mut i: usize = 0;
    while i < start
        invariant
            i <= start < passed@.len(),
            destination <= start,
            destination == start ==> forall|j: int| 0 <= j < i ==> !#[trigger] passed@[j],
            destination < start ==> destination < i && passed@[destination as int] && forall|j: int|
                0 <= j < destination ==> !#[trigger] passed@[j],
        decreases start - i,
    {
        if passed[i] && destination == start {
            destination = i;
        }
        i += 1;
    }
    let ghost earlier = destination;
    i = start + 1;
    while i < count
        invariant
            count == passed@.len(),
            start < i <= passed@.len(),
            earlier <= start < passed@.len(),
            destination <= start ==> destination == earlier && forall|j: int|
                start < j < i ==> !#[trigger] passed@[j],
            destination > start ==> destination < i && passed@[destination as int] && forall|j: int|
                destination < j < i ==> !#[trigger] passed@[j],
        decreases passed@.len() - i,
    {
        if passed[i] {
            destination = i;
        }
        i += 1;
    }
    destination
}

/// A dragged tab goes to a tab whose centre it passed, and beyond it there is no such tab: those after
/// it count before those ahead of it, and without any it stays. It goes to one place only.
pub proof fn dragged_tab_goes_furthest(start: int, passed: Seq<bool>, destination: int, i: int)
    requires
        0 <= start < passed.len(),
        0 <= i < passed.len(),
        is_destination(start, passed, destination),
    ensures
        destination == start || passed[destination],
        passed[i] && start < i ==> i <= destination,
        passed[i] && i < start && destination <= start ==> destination <= i,
        destination == start && passed[i] ==> i == start,
        forall|other: int| is_destination(start, passed, other) ==> other == destination,
{
}

/// The tabs from left to right while one of them is dragged.
pub fn tab_drag_order(count: usize, start: usize, destination: usize) -> (order: Vec<usize>)
    requires
        start < count,
        destination < count,
    ensures
        order@ == moved(Seq::new(count as nat, |i: int| i as usize), start as int, destination as int),
{
    let mut order: Vec<usize> = Vec::new();
    let mut i: usize = 0;
    while i < count
        invariant
            i <= count,
            order@.len() == i,
            forall|j: int| 0 <= j < i ==> (#[trigger] order@[j]) == j,
        decreases count - i,
    {
        order.push(i);
        i += 1;
    }
    assert(order@ =~= Seq::new(count as nat, |i: int| i as usize));
    let dragged: usize = order.remove(start);
    order.insert(destination, dragged);
    order
}

/// The tabs in the order in which they are drawn: the dragged one last.
pub open spec fn drawn(order: Seq<usize>, dragged: Option<usize>) -> Seq<usize> {
    match dragged {
        Some(dragged) => order.filter(|tab: usize| tab != dragged).push(dragged),
        None => order,
    }
}

/// The tabs in the order in which they are drawn: the dragged one last, over the others.
pub fn tab_drag_render_order(order: &[usize], dragged_idx: Option<usize>) -> (render_order: Vec<usize>)
    ensures
        render_order@ == drawn(order@, dragged_idx),
{
    let mut render_order: Vec<usize> = Vec::new();
    let mut i: usize = 0;
    let ghost other = |tab: usize| dragged_idx is None || tab != dragged_idx->0;
    assert(render_order@ =~= order@.take(0).filter(other)) by {
        assert(order@.take(0) =~= Seq::<usize>::empty());
        reveal(Seq::filter);
    }
    while i < order.len()
        invariant
            i <= order@.len(),
            other == (|tab: usize| dragged_idx is None || tab != dragged_idx->0),
            render_order@ == order@.take(i as int).filter(other),
        decreases order@.len() - i,
    {
        let tab: usize = order[i];
        proof {
            reveal(Seq::filter);
            assert(order@.take(i + 1).drop_last() =~= order@.take(i as int));
        }
        let keep = match dragged_idx {
            Some(dragged) => tab != dragged,
            None => true,
        };
        if keep {
            render_order.push(tab);
        }
        i += 1;
    }
    assert(order@.take(i as int) =~= order@);
    match dragged_idx {
        Some(dragged) => {
            proof {
                assert(other =~= (|tab: usize| tab != dragged));
            }
            render_order.push(dragged);
        },
        None => {
            proof {
                all_kept(order@, other);
            }
        },
    }
    render_order
}

proof fn all_kept(order: Seq<usize>, keep: spec_fn(usize) -> bool)
    requires
        forall|tab: usize| #[trigger] keep(tab),
    ensures
        order.filter(keep) == order,
    decreases order.len(),
{
    reveal(Seq::filter);
    if order.len() > 0 {
        all_kept(order.drop_last(), keep);
        assert(order.drop_last().push(order.last()) =~= order);
    }
}

proof fn pushed_is_contained(items: Seq<usize>, last: usize, item: usize)
    ensures
        items.push(last).contains(item) <==> items.contains(item) || item == last,
{
    let all = items.push(last);
    if items.contains(item) {
        let i = choose|i: int| 0 <= i < items.len() && items[i] == item;
        assert(all[i] == item);
    }
    if item == last {
        assert(all[items.len() as int] == item);
    }
    if all.contains(item) && item != last {
        let i = choose|i: int| 0 <= i < all.len() && all[i] == item;
        assert(items[i] == item);
    }
}

proof fn others_are_kept(order: Seq<usize>, dragged: usize, tab: usize)
    ensures
        order.filter(|tab: usize| tab != dragged).contains(tab) <==> order.contains(tab) && tab
            != dragged,
    decreases order.len(),
{
    reveal(Seq::filter);
    let keep = |tab: usize| tab != dragged;
    if order.len() > 0 {
        let rest = order.drop_last();
        others_are_kept(rest, dragged, tab);
        assert(rest.push(order.last()) =~= order);
        pushed_is_contained(rest, order.last(), tab);
        pushed_is_contained(rest.filter(keep), order.last(), tab);
    }
}

/// Every tab is drawn while one of them is dragged, and none but they; the dragged one is drawn last.
pub proof fn dragging_draws_every_tab(order: Seq<usize>, dragged: usize)
    requires
        order.contains(dragged),
    ensures
        forall|tab: usize| #[trigger] drawn(order, Some(dragged)).contains(tab) <==> order.contains(tab),
        drawn(order, Some(dragged)).last() == dragged,
{
    assert forall|tab: usize| #[trigger] drawn(order, Some(dragged)).contains(tab) <==> order.contains(
        tab,
    ) by {
        others_are_kept(order, dragged, tab);
        pushed_is_contained(order.filter(|tab: usize| tab != dragged), dragged, tab);
    }
}

proof fn filter_takes_one(order: Seq<usize>, dragged: usize, place: int)
    requires
        0 <= place < order.len(),
        order[place] == dragged,
        order.no_duplicates(),
    ensures
        order.filter(|tab: usize| tab != dragged) == order.remove(place),
    decreases order.len(),
{
    reveal(Seq::filter);
    let keep = |tab: usize| tab != dragged;
    let rest = order.drop_last();
    if place == order.len() - 1 {
        filter_takes_none(rest, dragged);
        assert(order.remove(place) =~= rest);
    } else {
        filter_takes_one(rest, dragged, place);
        assert(order.remove(place) =~= rest.remove(place).push(order.last()));
        assert(order.last() != dragged);
    }
}

proof fn filter_takes_none(order: Seq<usize>, dragged: usize)
    requires
        !order.contains(dragged),
    ensures
        order.filter(|tab: usize| tab != dragged) == order,
    decreases order.len(),
{
    reveal(Seq::filter);
    if order.len() > 0 {
        let rest = order.drop_last();
        assert(rest.push(order.last()) =~= order);
        pushed_is_contained(rest, order.last(), dragged);
        filter_takes_none(rest, dragged);
    }
}

/// The dragged tab is drawn after the others, which are drawn in their order from left to right; without
/// one the tabs are drawn in that order.
pub proof fn dragging_draws_in_order(order: Seq<usize>, place: int)
    requires
        0 <= place < order.len(),
        order.no_duplicates(),
    ensures
        drawn(order, Some(order[place])) == order.remove(place).push(order[place]),
        drawn(order, None) == order,
{
    filter_takes_one(order, order[place], place);
}

} // verus!
