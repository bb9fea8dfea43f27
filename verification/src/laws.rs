//! What holds of the layouts across whole transactions.

use vstd::prelude::*;
use vstd::arithmetic::div_mod::{
    lemma_fundamental_div_mod, lemma_fundamental_div_mod_converse, lemma_mod_bound,
};
use crate::geometry::{clamp_i32, covered, non_empty, remaining, Point, Rectangle, Size};
use crate::layer::{placed_all, LayerWindow};
use crate::layout::{
    cycle_target, distinct_slots, held, retained, same_surfaces, slot_id, Layout, LayoutPosition,
    LayoutsView, Transaction,
};
use crate::orientation::Orientation;
use crate::output::{primary_extent_bounds, Output};
use crate::overview::{
    clamp, clamp_i64, magnitude, min_offset, scaled, DragAction, DragAndDrop, Overview,
    OFFSET_PER_PIXEL, OVERDRAG_LIMIT,
};
use crate::text::{split, trimmed, trimmed_end, trimmed_start, is_space};
use crate::transaction::{armed, elapsed_millis, MAX_TRANSACTION_MILLIS};
use crate::window::{Window, WindowId};
use crate::windows::{ViewMode, WindowsView};

verus! {

/// No layout survives the end of a transaction without a primary window,
/// and no layout is added by it.
pub proof fn retained_occupied(layouts: Seq<Layout>)
    ensures
        retained(layouts).len() <= layouts.len(),
        forall|j: int|
            0 <= j < retained(layouts).len() ==> (#[trigger] retained(layouts)[j]).primary.is_some(),
    decreases layouts.len(),
{
    if layouts.len() > 0 {
        retained_occupied(layouts.drop_last());
    }
}

/// The layouts that survive among the first `k` come first, unchanged,
/// among those that survive of all.
pub proof fn retained_prefix(layouts: Seq<Layout>, k: int)
    requires
        0 <= k <= layouts.len(),
    ensures
        retained(layouts.take(k)).len() <= retained(layouts).len(),
        forall|j: int|
            0 <= j < retained(layouts.take(k)).len() ==> retained(layouts.take(k))[j] == retained(
                layouts,
            )[j],
    decreases layouts.len(),
{
    if k == layouts.len() {
        assert(layouts.take(k) =~= layouts);
    } else {
        assert(layouts.drop_last().take(k) =~= layouts.take(k));
        retained_prefix(layouts.drop_last(), k);
    }
}

/// A layout that survives the end of a transaction is found, settled,
/// behind the survivors among the layouts before it.
pub proof fn retained_index(layouts: Seq<Layout>, k: int)
    requires
        0 <= k < layouts.len(),
        layouts[k].settled().primary.is_some(),
    ensures
        retained(layouts.take(k)).len() < retained(layouts).len(),
        retained(layouts)[retained(layouts.take(k)).len() as int] == layouts[k].settled(),
{
    let upto = layouts.take(k + 1);
    assert(upto.drop_last() =~= layouts.take(k));
    assert(upto.last() == layouts[k]);
    assert(retained(upto) == retained(layouts.take(k)).push(layouts[k].settled()));
    retained_prefix(layouts, k + 1);
}

/// A layout that does not survive the end of a transaction makes the
/// layouts fewer.
pub proof fn retained_shrinks(layouts: Seq<Layout>, k: int)
    requires
        0 <= k < layouts.len(),
        layouts[k].settled().primary.is_none(),
    ensures
        retained(layouts).len() < layouts.len(),
    decreases layouts.len(),
{
    retained_occupied(layouts.drop_last());
    if k < layouts.len() - 1 {
        retained_shrinks(layouts.drop_last(), k);
    }
}

/// Every window that survives the end of a transaction was alive before
/// it, and differs from what it was only in that its pending geometry took
/// effect.
pub proof fn retained_source(layouts: Seq<Layout>, j: int, secondary: bool)
    requires
        0 <= j < retained(layouts).len(),
        retained(layouts)[j].slot(secondary).is_some(),
    ensures
        exists|i: int, from: bool|
            {
                &&& 0 <= i < layouts.len()
                &&& (#[trigger] layouts[i].slot(from)) matches Some(window)
                &&& window.alive
                &&& retained(layouts)[j].slot(secondary) == Some(window.applied())
            },
    decreases layouts.len(),
{
    let rest = retained(layouts.drop_last());
    if j < rest.len() {
        retained_source(layouts.drop_last(), j, secondary);
        let (i, from) = choose|i: int, from: bool|
            {
                &&& 0 <= i < layouts.drop_last().len()
                &&& (#[trigger] layouts.drop_last()[i].slot(from)) matches Some(window)
                &&& window.alive
                &&& rest[j].slot(secondary) == Some(window.applied())
            };
        assert(layouts[i].slot(from) == layouts.drop_last()[i].slot(from));
    } else {
        let last = layouts.last();
        let i = layouts.len() - 1;
        if last.primary matches Some(window) && window.alive && last.settled().slot(secondary)
            == Some(window.applied()) {
            assert(layouts[i].slot(false) is Some);
        } else {
            assert(layouts[i].slot(true) is Some);
        }
    }
}

/// After a transaction was applied the active index is unset or points at
/// a layout, and every layout has a primary window, whatever was staged
/// and whichever windows died.
pub proof fn apply_transaction_wf(layouts: LayoutsView)
    ensures
        layouts.apply_transaction().wf(),
{
    let applied = layouts.apply_changes(layouts.transactions);
    retained_occupied(applied.layouts);
    match applied.active_layout {
        Some(index) => {
            if index < applied.layouts.len() && applied.layouts[index as int].settled().primary.is_some() {
                retained_index(applied.layouts, index as int);
            }
        },
        None => {},
    }
}

/// A step of `n` layouts followed by a step of `n` layouts back leads to
/// the layout that was active at first, however many layouts there are.
pub proof fn cycle_active_returns(active: usize, n: int, count: usize)
    requires
        count > 0,
        active < count,
    ensures
        0 <= cycle_target(Some(active), n, count as int) < count,
        cycle_target(Some(cycle_target(Some(active), n, count as int) as usize), -n, count as int)
            == active,
{
    let there = (active + n) % (count as int);
    let turns = (active + n) / (count as int);
    lemma_mod_bound(active + n, count as int);
    lemma_fundamental_div_mod(active + n, count as int);
    assert((-turns) * count == -(count * turns)) by (nonlinear_arith);
    lemma_fundamental_div_mod_converse(there - n, count as int, -turns, active as int);
}

/// Whether the windows of `layout` that show the surface `id` are dead.
pub open spec fn dead_in(layout: Layout, id: WindowId) -> bool {
    &&& layout.primary matches Some(window) ==> window.id == id ==> !window.alive
    &&& layout.secondary matches Some(window) ==> window.id == id ==> !window.alive
}

/// Whether all windows that show the surface `id` are dead.
pub open spec fn all_dead(layouts: Seq<Layout>, id: WindowId) -> bool {
    forall|i: int| 0 <= i < layouts.len() ==> dead_in(#[trigger] layouts[i], id)
}

/// Once a surface was reaped, every window that shows it is dead.
pub proof fn reap_kills(layouts: LayoutsView, output: Output, id: WindowId)
    ensures
        all_dead(layouts.reap(output, id).layouts, id),
{
}

/// A staged change that takes effect revives no window.
pub proof fn apply_change_keeps_dead(layouts: LayoutsView, transaction: Transaction, id: WindowId)
    requires
        all_dead(layouts.layouts, id),
    ensures
        all_dead(layouts.apply_change(transaction).layouts, id),
{
    let after = layouts.apply_change(transaction).layouts;
    assert forall|i: int| 0 <= i < after.len() implies dead_in(#[trigger] after[i], id) by {
        match transaction {
            Transaction::Active(target) => {
                if i < layouts.layouts.len() {
                    assert(dead_in(layouts.layouts[i], id));
                }
            },
            Transaction::Primary(position, staged) => {
                if i < layouts.layouts.len() {
                    assert(dead_in(layouts.layouts[i], id));
                }
                if position.index < layouts.layouts.len() {
                    assert(dead_in(layouts.layouts[position.index as int], id));
                }
            },
            Transaction::Secondary(position, staged) => {
                if i < layouts.layouts.len() {
                    assert(dead_in(layouts.layouts[i], id));
                }
                if position.index < layouts.layouts.len() {
                    assert(dead_in(layouts.layouts[position.index as int], id));
                }
                match layouts.active_layout {
                    Some(index) => {
                        if index < layouts.layouts.len() {
                            assert(dead_in(layouts.layouts[index as int], id));
                        }
                    },
                    None => {},
                }
            },
        }
    }
}

/// Staged changes that take effect revive no window.
pub proof fn apply_changes_keep_dead(layouts: LayoutsView, changes: Seq<Transaction>, id: WindowId)
    requires
        all_dead(layouts.layouts, id),
    ensures
        all_dead(layouts.apply_changes(changes).layouts, id),
    decreases changes.len(),
{
    if changes.len() > 0 {
        apply_changes_keep_dead(layouts, changes.drop_last(), id);
        apply_change_keeps_dead(layouts.apply_changes(changes.drop_last()), changes.last(), id);
    }
}

/// Once a surface was reaped and the transaction was applied, no window
/// shows it any more, whatever else was staged.
pub proof fn reap_removes_window(layouts: LayoutsView, output: Output, id: WindowId)
    ensures
        !layouts.reap(output, id).apply_transaction().holds(id),
{
    let reaped = layouts.reap(output, id);
    let applied = reaped.apply_changes(reaped.transactions);
    let settled = applied.settle();
    reap_kills(layouts, output, id);
    apply_changes_keep_dead(reaped, reaped.transactions, id);
    assert forall|position: LayoutPosition| !settled.shows(position, id) by {
        if settled.window_at(position).is_some() {
            retained_source(applied.layouts, position.index as int, position.secondary);
            let (i, from) = choose|i: int, from: bool|
                {
                    &&& 0 <= i < applied.layouts.len()
                    &&& (#[trigger] applied.layouts[i].slot(from)) matches Some(window)
                    &&& window.alive
                    &&& retained(applied.layouts)[position.index as int].slot(position.secondary)
                        == Some(window.applied())
                };
            assert(dead_in(applied.layouts[i], id));
        }
    }
}

/// With nothing else staged, a reaped window that was alone in its layout
/// takes the layout with it once the transaction is applied.
pub proof fn reap_sole_occupant(layouts: LayoutsView, output: Output, id: WindowId, index: int)
    requires
        layouts.transactions.len() == 0,
        0 <= index < layouts.layouts.len(),
        layouts.layouts[index].primary matches Some(window) && window.id == id,
        layouts.layouts[index].secondary.is_none(),
    ensures
        layouts.reap(output, id).apply_transaction().layouts.len() < layouts.layouts.len(),
        !layouts.reap(output, id).apply_transaction().holds(id),
{
    let reaped = layouts.reap(output, id);
    reap_removes_window(layouts, output, id);
    retained_shrinks(reaped.layouts, index);
}

/// With nothing else staged, the window beside a reaped one is alone in
/// its layout once the transaction is applied, as the primary and with the
/// geometry of a window that has the output to itself.
pub proof fn reap_grows_sibling(
    layouts: LayoutsView,
    output: Output,
    id: WindowId,
    index: int,
    dying: bool,
)
    requires
        layouts.transactions.len() == 0,
        0 <= index < layouts.layouts.len(),
        layouts.layouts[index].slot(dying) matches Some(window) && window.id == id,
        layouts.layouts[index].slot(!dying) matches Some(window) && window.id != id && window.alive,
    ensures
        ({
            let after = layouts.reap(output, id).apply_transaction();
            let at = retained(layouts.reap(output, id).layouts.take(index)).len() as int;
            let sibling = layouts.layouts[index].slot(!dying).unwrap();
            &&& at < after.layouts.len()
            &&& after.layouts[at] == Layout {
                primary: Some(
                    Window {
                        rectangle: output.spec_primary_rectangle(false),
                        pending: None,
                        dirty: sibling.dirty || sibling.rectangle != output.spec_primary_rectangle(
                            false,
                        ),
                        ..sibling
                    },
                ),
                secondary: None,
            }
        }),
{
    let reaped = layouts.reap(output, id);
    retained_index(reaped.layouts, index);
}

/// A transaction that is started while one is in flight joins it: the
/// deadline of the first stands.
pub proof fn start_transaction_once(clock: Option<u64>, first: u64, second: u64)
    ensures
        armed(armed(clock, first), second) == armed(clock, first),
        armed(clock, first).is_some(),
{
}

/// No window holds a transaction up for longer than the deadline: a frame
/// tick later than that applies what is staged and stops the clock.
pub proof fn transaction_times_out(windows: WindowsView, now: u64)
    requires
        windows.clock matches Some(start) && elapsed_millis(start, now) > MAX_TRANSACTION_MILLIS,
    ensures
        windows.update_transaction(now) == windows.apply_transaction(),
        windows.update_transaction(now).clock.is_none(),
        windows.update_transaction(now).staged_view.is_none(),
        windows.update_transaction(now).layouts.wf(),
        windows.transaction_deadline(now).is_none(),
{
    apply_transaction_wf(windows.layouts);
}

/// A transaction whose windows have all caught up is applied by the next
/// frame tick, however young it is.
pub proof fn transaction_completes(windows: WindowsView, now: u64)
    requires
        windows.clock.is_some(),
        windows.layouts.transaction_done(),
        windows.layers.transaction_done(),
    ensures
        windows.update_transaction(now) == windows.apply_transaction(),
        windows.transaction_deadline(now).is_none(),
{
}

/// Placing layer shell windows changes nothing of the output but what is
/// reserved along its edges.
pub proof fn placing_keeps_output(windows: Seq<LayerWindow>, output: Output, fullscreen_active: bool)
    ensures
        placed_all(windows, output, fullscreen_active).1 == (Output {
            exclusive: placed_all(windows, output, fullscreen_active).1.exclusive,
            ..output
        }),
        placed_all(windows, output, fullscreen_active).0.len() == windows.len(),
    decreases windows.len(),
{
    if windows.len() > 0 {
        placing_keeps_output(windows.drop_last(), output, fullscreen_active);
    }
}

/// Resizing all windows changes nothing of the output but what is reserved
/// along its edges.
pub proof fn resize_all_keeps_output(windows: WindowsView, now: u64)
    ensures
        windows.resize_all(now).output == (Output {
            exclusive: windows.resize_all(now).output.exclusive,
            ..windows.output
        }),
        windows.resize_all(now).unlocked_orientation == windows.unlocked_orientation,
        windows.resize_all(now).orientation_locked == windows.orientation_locked,
{
    placing_keeps_output(windows.layers.overlay, windows.output, true);
    let first = placed_all(windows.layers.background, windows.output, false);
    placing_keeps_output(windows.layers.background, windows.output, false);
    let second = placed_all(windows.layers.bottom, first.1, false);
    placing_keeps_output(windows.layers.bottom, first.1, false);
    let third = placed_all(windows.layers.top, second.1, false);
    placing_keeps_output(windows.layers.top, second.1, false);
    placing_keeps_output(windows.layers.overlay, third.1, false);
}

/// Locking the orientation of the output and unlocking it again leaves the
/// output in the orientation that the device had reported last before the
/// lock, whichever orientation it was locked in.
pub proof fn lock_orientation_round_trip(
    windows: WindowsView,
    locked_at: u64,
    orientation: Option<Orientation>,
    unlocked_at: u64,
)
    ensures
        ({
            let locked = windows.lock_orientation(locked_at, orientation);
            let unlocked = locked.unlock_orientation(unlocked_at);
            &&& locked.orientation_locked
            &&& locked.unlocked_orientation == windows.unlocked_orientation
            &&& orientation matches Some(held) ==> locked.output.orientation == held
            &&& !unlocked.orientation_locked
            &&& unlocked.output.orientation == windows.unlocked_orientation
            &&& unlocked.unlocked_orientation == windows.unlocked_orientation
        }),
{
    match orientation {
        Some(held) => {
            resize_all_keeps_output(
                WindowsView {
                    clock: armed(windows.clock, locked_at),
                    output: Output { orientation: held, ..windows.output },
                    ..windows
                },
                locked_at,
            );
        },
        None => {},
    }
    let locked = windows.lock_orientation(locked_at, orientation);
    let unlocking = WindowsView { orientation_locked: false, ..locked };
    resize_all_keeps_output(
        WindowsView {
            clock: armed(unlocking.clock, unlocked_at),
            output: Output { orientation: locked.unlocked_orientation, ..unlocking.output },
            ..unlocking
        },
        unlocked_at,
    );
}

/// While the orientation of the output is locked, what the device reports
/// is noted and nothing else changes.
pub proof fn locked_orientation_holds(windows: WindowsView, now: u64, orientation: Orientation)
    requires
        windows.orientation_locked,
    ensures
        windows.update_orientation(now, orientation) == (WindowsView {
            unlocked_orientation: orientation,
            ..windows
        }),
{
}

/// What is left of a rectangle once an area is taken away covers the
/// points of the rectangle outside of the area, and no others.
pub proof fn remaining_covers(rect: Rectangle, sub_rect: Rectangle, point: Point)
    requires
        rect.fits(),
    ensures
        covered(remaining(rect, sub_rect), point) == (rect.spec_contains(point)
            && !sub_rect.spec_contains(point)),
{
    let left = remaining(rect, sub_rect);
    if !rect.spec_overlaps(sub_rect) {
        assert(left[0] == rect);
        if rect.spec_contains(point) {
            assert(left[0].spec_contains(point));
        }
    } else if sub_rect.spec_contains_rect(rect) {
    } else {
        let overlap = rect.spec_intersection(sub_rect).unwrap();
        let top = Rectangle {
            loc: rect.loc,
            size: Size {
                w: rect.size.w,
                h: clamp_i32(overlap.loc.y - rect.loc.y),
            },
        };
        let right_x = clamp_i32(overlap.loc.x + overlap.size.w);
        let bottom_y = clamp_i32(overlap.loc.y + overlap.size.h);
        let side = Rectangle {
            loc: Point { x: rect.loc.x, y: overlap.loc.y },
            size: Size {
                w: clamp_i32(overlap.loc.x - rect.loc.x),
                h: overlap.size.h,
            },
        };
        let other = Rectangle {
            loc: Point { x: right_x, y: overlap.loc.y },
            size: Size {
                w: clamp_i32(
                    clamp_i32(rect.loc.x + rect.size.w) - right_x,
                ),
                h: overlap.size.h,
            },
        };
        let below = Rectangle {
            loc: Point { x: rect.loc.x, y: bottom_y },
            size: Size {
                w: rect.size.w,
                h: clamp_i32(
                    clamp_i32(rect.loc.y + rect.size.h) - bottom_y,
                ),
            },
        };
        let a = non_empty(top);
        let b = non_empty(side);
        let c = non_empty(other);
        let d = non_empty(below);
        assert(left == a + b + c + d);
        if covered(left, point) {
            let i = choose|i: int| 0 <= i < left.len() && (#[trigger] left[i]).spec_contains(point);
            if i < a.len() {
                assert(left[i] == top);
            } else if i < a.len() + b.len() {
                assert(left[i] == side);
            } else if i < a.len() + b.len() + c.len() {
                assert(left[i] == other);
            } else {
                assert(left[i] == below);
            }
        }
        if rect.spec_contains(point) && !sub_rect.spec_contains(point) {
            if top.spec_contains(point) {
                assert(left[0] == top);
                assert(left[0].spec_contains(point));
            } else if side.spec_contains(point) {
                assert(left[a.len() as int] == side);
                assert(left[a.len() as int].spec_contains(point));
            } else if other.spec_contains(point) {
                assert(left[(a.len() + b.len()) as int] == other);
                assert(left[(a.len() + b.len()) as int].spec_contains(point));
            } else {
                assert(below.spec_contains(point));
                assert(left[(a.len() + b.len() + c.len()) as int] == below);
                assert(left[(a.len() + b.len() + c.len()) as int].spec_contains(point));
            }
        }
    }
}

/// A scaled value is the integer nearest to the exact one: the two differ
/// by half a unit at most.
pub proof fn scaled_is_nearest(value: int, numerator: int, denominator: int)
    requires
        denominator > 0,
    ensures
        2 * magnitude(scaled(value, numerator, denominator) * denominator - value * numerator)
            <= denominator,
{
    let product = value * numerator;
    let twice = 2 * denominator;
    if product >= 0 {
        lemma_fundamental_div_mod(2 * product + denominator, twice);
        lemma_mod_bound(2 * product + denominator, twice);
        let q = (2 * product + denominator) / twice;
        assert(twice * q == 2 * (q * denominator)) by (nonlinear_arith)
            requires
                twice == 2 * denominator,
        ;
    } else {
        lemma_fundamental_div_mod(2 * -product + denominator, twice);
        lemma_mod_bound(2 * -product + denominator, twice);
        let q = (2 * -product + denominator) / twice;
        assert(twice * q == 2 * (q * denominator)) by (nonlinear_arith)
            requires
                twice == 2 * denominator,
        ;
        assert((-q) * denominator == -(q * denominator)) by (nonlinear_arith);
    }
}

/// Two windows that share the output divide what is available between
/// them: every point of it lies on one of the two, and none on both.
pub proof fn split_covers(output: Output, point: Point)
    ensures
        output.spec_available().spec_contains(point) == (output.spec_primary_rectangle(
            true,
        ).spec_contains(point) || output.spec_secondary_rectangle().spec_contains(point)),
        !(output.spec_primary_rectangle(true).spec_contains(point)
            && output.spec_secondary_rectangle().spec_contains(point)),
        output.spec_primary_rectangle(false) == output.spec_available(),
{
    let available = output.spec_available();
    primary_extent_bounds(available.size.h as int, output.primary_share as int);
    primary_extent_bounds(available.size.w as int, output.primary_share as int);
}

/// The primary of two windows that share the output gets no less of it
/// than the secondary.
pub proof fn primary_gets_larger_share(output: Output)
    ensures
        output.spec_secondary_rectangle().size.w <= output.spec_primary_rectangle(true).size.w,
        output.spec_secondary_rectangle().size.h <= output.spec_primary_rectangle(true).size.h,
{
    let available = output.spec_available();
    primary_extent_bounds(available.size.h as int, output.primary_share as int);
    primary_extent_bounds(available.size.w as int, output.primary_share as int);
}

/// No piece of a split text holds the separator.
pub proof fn split_pieces_are_whole(text: Seq<char>, separator: char)
    ensures
        split(text, separator).len() >= 1,
        forall|i: int, j: int|
            0 <= i < split(text, separator).len() && 0 <= j < split(text, separator)[i].len()
                ==> split(text, separator)[i][j] != separator,
    decreases text.len(),
{
    if text.len() > 0 {
        split_pieces_are_whole(text.drop_last(), separator);
        let before = split(text.drop_last(), separator);
        let pieces = split(text, separator);
        assert forall|i: int, j: int|
            0 <= i < pieces.len() && 0 <= j < pieces[i].len() implies pieces[i][j] != separator by {
            if text.last() == separator {
                if i < before.len() {
                    assert(pieces[i] == before[i]);
                }
            } else {
                if i < before.len() - 1 {
                    assert(pieces[i] == before[i]);
                } else if j < before.last().len() {
                    assert(pieces[i][j] == before.last()[j]);
                }
            }
        }
    }
}

/// The pieces of a split text, put together again with the separator
/// between them.
pub open spec fn joined(pieces: Seq<Seq<char>>, separator: char) -> Seq<char>
    decreases pieces.len(),
{
    if pieces.len() == 0 {
        Seq::empty()
    } else if pieces.len() == 1 {
        pieces[0]
    } else {
        joined(pieces.drop_last(), separator).push(separator) + pieces.last()
    }
}

/// A split text is its pieces with the separator between them.
pub proof fn split_joins(text: Seq<char>, separator: char)
    ensures
        joined(split(text, separator), separator) == text,
    decreases text.len(),
{
    if text.len() == 0 {
        assert(joined(split(text, separator), separator) =~= text);
    } else {
        split_joins(text.drop_last(), separator);
        split_pieces_are_whole(text.drop_last(), separator);
        let before = split(text.drop_last(), separator);
        let pieces = split(text, separator);
        if text.last() == separator {
            assert(pieces.drop_last() =~= before);
            assert(joined(pieces, separator) =~= text.drop_last().push(separator));
            assert(text.drop_last().push(separator) =~= text);
        } else {
            let grown = before.last().push(text.last());
            if before.len() == 1 {
                assert(pieces =~= seq![grown]);
                assert(joined(before, separator) == before[0]);
                assert(joined(pieces, separator) =~= text.drop_last().push(text.last()));
            } else {
                assert(pieces.drop_last() =~= before.drop_last());
                assert(pieces.last() == grown);
                assert(joined(pieces, separator) =~= (joined(before.drop_last(), separator).push(
                    separator,
                ) + before.last()).push(text.last()));
                assert(joined(pieces, separator) =~= text.drop_last().push(text.last()));
            }
            assert(text.drop_last().push(text.last()) =~= text);
        }
    }
}

/// A trimmed text neither starts nor ends with white space.
pub proof fn trimmed_is_bare(text: Seq<char>)
    ensures
        trimmed(text).len() > 0 ==> !is_space(trimmed(text)[0]) && !is_space(trimmed(text).last()),
        trimmed(text).len() <= text.len(),
{
    trimmed_start_is_bare(text);
    trimmed_end_is_bare(trimmed_start(text));
}

/// A text without the white space that it starts with does not start with
/// white space, and is none the longer.
pub proof fn trimmed_start_is_bare(text: Seq<char>)
    ensures
        trimmed_start(text).len() > 0 ==> !is_space(trimmed_start(text)[0]),
        trimmed_start(text).len() <= text.len(),
    decreases text.len(),
{
    if text.len() > 0 && is_space(text[0]) {
        trimmed_start_is_bare(text.skip(1));
    }
}

/// A text without the white space that it ends with does not end with
/// white space and starts as it did.
pub proof fn trimmed_end_is_bare(text: Seq<char>)
    ensures
        trimmed_end(text).len() > 0 ==> !is_space(trimmed_end(text).last()) && trimmed_end(text)[0]
            == text[0],
        trimmed_end(text).len() <= text.len(),
    decreases text.len(),
{
    if text.len() > 0 && is_space(text.last()) {
        trimmed_end_is_bare(text.drop_last());
    }
}

/// Whether a window of `layout` that is alive shows the surface `id`.
pub open spec fn alive_in(layout: Layout, id: WindowId) -> bool {
    ||| layout.primary matches Some(window) && window.id == id && window.alive
    ||| layout.secondary matches Some(window) && window.id == id && window.alive
}

/// Whether a window that is alive shows the surface `id`.
pub open spec fn any_alive(layouts: Seq<Layout>, id: WindowId) -> bool {
    exists|i: int| 0 <= i < layouts.len() && alive_in(#[trigger] layouts[i], id)
}

/// A staged change that takes effect loses no window.
pub proof fn apply_change_keeps_alive(layouts: LayoutsView, transaction: Transaction, id: WindowId)
    requires
        any_alive(layouts.layouts, id),
    ensures
        any_alive(layouts.apply_change(transaction).layouts, id),
{
    let before = layouts.layouts;
    let after = layouts.apply_change(transaction).layouts;
    let i = choose|i: int| 0 <= i < before.len() && alive_in(#[trigger] before[i], id);
    match transaction {
        Transaction::Active(target) => {
            assert(alive_in(after[i], id));
        },
        Transaction::Primary(position, staged) => {
            if !layouts.still_holds(position, staged) {
                assert(alive_in(after[i], id));
            } else {
                let layout = before[position.index as int];
                if i == position.index && layout.secondary.is_some() && !(layout.primary matches Some(
                    window,
                ) && window.id == id && window.alive) {
                    assert(alive_in(after[before.len() as int], id));
                } else {
                    assert(alive_in(after[i], id));
                }
            }
        },
        Transaction::Secondary(position, staged) => {
            if !layouts.still_holds(position, staged) {
                assert(alive_in(after[i], id));
            } else {
                let index = position.index as int;
                let layout = before[index];
                let moved = layout.slot(position.secondary).unwrap();
                let moves = i == index && moved.id == id && moved.alive;
                match layouts.active_layout {
                    Some(active) if active < before.len() => {
                        if moves {
                            assert(alive_in(after[active as int], id));
                        } else if i == index {
                            assert(alive_in(after[index], id));
                        } else if i == active {
                            if before[i].primary matches Some(window) && window.id == id
                                && window.alive {
                                assert(alive_in(after[i], id));
                            } else {
                                assert(alive_in(after[before.len() as int], id));
                            }
                        } else {
                            assert(alive_in(after[i], id));
                        }
                    },
                    _ => {
                        if moves && after.len() > before.len() {
                            assert(alive_in(after[before.len() as int], id));
                        } else {
                            assert(alive_in(after[i], id));
                        }
                    },
                }
            }
        },
    }
}

/// Staged changes that take effect lose no window.
pub proof fn apply_changes_keep_alive(layouts: LayoutsView, changes: Seq<Transaction>, id: WindowId)
    requires
        any_alive(layouts.layouts, id),
    ensures
        any_alive(layouts.apply_changes(changes).layouts, id),
    decreases changes.len(),
{
    if changes.len() > 0 {
        apply_changes_keep_alive(layouts, changes.drop_last(), id);
        apply_change_keeps_alive(layouts.apply_changes(changes.drop_last()), changes.last(), id);
    }
}

/// A window that is alive is still there once the transaction is applied,
/// whatever was staged: only dead windows are removed.
pub proof fn transaction_keeps_windows(layouts: LayoutsView, id: WindowId)
    requires
        any_alive(layouts.layouts, id),
    ensures
        any_alive(layouts.apply_transaction().layouts, id),
{
    let applied = layouts.apply_changes(layouts.transactions);
    apply_changes_keep_alive(layouts, layouts.transactions, id);
    let i = choose|i: int| 0 <= i < applied.layouts.len() && alive_in(#[trigger] applied.layouts[i], id);
    retained_index(applied.layouts, i);
    let at = retained(applied.layouts.take(i)).len();
    let settled = layouts.apply_transaction();
    let kept = applied.layouts[i].settled();
    assert(settled.layouts[at as int] == kept);
    assert(alive_in(settled.layouts[at as int], id));
}

/// A drag wins over the return to rest: while the touch drags the
/// overview, time moves neither offset, and the horizontal offset is only
/// kept within the overdrag limit.
pub proof fn drag_stops_return(windows: WindowsView, point: Point, window_count: usize, now: u64)
    requires
        windows.view is Overview,
    ensures
        windows.on_drag(point).view matches ViewMode::Overview(dragged) && {
            &&& dragged.last_animation_step.is_none()
            &&& dragged.hold_timer.is_none()
            &&& dragged.clamped(window_count, now) == (Overview {
                x_offset: clamp(
                    dragged.x_offset as int,
                    min_offset(window_count as int) - OVERDRAG_LIMIT,
                    OVERDRAG_LIMIT as int,
                ) as i64,
                ..dragged
            })
        },
{
}

/// Once the touch is lifted the overview returns to rest: the release
/// notes the time from which the return is measured.
pub proof fn release_starts_return(windows: WindowsView, now: u64)
    requires
        windows.view is Overview,
    ensures
        windows.on_drag_release(now).view matches ViewMode::Overview(released)
            && released.last_animation_step == Some(now),
{
}

/// Whether all windows of `layouts` are alive.
pub open spec fn all_alive(layouts: Seq<Layout>) -> bool {
    forall|i: int|
        0 <= i < layouts.len() ==> {
            &&& (#[trigger] layouts[i]).primary matches Some(window) ==> window.alive
            &&& layouts[i].secondary matches Some(window) ==> window.alive
        }
}

/// As long as no window has died and every layout has a primary, the end
/// of a transaction removes no layout: each is settled where it is.
pub proof fn retained_all(layouts: Seq<Layout>)
    requires
        all_alive(layouts),
        forall|i: int| 0 <= i < layouts.len() ==> (#[trigger] layouts[i]).primary.is_some(),
    ensures
        retained(layouts).len() == layouts.len(),
        forall|i: int| 0 <= i < layouts.len() ==> retained(layouts)[i] == (#[trigger] layouts[i]).settled(),
    decreases layouts.len(),
{
    if layouts.len() > 0 {
        let rest = layouts.drop_last();
        assert forall|i: int| 0 <= i < rest.len() implies (#[trigger] rest[i]).primary.is_some() by {
            assert(rest[i] == layouts[i]);
        }
        assert(all_alive(rest)) by {
            assert forall|i: int| 0 <= i < rest.len() implies {
                &&& (#[trigger] rest[i]).primary matches Some(window) ==> window.alive
                &&& rest[i].secondary matches Some(window) ==> window.alive
            } by {
                assert(rest[i] == layouts[i]);
            }
        }
        retained_all(rest);
        assert(layouts.last() == layouts[layouts.len() - 1]);
        assert(layouts.last().settled().primary.is_some());
        let kept = retained(layouts);
        assert(kept == retained(rest).push(layouts.last().settled()));
        assert forall|i: int| 0 <= i < layouts.len() implies kept[i] == (#[trigger] layouts[i]).settled() by {
            if i < rest.len() {
                assert(kept[i] == retained(rest)[i]);
                assert(rest[i] == layouts[i]);
            }
        }
    }
}

/// A staged switch to another layout takes effect when the transaction is
/// applied: the layout is the active one then, its windows know that they
/// are on the output, and those of the layout that was active before know
/// that they left it. This holds as long as nothing else is staged and no
/// window has died.
pub proof fn switch_applies(layouts: LayoutsView, target: usize)
    requires
        layouts.wf(),
        layouts.transactions.len() == 0,
        all_alive(layouts.layouts),
        target < layouts.layouts.len(),
        layouts.active_layout matches Some(active) && active != target,
    ensures
        ({
            let active = layouts.active_layout.unwrap() as int;
            let switched = layouts.set_active(Some(target)).apply_transaction();
            &&& switched.layouts.len() == layouts.layouts.len()
            &&& switched.active_layout == Some(target)
            &&& switched.transactions.len() == 0
            &&& switched.layouts[target as int].primary matches Some(window) && window.visible
            &&& switched.layouts[target as int].secondary matches Some(window) ==> window.visible
            &&& switched.layouts[active].primary matches Some(window) && !window.visible
            &&& switched.layouts[active].secondary matches Some(window) ==> !window.visible
        }),
{
    let staged = layouts.set_active(Some(target));
    assert(staged.transactions =~= seq![Transaction::Active(Some(target))]);
    assert(staged.transactions.drop_last() =~= Seq::<Transaction>::empty());
    let applied = staged.apply_changes(staged.transactions);
    assert(applied == staged.apply_changes(Seq::<Transaction>::empty()).apply_active(Some(target)));
    assert(applied.layouts.len() == layouts.layouts.len());
    assert(all_alive(applied.layouts));
    retained_all(applied.layouts);
    let before = applied.layouts.take(target as int);
    assert(all_alive(before)) by {
        assert forall|i: int| 0 <= i < before.len() implies {
            &&& (#[trigger] before[i]).primary matches Some(window) ==> window.alive
            &&& before[i].secondary matches Some(window) ==> window.alive
        } by {
            assert(before[i] == applied.layouts[i]);
        }
    }
    assert forall|i: int| 0 <= i < before.len() implies (#[trigger] before[i]).primary.is_some() by {
        assert(before[i] == applied.layouts[i]);
    }
    retained_all(before);
    let active = layouts.active_layout.unwrap() as int;
    let switched = staged.apply_transaction();
    assert(switched.layouts[target as int] == applied.layouts[target as int].settled());
    assert(switched.layouts[active] == applied.layouts[active].settled());
    assert(applied.layouts[active] == staged.layouts[active].left());
    assert(applied.layouts[target as int] == staged.layouts[target as int]);
    assert(layouts.layouts[target as int].primary.is_some());
    assert(layouts.layouts[active].primary.is_some());
}

/// A tap in the overview always stages the return to the workspace. On a
/// window it stages the layout of the window as the active one as well;
/// beside the windows it stages nothing else. The active layout stays as it
/// is until the transaction is applied.
pub proof fn tap_selects(windows: WindowsView, now: u64, point: Point)
    requires
        windows.view is Overview,
    ensures
        ({
            let overview = windows.view->Overview_0;
            let tapped = windows.on_tap(now, point);
            &&& tapped.staged_view == Some(ViewMode::Workspace)
            &&& tapped.clock.is_some()
            &&& tapped.layouts.active_layout == windows.layouts.active_layout
            &&& tapped.layouts.transactions == match (Overview {
                hold_timer: None,
                ..overview
            }).spec_layout_position(&windows.output, windows.layouts, point) {
                Some(position) => windows.layouts.transactions.push(
                    Transaction::Active(Some(position.index)),
                ),
                None => windows.layouts.transactions,
            }
        }),
{
}

/// A window that is dropped in the primary drop area is staged as primary
/// at the position that it has, and the return to the workspace with it.
pub proof fn drop_stages_primary(windows: WindowsView, now: u64)
    requires
        windows.view matches ViewMode::DragAndDrop(dnd) && DragAndDrop::spec_drop_bounds(
            &windows.output,
        ).0.spec_contains(dnd.touch_position) && windows.layouts.position(dnd.window).is_some(),
    ensures
        ({
            let dnd = windows.view->DragAndDrop_0;
            let position = windows.layouts.position(dnd.window).unwrap();
            let dropped = windows.on_drag_release(now);
            &&& dropped.layouts == windows.layouts.set_primary(windows.output, position)
            &&& dropped.staged_view == Some(ViewMode::Workspace)
            &&& dropped.clock.is_some()
        }),
{
}

/// Once a staged change of the primary takes effect, the window that it
/// was staged for is the primary of the active layout, if it is still at
/// the staged position and alive.
pub proof fn primary_applies(layouts: LayoutsView, position: LayoutPosition, id: WindowId)
    requires
        layouts.still_holds(position, id),
        layouts.layouts.len() < usize::MAX,
    ensures
        layouts.apply_primary(position, id).active().primary matches Some(window) && window.id
            == id,
        layouts.apply_primary(position, id).active().secondary.is_none(),
{
}

/// A staged change of the primary or of the secondary lapses if the
/// position that it was staged for does not hold the window any more that
/// it was staged for, or if that window has died: nothing changes then.
pub proof fn stale_change_lapses(layouts: LayoutsView, position: LayoutPosition, id: WindowId)
    requires
        !layouts.still_holds(position, id),
    ensures
        layouts.apply_change(Transaction::Primary(position, id)) == layouts,
        layouts.apply_change(Transaction::Secondary(position, id)) == layouts,
{
}

/// A change is staged for the window that is at the position when the
/// change is staged.
pub proof fn change_is_staged_for_window(layouts: LayoutsView, position: LayoutPosition)
    requires
        layouts.window_at(position).is_some(),
    ensures
        ({
            let id = layouts.window_at(position).unwrap().id;
            &&& layouts.stage_primary(position).transactions == layouts.transactions.push(
                Transaction::Primary(position, id),
            )
            &&& layouts.stage_secondary(position).transactions == layouts.transactions.push(
                Transaction::Secondary(position, id),
            )
        }),
{
}

/// Windows that keep their surfaces, slot by slot, keep them distinct.
pub proof fn same_surfaces_distinct(before: Seq<Layout>, after: Seq<Layout>)
    requires
        distinct_slots(before),
        same_surfaces(before, after),
    ensures
        distinct_slots(after),
{
    assert forall|i: int, a: bool, j: int, b: bool|
        0 <= i < after.len() && 0 <= j < after.len() && !(i == j && a == b) && (#[trigger] slot_id(
            after[i],
            a,
        )).is_some() implies slot_id(after[i], a) != #[trigger] slot_id(after[j], b) by {
        assert(slot_id(after[i], a) == slot_id(before[i], a));
        assert(slot_id(after[j], b) == slot_id(before[j], b));
    }
}

/// A new layout for a window whose surface no window shows yet keeps the
/// surfaces distinct.
pub proof fn new_layout_distinct(layouts: Seq<Layout>, window: Window)
    requires
        distinct_slots(layouts),
        !held(layouts, window.id),
    ensures
        distinct_slots(layouts.push(Layout::spec_new(window))),
{
    let after = layouts.push(Layout::spec_new(window));
    assert forall|i: int, a: bool, j: int, b: bool|
        0 <= i < after.len() && 0 <= j < after.len() && !(i == j && a == b) && (#[trigger] slot_id(
            after[i],
            a,
        )).is_some() implies slot_id(after[i], a) != #[trigger] slot_id(after[j], b) by {
        if i < layouts.len() {
            assert(slot_id(after[i], a) == slot_id(layouts[i], a));
        }
        if j < layouts.len() {
            assert(slot_id(after[j], b) == slot_id(layouts[j], b));
        }
    }
}

/// A surface that has no position is shown by no window.
pub proof fn position_finds_held(layouts: LayoutsView, id: WindowId, start: int)
    requires
        0 <= start,
        layouts.position_from(id, start).is_none(),
    ensures
        forall|i: int, a: bool|
            start <= i < layouts.layouts.len() ==> #[trigger] slot_id(layouts.layouts[i], a) != Some(id),
    decreases layouts.layouts.len() - start,
{
    if start < layouts.layouts.len() {
        position_finds_held(layouts, id, start + 1);
        assert forall|i: int, a: bool| start <= i < layouts.layouts.len() implies #[trigger] slot_id(
            layouts.layouts[i],
            a,
        ) != Some(id) by {
            if i == start {
                assert(slot_id(layouts.layouts[start], false) != Some(id));
                assert(slot_id(layouts.layouts[start], true) != Some(id));
            }
        }
    }
}

/// A staged change that takes effect keeps the surfaces of the windows
/// distinct: it moves windows and makes none.
pub proof fn apply_change_distinct(layouts: LayoutsView, transaction: Transaction)
    requires
        layouts.distinct(),
    ensures
        layouts.apply_change(transaction).distinct(),
{
    let before = layouts.layouts;
    let after = layouts.apply_change(transaction).layouts;
    let length = before.len() as int;
    assert forall|i: int, a: bool, j: int, b: bool|
        0 <= i < after.len() && 0 <= j < after.len() && !(i == j && a == b) && (#[trigger] slot_id(
            after[i],
            a,
        )).is_some() implies slot_id(after[i], a) != #[trigger] slot_id(after[j], b) by {
        // Every window comes from a slot that it had before the change.
        if i < length {
            assert(slot_id(before[i], a) == slot_id(before[i], a));
            assert(slot_id(before[i], !a) == slot_id(before[i], !a));
        }
        if j < length {
            assert(slot_id(before[j], b) == slot_id(before[j], b));
            assert(slot_id(before[j], !b) == slot_id(before[j], !b));
        }
        match transaction {
            Transaction::Active(_) => {},
            Transaction::Primary(position, _) => {
                if position.index < length {
                    assert(slot_id(before[position.index as int], true) == slot_id(
                        before[position.index as int],
                        true,
                    ));
                    assert(slot_id(before[position.index as int], false) == slot_id(
                        before[position.index as int],
                        false,
                    ));
                }
            },
            Transaction::Secondary(position, _) => {
                if position.index < length {
                    assert(slot_id(before[position.index as int], true) == slot_id(
                        before[position.index as int],
                        true,
                    ));
                    assert(slot_id(before[position.index as int], false) == slot_id(
                        before[position.index as int],
                        false,
                    ));
                }
                match layouts.active_layout {
                    Some(active) => {
                        if active < length {
                            assert(slot_id(before[active as int], true) == slot_id(
                                before[active as int],
                                true,
                            ));
                            assert(slot_id(before[active as int], false) == slot_id(
                                before[active as int],
                                false,
                            ));
                        }
                    },
                    None => {},
                }
            },
        }
    }
}

/// Staged changes that take effect keep the surfaces of the windows
/// distinct.
pub proof fn apply_changes_distinct(layouts: LayoutsView, changes: Seq<Transaction>)
    requires
        layouts.distinct(),
    ensures
        layouts.apply_changes(changes).distinct(),
    decreases changes.len(),
{
    if changes.len() > 0 {
        apply_changes_distinct(layouts, changes.drop_last());
        apply_change_distinct(layouts.apply_changes(changes.drop_last()), changes.last());
    }
}

/// The surface of every window that survives the end of a transaction was
/// shown by a window before it.
pub proof fn retained_surfaces(layouts: Seq<Layout>, j: int, b: bool)
    requires
        0 <= j < retained(layouts).len(),
        slot_id(retained(layouts)[j], b).is_some(),
    ensures
        exists|i: int, a: bool|
            0 <= i < layouts.len() && #[trigger] slot_id(layouts[i], a) == slot_id(
                retained(layouts)[j],
                b,
            ),
{
    retained_source(layouts, j, b);
    let (i, from) = choose|i: int, from: bool|
        {
            &&& 0 <= i < layouts.len()
            &&& (#[trigger] layouts[i].slot(from)) matches Some(window)
            &&& window.alive
            &&& retained(layouts)[j].slot(b) == Some(window.applied())
        };
    assert(slot_id(layouts[i], from) == slot_id(retained(layouts)[j], b));
}

/// The end of a transaction keeps the surfaces of the windows distinct.
pub proof fn retained_distinct(layouts: Seq<Layout>)
    requires
        distinct_slots(layouts),
    ensures
        distinct_slots(retained(layouts)),
    decreases layouts.len(),
{
    if layouts.len() > 0 {
        let rest = layouts.drop_last();
        let last = layouts.last();
        let top = layouts.len() - 1;
        assert(distinct_slots(rest)) by {
            assert forall|i: int, a: bool, j: int, b: bool|
                0 <= i < rest.len() && 0 <= j < rest.len() && !(i == j && a == b) && (
                #[trigger] slot_id(rest[i], a)).is_some() implies slot_id(rest[i], a)
                != #[trigger] slot_id(rest[j], b) by {
                assert(slot_id(rest[i], a) == slot_id(layouts[i], a));
                assert(slot_id(rest[j], b) == slot_id(layouts[j], b));
            }
        }
        retained_distinct(rest);
        let kept = retained(layouts);
        let settled = last.settled();
        assert(layouts[top] == last);
        if settled.primary.is_some() {
            assert(kept == retained(rest).push(settled));
            assert forall|i: int, a: bool, j: int, b: bool|
                0 <= i < kept.len() && 0 <= j < kept.len() && !(i == j && a == b) && (
                #[trigger] slot_id(kept[i], a)).is_some() implies slot_id(kept[i], a)
                != #[trigger] slot_id(kept[j], b) by {
                let inner = retained(rest).len() as int;
                assert(slot_id(last, false) == slot_id(layouts[top], false));
                assert(slot_id(last, true) == slot_id(layouts[top], true));
                if i < inner && j < inner {
                    assert(slot_id(kept[i], a) == slot_id(retained(rest)[i], a));
                    assert(slot_id(kept[j], b) == slot_id(retained(rest)[j], b));
                } else if i < inner {
                    assert(kept[i] == retained(rest)[i]);
                    retained_surfaces(rest, i, a);
                    let (k, c) = choose|k: int, c: bool|
                        0 <= k < rest.len() && #[trigger] slot_id(rest[k], c) == slot_id(
                            retained(rest)[i],
                            a,
                        );
                    assert(slot_id(layouts[k], c) == slot_id(rest[k], c));
                } else if j < inner {
                    assert(kept[j] == retained(rest)[j]);
                    if slot_id(kept[j], b).is_some() {
                        retained_surfaces(rest, j, b);
                        let (k, c) = choose|k: int, c: bool|
                            0 <= k < rest.len() && #[trigger] slot_id(rest[k], c) == slot_id(
                                retained(rest)[j],
                                b,
                            );
                        assert(slot_id(layouts[k], c) == slot_id(rest[k], c));
                    }
                }
            }
        }
    }
}

/// A transaction keeps the surfaces of the windows distinct, whatever was
/// staged and whichever windows died: after it, as before it, each surface
/// has one window at most.
pub proof fn apply_transaction_distinct(layouts: LayoutsView)
    requires
        layouts.distinct(),
    ensures
        layouts.apply_transaction().distinct(),
{
    apply_changes_distinct(layouts, layouts.transactions);
    retained_distinct(layouts.apply_changes(layouts.transactions).layouts);
}

/// A staged switch to a layout takes effect when the transaction is
/// applied, as long as nothing else is staged and no window has died: the
/// layout is the active one then, and the layouts are as many, well formed
/// and alive as before.
pub proof fn set_active_applies(layouts: LayoutsView, target: usize)
    requires
        layouts.wf(),
        layouts.transactions.len() == 0,
        all_alive(layouts.layouts),
        target < layouts.layouts.len(),
    ensures
        ({
            let switched = layouts.set_active(Some(target)).apply_transaction();
            &&& switched.active_layout == Some(target)
            &&& switched.layouts.len() == layouts.layouts.len()
            &&& switched.transactions.len() == 0
            &&& switched.wf()
            &&& all_alive(switched.layouts)
        }),
{
    let staged = layouts.set_active(Some(target));
    assert(staged.transactions =~= seq![Transaction::Active(Some(target))]);
    assert(staged.transactions.drop_last() =~= Seq::<Transaction>::empty());
    let applied = staged.apply_changes(staged.transactions);
    assert(applied == staged.apply_changes(Seq::<Transaction>::empty()).apply_active(Some(target)));
    assert(applied.layouts.len() == layouts.layouts.len());
    assert(applied.active_layout == Some(target));
    assert forall|i: int| 0 <= i < applied.layouts.len() implies (#[trigger] applied.layouts[i]).primary.is_some() by {
        assert(layouts.layouts[i].primary.is_some());
    }
    assert(all_alive(applied.layouts)) by {
        assert forall|i: int| 0 <= i < applied.layouts.len() implies {
            &&& (#[trigger] applied.layouts[i]).primary matches Some(window) ==> window.alive
            &&& applied.layouts[i].secondary matches Some(window) ==> window.alive
        } by {
            assert(layouts.layouts[i].primary matches Some(window) ==> window.alive);
        }
    }
    retained_all(applied.layouts);
    let before = applied.layouts.take(target as int);
    assert(all_alive(before)) by {
        assert forall|i: int| 0 <= i < before.len() implies {
            &&& (#[trigger] before[i]).primary matches Some(window) ==> window.alive
            &&& before[i].secondary matches Some(window) ==> window.alive
        } by {
            assert(before[i] == applied.layouts[i]);
        }
    }
    assert forall|i: int| 0 <= i < before.len() implies (#[trigger] before[i]).primary.is_some() by {
        assert(before[i] == applied.layouts[i]);
    }
    retained_all(before);
    let switched = staged.apply_transaction();
    apply_transaction_wf(staged);
    assert(all_alive(switched.layouts)) by {
        assert forall|i: int| 0 <= i < switched.layouts.len() implies {
            &&& (#[trigger] switched.layouts[i]).primary matches Some(window) ==> window.alive
            &&& switched.layouts[i].secondary matches Some(window) ==> window.alive
        } by {
            assert(switched.layouts[i] == applied.layouts[i].settled());
        }
    }
}

/// A step of `n` layouts and a step of `n` layouts back, each staged and
/// applied by a transaction of its own, lead back to the layout that was
/// active at first, as long as no window dies.
pub proof fn cycle_active_round_trip(layouts: LayoutsView, n: isize)
    requires
        layouts.wf(),
        layouts.transactions.len() == 0,
        layouts.layouts.len() <= usize::MAX,
        layouts.active_layout.is_some(),
        all_alive(layouts.layouts),
        n > isize::MIN,
    ensures
        ({
            let there = layouts.cycle_active(n).apply_transaction();
            let back = there.cycle_active((-n) as isize).apply_transaction();
            &&& there.active_layout == Some(
                cycle_target(layouts.active_layout, n as int, layouts.layouts.len() as int) as usize,
            )
            &&& back.active_layout == layouts.active_layout
            &&& back.layouts.len() == layouts.layouts.len()
        }),
{
    let count = layouts.layouts.len();
    let index = layouts.active_layout.unwrap();
    cycle_active_returns(index, n as int, count as usize);
    let target = cycle_target(layouts.active_layout, n as int, count as int) as usize;
    set_active_applies(layouts, target);
    let there = layouts.cycle_active(n).apply_transaction();
    set_active_applies(there, index);
}

/// A window that is alive has exactly one slot once the transaction is
/// applied, whatever was staged, if each surface had one window at most
/// before.
pub proof fn transaction_keeps_one_window(layouts: LayoutsView, id: WindowId)
    requires
        layouts.distinct(),
        any_alive(layouts.layouts, id),
    ensures
        ({
            let after = layouts.apply_transaction().layouts;
            exists|i: int, a: bool|
                {
                    &&& 0 <= i < after.len()
                    &&& #[trigger] slot_id(after[i], a) == Some(id)
                    &&& forall|j: int, b: bool|
                        0 <= j < after.len() && !(i == j && a == b) ==> #[trigger] slot_id(
                            after[j],
                            b,
                        ) != Some(id)
                }
        }),
{
    let after = layouts.apply_transaction().layouts;
    transaction_keeps_windows(layouts, id);
    apply_transaction_distinct(layouts);
    let i = choose|i: int| 0 <= i < after.len() && alive_in(#[trigger] after[i], id);
    let a = !(after[i].primary matches Some(window) && window.id == id && window.alive);
    assert(slot_id(after[i], a) == Some(id));
}

/// The layouts that survive the end of a transaction stay in their order:
/// of two that survive, the earlier one is found before the later one.
pub proof fn retained_keeps_order(layouts: Seq<Layout>, first: int, second: int)
    requires
        0 <= first < second < layouts.len(),
        layouts[first].settled().primary.is_some(),
        layouts[second].settled().primary.is_some(),
    ensures
        retained(layouts.take(first)).len() < retained(layouts.take(second)).len(),
        retained(layouts)[retained(layouts.take(first)).len() as int] == layouts[first].settled(),
        retained(layouts)[retained(layouts.take(second)).len() as int] == layouts[second].settled(),
{
    retained_index(layouts, first);
    retained_index(layouts, second);
    let upto = layouts.take(second);
    assert(upto.take(first) =~= layouts.take(first));
    assert(upto[first] == layouts[first]);
    retained_index(upto, first);
}

/// No point lies in two of the parts that are left of a rectangle once an
/// area is taken away.
pub proof fn remaining_is_disjoint(rect: Rectangle, sub_rect: Rectangle, point: Point, k: int, l: int)
    requires
        rect.fits(),
        sub_rect.size.w >= 0,
        sub_rect.size.h >= 0,
        0 <= k < l < remaining(rect, sub_rect).len(),
    ensures
        !(remaining(rect, sub_rect)[k].spec_contains(point) && remaining(
            rect,
            sub_rect,
        )[l].spec_contains(point)),
{
    if rect.spec_overlaps(sub_rect) && !sub_rect.spec_contains_rect(rect) {
        let parts = remaining_parts(rect, sub_rect);
        let a = non_empty(parts.0);
        let b = non_empty(parts.1);
        let c = non_empty(parts.2);
        let d = non_empty(parts.3);
        let left = remaining(rect, sub_rect);
        assert(left == a + b + c + d);
        assert(left[k] == parts.0 || left[k] == parts.1 || left[k] == parts.2 || left[k] == parts.3);
        assert(left[l] == parts.0 || left[l] == parts.1 || left[l] == parts.2 || left[l] == parts.3);
        if k < a.len() {
            assert(left[k] == parts.0);
        } else if k < a.len() + b.len() {
            assert(left[k] == parts.1);
        } else if k < a.len() + b.len() + c.len() {
            assert(left[k] == parts.2);
        } else {
            assert(left[k] == parts.3);
        }
        if l < a.len() {
            assert(left[l] == parts.0);
        } else if l < a.len() + b.len() {
            assert(left[l] == parts.1);
        } else if l < a.len() + b.len() + c.len() {
            assert(left[l] == parts.2);
        } else {
            assert(left[l] == parts.3);
        }
    }
}

/// The four parts around the area that a rectangle shares with another:
/// above it, to its left, to its right and below it.
pub open spec fn remaining_parts(rect: Rectangle, sub_rect: Rectangle) -> (
    Rectangle,
    Rectangle,
    Rectangle,
    Rectangle,
) {
    let overlap = rect.spec_intersection(sub_rect).unwrap();
    let right = clamp_i32(overlap.loc.x + overlap.size.w);
    let bottom = clamp_i32(overlap.loc.y + overlap.size.h);
    (
        Rectangle {
            loc: rect.loc,
            size: Size { w: rect.size.w, h: clamp_i32(overlap.loc.y - rect.loc.y) },
        },
        Rectangle {
            loc: Point { x: rect.loc.x, y: overlap.loc.y },
            size: Size { w: clamp_i32(overlap.loc.x - rect.loc.x), h: overlap.size.h },
        },
        Rectangle {
            loc: Point { x: right, y: overlap.loc.y },
            size: Size {
                w: clamp_i32(clamp_i32(rect.loc.x + rect.size.w) - right),
                h: overlap.size.h,
            },
        },
        Rectangle {
            loc: Point { x: rect.loc.x, y: bottom },
            size: Size {
                w: rect.size.w,
                h: clamp_i32(clamp_i32(rect.loc.y + rect.size.h) - bottom),
            },
        },
    )
}

/// The area of a rectangle.
pub open spec fn area(rect: Rectangle) -> int {
    rect.size.w * rect.size.h
}

/// The areas of rectangles, added up.
pub open spec fn total_area(rects: Seq<Rectangle>) -> int
    decreases rects.len(),
{
    if rects.len() == 0 {
        0
    } else {
        total_area(rects.drop_last()) + area(rects.last())
    }
}

/// The area of a rectangle that covers any, and nothing otherwise.
proof fn non_empty_area(rect: Rectangle)
    requires
        rect.size.w >= 0,
        rect.size.h >= 0,
    ensures
        total_area(non_empty(rect)) == area(rect),
{
    if rect.spec_is_empty() {
        assert(rect.size.w * rect.size.h == 0) by (nonlinear_arith)
            requires
                rect.size.w == 0 || rect.size.h == 0,
        ;
        assert(non_empty(rect).len() == 0);
    } else {
        let one = non_empty(rect);
        assert(one.len() == 1 && one.last() == rect);
        assert(one.drop_last() =~= Seq::<Rectangle>::empty());
        assert(total_area(one.drop_last()) == 0);
        assert(total_area(one) == total_area(one.drop_last()) + area(one.last()));
    }
}

/// The area of rectangles put behind others is the sum of the two areas.
proof fn total_area_adds(first: Seq<Rectangle>, second: Seq<Rectangle>)
    ensures
        total_area(first + second) == total_area(first) + total_area(second),
    decreases second.len(),
{
    if second.len() == 0 {
        assert(first + second =~= first);
    } else {
        total_area_adds(first, second.drop_last());
        assert((first + second).drop_last() =~= first + second.drop_last());
        assert((first + second).last() == second.last());
    }
}

/// The parts that are left of a rectangle once an area is taken away have
/// the area of the rectangle less that which the two share.
pub proof fn remaining_area(rect: Rectangle, sub_rect: Rectangle)
    requires
        rect.fits(),
        sub_rect.size.w >= 0,
        sub_rect.size.h >= 0,
    ensures
        total_area(remaining(rect, sub_rect)) == area(rect) - match rect.spec_intersection(sub_rect) {
            Some(overlap) => area(overlap),
            None => 0,
        },
{
    let left = remaining(rect, sub_rect);
    if !rect.spec_overlaps(sub_rect) {
        assert(left.len() == 1 && left.last() == rect);
        assert(left.drop_last() =~= Seq::<Rectangle>::empty());
        assert(total_area(left.drop_last()) == 0);
        assert(total_area(left) == total_area(left.drop_last()) + area(left.last()));
    } else {
        let overlap = rect.spec_intersection(sub_rect).unwrap();
        let w = rect.size.w as int;
        let h = rect.size.h as int;
        let ow = overlap.size.w as int;
        let oh = overlap.size.h as int;
        if sub_rect.spec_contains_rect(rect) {
            assert(overlap == rect);
            assert(left.len() == 0);
        } else {
            let parts = remaining_parts(rect, sub_rect);
            let a = non_empty(parts.0);
            let b = non_empty(parts.1);
            let c = non_empty(parts.2);
            let d = non_empty(parts.3);
            assert(left == a + b + c + d);
            non_empty_area(parts.0);
            non_empty_area(parts.1);
            non_empty_area(parts.2);
            non_empty_area(parts.3);
            total_area_adds(a, b);
            total_area_adds(a + b, c);
            total_area_adds(a + b + c, d);
            let above = parts.0.size.h as int;
            let below = parts.3.size.h as int;
            let beside = parts.1.size.w as int;
            let other = parts.2.size.w as int;
            assert(above + oh + below == h);
            assert(beside + ow + other == w);
            assert(w * above + beside * oh + other * oh + w * below == w * h - ow * oh)
                by (nonlinear_arith)
                requires
                    above + oh + below == h,
                    beside + ow + other == w,
            ;
        }
    }
}

/// A window that is staged as primary or as secondary and reaped before
/// the change is applied is not moved: the change lapses, whatever else is
/// staged before it.
pub proof fn reaped_change_lapses(
    layouts: LayoutsView,
    output: Output,
    position: LayoutPosition,
    id: WindowId,
)
    ensures
        ({
            let reaped = layouts.reap(output, id);
            &&& reaped.apply_change(Transaction::Primary(position, id)) == reaped
            &&& reaped.apply_change(Transaction::Secondary(position, id)) == reaped
        }),
{
}

/// The first move of a drag in the overview gives the drag its purpose,
/// and every move has one from then on. A move that is more vertical than
/// horizontal and ends on a window closes that window and adds its
/// vertical distance to the vertical offset. Every other first move cycles
/// through the layouts and adds its horizontal distance to the horizontal
/// offset.
pub proof fn first_move_gives_purpose(windows: WindowsView, point: Point)
    requires
        windows.view matches ViewMode::Overview(overview) && overview.drag_action is Idle,
    ensures
        ({
            let overview = windows.view->Overview_0;
            let dx = point.x - overview.last_drag_point.x;
            let dy = point.y - overview.last_drag_point.y;
            let on_window = magnitude(dx) < magnitude(dy) && (overview.spec_layout_position(
                &windows.output,
                windows.layouts,
                point,
            ) matches Some(position) && windows.layouts.window_at(position).is_some());
            &&& windows.on_drag(point).view matches ViewMode::Overview(dragged) && {
                &&& !(dragged.drag_action is Idle)
                &&& on_window ==> {
                    &&& dragged.drag_action is Close
                    &&& dragged.y_offset == clamp_i64(overview.y_offset + dy)
                    &&& dragged.x_offset == overview.x_offset
                }
                &&& !on_window ==> {
                    &&& dragged.drag_action == DragAction::Cycle
                    &&& dragged.x_offset == clamp_i64(overview.x_offset + dx * OFFSET_PER_PIXEL)
                    &&& dragged.y_offset == overview.y_offset
                }
            }
        }),
{
}

} // verus!
