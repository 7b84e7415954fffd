use crate::layout_manager::tiling::{
    layout, layout_fits, lemma_parts_within_whole, marked_all, refreshed, shown, shown_before,
    shown_count, stack_item_height, Screen, WindowView,
};
use crate::layout_manager::registry::{
    at_most_one_focused, distinct_ids, focused_on, lemma_focus_is_exclusive,
};
use vstd::prelude::*;

verus! {

/// The windows after the focus went to each of `ids` in turn.
pub open spec fn focused_in_turn(ws: Seq<WindowView>, ids: Seq<u32>) -> Seq<WindowView>
    decreases ids.len(),
{
    if ids.len() == 0 {
        ws
    } else {
        focused_on(focused_in_turn(ws, ids.drop_last()), ids.last())
    }
}

/// After any number of changes of focus, at most one window is focused,
/// and the identities are as distinct as they were.
pub proof fn lemma_focus_in_turn(ws: Seq<WindowView>, ids: Seq<u32>)
    requires
        distinct_ids(ws),
        ids.len() > 0,
    ensures
        at_most_one_focused(focused_in_turn(ws, ids)),
        distinct_ids(focused_in_turn(ws, ids)),
        focused_in_turn(ws, ids) == focused_on(ws, ids.last()),
    decreases ids.len(),
{
    if ids.len() > 1 {
        lemma_focus_in_turn(ws, ids.drop_last());
        assert(focused_on(focused_on(ws, ids.drop_last().last()), ids.last()) =~= focused_on(
            ws,
            ids.last(),
        ));
    } else {
        assert(focused_in_turn(ws, ids.drop_last()) == ws);
    }
    lemma_focus_is_exclusive(ws, ids.last());
}

/// A layout leaves on display exactly the windows that were to be shown,
/// so it changes no count of them.
pub proof fn lemma_layout_keeps_shown(ws: Seq<WindowView>, s: Screen, active: Set<u32>, upto: int)
    requires
        upto <= ws.len(),
    ensures
        shown_before(layout(ws, s, active), active, upto) == shown_before(ws, active, upto),
    decreases upto,
{
    if upto > 0 {
        lemma_layout_keeps_shown(ws, s, active, upto - 1);
        assert(layout(ws, s, active)[upto - 1].tags == ws[upto - 1].tags);
    }
}

/// Computing the layout twice, with nothing changed in between, gives
/// what computing it once gives.
pub proof fn lemma_layout_idempotent(ws: Seq<WindowView>, s: Screen, active: Set<u32>)
    ensures
        shown_count(layout(ws, s, active), active) == shown_count(ws, active),
        layout(layout(ws, s, active), s, active) == layout(ws, s, active),
{
    let once = layout(ws, s, active);
    let twice = layout(once, s, active);
    lemma_layout_keeps_shown(ws, s, active, ws.len() as int);
    assert forall|i: int| 0 <= i < once.len() implies twice[i] == once[i] by {
        lemma_layout_keeps_shown(ws, s, active, i);
        assert(once[i].tags == ws[i].tags);
    }
    assert(twice =~= once);
}

/// Marking leaves on display exactly the windows that were to be shown,
/// so it changes no count of them.
pub proof fn lemma_marking_keeps_shown(ws: Seq<WindowView>, s: Screen, active: Set<u32>, upto: int)
    requires
        upto <= ws.len(),
    ensures
        shown_before(marked_all(ws, s, active), active, upto) == shown_before(ws, active, upto),
    decreases upto,
{
    if upto > 0 {
        lemma_marking_keeps_shown(ws, s, active, upto - 1);
        assert(marked_all(ws, s, active)[upto - 1].tags == ws[upto - 1].tags);
    }
}

/// Computing the layout anew twice, with nothing changed in between,
/// gives what computing it once gives, whether the windows on display
/// fit the screen or not.
pub proof fn lemma_refresh_idempotent(ws: Seq<WindowView>, s: Screen, active: Set<u32>)
    ensures
        shown_count(refreshed(ws, s, active), active) == shown_count(ws, active),
        refreshed(refreshed(ws, s, active), s, active) == refreshed(ws, s, active),
{
    if layout_fits(s, shown_count(ws, active)) {
        lemma_layout_idempotent(ws, s, active);
    } else {
        let once = marked_all(ws, s, active);
        lemma_marking_keeps_shown(ws, s, active, ws.len() as int);
        assert(marked_all(once, s, active) =~= once);
    }
}

/// After the layout was computed anew, whether the windows on display
/// fit the screen or not, every window has the border that the settings
/// give, in the focus colour if it is focused and in the normal colour if
/// it is not, and is mapped if and only if it is on an active tag. Its
/// identity, focus and tags are as they were.
pub proof fn lemma_refresh_marks_every_window(
    ws: Seq<WindowView>,
    s: Screen,
    active: Set<u32>,
    i: int,
)
    requires
        0 <= i < ws.len(),
    ensures
        refreshed(ws, s, active).len() == ws.len(),
        refreshed(ws, s, active)[i].border == s.border,
        refreshed(ws, s, active)[i].border_color == if ws[i].focused {
            s.focus_color
        } else {
            s.normal_color
        },
        refreshed(ws, s, active)[i].mapped == shown(ws[i], active),
        refreshed(ws, s, active)[i].id == ws[i].id,
        refreshed(ws, s, active)[i].focused == ws[i].focused,
        refreshed(ws, s, active)[i].tags == ws[i].tags,
        !shown(ws[i], active) || !layout_fits(s, shown_count(ws, active)) ==> {
            &&& refreshed(ws, s, active)[i].x == ws[i].x
            &&& refreshed(ws, s, active)[i].y == ws[i].y
            &&& refreshed(ws, s, active)[i].width == ws[i].width
            &&& refreshed(ws, s, active)[i].height == ws[i].height
        },
{
}

/// A window that is alone on display has all of the screen below the
/// bar, less the border on each of its sides.
pub proof fn lemma_single_window_fills_screen(
    ws: Seq<WindowView>,
    s: Screen,
    active: Set<u32>,
    i: int,
)
    requires
        0 <= i < ws.len(),
        shown(ws[i], active),
        shown_count(ws, active) == 1,
        layout_fits(s, 1),
    ensures
        layout(ws, s, active)[i].mapped,
        layout(ws, s, active)[i].x == 0,
        layout(ws, s, active)[i].y == s.bar_height,
        layout(ws, s, active)[i].width == s.width - 2 * s.border,
        layout(ws, s, active)[i].height == s.height - s.bar_height - 2 * s.border,
{
}

/// Whether the window at `i` is in the stack: on display, but not the
/// first that is.
pub open spec fn in_stack(ws: Seq<WindowView>, active: Set<u32>, i: int) -> bool {
    shown(ws[i], active) && shown_before(ws, active, i) >= 1
}

/// The heights that a layout gives to the windows of the stack among the
/// first `upto` windows, added up.
pub open spec fn stack_heights(ws: Seq<WindowView>, s: Screen, active: Set<u32>, upto: int) -> int
    decreases upto,
{
    if upto <= 0 {
        0
    } else {
        stack_heights(ws, s, active, upto - 1) + if in_stack(ws, active, upto - 1) {
            layout(ws, s, active)[upto - 1].height as int
        } else {
            0
        }
    }
}

/// Each window of the stack has the height of one stack item.
pub proof fn lemma_stack_heights(ws: Seq<WindowView>, s: Screen, active: Set<u32>, upto: int)
    requires
        0 <= upto <= ws.len(),
        shown_count(ws, active) >= 2,
        layout_fits(s, shown_count(ws, active)),
    ensures
        stack_heights(ws, s, active, upto) == if shown_before(ws, active, upto) >= 1 {
            (shown_before(ws, active, upto) - 1) * stack_item_height(s, shown_count(ws, active))
        } else {
            0
        },
    decreases upto,
{
    if upto > 0 {
        lemma_stack_heights(ws, s, active, upto - 1);
        let n = shown_count(ws, active);
        let rank = shown_before(ws, active, upto - 1);
        let item = stack_item_height(s, n);
        lemma_parts_within_whole(s.height - s.bar_height, n - 1, 0);
        if in_stack(ws, active, upto - 1) {
            assert(layout(ws, s, active)[upto - 1].height == item);
            assert((rank - 1) * item + item == rank * item) by (nonlinear_arith);
        }
    }
}

/// With two or more windows on display, the heights of the windows of
/// the stack and their borders add up to the height of the screen below
/// the bar, less what is left over when that height is divided among
/// them, which is less than their number.
pub proof fn lemma_stack_fills_height(ws: Seq<WindowView>, s: Screen, active: Set<u32>)
    requires
        shown_count(ws, active) >= 2,
        layout_fits(s, shown_count(ws, active)),
    ensures
        ({
            let n = shown_count(ws, active);
            let total = stack_heights(ws, s, active, ws.len() as int) + 2 * s.border * (n - 1);
            let below_bar = s.height - s.bar_height;
            &&& total == below_bar - below_bar % (n - 1)
            &&& below_bar - (n - 1) < total <= below_bar
        }),
{
    let n = shown_count(ws, active);
    let below_bar = s.height - s.bar_height;
    let item = stack_item_height(s, n);
    lemma_stack_heights(ws, s, active, ws.len() as int);
    lemma_parts_within_whole(below_bar, n - 1, 0);
    assert((n - 1) * item + 2 * s.border * (n - 1) == (n - 1) * (below_bar / (n - 1))) by (nonlinear_arith)
        requires
            item == below_bar / (n - 1) - 2 * s.border,
    ;
    assert((n - 1) * (below_bar / (n - 1)) == below_bar - below_bar % (n - 1)) by (nonlinear_arith)
        requires
            n - 1 > 0,
    ;
}

} // verus!
