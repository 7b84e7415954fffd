use crate::layout_manager::tiling::{refreshed, Screen, WindowView};
use vstd::prelude::*;

verus! {

/// Whether a window has the identity `id`.
pub open spec fn has_id(w: WindowView, id: u32) -> bool {
    w.id == id
}

/// Whether a window is on a tag at all.
pub open spec fn is_tagged(w: WindowView) -> bool {
    exists|t: u32| w.tags.contains(t)
}

/// Whether one of the windows has the identity `id`.
pub open spec fn holds_id(ws: Seq<WindowView>, id: u32) -> bool {
    exists|i: int| 0 <= i < ws.len() && has_id(#[trigger] ws[i], id)
}

/// No two windows have the same identity.
pub open spec fn distinct_ids(ws: Seq<WindowView>) -> bool {
    forall|i: int, j: int| 0 <= i < j < ws.len() ==> (#[trigger] ws[i]).id != (#[trigger] ws[j]).id
}

/// No two windows are focused.
pub open spec fn at_most_one_focused(ws: Seq<WindowView>) -> bool {
    forall|i: int, j: int|
        0 <= i < j < ws.len() ==> !((#[trigger] ws[i]).focused && (#[trigger] ws[j]).focused)
}

/// Every window is on a tag.
pub open spec fn all_tagged(ws: Seq<WindowView>) -> bool {
    forall|i: int| 0 <= i < ws.len() ==> is_tagged(#[trigger] ws[i])
}

/// The windows after the focus went to `id`: the window of that identity
/// is focused and no other is.
pub open spec fn focused_on(ws: Seq<WindowView>, id: u32) -> Seq<WindowView> {
    Seq::new(ws.len(), |i: int| WindowView { focused: ws[i].id == id, ..ws[i] })
}

/// The windows after the focused one moved to `tag`: it is on that tag
/// alone, the others are as before.
pub open spec fn retagged(ws: Seq<WindowView>, tag: u32) -> Seq<WindowView> {
    Seq::new(
        ws.len(),
        |i: int|
            if ws[i].focused {
                WindowView { tags: set![tag], ..ws[i] }
            } else {
                ws[i]
            },
    )
}

/// A focus that goes to one identity leaves at most one window focused,
/// whatever was focused before, and changes neither identities nor tags.
pub proof fn lemma_focus_is_exclusive(ws: Seq<WindowView>, id: u32)
    requires
        distinct_ids(ws),
    ensures
        at_most_one_focused(focused_on(ws, id)),
        distinct_ids(focused_on(ws, id)),
        all_tagged(ws) ==> all_tagged(focused_on(ws, id)),
{
    let after = focused_on(ws, id);
    assert forall|i: int, j: int| 0 <= i < j < after.len() implies (#[trigger] after[i]).id != (
    #[trigger] after[j]).id && !(after[i].focused && after[j].focused) by {
        assert(ws[i].id != ws[j].id);
    }
    if all_tagged(ws) {
        assert forall|i: int| 0 <= i < after.len() implies is_tagged(#[trigger] after[i]) by {
            assert(is_tagged(ws[i]));
            let t = choose|t: u32| ws[i].tags.contains(t);
            assert(after[i].tags.contains(t));
        }
    }
}

/// A registry that loses some of its windows stays in order: identities
/// stay distinct, at most one window is focused, every window is tagged.
pub proof fn lemma_filter_keeps_order(ws: Seq<WindowView>, keep: spec_fn(WindowView) -> bool)
    requires
        distinct_ids(ws),
        at_most_one_focused(ws),
        all_tagged(ws),
    ensures
        distinct_ids(ws.filter(keep)),
        at_most_one_focused(ws.filter(keep)),
        all_tagged(ws.filter(keep)),
        forall|k: int|
            0 <= k < ws.filter(keep).len() ==> ws.contains(#[trigger] ws.filter(keep)[k]),
    decreases ws.len(),
{
    reveal(Seq::filter);
    if ws.len() > 0 {
        let front = ws.drop_last();
        assert forall|i: int, j: int| 0 <= i < j < front.len() implies (#[trigger] front[i]).id != (
        #[trigger] front[j]).id && !(front[i].focused && front[j].focused) by {
            assert(ws[i].id != ws[j].id);
        }
        assert forall|i: int| 0 <= i < front.len() implies is_tagged(#[trigger] front[i]) by {
            assert(is_tagged(ws[i]));
        }
        lemma_filter_keeps_order(front, keep);
        let kept = front.filter(keep);
        let all = ws.filter(keep);
        assert forall|k: int| 0 <= k < kept.len() implies ws.contains(#[trigger] kept[k]) && kept[k].id
            != ws.last().id && !(kept[k].focused && ws.last().focused) by {
            assert(front.contains(kept[k]));
            let m = choose|m: int| 0 <= m < front.len() && front[m] == kept[k];
            assert(ws[m] == kept[k]);
            assert(ws[m].id != ws[ws.len() - 1].id);
        }
        assert(is_tagged(ws[ws.len() - 1]));
        assert(ws.contains(ws[ws.len() - 1]));
        assert forall|k: int| 0 <= k < all.len() implies ws.contains(#[trigger] all[k]) by {
            if k < kept.len() {
                assert(all[k] == kept[k]);
            }
        }
    }
}

/// A filter that every element passes changes nothing.
pub proof fn lemma_filter_all(ws: Seq<WindowView>, keep: spec_fn(WindowView) -> bool)
    requires
        forall|k: int| 0 <= k < ws.len() ==> keep(#[trigger] ws[k]),
    ensures
        ws.filter(keep) == ws,
    decreases ws.len(),
{
    reveal(Seq::filter);
    if ws.len() > 0 {
        lemma_filter_all(ws.drop_last(), keep);
        assert(ws.drop_last().push(ws.last()) =~= ws);
    }
}

/// A layout changes no identity, focus or tag, so a registry that was in
/// order stays in order.
pub proof fn lemma_layout_keeps_order(ws: Seq<WindowView>, s: Screen, active: Set<u32>)
    ensures
        distinct_ids(ws) ==> distinct_ids(refreshed(ws, s, active)),
        at_most_one_focused(ws) ==> at_most_one_focused(refreshed(ws, s, active)),
        all_tagged(ws) ==> all_tagged(refreshed(ws, s, active)),
{
    let after = refreshed(ws, s, active);
    if distinct_ids(ws) {
        assert forall|i: int, j: int| 0 <= i < j < after.len() implies (#[trigger] after[i]).id != (
        #[trigger] after[j]).id by {
            assert(ws[i].id != ws[j].id);
        }
    }
    if at_most_one_focused(ws) {
        assert forall|i: int, j: int| 0 <= i < j < after.len() implies !((#[trigger] after[i]).focused
            && (#[trigger] after[j]).focused) by {
            assert(!(ws[i].focused && ws[j].focused));
        }
    }
    if all_tagged(ws) {
        assert forall|i: int| 0 <= i < after.len() implies is_tagged(#[trigger] after[i]) by {
            assert(is_tagged(ws[i]));
            let t = choose|t: u32| ws[i].tags.contains(t);
            assert(after[i].tags.contains(t));
        }
    }
}

} // verus!
