use crate::layout_manager::tags::intersects;
use crate::utils::color::Color;
use vstd::prelude::*;

verus! {

/// What is known of a managed window.
pub struct WindowView {
    pub id: u32,
    pub focused: bool,
    pub tags: Set<u32>,
    pub x: u32,
    pub y: u32,
    pub width: u32,
    pub height: u32,
    pub mapped: bool,
    pub border: u32,
    pub border_color: Color,
}

/// The measures that a layout is computed from.
#[derive(Clone, Copy)]
pub struct Screen {
    pub width: u32,
    pub height: u32,
    pub bar_height: u32,
    pub border: u32,
    pub focus_color: Color,
    pub normal_color: Color,
}

/// Where a window is put.
pub struct Geometry {
    pub x: int,
    pub y: int,
    pub width: int,
    pub height: int,
}

/// A window as `manage` makes it: on tag 0, not focused, not mapped.
pub open spec fn fresh_window(id: u32) -> WindowView {
    WindowView {
        id,
        focused: false,
        tags: set![0u32],
        x: 0,
        y: 0,
        width: 0,
        height: 0,
        mapped: false,
        border: 0,
        border_color: Color { r: 0, g: 0, b: 0, a: 0 },
    }
}

/// Whether a window is on display under the active tags.
pub open spec fn shown(w: WindowView, active: Set<u32>) -> bool {
    intersects(w.tags, active)
}

/// How many of the first `upto` windows are on display.
pub open spec fn shown_before(ws: Seq<WindowView>, active: Set<u32>, upto: int) -> nat
    decreases upto,
{
    if upto <= 0 {
        0
    } else {
        shown_before(ws, active, upto - 1) + if shown(ws[upto - 1], active) {
            1nat
        } else {
            0nat
        }
    }
}

/// How many windows are on display.
pub open spec fn shown_count(ws: Seq<WindowView>, active: Set<u32>) -> nat {
    shown_before(ws, active, ws.len() as int)
}

/// The place of a window that is alone on display: all of the screen
/// below the bar, less the border on each side.
pub open spec fn single_geometry(s: Screen) -> Geometry {
    Geometry {
        x: 0,
        y: s.bar_height as int,
        width: s.width - 2 * s.border,
        height: s.height - s.bar_height - 2 * s.border,
    }
}

/// The place of the master window when there are others: the left half.
pub open spec fn master_geometry(s: Screen) -> Geometry {
    Geometry {
        x: 0,
        y: s.bar_height as int,
        width: s.width / 2 - 2 * s.border,
        height: s.height - s.bar_height - 2 * s.border,
    }
}

/// The height of each window of the stack when `n` windows are on
/// display.
pub open spec fn stack_item_height(s: Screen, n: nat) -> int
    recommends
        n >= 2,
{
    (s.height - s.bar_height) / (n - 1) - 2 * s.border
}

/// The place of the window at `index` in the stack (counted from 0) when
/// `n` windows are on display: in the right half, below the ones before
/// it.
pub open spec fn stack_geometry(s: Screen, n: nat, index: int) -> Geometry
    recommends
        n >= 2,
        0 <= index < n - 1,
{
    Geometry {
        x: s.width as int / 2,
        y: s.bar_height + index * (stack_item_height(s, n) + 2 * s.border),
        width: s.width / 2 - 2 * s.border,
        height: stack_item_height(s, n),
    }
}

/// The place of the window of rank `rank` among the `n` on display.
pub open spec fn geometry_of(s: Screen, n: nat, rank: int) -> Geometry
    recommends
        0 <= rank < n,
{
    if n == 1 {
        single_geometry(s)
    } else if rank == 0 {
        master_geometry(s)
    } else {
        stack_geometry(s, n, rank - 1)
    }
}

/// Whether `n` windows can be laid out on the screen: no width or height
/// falls below zero.
pub open spec fn layout_fits(s: Screen, n: nat) -> bool {
    if n == 0 {
        true
    } else if n == 1 {
        2 * s.border <= s.width && s.bar_height + 2 * s.border <= s.height
    } else {
        &&& 2 * s.border <= s.width / 2
        &&& s.bar_height <= s.height
        &&& 2 * s.border <= (s.height - s.bar_height) / (n - 1)
    }
}

/// A window after the layout: shown or hidden by its tags, with the
/// border that the settings give. One that is shown gets the place of its
/// rank; one that is hidden keeps the place it had.
pub open spec fn laid_out(w: WindowView, s: Screen, active: Set<u32>, n: nat, rank: int) -> WindowView {
    let g = geometry_of(s, n, rank);
    let on = shown(w, active);
    WindowView {
        id: w.id,
        focused: w.focused,
        tags: w.tags,
        x: if on {
            g.x as u32
        } else {
            w.x
        },
        y: if on {
            g.y as u32
        } else {
            w.y
        },
        width: if on {
            g.width as u32
        } else {
            w.width
        },
        height: if on {
            g.height as u32
        } else {
            w.height
        },
        mapped: on,
        border: s.border,
        border_color: if w.focused {
            s.focus_color
        } else {
            s.normal_color
        },
    }
}

/// The windows after the layout.
pub open spec fn layout(ws: Seq<WindowView>, s: Screen, active: Set<u32>) -> Seq<WindowView> {
    Seq::new(
        ws.len(),
        |i: int| laid_out(ws[i], s, active, shown_count(ws, active), shown_before(ws, active, i) as int),
    )
}

/// A window after a layout that found no room for the windows on
/// display: shown or hidden by its tags, with the border that the
/// settings give, in the place it had.
pub open spec fn marked(w: WindowView, s: Screen, active: Set<u32>) -> WindowView {
    WindowView {
        mapped: shown(w, active),
        border: s.border,
        border_color: if w.focused {
            s.focus_color
        } else {
            s.normal_color
        },
        ..w
    }
}

/// The windows after a layout that found no room.
pub open spec fn marked_all(ws: Seq<WindowView>, s: Screen, active: Set<u32>) -> Seq<WindowView> {
    Seq::new(ws.len(), |i: int| marked(ws[i], s, active))
}

/// The windows after the layout was computed anew: laid out where the
/// windows on display fit the screen, and only marked where they do not.
pub open spec fn refreshed(ws: Seq<WindowView>, s: Screen, active: Set<u32>) -> Seq<WindowView> {
    if layout_fits(s, shown_count(ws, active)) {
        layout(ws, s, active)
    } else {
        marked_all(ws, s, active)
    }
}

/// The number of windows on display among the first few does not fall as
/// more are counted.
pub proof fn lemma_shown_before_grows(ws: Seq<WindowView>, active: Set<u32>, i: int, j: int)
    requires
        i <= j,
    ensures
        shown_before(ws, active, i) <= shown_before(ws, active, j),
        shown_before(ws, active, j) <= if j < 0 {
            0
        } else {
            j
        },
    decreases j,
{
    if j > 0 {
        if i < j {
            lemma_shown_before_grows(ws, active, i, j - 1);
        } else {
            lemma_shown_before_grows(ws, active, i - 1, j - 1);
        }
    }
}

/// A share of `parts` equal parts, `count` times, is no more than the
/// whole.
pub proof fn lemma_parts_within_whole(whole: int, parts: int, count: int)
    requires
        0 <= whole,
        0 < parts,
        0 <= count <= parts,
    ensures
        0 <= whole / parts <= whole,
        0 <= count * (whole / parts) <= whole,
        whole - parts < parts * (whole / parts) <= whole,
{
    let q = whole / parts;
    assert(0 <= q <= whole && whole - parts < parts * q <= whole) by (nonlinear_arith)
        requires
            0 <= whole,
            0 < parts,
            q == whole / parts,
    ;
    assert(0 <= count * q <= parts * q) by (nonlinear_arith)
        requires
            0 <= count <= parts,
            0 <= q,
    ;
}

/// Tells whether `n` windows can be laid out on the screen.
pub fn fits(s: Screen, n: usize) -> (ok: bool)
    ensures
        ok == layout_fits(s, n as nat),
{
    let twice: u64 = 2 * (s.border as u64);
    if n == 0 {
        true
    } else if n == 1 {
        twice <= s.width as u64 && s.bar_height as u64 + twice <= s.height as u64
    } else {
        twice <= (s.width / 2) as u64 && s.bar_height <= s.height && twice <= ((s.height
            - s.bar_height) as u64) / ((n - 1) as u64)
    }
}

/// Computes the place of the window of rank `rank` among the `n` on
/// display.
pub fn place(s: Screen, n: usize, rank: usize) -> (g: (u32, u32, u32, u32))
    requires
        rank < n,
        layout_fits(s, n as nat),
    ensures
        g.0 == geometry_of(s, n as nat, rank as int).x,
        g.1 == geometry_of(s, n as nat, rank as int).y,
        g.2 == geometry_of(s, n as nat, rank as int).width,
        g.3 == geometry_of(s, n as nat, rank as int).height,
{
    if n == 1 {
        (0, s.bar_height, s.width - 2 * s.border, s.height - s.bar_height - 2 * s.border)
    } else {
        if rank == 0 {
            (0, s.bar_height, s.width / 2 - 2 * s.border, s.height - s.bar_height - 2 * s.border)
        } else {
            proof {
                lemma_parts_within_whole(s.height - s.bar_height, n - 1, rank - 1);
            }
            let share: u64 = ((s.height - s.bar_height) as u64) / ((n - 1) as u64);
            let item: u32 = (share - 2 * (s.border as u64)) as u32;
            let above: u64 = ((rank - 1) as u64) * share;
            let y: u32 = (s.bar_height as u64 + above) as u32;
            assert(item + 2 * s.border == share);
            (s.width / 2, y, s.width / 2 - 2 * s.border, item)
        }
    }
}

} // verus!
