use crate::display::DisplayRequest;
use crate::layout_manager::tiling::WindowView;
use vstd::prelude::*;

verus! {

/// What the display server is asked for one window. A mapped window is
/// put in its place and given its border before it is shown; any other
/// window is hidden.
pub open spec fn window_requests(w: WindowView) -> Seq<DisplayRequest> {
    if w.mapped {
        seq![
            DisplayRequest::MoveAndResizeWindow {
                window: w.id,
                x: w.x,
                y: w.y,
                width: w.width,
                height: w.height,
            },
            DisplayRequest::SetWindowBorder { window: w.id, width: w.border, color: w.border_color },
            DisplayRequest::MapWindow { window: w.id },
        ]
    } else {
        seq![DisplayRequest::UnmapWindow { window: w.id }]
    }
}

/// The requests for the first `upto` windows, in the windows' order.
pub open spec fn requests_upto(ws: Seq<WindowView>, upto: int) -> Seq<DisplayRequest>
    decreases upto,
{
    if upto <= 0 {
        Seq::empty()
    } else {
        requests_upto(ws, upto - 1) + window_requests(ws[upto - 1])
    }
}

/// The requests that bring the display in line with the windows: those
/// for each window in turn, and one flush at the end.
pub open spec fn sync_requests(ws: Seq<WindowView>) -> Seq<DisplayRequest> {
    requests_upto(ws, ws.len() as int).push(DisplayRequest::Flush)
}

} // verus!
