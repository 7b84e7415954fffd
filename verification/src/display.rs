use crate::utils::color::Color;
use vstd::prelude::*;

verus! {

/// The events that a managed window is asked to report: key presses, the
/// pointer entering, and changes of its structure.
pub const CLIENT_EVENT_MASK: u32 = 0x0002_0011;

/// One request to the display server.
#[derive(Clone, Copy, Debug, PartialEq, Eq, Structural)]
pub enum DisplayRequest {
    MapWindow { window: u32 },
    UnmapWindow { window: u32 },
    MoveAndResizeWindow { window: u32, x: u32, y: u32, width: u32, height: u32 },
    SetWindowBorder { window: u32, width: u32, color: Color },
    SetInputFocus { window: u32 },
    TerminateClient { window: u32 },
    ListenForEvents { window: u32, event_mask: u32 },
    Flush,
}

} // verus!
