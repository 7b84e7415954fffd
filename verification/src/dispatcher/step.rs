use crate::dispatcher::event::{ActionView, Event, EventClass, Warning};
use crate::display::{DisplayRequest, CLIENT_EVENT_MASK};
use crate::keyboard::binding::binding_name_of;
use crate::layout_manager::sync::sync_requests;
use crate::layout_manager::tiling::{
    fresh_window, layout_fits, refreshed, shown_count, Screen, WindowView,
};
use crate::layout_manager::registry::{focused_on, holds_id};
use crate::setting::Key;
use vstd::prelude::*;

verus! {

/// The words of a command as plain texts.
pub open spec fn words(command: Seq<String>) -> Seq<Seq<char>> {
    command.map_values(|word: String| word@)
}

/// Display requests as actions.
pub open spec fn displays(requests: Seq<DisplayRequest>) -> Seq<ActionView> {
    requests.map_values(|request: DisplayRequest| ActionView::Display(request))
}

/// Whether a window is focused.
pub open spec fn is_focused(w: WindowView) -> bool {
    w.focused
}

/// The identity of the focused window.
pub open spec fn focused_window(ws: Seq<WindowView>) -> Option<u32> {
    if exists|i: int| 0 <= i < ws.len() && is_focused(#[trigger] ws[i]) {
        Some(ws[choose|i: int| 0 <= i < ws.len() && is_focused(#[trigger] ws[i])].id)
    } else {
        None
    }
}

/// The windows after one more came under management.
pub open spec fn managed(ws: Seq<WindowView>, id: u32) -> Seq<WindowView> {
    if holds_id(ws, id) {
        ws
    } else {
        ws.push(fresh_window(id))
    }
}

/// What is done when the layout is computed anew: a warning where the
/// windows do not fit, and then the requests that bring the display in
/// line with the windows.
pub open spec fn refresh_actions(ws: Seq<WindowView>, s: Screen, active: Set<u32>) -> Seq<
    ActionView,
> {
    let warning = if layout_fits(s, shown_count(ws, active)) {
        Seq::<ActionView>::empty()
    } else {
        seq![ActionView::Warn { warning: Warning::LayoutDoesNotFit }]
    };
    warning + displays(sync_requests(refreshed(ws, s, active)))
}

/// The windows after an event.
pub open spec fn next_windows(
    ws: Seq<WindowView>,
    s: Screen,
    active: Set<u32>,
    event: Event,
) -> Seq<WindowView> {
    match event {
        Event::MapRequest { window } => refreshed(managed(ws, window), s, active),
        Event::DestroyNotify { window } => refreshed(
            ws.filter(|w: WindowView| w.id != window),
            s,
            active,
        ),
        Event::EnterNotify { window } => refreshed(focused_on(ws, window), s, active),
        _ => ws,
    }
}

/// What a key press leads to: the action bound to its name, if any.
pub open spec fn key_actions(
    ws: Seq<WindowView>,
    keys: Map<Seq<char>, Key>,
    key: Seq<char>,
    modifiers: u8,
) -> Seq<ActionView> {
    let name = binding_name_of(key, modifiers);
    if keys.contains_key(name) {
        match keys[name] {
            Key::Spawn { command } => seq![ActionView::Spawn { command: words(command@) }],
            Key::Quit => match focused_window(ws) {
                Some(window) => seq![
                    ActionView::Display(DisplayRequest::TerminateClient { window }),
                    ActionView::Display(DisplayRequest::Flush),
                ],
                None => Seq::empty(),
            },
        }
    } else {
        Seq::empty()
    }
}

/// What is done upon an event, in order.
pub open spec fn reaction(
    ws: Seq<WindowView>,
    s: Screen,
    active: Set<u32>,
    keys: Map<Seq<char>, Key>,
    event: Event,
) -> Seq<ActionView> {
    match event {
        Event::KeyPress { key, modifiers } => key_actions(ws, keys, key@, modifiers).push(
            ActionView::Trace { class: EventClass::KeyPress },
        ),
        Event::MapRequest { window } => (seq![
            ActionView::Display(
                DisplayRequest::ListenForEvents { window, event_mask: CLIENT_EVENT_MASK },
            ),
        ] + refresh_actions(managed(ws, window), s, active)).push(
            ActionView::Trace { class: EventClass::MapRequest },
        ),
        Event::DestroyNotify { window } => refresh_actions(
            ws.filter(|w: WindowView| w.id != window),
            s,
            active,
        ).push(ActionView::Trace { class: EventClass::DestroyNotify }),
        Event::EnterNotify { window } => (seq![
            ActionView::Display(DisplayRequest::SetInputFocus { window }),
        ] + refresh_actions(focused_on(ws, window), s, active)).push(
            ActionView::Trace { class: EventClass::EnterNotify },
        ),
        Event::Ignored { class } => seq![ActionView::Trace { class }],
        Event::Error { error_code, major_code, minor_code } => seq![
            ActionView::Warn {
                warning: Warning::ProtocolError { error_code, major_code, minor_code },
            },
        ],
        Event::Unhandled => seq![ActionView::Warn { warning: Warning::UnhandledEvent }],
        Event::Missing => seq![ActionView::Warn { warning: Warning::IoError }],
    }
}

} // verus!
