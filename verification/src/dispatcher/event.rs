use crate::display::DisplayRequest;
use vstd::prelude::*;

verus! {

/// The kinds of event that the display server sends.
#[derive(Clone, Copy, Debug, PartialEq, Eq, Structural)]
pub enum EventClass {
    KeyPress,
    ButtonPress,
    MotionNotify,
    EnterNotify,
    LeaveNotify,
    ClientMessage,
    MapRequest,
    UnmapNotify,
    CirculateRequest,
    ConfigureRequest,
    CirculateNotify,
    ConfigureNotify,
    CreateNotify,
    DestroyNotify,
    GravityNotify,
    MapNotify,
    ReparentNotify,
    PropertyNotify,
    /// An error report in place of an event.
    Error,
    /// Any other kind.
    Unhandled,
}

/// The kind of the event whose response type is `response_type`. The
/// highest bit only says that another client sent the event.
pub open spec fn class_of(response_type: u8) -> EventClass {
    let code = response_type & 0x7f;
    if code == 0 {
        EventClass::Error
    } else if code == 2 {
        EventClass::KeyPress
    } else if code == 4 {
        EventClass::ButtonPress
    } else if code == 6 {
        EventClass::MotionNotify
    } else if code == 7 {
        EventClass::EnterNotify
    } else if code == 8 {
        EventClass::LeaveNotify
    } else if code == 16 {
        EventClass::CreateNotify
    } else if code == 17 {
        EventClass::DestroyNotify
    } else if code == 18 {
        EventClass::UnmapNotify
    } else if code == 19 {
        EventClass::MapNotify
    } else if code == 20 {
        EventClass::MapRequest
    } else if code == 21 {
        EventClass::ReparentNotify
    } else if code == 22 {
        EventClass::ConfigureNotify
    } else if code == 23 {
        EventClass::ConfigureRequest
    } else if code == 24 {
        EventClass::GravityNotify
    } else if code == 26 {
        EventClass::CirculateNotify
    } else if code == 27 {
        EventClass::CirculateRequest
    } else if code == 28 {
        EventClass::PropertyNotify
    } else if code == 33 {
        EventClass::ClientMessage
    } else {
        EventClass::Unhandled
    }
}

/// Tells the kind of an event from its response type.
pub fn classify(response_type: u8) -> (class: EventClass)
    ensures
        class == class_of(response_type),
{
    let code = response_type & 0x7f;
    match code {
        0 => EventClass::Error,
        2 => EventClass::KeyPress,
        4 => EventClass::ButtonPress,
        6 => EventClass::MotionNotify,
        7 => EventClass::EnterNotify,
        8 => EventClass::LeaveNotify,
        16 => EventClass::CreateNotify,
        17 => EventClass::DestroyNotify,
        18 => EventClass::UnmapNotify,
        19 => EventClass::MapNotify,
        20 => EventClass::MapRequest,
        21 => EventClass::ReparentNotify,
        22 => EventClass::ConfigureNotify,
        23 => EventClass::ConfigureRequest,
        24 => EventClass::GravityNotify,
        26 => EventClass::CirculateNotify,
        27 => EventClass::CirculateRequest,
        28 => EventClass::PropertyNotify,
        33 => EventClass::ClientMessage,
        _ => EventClass::Unhandled,
    }
}

/// One turn of the event loop: an event with what the dispatcher reads of
/// it, or the lack of one.
pub enum Event {
    /// A key went down: the name of its symbol and the modifier mask.
    KeyPress { key: String, modifiers: u8 },
    /// A client asks to have its window shown.
    MapRequest { window: u32 },
    /// A window is gone.
    DestroyNotify { window: u32 },
    /// The pointer entered a window.
    EnterNotify { window: u32 },
    /// A notification that changes nothing.
    Ignored { class: EventClass },
    /// An error report from the display server.
    Error { error_code: u8, major_code: u8, minor_code: u16 },
    /// An event of a kind that is not known.
    Unhandled,
    /// No event came: the connection failed.
    Missing,
}

/// What went wrong, for the log.
#[derive(Clone, Copy, Debug, PartialEq, Eq, Structural)]
pub enum Warning {
    IoError,
    ProtocolError { error_code: u8, major_code: u8, minor_code: u16 },
    UnhandledEvent,
    LayoutDoesNotFit,
}

/// One thing that the event loop is told to do.
pub enum Action {
    /// Send a request to the display server.
    Display(DisplayRequest),
    /// Start a program and do not wait for it.
    Spawn { command: Vec<String> },
    /// Write to the log, at trace level, that an event of this kind came.
    Trace { class: EventClass },
    /// Write a warning to the log.
    Warn { warning: Warning },
}

/// An action, with the words of a command as plain texts.
pub enum ActionView {
    Display(DisplayRequest),
    Spawn { command: Seq<Seq<char>> },
    Trace { class: EventClass },
    Warn { warning: Warning },
}

impl View for Action {
    type V = ActionView;

    open spec fn view(&self) -> ActionView {
        match self {
            Action::Display(request) => ActionView::Display(*request),
            Action::Spawn { command } => ActionView::Spawn {
                command: command@.map_values(|word: String| word@),
            },
            Action::Trace { class } => ActionView::Trace { class: *class },
            Action::Warn { warning } => ActionView::Warn { warning: *warning },
        }
    }
}

} // verus!
