use oscillator::dispatcher::event::{classify, Action, Event, EventClass, Warning};
use oscillator::dispatcher::Dispatcher;
use oscillator::display::{DisplayRequest, CLIENT_EVENT_MASK};
use oscillator::setting::{BarSettings, Key, KeyTable, LayoutManagerSettings, Settings};
use oscillator::utils::color::Color;
use std::sync::Arc;

const FOCUS: Color = Color { r: 0xff, g: 0, b: 0, a: 0 };
const NORMAL: Color = Color { r: 0, g: 0, b: 0xff, a: 0 };

fn settings(border: u32) -> Arc<Settings> {
    let mut keys = KeyTable::new();
    keys.insert(
        "m1-return".to_string(),
        Key::Spawn { command: vec!["xterm".to_string(), "-bg".to_string(), "black".to_string()] },
    );
    keys.insert("m1-s-q".to_string(), Key::Quit);
    let layout = LayoutManagerSettings::Stack {
        border,
        focus_border_color: "#ff0000".to_string(),
        normal_border_color: "#0000ff".to_string(),
    };
    let bar = BarSettings {
        height: 20,
        font_family: "fixed".to_string(),
        font_color: "#ffffff".to_string(),
        background_color: "#000000".to_string(),
        active_font_color: "#000000".to_string(),
        active_background_color: "#ffffff".to_string(),
        tag_cell_width: 30,
    };
    Arc::new(Settings::new(keys, String::new(), layout, bar).ok().unwrap())
}

fn dispatcher() -> Dispatcher {
    Dispatcher::new(settings(2), 1000, 800)
}

fn key(name: &str, modifiers: u8) -> Event {
    Event::KeyPress { key: name.to_string(), modifiers }
}

fn show(actions: &[Action]) -> Vec<String> {
    actions
        .iter()
        .map(|a| match a {
            Action::Display(request) => format!("{:?}", request),
            Action::Spawn { command } => format!("Spawn {:?}", command),
            Action::Trace { class } => format!("Trace {:?}", class),
            Action::Warn { warning } => format!("Warn {:?}", warning),
        })
        .collect()
}

fn displays(requests: &[DisplayRequest]) -> Vec<String> {
    requests.iter().map(|r| format!("{:?}", r)).collect()
}

fn shown_window(window: u32, x: u32, y: u32, width: u32, height: u32, color: Color) -> Vec<DisplayRequest> {
    vec![
        DisplayRequest::MoveAndResizeWindow { window, x, y, width, height },
        DisplayRequest::SetWindowBorder { window, width: 2, color },
        DisplayRequest::MapWindow { window },
    ]
}

#[test]
fn response_types_are_classified() {
    assert_eq!(classify(0), EventClass::Error);
    assert_eq!(classify(2), EventClass::KeyPress);
    assert_eq!(classify(4), EventClass::ButtonPress);
    assert_eq!(classify(6), EventClass::MotionNotify);
    assert_eq!(classify(7), EventClass::EnterNotify);
    assert_eq!(classify(8), EventClass::LeaveNotify);
    assert_eq!(classify(16), EventClass::CreateNotify);
    assert_eq!(classify(17), EventClass::DestroyNotify);
    assert_eq!(classify(18), EventClass::UnmapNotify);
    assert_eq!(classify(19), EventClass::MapNotify);
    assert_eq!(classify(20), EventClass::MapRequest);
    assert_eq!(classify(21), EventClass::ReparentNotify);
    assert_eq!(classify(22), EventClass::ConfigureNotify);
    assert_eq!(classify(23), EventClass::ConfigureRequest);
    assert_eq!(classify(24), EventClass::GravityNotify);
    assert_eq!(classify(26), EventClass::CirculateNotify);
    assert_eq!(classify(27), EventClass::CirculateRequest);
    assert_eq!(classify(28), EventClass::PropertyNotify);
    assert_eq!(classify(33), EventClass::ClientMessage);
}

#[test]
fn other_response_types_are_unhandled() {
    for code in [1u8, 3, 5, 9, 10, 11, 12, 13, 14, 15, 25, 29, 30, 31, 32, 34, 35, 64, 127] {
        assert_eq!(classify(code), EventClass::Unhandled);
    }
}

#[test]
fn the_sent_bit_is_left_out_of_the_class() {
    assert_eq!(classify(0x80 | 20), EventClass::MapRequest);
    assert_eq!(classify(0x80 | 33), EventClass::ClientMessage);
    assert_eq!(classify(0x80), EventClass::Error);
    assert_eq!(classify(0xff), EventClass::Unhandled);
}

#[test]
fn the_client_event_mask_asks_for_keys_entering_and_structure() {
    assert_eq!(CLIENT_EVENT_MASK, 1 | 16 | 131072);
}

#[test]
fn a_new_dispatcher_has_the_measures_it_was_made_with() {
    let d = Dispatcher::new(settings(3), 1234, 567);
    let s = d.layout_manager().measures();
    assert_eq!((s.width, s.height, s.bar_height, s.border), (1234, 567, 20, 3));
    assert_eq!(s.focus_color, FOCUS);
    assert_eq!(s.normal_color, NORMAL);
}

#[test]
fn a_new_dispatcher_shows_tag_zero() {
    let d = dispatcher();
    assert_eq!(d.layout_manager().len(), 0);
    assert!(d.current_tag().contains(0));
    assert!(!d.current_tag().contains(1));
    assert_eq!(d.focused(), None);
}

#[test]
fn a_map_request_manages_lays_out_and_syncs() {
    let mut d = dispatcher();
    let actions = d.dispatch(&Event::MapRequest { window: 11 });
    let mut expected = vec![DisplayRequest::ListenForEvents { window: 11, event_mask: 0x0002_0011 }];
    expected.extend(shown_window(11, 0, 20, 996, 776, NORMAL));
    expected.push(DisplayRequest::Flush);
    let mut expected = displays(&expected);
    expected.push("Trace MapRequest".to_string());
    assert_eq!(show(&actions), expected);
    assert_eq!(d.layout_manager().len(), 1);
    assert!(d.layout_manager().window(0).mapped());
}

#[test]
fn a_second_map_request_splits_the_screen() {
    let mut d = dispatcher();
    d.dispatch(&Event::MapRequest { window: 11 });
    let actions = d.dispatch(&Event::MapRequest { window: 12 });
    let mut expected = vec![DisplayRequest::ListenForEvents { window: 12, event_mask: 0x0002_0011 }];
    expected.extend(shown_window(11, 0, 20, 496, 776, NORMAL));
    expected.extend(shown_window(12, 500, 20, 496, 776, NORMAL));
    expected.push(DisplayRequest::Flush);
    let mut expected = displays(&expected);
    expected.push("Trace MapRequest".to_string());
    assert_eq!(show(&actions), expected);
}

#[test]
fn a_repeated_map_request_adds_no_window() {
    let mut d = dispatcher();
    d.dispatch(&Event::MapRequest { window: 11 });
    let actions = d.dispatch(&Event::MapRequest { window: 11 });
    assert_eq!(d.layout_manager().len(), 1);
    let mut expected = vec![DisplayRequest::ListenForEvents { window: 11, event_mask: 0x0002_0011 }];
    expected.extend(shown_window(11, 0, 20, 996, 776, NORMAL));
    expected.push(DisplayRequest::Flush);
    let mut expected = displays(&expected);
    expected.push("Trace MapRequest".to_string());
    assert_eq!(show(&actions), expected);
}

#[test]
fn a_destroy_notify_unmanages_lays_out_and_syncs() {
    let mut d = dispatcher();
    d.dispatch(&Event::MapRequest { window: 11 });
    d.dispatch(&Event::MapRequest { window: 12 });
    let actions = d.dispatch(&Event::DestroyNotify { window: 11 });
    let mut expected = shown_window(12, 0, 20, 996, 776, NORMAL);
    expected.push(DisplayRequest::Flush);
    let mut expected = displays(&expected);
    expected.push("Trace DestroyNotify".to_string());
    assert_eq!(show(&actions), expected);
    assert_eq!(d.layout_manager().len(), 1);
}

#[test]
fn a_destroy_notify_for_an_unknown_window_changes_no_window() {
    let mut d = dispatcher();
    d.dispatch(&Event::MapRequest { window: 11 });
    let actions = d.dispatch(&Event::DestroyNotify { window: 99 });
    let mut expected = shown_window(11, 0, 20, 996, 776, NORMAL);
    expected.push(DisplayRequest::Flush);
    let mut expected = displays(&expected);
    expected.push("Trace DestroyNotify".to_string());
    assert_eq!(show(&actions), expected);
    assert_eq!(d.layout_manager().len(), 1);
}

#[test]
fn an_enter_notify_focuses_and_recolors() {
    let mut d = dispatcher();
    d.dispatch(&Event::MapRequest { window: 11 });
    d.dispatch(&Event::MapRequest { window: 12 });
    let actions = d.dispatch(&Event::EnterNotify { window: 12 });
    let mut expected = vec![DisplayRequest::SetInputFocus { window: 12 }];
    expected.extend(shown_window(11, 0, 20, 496, 776, NORMAL));
    expected.extend(shown_window(12, 500, 20, 496, 776, FOCUS));
    expected.push(DisplayRequest::Flush);
    let mut expected = displays(&expected);
    expected.push("Trace EnterNotify".to_string());
    assert_eq!(show(&actions), expected);
    assert_eq!(d.focused(), Some(12));
    d.dispatch(&Event::EnterNotify { window: 11 });
    assert_eq!(d.focused(), Some(11));
    assert!(!d.layout_manager().window(1).focused());
    assert_eq!(d.layout_manager().window(0).border_color(), FOCUS);
    assert_eq!(d.layout_manager().window(1).border_color(), NORMAL);
}

#[test]
fn an_enter_notify_for_an_unknown_window_takes_the_focus_away() {
    let mut d = dispatcher();
    d.dispatch(&Event::MapRequest { window: 11 });
    d.dispatch(&Event::EnterNotify { window: 11 });
    let actions = d.dispatch(&Event::EnterNotify { window: 1 });
    assert_eq!(d.focused(), None);
    assert_eq!(show(&actions)[0], format!("{:?}", DisplayRequest::SetInputFocus { window: 1 }));
    assert_eq!(d.layout_manager().window(0).border_color(), NORMAL);
}

#[test]
fn a_bound_key_spawns_its_command() {
    let mut d = dispatcher();
    let actions = d.dispatch(&key("Return", 0x08));
    assert_eq!(actions.len(), 2);
    match &actions[0] {
        Action::Spawn { command } => assert_eq!(command, &vec!["xterm", "-bg", "black"]),
        _ => panic!("no command was spawned"),
    }
    assert!(matches!(actions[1], Action::Trace { class: EventClass::KeyPress }));
}

#[test]
fn a_key_that_is_not_bound_is_ignored() {
    let mut d = dispatcher();
    d.dispatch(&Event::MapRequest { window: 11 });
    assert_eq!(show(&d.dispatch(&key("Return", 0))), vec!["Trace KeyPress"]);
    assert_eq!(show(&d.dispatch(&key("Return", 0x08 | 0x04))), vec!["Trace KeyPress"]);
    assert_eq!(show(&d.dispatch(&key("x", 0x08))), vec!["Trace KeyPress"]);
    assert_eq!(d.layout_manager().len(), 1);
}

#[test]
fn quit_terminates_the_focused_client() {
    let mut d = dispatcher();
    d.dispatch(&Event::MapRequest { window: 11 });
    d.dispatch(&Event::MapRequest { window: 12 });
    d.dispatch(&Event::EnterNotify { window: 12 });
    let actions = d.dispatch(&key("q", 0x08 | 0x01));
    assert_eq!(
        show(&actions),
        vec![
            format!("{:?}", DisplayRequest::TerminateClient { window: 12 }),
            format!("{:?}", DisplayRequest::Flush),
            "Trace KeyPress".to_string(),
        ]
    );
    assert_eq!(d.layout_manager().len(), 2);
}

#[test]
fn quit_without_a_focused_window_does_nothing() {
    let mut d = dispatcher();
    d.dispatch(&Event::MapRequest { window: 11 });
    assert_eq!(show(&d.dispatch(&key("Q", 0x08 | 0x01))), vec!["Trace KeyPress"]);
}

#[test]
fn other_notifications_are_only_traced() {
    let mut d = dispatcher();
    d.dispatch(&Event::MapRequest { window: 11 });
    for class in [
        EventClass::ButtonPress,
        EventClass::MotionNotify,
        EventClass::LeaveNotify,
        EventClass::ClientMessage,
        EventClass::UnmapNotify,
        EventClass::CirculateRequest,
        EventClass::ConfigureRequest,
        EventClass::CirculateNotify,
        EventClass::ConfigureNotify,
        EventClass::CreateNotify,
        EventClass::GravityNotify,
        EventClass::MapNotify,
        EventClass::ReparentNotify,
        EventClass::PropertyNotify,
    ] {
        let actions = d.dispatch(&Event::Ignored { class });
        assert_eq!(show(&actions), vec![format!("Trace {:?}", class)]);
    }
    assert_eq!(d.layout_manager().len(), 1);
}

#[test]
fn an_error_is_a_warning() {
    let mut d = dispatcher();
    let actions = d.dispatch(&Event::Error { error_code: 3, major_code: 12, minor_code: 7 });
    assert_eq!(actions.len(), 1);
    assert!(matches!(
        actions[0],
        Action::Warn { warning: Warning::ProtocolError { error_code: 3, major_code: 12, minor_code: 7 } }
    ));
}

#[test]
fn an_unhandled_event_is_a_warning() {
    let mut d = dispatcher();
    let actions = d.dispatch(&Event::Unhandled);
    assert_eq!(show(&actions), vec!["Warn UnhandledEvent"]);
}

#[test]
fn a_missing_event_is_a_warning() {
    let mut d = dispatcher();
    d.dispatch(&Event::MapRequest { window: 11 });
    let actions = d.dispatch(&Event::Missing);
    assert_eq!(show(&actions), vec!["Warn IoError"]);
    assert_eq!(d.layout_manager().len(), 1);
}

#[test]
fn switch_tag_changes_what_is_on_display() {
    let mut d = dispatcher();
    d.dispatch(&Event::MapRequest { window: 11 });
    let actions = d.switch_tag(3);
    assert!(d.current_tag().contains(3));
    assert!(!d.current_tag().contains(0));
    assert_eq!(
        show(&actions),
        displays(&[DisplayRequest::UnmapWindow { window: 11 }, DisplayRequest::Flush])
    );
    let actions = d.switch_tag(0);
    let mut expected = shown_window(11, 0, 20, 996, 776, NORMAL);
    expected.push(DisplayRequest::Flush);
    assert_eq!(show(&actions), displays(&expected));
}

#[test]
fn move_focused_window_to_hides_it_on_the_current_tag() {
    let mut d = dispatcher();
    d.dispatch(&Event::MapRequest { window: 11 });
    d.dispatch(&Event::MapRequest { window: 12 });
    d.dispatch(&Event::EnterNotify { window: 11 });
    let actions = d.move_focused_window_to(4);
    let mut expected = vec![DisplayRequest::UnmapWindow { window: 11 }];
    expected.extend(shown_window(12, 0, 20, 996, 776, NORMAL));
    expected.push(DisplayRequest::Flush);
    assert_eq!(show(&actions), displays(&expected));
    let actions = d.switch_tag(4);
    let mut expected = shown_window(11, 0, 20, 996, 776, FOCUS);
    expected.push(DisplayRequest::UnmapWindow { window: 12 });
    expected.push(DisplayRequest::Flush);
    assert_eq!(show(&actions), displays(&expected));
}

#[test]
fn a_layout_that_does_not_fit_is_a_warning() {
    let mut d = Dispatcher::new(settings(600), 2000, 2000);
    let actions = d.dispatch(&Event::MapRequest { window: 11 });
    assert_eq!(show(&actions).len(), 6);
    let actions = d.dispatch(&Event::MapRequest { window: 12 });
    let mut expected = displays(&[DisplayRequest::ListenForEvents { window: 12, event_mask: 0x0002_0011 }]);
    expected.push("Warn LayoutDoesNotFit".to_string());
    expected.extend(displays(&[
        DisplayRequest::MoveAndResizeWindow { window: 11, x: 0, y: 20, width: 800, height: 780 },
        DisplayRequest::SetWindowBorder { window: 11, width: 600, color: NORMAL },
        DisplayRequest::MapWindow { window: 11 },
        DisplayRequest::MoveAndResizeWindow { window: 12, x: 0, y: 0, width: 0, height: 0 },
        DisplayRequest::SetWindowBorder { window: 12, width: 600, color: NORMAL },
        DisplayRequest::MapWindow { window: 12 },
        DisplayRequest::Flush,
    ]));
    expected.push("Trace MapRequest".to_string());
    assert_eq!(show(&actions), expected);
}
