pub mod event;
pub mod step;

use crate::dispatcher::event::{Action, ActionView, Event, EventClass, Warning};
use crate::dispatcher::step::{
    displays, focused_window, is_focused, managed, next_windows, reaction, refresh_actions, words,
};
use crate::display::{DisplayRequest, CLIENT_EVENT_MASK};
use crate::layout_manager::tags::ActiveTagSet;
use crate::layout_manager::tiling::{refreshed, Screen, WindowView};
use crate::layout_manager::registry::{at_most_one_focused, retagged};
use crate::layout_manager::LayoutManager;
use crate::setting::{Key, Settings};
use std::sync::Arc;
use vstd::prelude::*;

verus! {

/// The state of the window manager between two events: the managed
/// windows and the tags on display. It is the only writer of both.
pub struct Dispatcher {
    settings: Arc<Settings>,
    layout_manager: LayoutManager,
    current_tag: ActiveTagSet,
}

/// Copies the words of a command.
fn copy_words(command: &Vec<String>) -> (copy: Vec<String>)
    ensures
        words(copy@) == words(command@),
{
    let mut copy: Vec<String> = Vec::new();
    let n = command.len();
    let mut i: usize = 0;
    while i < n
        invariant
            i <= n,
            n == command@.len(),
            copy@.len() == i,
            forall|j: int| 0 <= j < i ==> (#[trigger] copy@[j])@ == command@[j]@,
        decreases n - i,
    {
        copy.push(command[i].clone());
        i += 1;
    }
    assert(words(copy@) =~= words(command@));
    copy
}

/// Adds one action.
fn push_action(actions: &mut Vec<Action>, action: Action)
    ensures
        final(actions)@.map_values(|a: Action| a@) == old(actions)@.map_values(|a: Action| a@).push(
            action@,
        ),
{
    actions.push(action);
    assert(actions@.map_values(|a: Action| a@) =~= old(actions)@.map_values(|a: Action| a@).push(
        action@,
    ));
}

/// Adds the display requests to the actions, in their order.
fn push_requests(actions: &mut Vec<Action>, requests: &Vec<DisplayRequest>)
    ensures
        final(actions)@.map_values(|a: Action| a@) == old(actions)@.map_values(|a: Action| a@)
            + displays(requests@),
{
    let n = requests.len();
    let mut i: usize = 0;
    let ghost before = actions@.map_values(|a: Action| a@);
    assert(actions@.map_values(|a: Action| a@) =~= before + displays(requests@.take(0)));
    while i < n
        invariant
            i <= n,
            n == requests@.len(),
            before == old(actions)@.map_values(|a: Action| a@),
            actions@.map_values(|a: Action| a@) == before + displays(requests@.take(i as int)),
        decreases n - i,
    {
        push_action(actions, Action::Display(requests[i]));
        proof {
            assert(requests@.take(i as int + 1) =~= requests@.take(i as int).push(requests@[i as int]));
            assert(displays(requests@.take(i as int + 1)) =~= displays(requests@.take(i as int)).push(
                ActionView::Display(requests@[i as int]),
            ));
            assert(actions@.map_values(|a: Action| a@) =~= before + displays(
                requests@.take(i as int + 1),
            ));
        }
        i += 1;
    }
    assert(requests@.take(n as int) =~= requests@);
}

impl Dispatcher {
    /// The managed windows.
    pub closed spec fn windows(&self) -> Seq<WindowView> {
        self.layout_manager@
    }

    /// The tags on display.
    pub closed spec fn active(&self) -> Set<u32> {
        self.current_tag@
    }

    /// The settings.
    pub closed spec fn settings(&self) -> Settings {
        self.layout_manager.settings()
    }

    /// The measures that the layout is computed from.
    pub closed spec fn screen(&self) -> Screen {
        self.layout_manager.screen()
    }

    /// The registry is in order and works from the same settings.
    pub closed spec fn wf(&self) -> bool {
        &&& self.layout_manager.wf()
        &&& self.layout_manager.settings() == *self.settings
    }

    /// A dispatcher without windows, for a screen of the given size, that
    /// has tag 0 on display.
    pub fn new(settings: Arc<Settings>, width: u32, height: u32) -> (dispatcher: Dispatcher)
        requires
            settings.wf(),
        ensures
            dispatcher.wf(),
            dispatcher.windows() == Seq::<WindowView>::empty(),
            dispatcher.active() == set![0u32],
            dispatcher.settings() == *settings,
            dispatcher.screen() == (Screen {
                width,
                height,
                bar_height: settings.bar().height,
                border: settings.layout_manager().border_width(),
                focus_color: settings.layout_manager().border_color(true),
                normal_color: settings.layout_manager().border_color(false),
            }),
    {
        let layout_manager = LayoutManager::new(settings.clone(), width, height);
        Dispatcher { settings, layout_manager, current_tag: ActiveTagSet::new(0) }
    }

    /// The registry, to read.
    pub fn layout_manager(&self) -> (manager: &LayoutManager)
        ensures
            manager@ == self.windows(),
            manager.settings() == self.settings(),
            manager.screen() == self.screen(),
            self.wf() ==> manager.wf(),
    {
        &self.layout_manager
    }

    /// The tags on display, to read.
    pub fn current_tag(&self) -> (tags: &ActiveTagSet)
        ensures
            tags@ == self.active(),
    {
        &self.current_tag
    }

    /// Computes the layout anew and says what to ask of the display
    /// server.
    fn refresh(&mut self, actions: &mut Vec<Action>)
        requires
            old(self).wf(),
        ensures
            final(self).wf(),
            final(self).settings() == old(self).settings(),
            final(self).screen() == old(self).screen(),
            final(self).active() == old(self).active(),
            final(self).windows() == refreshed(
                old(self).windows(),
                old(self).screen(),
                old(self).active(),
            ),
            final(actions)@.map_values(|a: Action| a@) == old(actions)@.map_values(|a: Action| a@)
                + refresh_actions(old(self).windows(), old(self).screen(), old(self).active()),
    {
        let ghost before = actions@.map_values(|a: Action| a@);
        match self.layout_manager.recalc(&self.current_tag) {
            Ok(()) => {},
            Err(_) => {
                push_action(actions, Action::Warn { warning: Warning::LayoutDoesNotFit });
                assert(actions@.map_values(|a: Action| a@) =~= before + seq![
                    ActionView::Warn { warning: Warning::LayoutDoesNotFit },
                ]);
            },
        }
        let requests = self.layout_manager.sync();
        push_requests(actions, &requests);
        assert(actions@.map_values(|a: Action| a@) =~= before + refresh_actions(
            old(self).windows(),
            old(self).screen(),
            old(self).active(),
        ));
    }

    /// Takes one event: changes the registry as the event asks, computes
    /// the layout anew where the registry changed, and says what to do.
    pub fn dispatch(&mut self, event: &Event) -> (actions: Vec<Action>)
        requires
            old(self).wf(),
        ensures
            final(self).wf(),
            final(self).settings() == old(self).settings(),
            final(self).screen() == old(self).screen(),
            final(self).active() == old(self).active(),
            final(self).windows() == next_windows(
                old(self).windows(),
                old(self).screen(),
                old(self).active(),
                *event,
            ),
            actions@.map_values(|a: Action| a@) == reaction(
                old(self).windows(),
                old(self).screen(),
                old(self).active(),
                old(self).settings().keys()@,
                *event,
            ),
    {
        let mut actions: Vec<Action> = Vec::new();
        assert(actions@.map_values(|a: Action| a@) =~= Seq::<ActionView>::empty());
        match event {
            Event::KeyPress { key, modifiers } => {
                match self.settings.get_keys().resolve(key.as_str(), *modifiers) {
                    Some(Key::Spawn { command }) => {
                        push_action(&mut actions, Action::Spawn { command: copy_words(command) });
                    },
                    Some(Key::Quit) => {
                        match self.focused() {
                            Some(window) => {
                                push_action(&mut actions, 
                                    Action::Display(DisplayRequest::TerminateClient { window }),
                                );
                                push_action(&mut actions, Action::Display(DisplayRequest::Flush));
                            },
                            None => {},
                        }
                    },
                    None => {},
                }
                push_action(&mut actions, Action::Trace { class: EventClass::KeyPress });
            },
            Event::MapRequest { window } => {
                self.layout_manager.manage(*window);
                push_action(&mut actions, 
                    Action::Display(
                        DisplayRequest::ListenForEvents {
                            window: *window,
                            event_mask: CLIENT_EVENT_MASK,
                        },
                    ),
                );
                self.refresh(&mut actions);
                push_action(&mut actions, Action::Trace { class: EventClass::MapRequest });
            },
            Event::DestroyNotify { window } => {
                self.layout_manager.unmanage(*window);
                self.refresh(&mut actions);
                push_action(&mut actions, Action::Trace { class: EventClass::DestroyNotify });
            },
            Event::EnterNotify { window } => {
                self.layout_manager.focus(*window);
                push_action(&mut actions, Action::Display(DisplayRequest::SetInputFocus { window: *window }));
                self.refresh(&mut actions);
                push_action(&mut actions, Action::Trace { class: EventClass::EnterNotify });
            },
            Event::Ignored { class } => {
                push_action(&mut actions, Action::Trace { class: *class });
            },
            Event::Error { error_code, major_code, minor_code } => {
                push_action(&mut actions, 
                    Action::Warn {
                        warning: Warning::ProtocolError {
                            error_code: *error_code,
                            major_code: *major_code,
                            minor_code: *minor_code,
                        },
                    },
                );
            },
            Event::Unhandled => {
                push_action(&mut actions, Action::Warn { warning: Warning::UnhandledEvent });
            },
            Event::Missing => {
                push_action(&mut actions, Action::Warn { warning: Warning::IoError });
            },
        }
        assert(actions@.map_values(|a: Action| a@) =~= reaction(
            old(self).windows(),
            old(self).screen(),
            old(self).active(),
            old(self).settings().keys()@,
            *event,
        ));
        actions
    }

    /// The identity of the focused window.
    pub fn focused(&self) -> (window: Option<u32>)
        requires
            self.wf(),
        ensures
            window == focused_window(self.windows()),
    {
        let n = self.layout_manager.len();
        let mut i: usize = 0;
        while i < n
            invariant
                self.wf(),
                i <= n,
                n == self.windows().len(),
                forall|j: int| 0 <= j < i ==> !is_focused(#[trigger] self.windows()[j]),
            decreases n - i,
        {
            let w = self.layout_manager.window(i);
            if w.focused() {
                proof {
                    let ws = self.windows();
                    assert(is_focused(ws[i as int]));
                    let k = choose|k: int| 0 <= k < ws.len() && is_focused(#[trigger] ws[k]);
                    assert(at_most_one_focused(ws));
                    assert(k == i) by {
                        if k > i {
                            assert(!(ws[i as int].focused && ws[k].focused));
                        }
                    }
                }
                return Some(w.window_id());
            }
            i += 1;
        }
        None
    }

    /// Puts `tag` alone on display and computes the layout anew.
    pub fn switch_tag(&mut self, tag: u32) -> (actions: Vec<Action>)
        requires
            old(self).wf(),
        ensures
            final(self).wf(),
            final(self).settings() == old(self).settings(),
            final(self).screen() == old(self).screen(),
            final(self).active() == set![tag],
            final(self).windows() == refreshed(old(self).windows(), old(self).screen(), set![tag]),
            actions@.map_values(|a: Action| a@) == refresh_actions(
                old(self).windows(),
                old(self).screen(),
                set![tag],
            ),
    {
        let mut actions: Vec<Action> = Vec::new();
        assert(actions@.map_values(|a: Action| a@) =~= Seq::<ActionView>::empty());
        self.current_tag.switch_to(tag);
        self.refresh(&mut actions);
        assert(actions@.map_values(|a: Action| a@) =~= refresh_actions(
            old(self).windows(),
            old(self).screen(),
            set![tag],
        ));
        actions
    }

    /// Puts the focused window on `tag` alone and computes the layout
    /// anew.
    pub fn move_focused_window_to(&mut self, tag: u32) -> (actions: Vec<Action>)
        requires
            old(self).wf(),
        ensures
            final(self).wf(),
            final(self).settings() == old(self).settings(),
            final(self).screen() == old(self).screen(),
            final(self).active() == old(self).active(),
            final(self).windows() == refreshed(
                retagged(old(self).windows(), tag),
                old(self).screen(),
                old(self).active(),
            ),
            actions@.map_values(|a: Action| a@) == refresh_actions(
                retagged(old(self).windows(), tag),
                old(self).screen(),
                old(self).active(),
            ),
    {
        let mut actions: Vec<Action> = Vec::new();
        assert(actions@.map_values(|a: Action| a@) =~= Seq::<ActionView>::empty());
        self.layout_manager.move_focused_window_to(tag);
        self.refresh(&mut actions);
        assert(actions@.map_values(|a: Action| a@) =~= refresh_actions(
            retagged(old(self).windows(), tag),
            old(self).screen(),
            old(self).active(),
        ));
        actions
    }
}

} // verus!
