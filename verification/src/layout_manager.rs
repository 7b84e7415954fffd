pub mod registry;
pub mod sync;
pub mod tags;
pub mod theorems;
pub mod tiling;

use crate::display::DisplayRequest;
use crate::layout_manager::registry::{
    all_tagged, at_most_one_focused, distinct_ids, focused_on, has_id, holds_id, is_tagged,
    lemma_filter_all, lemma_filter_keeps_order, lemma_focus_is_exclusive, lemma_layout_keeps_order,
    retagged,
};
use crate::layout_manager::sync::{requests_upto, sync_requests, window_requests};
use crate::layout_manager::tags::{have_common_tag, intersects, ActiveTagSet};
use crate::layout_manager::tiling::{
    fits, fresh_window, layout, layout_fits, lemma_shown_before_grows, marked_all, place,
    refreshed, shown, shown_before, shown_count, Screen, WindowView,
};
use crate::setting::Settings;
use crate::utils::color::Color;
use std::collections::HashSet;
use std::sync::Arc;
use vstd::prelude::*;

verus! {

/// A managed window: what the display server and the user decide of it
/// (identity, focus, tags) and what the layout derives (place, border,
/// whether it is mapped).
pub struct Window {
    window_id: u32,
    focused: bool,
    tags: HashSet<u32>,
    width: u32,
    height: u32,
    x: u32,
    y: u32,
    mapped: bool,
    border: u32,
    border_color: Color,
}

impl Window {
    pub fn window_id(&self) -> (id: u32)
        ensures
            id == self@.id,
    {
        self.window_id
    }

    pub fn focused(&self) -> (focused: bool)
        ensures
            focused == self@.focused,
    {
        self.focused
    }

    pub fn tags(&self) -> (tags: &HashSet<u32>)
        ensures
            tags@ == self@.tags,
    {
        &self.tags
    }

    pub fn x(&self) -> (x: u32)
        ensures
            x == self@.x,
    {
        self.x
    }

    pub fn y(&self) -> (y: u32)
        ensures
            y == self@.y,
    {
        self.y
    }

    pub fn width(&self) -> (width: u32)
        ensures
            width == self@.width,
    {
        self.width
    }

    pub fn height(&self) -> (height: u32)
        ensures
            height == self@.height,
    {
        self.height
    }

    pub fn mapped(&self) -> (mapped: bool)
        ensures
            mapped == self@.mapped,
    {
        self.mapped
    }

    pub fn border(&self) -> (border: u32)
        ensures
            border == self@.border,
    {
        self.border
    }

    pub fn border_color(&self) -> (color: Color)
        ensures
            color == self@.border_color,
    {
        self.border_color
    }
}

impl View for Window {
    type V = WindowView;

    closed spec fn view(&self) -> WindowView {
        WindowView {
            id: self.window_id,
            focused: self.focused,
            tags: self.tags@,
            x: self.x,
            y: self.y,
            width: self.width,
            height: self.height,
            mapped: self.mapped,
            border: self.border,
            border_color: self.border_color,
        }
    }
}

/// Why a layout was not computed.
#[derive(Clone, Copy, Debug, PartialEq, Eq, Structural)]
pub enum LayoutError {
    /// The screen is too small for the windows on display and their
    /// borders.
    DoesNotFit,
}

/// The registry of managed windows, with the screen and the settings that
/// their layout is computed from.
pub struct LayoutManager {
    windows: Vec<Window>,
    settings: Arc<Settings>,
    width: u32,
    height: u32,
}

impl View for LayoutManager {
    type V = Seq<WindowView>;

    closed spec fn view(&self) -> Seq<WindowView> {
        Seq::new(self.windows@.len(), |i: int| self.windows@[i]@)
    }
}

impl LayoutManager {
    /// The settings that the manager was made with.
    pub closed spec fn settings(&self) -> Settings {
        *self.settings
    }

    /// The width of the screen.
    pub closed spec fn width(&self) -> u32 {
        self.width
    }

    /// The height of the screen.
    pub closed spec fn height(&self) -> u32 {
        self.height
    }

    /// The measures that the layout is computed from.
    pub open spec fn screen(&self) -> Screen {
        Screen {
            width: self.width(),
            height: self.height(),
            bar_height: self.settings().bar().height,
            border: self.settings().layout_manager().border_width(),
            focus_color: self.settings().layout_manager().border_color(true),
            normal_color: self.settings().layout_manager().border_color(false),
        }
    }

    /// The settings are well-formed, no identity occurs twice, at most
    /// one window is focused and every window is on a tag.
    pub open spec fn wf(&self) -> bool {
        &&& self.settings().wf()
        &&& distinct_ids(self@)
        &&& at_most_one_focused(self@)
        &&& all_tagged(self@)
    }

    /// A manager without windows for a screen of the given size.
    pub fn new(settings: Arc<Settings>, width: u32, height: u32) -> (manager: LayoutManager)
        requires
            settings.wf(),
        ensures
            manager.wf(),
            manager@ == Seq::<WindowView>::empty(),
            manager.settings() == *settings,
            manager.width() == width,
            manager.height() == height,
    {
        let manager = LayoutManager { windows: Vec::new(), settings, width, height };
        assert(manager@ =~= Seq::<WindowView>::empty());
        manager
    }

    /// The number of managed windows.
    pub fn len(&self) -> (n: usize)
        ensures
            n == self@.len(),
    {
        self.windows.len()
    }

    /// The window at `index`.
    pub fn window(&self, index: usize) -> (w: &Window)
        requires
            index < self@.len(),
        ensures
            w@ == self@[index as int],
    {
        &self.windows[index]
    }

    /// The place of the window with the identity `id`.
    pub fn position(&self, id: u32) -> (at: Option<usize>)
        ensures
            match at {
                Some(i) => i < self@.len() && self@[i as int].id == id && forall|j: int|
                    0 <= j < i ==> (#[trigger] self@[j]).id != id,
                None => !holds_id(self@, id),
            },
    {
        let n = self.windows.len();
        let mut i: usize = 0;
        while i < n
            invariant
                i <= n,
                n == self@.len(),
                forall|j: int| 0 <= j < i ==> (#[trigger] self@[j]).id != id,
            decreases n - i,
        {
            if self.windows[i].window_id == id {
                return Some(i);
            }
            i += 1;
        }
        None
    }

    /// Whether the window at `index` is on one of the active tags.
    pub fn is_window_of_index_in_current_tag(&self, index: usize, current_tag: &ActiveTagSet) -> (on:
        bool)
        requires
            index < self@.len(),
        ensures
            on == intersects(self@[index as int].tags, current_tag@),
    {
        let on = current_tag.shows(&self.windows[index].tags);
        proof {
            let a = current_tag@;
            let b = self@[index as int].tags;
            if intersects(a, b) {
                let t = choose|t: u32| #[trigger] a.contains(t) && b.contains(t);
                assert(b.contains(t) && a.contains(t));
            }
            if intersects(b, a) {
                let t = choose|t: u32| #[trigger] b.contains(t) && a.contains(t);
                assert(a.contains(t) && b.contains(t));
            }
        }
        on
    }

    /// The measures that the layout is computed from.
    pub fn measures(&self) -> (s: Screen)
        requires
            self.settings().wf(),
        ensures
            s == self.screen(),
    {
        let layout_settings = self.settings.get_layout_manager_settings();
        let focus = Color::from_text(layout_settings.focus_border_color());
        let normal = Color::from_text(layout_settings.normal_border_color());
        Screen {
            width: self.width,
            height: self.height,
            bar_height: self.settings.get_bar().height,
            border: layout_settings.border(),
            focus_color: focus,
            normal_color: normal,
        }
    }

    /// Computes the layout anew from the windows, the active tags and the
    /// settings: which windows are mapped, where each of them is, and
    /// every window's border. Where the windows on display do not fit the
    /// screen, no window's place changes.
    pub fn recalc(&mut self, current_tag: &ActiveTagSet) -> (done: Result<(), LayoutError>)
        requires
            old(self).wf(),
        ensures
            final(self).wf(),
            final(self).settings() == old(self).settings(),
            final(self).width() == old(self).width(),
            final(self).height() == old(self).height(),
            done is Ok <==> layout_fits(old(self).screen(), shown_count(old(self)@, current_tag@)),
            final(self)@ == refreshed(old(self)@, old(self).screen(), current_tag@),
            done is Ok ==> final(self)@ == layout(old(self)@, old(self).screen(), current_tag@),
            done is Err ==> final(self)@ == marked_all(
                old(self)@,
                old(self).screen(),
                current_tag@,
            ),
    {
        let ghost before = self@;
        let ghost active = current_tag@;
        let s = self.measures();
        let n = self.windows.len();

        let mut on_display: Vec<bool> = Vec::new();
        let mut count: usize = 0;
        let mut i: usize = 0;
        while i < n
            invariant
                i <= n,
                n == self@.len(),
                self@ == before,
                active == current_tag@,
                on_display@.len() == i,
                forall|j: int| 0 <= j < i ==> #[trigger] on_display@[j] == shown(before[j], active),
                count == shown_before(before, active, i as int),
                count <= i,
            decreases n - i,
        {
            let on = self.is_window_of_index_in_current_tag(i, current_tag);
            on_display.push(on);
            if on {
                count += 1;
            }
            i += 1;
        }
        let fitting = fits(s, count);
        let mut rank: usize = 0;
        let mut i: usize = 0;
        while i < n
            invariant
                i <= n,
                n == before.len(),
                n == self.windows@.len(),
                before == old(self)@,
                active == current_tag@,
                s == old(self).screen(),
                self.settings == old(self).settings,
                self.width == old(self).width,
                self.height == old(self).height,
                on_display@.len() == n,
                forall|j: int| 0 <= j < n ==> #[trigger] on_display@[j] == shown(before[j], active),
                count == shown_count(before, active),
                fitting == layout_fits(s, count as nat),
                rank == shown_before(before, active, i as int),
                forall|j: int|
                    0 <= j < i ==> (#[trigger] self.windows@[j])@ == refreshed(before, s, active)[j],
                forall|j: int| i <= j < n ==> #[trigger] self.windows@[j] == old(self).windows@[j],
            decreases n - i,
        {
            proof {
                lemma_shown_before_grows(before, active, i as int + 1, n as int);
                assert(before[i as int] == self.windows@[i as int]@);
            }
            if on_display[i] {
                if fitting {
                    let g = place(s, count, rank);
                    self.windows[i].x = g.0;
                    self.windows[i].y = g.1;
                    self.windows[i].width = g.2;
                    self.windows[i].height = g.3;
                }
                self.windows[i].mapped = true;
                rank += 1;
            } else {
                self.windows[i].mapped = false;
            }
            self.windows[i].border = s.border;
            if self.windows[i].focused {
                self.windows[i].border_color = s.focus_color;
            } else {
                self.windows[i].border_color = s.normal_color;
            }
            i += 1;
        }
        proof {
            assert(self@ =~= refreshed(before, s, active));
            lemma_layout_keeps_order(before, s, active);
        }
        if fitting {
            Ok(())
        } else {
            Err(LayoutError::DoesNotFit)
        }
    }

    /// The requests that bring the display in line with the windows as
    /// the last layout left them.
    pub fn sync(&self) -> (requests: Vec<DisplayRequest>)
        ensures
            requests@ == sync_requests(self@),
    {
        let mut requests: Vec<DisplayRequest> = Vec::new();
        let n = self.windows.len();
        let mut i: usize = 0;
        while i < n
            invariant
                i <= n,
                n == self@.len(),
                requests@ == requests_upto(self@, i as int),
            decreases n - i,
        {
            let ghost so_far = requests@;
            let window = &self.windows[i];
            if window.mapped {
                requests.push(
                    DisplayRequest::MoveAndResizeWindow {
                        window: window.window_id,
                        x: window.x,
                        y: window.y,
                        width: window.width,
                        height: window.height,
                    },
                );
                requests.push(
                    DisplayRequest::SetWindowBorder {
                        window: window.window_id,
                        width: window.border,
                        color: window.border_color,
                    },
                );
                requests.push(DisplayRequest::MapWindow { window: window.window_id });
            } else {
                requests.push(DisplayRequest::UnmapWindow { window: window.window_id });
            }
            assert(requests@ =~= so_far + window_requests(self@[i as int]));
            i += 1;
        }
        requests.push(DisplayRequest::Flush);
        requests
    }

    /// The windows that are on one of `tags`, in the registry's order.
    pub fn windows_in(&self, tags: &HashSet<u32>) -> (found: Vec<&Window>)
        ensures
            found@.map_values(|w: &Window| w@) == self@.filter(
                |w: WindowView| intersects(w.tags, tags@),
            ),
    {
        let ghost on = |w: WindowView| intersects(w.tags, tags@);
        let mut found: Vec<&Window> = Vec::new();
        let n = self.windows.len();
        let mut i: usize = 0;
        proof {
            reveal(Seq::filter);
            assert(self@.take(0) =~= Seq::<WindowView>::empty());
            assert(found@.map_values(|w: &Window| w@) =~= self@.take(0).filter(on));
        }
        while i < n
            invariant
                i <= n,
                n == self@.len(),
                on == |w: WindowView| intersects(w.tags, tags@),
                found@.map_values(|w: &Window| w@) == self@.take(i as int).filter(on),
            decreases n - i,
        {
            let ghost so_far = found@.map_values(|w: &Window| w@);
            proof {
                assert(self@.take(i + 1) =~= self@.take(i as int).push(self@[i as int]));
                Seq::lemma_filter_push(self@.take(i as int), self@[i as int], on);
            }
            let window = &self.windows[i];
            if have_common_tag(&window.tags, tags) {
                found.push(window);
                assert(found@.map_values(|w: &Window| w@) =~= so_far.push(self@[i as int]));
            }
            i += 1;
        }
        proof {
            assert(self@.take(n as int) =~= self@);
        }
        found
    }

    /// Takes a window under management: on tag 0, not focused, not
    /// mapped. A window that is managed already is left as it is.
    pub fn manage(&mut self, window_id: u32)
        requires
            old(self).wf(),
        ensures
            final(self).wf(),
            final(self)@ == if holds_id(old(self)@, window_id) {
                old(self)@
            } else {
                old(self)@.push(fresh_window(window_id))
            },
            final(self).settings() == old(self).settings(),
            final(self).width() == old(self).width(),
            final(self).height() == old(self).height(),
    {
        broadcast use vstd::std_specs::hash::group_hash_axioms;

        if self.position(window_id).is_some() {
            return ;
        }
        let mut tags = HashSet::new();
        tags.insert(0);
        assert(tags@ =~= set![0u32]);
        self.windows.push(
            Window {
                window_id,
                focused: false,
                tags,
                width: 0,
                height: 0,
                x: 0,
                y: 0,
                border: 0,
                border_color: Color { r: 0, g: 0, b: 0, a: 0 },
                mapped: false,
            },
        );
        assert(self@ =~= old(self)@.push(fresh_window(window_id)));
        assert(is_tagged(fresh_window(window_id))) by {
            assert(fresh_window(window_id).tags.contains(0u32));
        }
    }

    /// Lets go of the window with the identity `window_id`. Where there is
    /// none, nothing changes.
    pub fn unmanage(&mut self, window_id: u32)
        requires
            old(self).wf(),
        ensures
            final(self).wf(),
            final(self)@ == old(self)@.filter(|w: WindowView| w.id != window_id),
            !holds_id(old(self)@, window_id) ==> final(self)@ == old(self)@,
            final(self).settings() == old(self).settings(),
            final(self).width() == old(self).width(),
            final(self).height() == old(self).height(),
    {
        let ghost before = old(self)@;
        let ghost keep = |w: WindowView| w.id != window_id;
        let ghost mut done: int = 0;
        let mut i: usize = 0;
        proof {
            reveal(Seq::filter);
            assert(before.take(0) =~= Seq::<WindowView>::empty());
            assert(before.skip(0) =~= before);
            assert(self@ =~= before.take(0).filter(keep) + before.skip(0));
        }
        while i < self.windows.len()
            invariant
                before == old(self)@,
                keep == |w: WindowView| w.id != window_id,
                0 <= done <= before.len(),
                i == before.take(done).filter(keep).len(),
                self@ == before.take(done).filter(keep) + before.skip(done),
                self.settings == old(self).settings,
                self.width == old(self).width,
                self.height == old(self).height,
            decreases before.len() - done,
        {
            proof {
                assert(self@.len() == i + (before.len() - done));
                assert(self@[i as int] == before.skip(done)[0]);
                assert(before.take(done + 1) =~= before.take(done).push(before[done]));
                Seq::lemma_filter_push(before.take(done), before[done], keep);
            }
            let ghost prev = self@;
            if self.windows[i].window_id == window_id {
                self.windows.remove(i);
                proof {
                    assert(self@ =~= prev.remove(i as int));
                    assert(!keep(before[done]));
                    assert(before.take(done + 1).filter(keep) == before.take(done).filter(keep));
                    assert(self@ =~= before.take(done + 1).filter(keep) + before.skip(done + 1));
                    done = done + 1;
                }
            } else {
                proof {
                    assert(self@ =~= before.take(done + 1).filter(keep) + before.skip(done + 1));
                    done = done + 1;
                }
                i += 1;
            }
        }
        proof {
            assert(self@.len() == i + (before.len() - done));
            assert(before.take(done) =~= before);
            assert(self@ =~= before.filter(keep));
            lemma_filter_keeps_order(before, keep);
            if !holds_id(before, window_id) {
                assert forall|k: int| 0 <= k < before.len() implies keep(#[trigger] before[k]) by {
                    assert(!has_id(before[k], window_id));
                }
                lemma_filter_all(before, keep);
            }
        }
    }

    /// Gives the focus to the window with the identity `window_id` and
    /// takes it from every other window.
    pub fn focus(&mut self, window_id: u32)
        requires
            old(self).wf(),
        ensures
            final(self).wf(),
            final(self)@ == focused_on(old(self)@, window_id),
            final(self).settings() == old(self).settings(),
            final(self).width() == old(self).width(),
            final(self).height() == old(self).height(),
    {
        let n = self.windows.len();
        let mut i: usize = 0;
        while i < n
            invariant
                i <= n,
                n == self@.len(),
                n == old(self)@.len(),
                self.settings == old(self).settings,
                self.width == old(self).width,
                self.height == old(self).height,
                forall|j: int|
                    0 <= j < i ==> (#[trigger] self.windows@[j])@ == focused_on(
                        old(self)@,
                        window_id,
                    )[j],
                forall|j: int| i <= j < n ==> #[trigger] self.windows@[j] == old(self).windows@[j],
            decreases n - i,
        {
            let hit = self.windows[i].window_id == window_id;
            self.windows[i].focused = hit;
            i += 1;
        }
        assert(self@ =~= focused_on(old(self)@, window_id));
        proof {
            lemma_focus_is_exclusive(old(self)@, window_id);
        }
    }

    /// Puts the focused window on `tag` alone.
    pub fn move_focused_window_to(&mut self, tag: u32)
        requires
            old(self).wf(),
        ensures
            final(self).wf(),
            final(self)@ == retagged(old(self)@, tag),
            final(self).settings() == old(self).settings(),
            final(self).width() == old(self).width(),
            final(self).height() == old(self).height(),
    {
        broadcast use vstd::std_specs::hash::group_hash_axioms;

        let n = self.windows.len();
        let mut i: usize = 0;
        while i < n
            invariant
                i <= n,
                n == self@.len(),
                n == old(self)@.len(),
                self.settings == old(self).settings,
                self.width == old(self).width,
                self.height == old(self).height,
                forall|j: int|
                    0 <= j < i ==> (#[trigger] self.windows@[j])@ == retagged(old(self)@, tag)[j],
                forall|j: int| i <= j < n ==> #[trigger] self.windows@[j] == old(self).windows@[j],
            decreases n - i,
        {
            if self.windows[i].focused {
                self.windows[i].tags.clear();
                self.windows[i].tags.insert(tag);
                assert(self.windows@[i as int].tags@ =~= set![tag]);
            }
            i += 1;
        }
        assert(self@ =~= retagged(old(self)@, tag));
        assert forall|j: int| 0 <= j < self@.len() implies is_tagged(#[trigger] self@[j]) by {
            if old(self)@[j].focused {
                assert(self@[j].tags.contains(tag));
            } else {
                assert(is_tagged(old(self)@[j]));
            }
        }
    }
}

} // verus!
