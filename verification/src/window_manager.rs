use crate::display::DisplayRequest;
use crate::layout_manager::tiling::lemma_parts_within_whole;
use crate::setting::Settings;
use std::collections::HashSet;
use std::sync::Arc;
use vstd::prelude::*;

verus! {

/// A window of the plain tiler: an identity, its tags and a place.
pub struct Window {
    window_id: u32,
    width: u32,
    height: u32,
    x: u32,
    y: u32,
    tags: HashSet<u32>,
}

/// What is known of a window of the plain tiler.
pub struct PlainWindow {
    pub id: u32,
    pub tags: Set<u32>,
    pub x: u32,
    pub y: u32,
    pub width: u32,
    pub height: u32,
}

impl View for Window {
    type V = PlainWindow;

    closed spec fn view(&self) -> PlainWindow {
        PlainWindow {
            id: self.window_id,
            tags: self.tags@,
            x: self.x,
            y: self.y,
            width: self.width,
            height: self.height,
        }
    }
}

impl Window {
    pub fn window_id(&self) -> (id: u32)
        ensures
            id == self@.id,
    {
        self.window_id
    }

    pub fn tags(&self) -> (tags: &HashSet<u32>)
        ensures
            tags@ == self@.tags,
    {
        &self.tags
    }

    pub fn x(&self) -> (x: u32)
        ensures
            x == self@.x,
    {
        self.x
    }

    pub fn y(&self) -> (y: u32)
        ensures
            y == self@.y,
    {
        self.y
    }

    pub fn width(&self) -> (width: u32)
        ensures
            width == self@.width,
    {
        self.width
    }

    pub fn height(&self) -> (height: u32)
        ensures
            height == self@.height,
    {
        self.height
    }
}

/// The plain tiler: it shows every window, without borders, on the whole
/// screen. A window that is alone has all of it; of several, the first
/// has the left half and the others share the right half.
pub struct WindowManager {
    windows: Vec<Window>,
    settings: Arc<Settings>,
    width: u32,
    height: u32,
}

/// A window as `manage` takes it in: on tag 0, with no place yet.
pub open spec fn new_window(id: u32) -> PlainWindow {
    PlainWindow { id, tags: set![0u32], x: 0, y: 0, width: 0, height: 0 }
}

/// The window at `index` of `n`, tiled on a screen of the given size: its
/// place is new, its identity and tags are as they were.
pub open spec fn tiled_window(w: PlainWindow, width: u32, height: u32, n: nat, index: int) -> PlainWindow
    recommends
        0 <= index < n,
{
    if n == 1 {
        PlainWindow { id: w.id, tags: w.tags, x: 0, y: 0, width, height }
    } else if index == 0 {
        PlainWindow { id: w.id, tags: w.tags, x: 0, y: 0, width: width / 2, height }
    } else {
        PlainWindow {
            id: w.id,
            tags: w.tags,
            x: width / 2,
            y: (height as int / (n - 1) * (index - 1)) as u32,
            width: width / 2,
            height: (height as int / (n - 1)) as u32,
        }
    }
}

/// The windows, tiled.
pub open spec fn tiled(ws: Seq<PlainWindow>, width: u32, height: u32) -> Seq<PlainWindow> {
    Seq::new(ws.len(), |i: int| tiled_window(ws[i], width, height, ws.len(), i))
}

/// What the display server is asked to show one window in its place.
pub open spec fn show_requests(w: PlainWindow) -> Seq<DisplayRequest> {
    seq![
        DisplayRequest::MoveAndResizeWindow {
            window: w.id,
            x: w.x,
            y: w.y,
            width: w.width,
            height: w.height,
        },
        DisplayRequest::MapWindow { window: w.id },
        DisplayRequest::SetInputFocus { window: w.id },
    ]
}

/// The requests that hide the first `upto` windows.
pub open spec fn hide_upto(ws: Seq<PlainWindow>, upto: int) -> Seq<DisplayRequest>
    decreases upto,
{
    if upto <= 0 {
        Seq::empty()
    } else {
        hide_upto(ws, upto - 1).push(DisplayRequest::UnmapWindow { window: ws[upto - 1].id })
    }
}

/// The requests that show the first `upto` windows.
pub open spec fn show_upto(ws: Seq<PlainWindow>, upto: int) -> Seq<DisplayRequest>
    decreases upto,
{
    if upto <= 0 {
        Seq::empty()
    } else {
        show_upto(ws, upto - 1) + show_requests(ws[upto - 1])
    }
}

/// The requests that bring the display in line with the windows: every
/// window is hidden, then each is put in its place and shown, and at the
/// end comes one flush.
pub open spec fn plain_sync_requests(ws: Seq<PlainWindow>) -> Seq<DisplayRequest> {
    (hide_upto(ws, ws.len() as int) + show_upto(ws, ws.len() as int)).push(DisplayRequest::Flush)
}

impl View for WindowManager {
    type V = Seq<PlainWindow>;

    closed spec fn view(&self) -> Seq<PlainWindow> {
        Seq::new(self.windows@.len(), |i: int| self.windows@[i]@)
    }
}

impl WindowManager {
    /// The width of the screen.
    pub closed spec fn width(&self) -> u32 {
        self.width
    }

    /// The height of the screen.
    pub closed spec fn height(&self) -> u32 {
        self.height
    }

    /// The settings that the tiler was made with.
    pub closed spec fn settings(&self) -> Settings {
        *self.settings
    }

    /// A tiler without windows for a screen of the given size.
    pub fn new(settings: Arc<Settings>, width: u32, height: u32) -> (manager: WindowManager)
        ensures
            manager@ == Seq::<PlainWindow>::empty(),
            manager.settings() == *settings,
            manager.width() == width,
            manager.height() == height,
    {
        let manager = WindowManager { windows: Vec::new(), settings, width, height };
        assert(manager@ =~= Seq::<PlainWindow>::empty());
        manager
    }

    /// The number of windows.
    pub fn len(&self) -> (n: usize)
        ensures
            n == self@.len(),
    {
        self.windows.len()
    }

    /// The window at `index`.
    pub fn window(&self, index: usize) -> (w: &Window)
        requires
            index < self@.len(),
        ensures
            w@ == self@[index as int],
    {
        &self.windows[index]
    }

    /// Tiles the windows anew.
    pub fn recalc(&mut self)
        ensures
            final(self)@ == tiled(old(self)@, old(self).width(), old(self).height()),
            final(self).width() == old(self).width(),
            final(self).height() == old(self).height(),
            final(self).settings() == old(self).settings(),
    {
        let n = self.windows.len();
        let mut index: usize = 0;
        while index < n
            invariant
                index <= n,
                n == self.windows@.len(),
                n == old(self)@.len(),
                self.width == old(self).width,
                self.height == old(self).height,
                self.settings == old(self).settings,
                forall|j: int|
                    0 <= j < index ==> (#[trigger] self.windows@[j])@ == tiled(
                        old(self)@,
                        self.width,
                        self.height,
                    )[j],
                forall|j: int| index <= j < n ==> #[trigger] self.windows@[j] == old(self).windows@[j],
            decreases n - index,
        {
            if n == 1 {
                self.windows[index].x = 0;
                self.windows[index].y = 0;
                self.windows[index].width = self.width;
                self.windows[index].height = self.height;
            } else if index == 0 {
                self.windows[index].x = 0;
                self.windows[index].y = 0;
                self.windows[index].width = self.width / 2;
                self.windows[index].height = self.height;
            } else {
                proof {
                    lemma_parts_within_whole(self.height as int, n - 1, index - 1);
                }
                let share: u64 = (self.height as u64) / ((n - 1) as u64);
                let above: u64 = ((index - 1) as u64) * share;
                self.windows[index].x = self.width / 2;
                self.windows[index].y = above as u32;
                self.windows[index].width = self.width / 2;
                self.windows[index].height = share as u32;
                assert(self.height as int / (n - 1) * (index - 1) == (index - 1) * (self.height as int
                    / (n - 1))) by (nonlinear_arith);
            }
            index += 1;
        }
        assert(self@ =~= tiled(old(self)@, old(self).width(), old(self).height()));
    }

    /// The requests that bring the display in line with the windows.
    pub fn sync(&self) -> (requests: Vec<DisplayRequest>)
        ensures
            requests@ == plain_sync_requests(self@),
    {
        let mut requests: Vec<DisplayRequest> = Vec::new();
        let n = self.windows.len();
        let mut i: usize = 0;
        while i < n
            invariant
                i <= n,
                n == self@.len(),
                requests@ == hide_upto(self@, i as int),
            decreases n - i,
        {
            requests.push(DisplayRequest::UnmapWindow { window: self.windows[i].window_id });
            i += 1;
        }
        let ghost hidden = requests@;
        let mut i: usize = 0;
        assert(requests@ =~= hidden + show_upto(self@, 0));
        while i < n
            invariant
                i <= n,
                n == self@.len(),
                hidden == hide_upto(self@, n as int),
                requests@ == hidden + show_upto(self@, i as int),
            decreases n - i,
        {
            let ghost so_far = requests@;
            let window = &self.windows[i];
            requests.push(
                DisplayRequest::MoveAndResizeWindow {
                    window: window.window_id,
                    x: window.x,
                    y: window.y,
                    width: window.width,
                    height: window.height,
                },
            );
            requests.push(DisplayRequest::MapWindow { window: window.window_id });
            requests.push(DisplayRequest::SetInputFocus { window: window.window_id });
            assert(requests@ =~= so_far + show_requests(self@[i as int]));
            assert(requests@ =~= hidden + show_upto(self@, i as int + 1));
            i += 1;
        }
        requests.push(DisplayRequest::Flush);
        requests
    }

    /// Takes a window under management, on tag 0, and tiles the windows
    /// anew.
    pub fn manage(&mut self, window_id: u32)
        ensures
            final(self)@ == tiled(
                old(self)@.push(new_window(window_id)),
                old(self).width(),
                old(self).height(),
            ),
            final(self)@.len() == old(self)@.len() + 1,
            final(self)@.last().id == window_id,
            final(self)@.last().tags == set![0u32],
            final(self).width() == old(self).width(),
            final(self).height() == old(self).height(),
            final(self).settings() == old(self).settings(),
    {
        broadcast use vstd::std_specs::hash::group_hash_axioms;

        let mut tags = HashSet::new();
        tags.insert(0);
        assert(tags@ =~= set![0u32]);
        self.windows.push(Window { window_id, width: 0, height: 0, x: 0, y: 0, tags });
        assert(self@ =~= old(self)@.push(new_window(window_id)));
        self.recalc();
    }
}

} // verus!
