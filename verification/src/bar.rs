use crate::layout_manager::tags::ActiveTagSet;
use crate::setting::Settings;
use crate::utils::color::{color_of_text, Color};
use crate::utils::font::TextExtents;
use std::sync::Arc;
use vstd::prelude::*;

verus! {

/// The number of tags that the bar shows: tags 0 to 9.
pub const TAG_COUNT: u32 = 10;

/// One request to draw on the bar.
#[derive(Clone, Copy, Debug, PartialEq, Eq, Structural)]
pub enum BarRequest {
    FillRect { x: i32, y: i32, width: i32, height: i32, color: Color },
    /// Draws the number of `tag` with its baseline starting at `(x, y)`.
    DrawText { x: i32, y: i32, foreground: Color, background: Color, font: u32, tag: u32 },
}

/// The bar at the top of the screen: one cell for each tag.
pub struct Bar {
    settings: Arc<Settings>,
    width: u32,
    height: u32,
    font: u32,
}

/// What the bar's requests are computed from.
pub struct BarView {
    pub width: u32,
    pub height: u32,
    pub font: u32,
    pub cell_width: u32,
    pub font_color: Color,
    pub background_color: Color,
    pub active_font_color: Color,
    pub active_background_color: Color,
}

/// Whether the bar can be drawn at all: its measures are coordinates that
/// the display server takes.
pub open spec fn bar_in_range(bar: BarView) -> bool {
    &&& bar.width <= i32::MAX
    &&& bar.height <= i32::MAX
    &&& TAG_COUNT * bar.cell_width <= i32::MAX
}

/// The half of `sum`, rounded toward zero.
pub open spec fn half_toward_zero(sum: int) -> int {
    if sum >= 0 {
        sum / 2
    } else {
        -((-sum) / 2)
    }
}

/// How far below the middle of the bar the baseline of a label lies: half
/// of the font's height, less its descent.
pub open spec fn baseline_offset(e: TextExtents) -> int {
    half_toward_zero(e.font_ascent + e.font_descent) - e.font_descent
}

/// Whether a label can be put in a cell: it is no wider than the cell and
/// its baseline is not above the middle of the bar.
pub open spec fn label_in_range(bar: BarView, e: TextExtents) -> bool {
    &&& 0 <= e.overall_width <= bar.cell_width
    &&& 0 <= baseline_offset(e)
}

/// Where the label of `tag` starts: centred in the tag's cell.
pub open spec fn label_x(bar: BarView, tag: int, e: TextExtents) -> int {
    tag * bar.cell_width + (bar.cell_width - e.overall_width) / 2
}

/// The baseline of a label: such that the text is centred on the middle
/// of the bar.
pub open spec fn label_y(bar: BarView, e: TextExtents) -> int {
    bar.height / 2 + baseline_offset(e)
}

/// The requests for the cell of `tag`. The cell of a tag on display is
/// filled with the active background before its label is drawn.
pub open spec fn cell_requests(bar: BarView, tag: int, e: TextExtents, active: bool) -> Seq<
    BarRequest,
> {
    if active {
        seq![
            BarRequest::FillRect {
                x: (tag * bar.cell_width) as i32,
                y: 0,
                width: bar.cell_width as i32,
                height: bar.height as i32,
                color: bar.active_background_color,
            },
            BarRequest::DrawText {
                x: label_x(bar, tag, e) as i32,
                y: label_y(bar, e) as i32,
                foreground: bar.active_font_color,
                background: bar.active_background_color,
                font: bar.font,
                tag: tag as u32,
            },
        ]
    } else {
        seq![
            BarRequest::DrawText {
                x: label_x(bar, tag, e) as i32,
                y: label_y(bar, e) as i32,
                foreground: bar.font_color,
                background: bar.background_color,
                font: bar.font,
                tag: tag as u32,
            },
        ]
    }
}

/// The requests for the cells of the tags below `upto`.
pub open spec fn cells_upto(bar: BarView, extents: Seq<TextExtents>, active: Set<u32>, upto: int) -> Seq<
    BarRequest,
>
    decreases upto,
{
    if upto <= 0 {
        Seq::empty()
    } else {
        cells_upto(bar, extents, active, upto - 1) + cell_requests(
            bar,
            upto - 1,
            extents[upto - 1],
            active.contains((upto - 1) as u32),
        )
    }
}

/// The requests that draw the bar: its background, and then the cell of
/// each tag.
pub open spec fn bar_requests(bar: BarView, extents: Seq<TextExtents>, active: Set<u32>) -> Seq<
    BarRequest,
> {
    seq![
        BarRequest::FillRect {
            x: 0,
            y: 0,
            width: bar.width as i32,
            height: bar.height as i32,
            color: bar.background_color,
        },
    ] + cells_upto(bar, extents, active, TAG_COUNT as int)
}

/// Whether the bar can be drawn with these measures of its labels: there
/// is one for each tag, and each label fits.
pub open spec fn can_draw(bar: BarView, extents: Seq<TextExtents>) -> bool {
    &&& extents.len() == TAG_COUNT
    &&& bar_in_range(bar)
    &&& forall|i: int| 0 <= i < extents.len() ==> label_in_range(bar, #[trigger] extents[i])
}

impl View for Bar {
    type V = BarView;

    closed spec fn view(&self) -> BarView {
        BarView {
            width: self.width,
            height: self.height,
            font: self.font,
            cell_width: self.settings.bar().tag_cell_width,
            font_color: color_of_text(self.settings.bar().font_color@),
            background_color: color_of_text(self.settings.bar().background_color@),
            active_font_color: color_of_text(self.settings.bar().active_font_color@),
            active_background_color: color_of_text(self.settings.bar().active_background_color@),
        }
    }
}

impl Bar {
    /// The settings that the bar was made with.
    pub closed spec fn settings(&self) -> Settings {
        *self.settings
    }

    /// A bar as wide as the screen, with the height that the settings
    /// give and no font yet.
    pub fn new(settings: Arc<Settings>, width: u32) -> (bar: Bar)
        requires
            settings.wf(),
        ensures
            bar.settings() == *settings,
            bar@ == (BarView {
                width,
                height: settings.bar().height,
                font: 0,
                cell_width: settings.bar().tag_cell_width,
                font_color: color_of_text(settings.bar().font_color@),
                background_color: color_of_text(settings.bar().background_color@),
                active_font_color: color_of_text(settings.bar().active_font_color@),
                active_background_color: color_of_text(settings.bar().active_background_color@),
            }),
    {
        let bar_height = settings.get_bar().height;
        Bar { settings, width, height: bar_height, font: 0 }
    }

    /// The name of the font that the labels are drawn in.
    pub fn font_family(&self) -> (family: &str)
        ensures
            family@ == self.settings().bar().font_family@,
    {
        self.settings.get_bar().font_family.as_str()
    }

    /// The font that the labels are drawn in.
    pub fn font(&self) -> (font: u32)
        ensures
            font == self@.font,
    {
        self.font
    }

    /// Takes the font that the display server made for the bar.
    pub fn prepare(&mut self, font: u32)
        ensures
            final(self)@ == (BarView { font, ..old(self)@ }),
            final(self).settings() == old(self).settings(),
    {
        self.font = font;
    }

    /// The requests that draw the bar, given the measures of the labels
    /// of the tags 0 to 9 in the bar's font. There are none where a label
    /// is missing or does not fit.
    pub fn draw(&self, extents: &Vec<TextExtents>, current_tag: &ActiveTagSet) -> (requests: Option<
        Vec<BarRequest>,
    >)
        requires
            self.settings().wf(),
        ensures
            requests is Some <==> can_draw(self@, extents@),
            requests is Some ==> requests.unwrap()@ == bar_requests(self@, extents@, current_tag@),
    {
        let bar = self.settings.get_bar();
        let cell_width = bar.tag_cell_width;
        if extents.len() != 10 || self.width > 0x7fff_ffff || self.height > 0x7fff_ffff
            || cell_width > 0x7fff_ffff / 10 {
            return None;
        }
        let font_color = Color::from_text(bar.font_color.as_str());
        let background_color = Color::from_text(bar.background_color.as_str());
        let active_font_color = Color::from_text(bar.active_font_color.as_str());
        let active_background_color = Color::from_text(bar.active_background_color.as_str());
        let mut requests: Vec<BarRequest> = Vec::new();
        requests.push(
            BarRequest::FillRect {
                x: 0,
                y: 0,
                width: self.width as i32,
                height: self.height as i32,
                color: background_color,
            },
        );
        let ghost first = requests@;
        let mut i: u32 = 0;
        while i < 10
            invariant
                i <= 10,
                extents@.len() == 10,
                bar_in_range(self@),
                cell_width == self@.cell_width,
                font_color == self@.font_color,
                background_color == self@.background_color,
                active_font_color == self@.active_font_color,
                active_background_color == self@.active_background_color,
                forall|j: int| 0 <= j < i ==> label_in_range(self@, #[trigger] extents@[j]),
                requests@ == first + cells_upto(self@, extents@, current_tag@, i as int),
            decreases 10 - i,
        {
            let e = extents[i as usize];
            let sum: i32 = e.font_ascent as i32 + e.font_descent as i32;
            let half: i32 = if sum >= 0 {
                sum / 2
            } else {
                -((-sum) / 2)
            };
            let offset: i32 = half - e.font_descent as i32;
            assert(offset == baseline_offset(e));
            if e.overall_width < 0 || e.overall_width as u32 > cell_width || offset < 0 {
                assert(!label_in_range(self@, extents@[i as int]));
                return None;
            }
            let ghost so_far = requests@;
            assert(i * cell_width + cell_width <= 10 * cell_width) by (nonlinear_arith)
                requires
                    0 <= i <= 9,
                    0 <= cell_width,
            ;
            let left: u32 = i * cell_width;
            let x: u32 = left + (cell_width - e.overall_width as u32) / 2;
            let y: u32 = self.height / 2 + offset as u32;
            let active = current_tag.contains(i);
            if active {
                requests.push(
                    BarRequest::FillRect {
                        x: left as i32,
                        y: 0,
                        width: cell_width as i32,
                        height: self.height as i32,
                        color: active_background_color,
                    },
                );
                requests.push(
                    BarRequest::DrawText {
                        x: x as i32,
                        y: y as i32,
                        foreground: active_font_color,
                        background: active_background_color,
                        font: self.font,
                        tag: i,
                    },
                );
            } else {
                requests.push(
                    BarRequest::DrawText {
                        x: x as i32,
                        y: y as i32,
                        foreground: font_color,
                        background: background_color,
                        font: self.font,
                        tag: i,
                    },
                );
            }
            assert(requests@ =~= so_far + cell_requests(
                self@,
                i as int,
                extents@[i as int],
                current_tag@.contains(i),
            ));
            i += 1;
        }
        Some(requests)
    }
}

} // verus!
