use vstd::prelude::*;

verus! {

/// The measures of a text in a font, as the display server reports them.
#[derive(Clone, Copy, Debug, PartialEq, Eq, Structural)]
pub struct TextExtents {
    pub overall_width: i32,
    pub font_ascent: i16,
    pub font_descent: i16,
}

} // verus!
