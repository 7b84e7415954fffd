pub mod color;
pub mod font;
