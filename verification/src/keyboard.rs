pub mod binding;
pub mod keymod;
