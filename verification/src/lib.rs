pub mod bar;
pub mod dispatcher;
pub mod display;
pub mod keyboard;
pub mod layout_manager;
pub mod setting;
pub mod utils;
pub mod window_manager;
