//! View-side text: the window title and per-image captions.  Widget
//! construction and rendering live outside this crate's core.

pub mod app_view;
pub mod image_view;
