//! Application model: viewer state, page navigation, archive handling
//! and image-format checks.

pub mod app_state;
pub mod archive_manager;
pub mod image_manager;
pub mod page_manager;
