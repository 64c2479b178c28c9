//! Controllers: message-free state transitions, file-name policies and
//! the keyboard shortcut table.

pub mod app_controller;
pub mod file_handler;
pub mod keyboard_handler;
