//! The application controller: the state transitions the event loop
//! triggers.  Event plumbing itself lives outside this crate's core.

use vstd::prelude::*;

use crate::model::app_state::{next_page_index, previous_page_index, AppState, DisplayMode};
use crate::model::page_manager::{goto_page_index, last_page_index, PageManager};

verus! {

/// State transitions behind the viewer's messages.
pub struct AppController;

impl AppController {
    pub fn new() -> Self {
        Self
    }

    /// Switches the display mode, aligning double mode to an even page.
    pub fn set_display_mode(state: &mut AppState, mode: DisplayMode)
        ensures
            *final(state) == (AppState {
                display_mode: mode,
                current_file_index: if mode == DisplayMode::Double && old(
                    state,
                ).current_file_index % 2 != 0 && old(state).current_file_index > 0 {
                    (old(state).current_file_index - 1) as usize
                } else {
                    old(state).current_file_index
                },
                ..*old(state)
            }),
    {
        PageManager::set_display_mode(state, mode);
    }

    /// Flips the rotation setting.
    pub fn toggle_rotate_mode(state: &mut AppState)
        ensures
            *final(state) == (AppState { rotate_mode: !old(state).rotate_mode, ..*old(state) }),
    {
        PageManager::toggle_rotate_mode(state);
    }

    /// Advances one page (two in double mode).
    pub fn next_page(state: &mut AppState)
        ensures
            *final(state) == (AppState {
                current_file_index: next_page_index(
                    old(state).display_mode,
                    old(state).current_file_index,
                    old(state).total_files,
                ),
                ..*old(state)
            }),
    {
        PageManager::next_page(state);
    }

    /// Goes back one page (two in double mode).
    pub fn previous_page(state: &mut AppState)
        ensures
            *final(state) == (AppState {
                current_file_index: previous_page_index(
                    old(state).display_mode,
                    old(state).current_file_index,
                ),
                ..*old(state)
            }),
    {
        PageManager::previous_page(state);
    }

    /// Advances exactly one member.
    pub fn next_file(state: &mut AppState)
        ensures
            *final(state) == (AppState {
                current_file_index: next_page_index(
                    DisplayMode::Single,
                    old(state).current_file_index,
                    old(state).total_files,
                ),
                ..*old(state)
            }),
    {
        PageManager::next_file(state);
    }

    /// Goes back exactly one member.
    pub fn previous_file(state: &mut AppState)
        ensures
            *final(state) == (AppState {
                current_file_index: previous_page_index(
                    DisplayMode::Single,
                    old(state).current_file_index,
                ),
                ..*old(state)
            }),
    {
        PageManager::previous_file(state);
    }

    /// Jumps to the first page.
    pub fn goto_first_page(state: &mut AppState)
        ensures
            *final(state) == (AppState { current_file_index: 0usize, ..*old(state) }),
    {
        PageManager::goto_first_page(state);
    }

    /// Jumps to the last page (the last even page in double mode).
    pub fn goto_last_page(state: &mut AppState)
        ensures
            *final(state) == (AppState {
                current_file_index: last_page_index(
                    old(state).display_mode,
                    old(state).current_file_index,
                    old(state).total_files,
                ),
                ..*old(state)
            }),
    {
        PageManager::goto_last_page(state);
    }

    /// Jumps to `page` when it is in range.
    pub fn goto_page(state: &mut AppState, page: usize)
        ensures
            *final(state) == (AppState {
                current_file_index: goto_page_index(
                    old(state).display_mode,
                    old(state).current_file_index,
                    old(state).total_files,
                    page,
                ),
                ..*old(state)
            }),
    {
        PageManager::goto_page(state, page);
    }

    /// Drops the loaded archive and rewinds the position.
    pub fn reset_application(state: &mut AppState)
        ensures
            final(state).archive_files@ == Seq::<crate::archive_reader::MemberFile>::empty(),
            final(state).archive_buffer@ == Seq::<u8>::empty(),
            final(state).current_file_index == 0,
            final(state).total_files == 0,
            final(state).current_file_path == old(state).current_file_path,
            final(state).display_mode == old(state).display_mode,
            final(state).rotate_mode == old(state).rotate_mode,
    {
        state.reset();
    }

    /// Final cleanup on exit; the state needs none.
    pub fn shutdown(_state: &AppState) {
    }
}

impl Default for AppController {
    fn default() -> Self {
        Self::new()
    }
}

} // verus!
