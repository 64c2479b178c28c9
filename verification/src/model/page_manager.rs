//! Page navigation over the viewer state: stepping, jumping and the
//! page-position caption.

use vstd::prelude::*;

use crate::model::app_state::{
    next_page_index, previous_page_index, AppState, DisplayMode,
};
use crate::text::{dec_str, u64_to_string};

verus! {

/// Where the last-page jump lands: the last page in single mode, and
/// the last even page in double mode.
pub open spec fn last_page_index(mode: DisplayMode, index: usize, total: usize) -> usize {
    if total == 0 {
        index
    } else if mode == DisplayMode::Single {
        (total - 1) as usize
    } else if total >= 2 {
        if total % 2 == 0 {
            (total - 2) as usize
        } else {
            (total - 1) as usize
        }
    } else {
        0usize
    }
}

/// Where a jump to `page` lands: unchanged when the target is out of
/// range; double mode rounds the target down to an even page.
pub open spec fn goto_page_index(mode: DisplayMode, index: usize, total: usize, page: usize) -> usize {
    if mode == DisplayMode::Single {
        if page < total {
            page
        } else {
            index
        }
    } else {
        let adjusted = if page % 2 == 0 {
            page as int
        } else {
            page - 1
        };
        if adjusted < total {
            adjusted as usize
        } else {
            index
        }
    }
}

/// The page-position caption: `page / total`, or `first-last / total`
/// for a two-page spread.
pub open spec fn page_info_spec(mode: DisplayMode, index: usize, total: usize) -> Seq<char> {
    if mode == DisplayMode::Single {
        dec_str(index + 1) + " / "@ + dec_str(total as int)
    } else {
        let end = if index + 2 < total {
            index + 2
        } else {
            total as int
        };
        if end > index + 1 {
            dec_str(index + 1) + "-"@ + dec_str(end) + " / "@ + dec_str(total as int)
        } else {
            dec_str(index + 1) + " / "@ + dec_str(total as int)
        }
    }
}

/// Stateless page navigation over an `AppState`.
pub struct PageManager;

impl PageManager {
    pub fn new() -> Self {
        Self
    }

    /// Advances one page (two in double mode), never past the end.
    pub fn next_page(state: &mut AppState)
        ensures
            *final(state) == (AppState {
                current_file_index: next_page_index(
                    old(state).display_mode,
                    old(state).current_file_index,
                    old(state).total_files,
                ),
                ..*old(state)
            }),
    {
        state.next_page();
    }

    /// Goes back one page (two in double mode), never before the front.
    pub fn previous_page(state: &mut AppState)
        ensures
            *final(state) == (AppState {
                current_file_index: previous_page_index(
                    old(state).display_mode,
                    old(state).current_file_index,
                ),
                ..*old(state)
            }),
    {
        state.previous_page();
    }

    /// Advances exactly one member.
    pub fn next_file(state: &mut AppState)
        ensures
            *final(state) == (AppState {
                current_file_index: next_page_index(
                    DisplayMode::Single,
                    old(state).current_file_index,
                    old(state).total_files,
                ),
                ..*old(state)
            }),
    {
        state.next_file();
    }

    /// Goes back exactly one member.
    pub fn previous_file(state: &mut AppState)
        ensures
            *final(state) == (AppState {
                current_file_index: previous_page_index(
                    DisplayMode::Single,
                    old(state).current_file_index,
                ),
                ..*old(state)
            }),
    {
        state.previous_file();
    }

    /// Jumps to the first page.
    pub fn goto_first_page(state: &mut AppState)
        ensures
            *final(state) == (AppState { current_file_index: 0usize, ..*old(state) }),
    {
        state.current_file_index = 0;
    }

    /// Jumps to the last page (the last even page in double mode).
    pub fn goto_last_page(state: &mut AppState)
        ensures
            *final(state) == (AppState {
                current_file_index: last_page_index(
                    old(state).display_mode,
                    old(state).current_file_index,
                    old(state).total_files,
                ),
                ..*old(state)
            }),
    {
        if state.total_files > 0 {
            match state.display_mode {
                DisplayMode::Single => {
                    state.current_file_index = state.total_files - 1;
                },
                DisplayMode::Double => {
                    if state.total_files >= 2 {
                        state.current_file_index = if state.total_files % 2 == 0 {
                            state.total_files - 2
                        } else {
                            state.total_files - 1
                        };
                    } else {
                        state.current_file_index = 0;
                    }
                },
            }
        }
    }

    /// Jumps to `page` when it is in range; double mode rounds the
    /// target down to an even page.
    pub fn goto_page(state: &mut AppState, page_number: usize)
        ensures
            *final(state) == (AppState {
                current_file_index: goto_page_index(
                    old(state).display_mode,
                    old(state).current_file_index,
                    old(state).total_files,
                    page_number,
                ),
                ..*old(state)
            }),
    {
        match state.display_mode {
            DisplayMode::Single => {
                if page_number < state.total_files {
                    state.current_file_index = page_number;
                }
            },
            DisplayMode::Double => {
                let adjusted = if page_number % 2 == 0 {
                    page_number
                } else {
                    page_number - 1
                };
                if adjusted < state.total_files {
                    state.current_file_index = adjusted;
                }
            },
        }
    }

    /// The one-based number of the current page.
    pub fn get_current_page_number(state: &AppState) -> (r: usize)
        requires
            state.current_file_index < usize::MAX,
        ensures
            r == state.current_file_index + 1,
    {
        state.current_file_index + 1
    }

    /// The number of pages the archive holds.
    pub fn get_total_pages(state: &AppState) -> (r: usize)
        ensures
            r == state.total_files,
    {
        state.total_files
    }

    /// True when a forward step would move.
    pub fn has_next_page(state: &AppState) -> (r: bool)
        ensures
            r == if state.display_mode == DisplayMode::Single {
                state.current_file_index + 1 < state.total_files
            } else {
                state.current_file_index + 2 < state.total_files
            },
    {
        match state.display_mode {
            DisplayMode::Single => state.total_files > 0 && state.current_file_index < state.total_files - 1,
            DisplayMode::Double => state.total_files > 1 && state.current_file_index < state.total_files - 2,
        }
    }

    /// True when a backward step would move.
    pub fn has_previous_page(state: &AppState) -> (r: bool)
        ensures
            r == if state.display_mode == DisplayMode::Single {
                state.current_file_index > 0
            } else {
                state.current_file_index >= 2
            },
    {
        match state.display_mode {
            DisplayMode::Single => state.current_file_index > 0,
            DisplayMode::Double => state.current_file_index >= 2,
        }
    }

    /// Switches the display mode; entering double mode aligns the
    /// position to an even page.
    pub fn set_display_mode(state: &mut AppState, mode: DisplayMode)
        ensures
            *final(state) == (AppState {
                display_mode: mode,
                current_file_index: if mode == DisplayMode::Double && old(
                    state,
                ).current_file_index % 2 != 0 && old(state).current_file_index > 0 {
                    (old(state).current_file_index - 1) as usize
                } else {
                    old(state).current_file_index
                },
                ..*old(state)
            }),
    {
        state.display_mode = mode;
        match state.display_mode {
            DisplayMode::Double => {
                if state.current_file_index % 2 != 0 && state.current_file_index > 0 {
                    state.current_file_index = state.current_file_index - 1;
                }
            },
            DisplayMode::Single => {},
        }
    }

    /// Flips the rotation setting.
    pub fn toggle_rotate_mode(state: &mut AppState)
        ensures
            *final(state) == (AppState { rotate_mode: !old(state).rotate_mode, ..*old(state) }),
    {
        state.toggle_rotate_mode();
    }

    /// Builds the page-position caption, as `page_info_spec` describes.
    pub fn get_page_info_string(state: &AppState) -> (r: String)
        requires
            state.current_file_index + 2 <= usize::MAX,
        ensures
            r@ == page_info_spec(
                state.display_mode,
                state.current_file_index,
                state.total_files,
            ),
    {
        proof {
            reveal_strlit(" / ");
            reveal_strlit("-");
        }
        let total = u64_to_string(state.total_files as u64);
        match state.display_mode {
            DisplayMode::Single => {
                let mut s = u64_to_string(state.current_file_index as u64 + 1);
                s.append(" / ");
                s.append(total.as_str());
                s
            },
            DisplayMode::Double => {
                let end = if state.current_file_index + 2 < state.total_files {
                    state.current_file_index + 2
                } else {
                    state.total_files
                };
                if end > state.current_file_index + 1 {
                    let mut s = u64_to_string(state.current_file_index as u64 + 1);
                    s.append("-");
                    let e = u64_to_string(end as u64);
                    s.append(e.as_str());
                    s.append(" / ");
                    s.append(total.as_str());
                    s
                } else {
                    let mut s = u64_to_string(state.current_file_index as u64 + 1);
                    s.append(" / ");
                    s.append(total.as_str());
                    s
                }
            },
        }
    }
}

impl Default for PageManager {
    fn default() -> Self {
        Self::new()
    }
}

} // verus!
