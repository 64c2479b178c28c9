//! The window title the viewer shows for a given state.

use vstd::prelude::*;

use crate::model::app_state::AppState;
use crate::text::{dec_str, u64_to_string};

verus! {

/// The window title: the application name alone, or with the current
/// position when an archive is loaded.
pub open spec fn window_title_spec(st: AppState) -> Seq<char> {
    if st.archive_files@.len() != 0 {
        "Saten - 画像ビューア"@ + " - "@ + dec_str(st.current_file_index + 1) + " / "@ + dec_str(
            st.total_files as int,
        ) + " ファイル"@
    } else {
        "Saten - 画像ビューア"@
    }
}

/// Builds the viewer's text surfaces.
pub struct AppView;

impl AppView {
    pub fn new() -> Self {
        Self
    }

    /// The window title for the given state, as `window_title_spec`
    /// describes.
    pub fn window_title(state: &AppState) -> (r: String)
        requires
            state.current_file_index < usize::MAX,
        ensures
            r@ == window_title_spec(*state),
    {
        proof {
            reveal_strlit("Saten - 画像ビューア");
            reveal_strlit(" - ");
            reveal_strlit(" ファイル");
            reveal_strlit(" / ");
        }
        let base = "Saten - 画像ビューア";
        if state.has_files() {
            let mut s = base.to_owned();
            s.append(" - ");
            let p = u64_to_string(state.current_file_index as u64 + 1);
            s.append(p.as_str());
            s.append(" / ");
            let t = u64_to_string(state.total_files as u64);
            s.append(t.as_str());
            s.append(" ファイル");
            s
        } else {
            base.to_owned()
        }
    }
}

impl Default for AppView {
    fn default() -> Self {
        Self::new()
    }
}

} // verus!
