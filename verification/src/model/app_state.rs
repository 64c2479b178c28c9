//! The viewer's state: the loaded archive, its member list, and the
//! current page position and display settings.

use vstd::prelude::*;

use crate::archive_reader::MemberFile;

verus! {

/// Whether one page or a two-page spread is shown.
#[derive(Debug, Clone, Copy, PartialEq, Eq, Structural)]
pub enum DisplayMode {
    Single,
    Double,
}

impl Default for DisplayMode {
    /// The viewer starts in two-page mode.
    fn default() -> (r: Self)
        ensures
            r == DisplayMode::Double,
    {
        DisplayMode::Double
    }
}

/// The whole state one viewer window holds.
pub struct AppState {
    pub current_file_path: String,
    pub archive_files: Vec<MemberFile>,
    pub current_file_index: usize,
    pub total_files: usize,
    pub archive_buffer: Vec<u8>,
    pub display_mode: DisplayMode,
    pub rotate_mode: bool,
}

impl AppState {
    /// A fresh state: nothing loaded, first page, two-page mode, no
    /// rotation.
    pub fn new() -> (r: Self)
        ensures
            r.current_file_path@ == Seq::<char>::empty(),
            r.archive_files@ == Seq::<MemberFile>::empty(),
            r.current_file_index == 0,
            r.total_files == 0,
            r.archive_buffer@ == Seq::<u8>::empty(),
            r.display_mode == DisplayMode::Double,
            r.rotate_mode == false,
    {
        AppState {
            current_file_path: String::new(),
            archive_files: Vec::new(),
            current_file_index: 0,
            total_files: 0,
            archive_buffer: Vec::new(),
            display_mode: DisplayMode::Double,
            rotate_mode: false,
        }
    }

    /// Records the path of the loaded archive.
    pub fn set_file_path(&mut self, path: String)
        ensures
            *final(self) == (AppState { current_file_path: path, ..*old(self) }),
    {
        self.current_file_path = path;
    }

    /// Replaces the member list and rewinds to the first page.
    pub fn set_archive_files(&mut self, files: Vec<MemberFile>)
        ensures
            *final(self) == (AppState {
                archive_files: files,
                total_files: files.len() as usize,
                current_file_index: 0usize,
                ..*old(self)
            }),
    {
        self.archive_files = files;
        self.total_files = self.archive_files.len();
        self.current_file_index = 0;
    }

    /// Replaces the archive's byte buffer.
    pub fn set_archive_buffer(&mut self, buffer: Vec<u8>)
        ensures
            *final(self) == (AppState { archive_buffer: buffer, ..*old(self) }),
    {
        self.archive_buffer = buffer;
    }

    /// Moves to `index` when it is in range; out-of-range indices are
    /// ignored.
    pub fn set_current_index(&mut self, index: usize)
        ensures
            *final(self) == (AppState {
                current_file_index: if index < old(self).total_files {
                    index
                } else {
                    old(self).current_file_index
                },
                ..*old(self)
            }),
    {
        if index < self.total_files {
            self.current_file_index = index;
        }
    }

    /// Switches between single-page and two-page display.
    pub fn set_display_mode(&mut self, mode: DisplayMode)
        ensures
            *final(self) == (AppState { display_mode: mode, ..*old(self) }),
    {
        self.display_mode = mode;
    }

    /// Flips the 180-degree rotation setting.
    pub fn toggle_rotate_mode(&mut self)
        ensures
            *final(self) == (AppState { rotate_mode: !old(self).rotate_mode, ..*old(self) }),
    {
        self.rotate_mode = !self.rotate_mode;
    }

    /// Advances one page in single mode and two in double mode, never
    /// past the last page.
    pub fn next_page(&mut self)
        ensures
            *final(self) == (AppState {
                current_file_index: next_page_index(
                    old(self).display_mode,
                    old(self).current_file_index,
                    old(self).total_files,
                ),
                ..*old(self)
            }),
    {
        match self.display_mode {
            DisplayMode::Single => {
                if self.total_files > 0 && self.current_file_index < self.total_files - 1 {
                    self.current_file_index = self.current_file_index + 1;
                }
            },
            DisplayMode::Double => {
                if self.total_files > 1 && self.current_file_index < self.total_files - 2 {
                    self.current_file_index = self.current_file_index + 2;
                }
            },
        }
    }

    /// Goes back one page in single mode and two in double mode, never
    /// before the first page.
    pub fn previous_page(&mut self)
        ensures
            *final(self) == (AppState {
                current_file_index: previous_page_index(
                    old(self).display_mode,
                    old(self).current_file_index,
                ),
                ..*old(self)
            }),
    {
        match self.display_mode {
            DisplayMode::Single => {
                if self.current_file_index > 0 {
                    self.current_file_index = self.current_file_index - 1;
                }
            },
            DisplayMode::Double => {
                if self.current_file_index >= 2 {
                    self.current_file_index = self.current_file_index - 2;
                }
            },
        }
    }

    /// Advances exactly one member, never past the last.
    pub fn next_file(&mut self)
        ensures
            *final(self) == (AppState {
                current_file_index: next_page_index(
                    DisplayMode::Single,
                    old(self).current_file_index,
                    old(self).total_files,
                ),
                ..*old(self)
            }),
    {
        if self.total_files > 0 && self.current_file_index < self.total_files - 1 {
            self.current_file_index = self.current_file_index + 1;
        }
    }

    /// Goes back exactly one member, never before the first.
    pub fn previous_file(&mut self)
        ensures
            *final(self) == (AppState {
                current_file_index: previous_page_index(
                    DisplayMode::Single,
                    old(self).current_file_index,
                ),
                ..*old(self)
            }),
    {
        if self.current_file_index > 0 {
            self.current_file_index = self.current_file_index - 1;
        }
    }

    /// The member at the current index, when one exists.
    pub fn current_file(&self) -> (r: Option<&MemberFile>)
        ensures
            match r {
                Some(m) => self.current_file_index < self.archive_files@.len() && *m
                    == self.archive_files@[self.current_file_index as int],
                None => self.current_file_index >= self.archive_files@.len(),
            },
    {
        if self.current_file_index < self.archive_files.len() {
            Some(&self.archive_files[self.current_file_index])
        } else {
            None
        }
    }

    /// The member at `index`, when one exists.
    pub fn get_file(&self, index: usize) -> (r: Option<&MemberFile>)
        ensures
            match r {
                Some(m) => index < self.archive_files@.len() && *m
                    == self.archive_files@[index as int],
                None => index >= self.archive_files@.len(),
            },
    {
        if index < self.archive_files.len() {
            Some(&self.archive_files[index])
        } else {
            None
        }
    }

    /// True when a member list is loaded.
    pub fn has_files(&self) -> (r: bool)
        ensures
            r == (self.archive_files@.len() != 0),
    {
        !self.archive_files.is_empty()
    }

    /// The loaded archive's path.
    pub fn file_path_string(&self) -> (r: String)
        ensures
            r@ == self.current_file_path@,
    {
        self.current_file_path.clone()
    }

    /// Drops the loaded archive and rewinds the position; the path and
    /// display settings stay.
    pub fn reset(&mut self)
        ensures
            final(self).archive_files@ == Seq::<MemberFile>::empty(),
            final(self).archive_buffer@ == Seq::<u8>::empty(),
            final(self).current_file_index == 0,
            final(self).total_files == 0,
            final(self).current_file_path == old(self).current_file_path,
            final(self).display_mode == old(self).display_mode,
            final(self).rotate_mode == old(self).rotate_mode,
    {
        self.archive_files.clear();
        self.archive_buffer.clear();
        self.current_file_index = 0;
        self.total_files = 0;
    }
}

/// Where one forward step lands: one page ahead in single mode, two in
/// double mode, and in place when that would reach or pass `total`.
pub open spec fn next_page_index(mode: DisplayMode, index: usize, total: usize) -> usize {
    let step: usize = if mode == DisplayMode::Single {
        1usize
    } else {
        2usize
    };
    if index + step < total {
        (index + step) as usize
    } else {
        index
    }
}

/// Where one backward step lands: one page back in single mode, two in
/// double mode, and in place at the front.
pub open spec fn previous_page_index(mode: DisplayMode, index: usize) -> usize {
    if mode == DisplayMode::Single {
        if index > 0 {
            (index - 1) as usize
        } else {
            index
        }
    } else {
        if index >= 2 {
            (index - 2) as usize
        } else {
            index
        }
    }
}

} // verus!
