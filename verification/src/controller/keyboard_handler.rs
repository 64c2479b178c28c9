//! The keyboard shortcut table.  Translating window-system key events
//! into these actions happens outside this crate's core; the
//! navigation they trigger lives in the page manager.

use vstd::prelude::*;

verus! {

/// One keyboard shortcut: the key chord and what it does.
#[derive(Debug, Clone)]
pub struct KeyboardShortcut {
    pub key: String,
    pub description: String,
}

impl KeyboardShortcut {
    pub fn new(key: &str, description: &str) -> (r: Self)
        ensures
            r.key@ == key@,
            r.description@ == description@,
    {
        KeyboardShortcut { key: key.to_owned(), description: description.to_owned() }
    }
}

/// The key chords and descriptions of a shortcut list.
pub open spec fn shortcut_views(s: Seq<KeyboardShortcut>) -> Seq<(Seq<char>, Seq<char>)> {
    s.map_values(|k: KeyboardShortcut| (k.key@, k.description@))
}

/// The fixed shortcut table of the viewer; the arrow keys lead the
/// list, in right-to-left reading order.
pub open spec fn shortcut_table() -> Seq<(Seq<char>, Seq<char>)> {
    seq![
        ("←"@, "次のページ"@),
        ("→"@, "前のページ"@),
        ("↑"@, "前のファイル"@),
        ("↓"@, "次のファイル"@),
        ("1"@, "シングルページモード"@),
        ("2"@, "ダブルページモード"@),
        ("R"@, "回転モード切り替え"@),
        ("Home"@, "最初のページ"@),
        ("End"@, "最後のページ"@),
        ("Page Up"@, "前のページ"@),
        ("Page Down"@, "次のページ"@),
        ("Space"@, "次のページ"@),
        ("Backspace"@, "前のページ"@),
        ("Shift + ←"@, "10ページ戻る"@),
        ("Shift + →"@, "10ページ進む"@),
        ("Ctrl + R"@, "リセット"@),
    ]
}

/// The keyboard shortcut table of the viewer.
pub struct KeyboardHandler;

impl KeyboardHandler {
    pub fn new() -> Self {
        Self
    }

    /// Builds exactly the fixed shortcut table.
    pub fn get_keyboard_shortcuts() -> (r: Vec<KeyboardShortcut>)
        ensures
            shortcut_views(r@) == shortcut_table(),
            r@.len() == 16,
            r@[0].key@ == "←"@,
    {
        let mut shortcuts: Vec<KeyboardShortcut> = Vec::new();
        shortcuts.push(KeyboardShortcut::new("←", "次のページ"));
        shortcuts.push(KeyboardShortcut::new("→", "前のページ"));
        shortcuts.push(KeyboardShortcut::new("↑", "前のファイル"));
        shortcuts.push(KeyboardShortcut::new("↓", "次のファイル"));
        shortcuts.push(KeyboardShortcut::new("1", "シングルページモード"));
        shortcuts.push(KeyboardShortcut::new("2", "ダブルページモード"));
        shortcuts.push(KeyboardShortcut::new("R", "回転モード切り替え"));
        shortcuts.push(KeyboardShortcut::new("Home", "最初のページ"));
        shortcuts.push(KeyboardShortcut::new("End", "最後のページ"));
        shortcuts.push(KeyboardShortcut::new("Page Up", "前のページ"));
        shortcuts.push(KeyboardShortcut::new("Page Down", "次のページ"));
        shortcuts.push(KeyboardShortcut::new("Space", "次のページ"));
        shortcuts.push(KeyboardShortcut::new("Backspace", "前のページ"));
        shortcuts.push(KeyboardShortcut::new("Shift + ←", "10ページ戻る"));
        shortcuts.push(KeyboardShortcut::new("Shift + →", "10ページ進む"));
        shortcuts.push(KeyboardShortcut::new("Ctrl + R", "リセット"));
        proof {
            assert(shortcut_views(shortcuts@) =~= shortcut_table());
        }
        shortcuts
    }
}

impl Default for KeyboardHandler {
    fn default() -> Self {
        Self::new()
    }
}

} // verus!
