//! File-name policies: which archives the viewer opens, and which
//! members count as images.

use vstd::prelude::*;

use crate::archive_reader::MemberFile;
use crate::text::{ends_with, ext_of, extension_of, lower_seq, str_ends_with_lower,
    str_eq_ignore_case};

verus! {

/// True when the path carries one of the archive extensions the viewer
/// opens, compared up to ASCII case.
pub open spec fn supported_file_spec(p: Seq<char>) -> bool {
    match ext_of(p) {
        Some(e) => lower_seq(e) == "rar"@ || lower_seq(e) == "zip"@ || lower_seq(e) == "cbr"@
            || lower_seq(e) == "cbz"@,
        None => false,
    }
}

/// True when the lower-cased name ends in one of the image extensions
/// the viewer shows.
pub open spec fn image_file_spec(n: Seq<char>) -> bool {
    ||| ends_with(lower_seq(n), ".jpg"@)
    ||| ends_with(lower_seq(n), ".jpeg"@)
    ||| ends_with(lower_seq(n), ".png"@)
    ||| ends_with(lower_seq(n), ".gif"@)
    ||| ends_with(lower_seq(n), ".bmp"@)
    ||| ends_with(lower_seq(n), ".webp"@)
    ||| ends_with(lower_seq(n), ".tiff"@)
    ||| ends_with(lower_seq(n), ".tif"@)
    ||| ends_with(lower_seq(n), ".ico"@)
    ||| ends_with(lower_seq(n), ".svg"@)
    ||| ends_with(lower_seq(n), ".avif"@)
}

/// The members whose base name is an image file, in their original
/// order.
pub open spec fn filter_images(ms: Seq<MemberFile>) -> Seq<MemberFile>
    decreases ms.len(),
{
    if ms.len() == 0 {
        Seq::empty()
    } else if image_file_spec(ms.last().filename@) {
        filter_images(ms.drop_last()).push(ms.last())
    } else {
        filter_images(ms.drop_last())
    }
}

/// True when a file's byte size is acceptable to open: nonzero and at
/// most one gibibyte.
pub open spec fn file_size_ok(size: u64) -> bool {
    0 < size <= 0x4000_0000
}

/// File-name policies of the viewer.
pub struct FileHandler;

impl FileHandler {
    pub fn new() -> Self {
        Self
    }

    /// The size threshold applied before opening a file: accepts
    /// exactly the sizes `file_size_ok` allows, and names the reason a
    /// size is rejected.
    pub fn validate_file_size(size: u64) -> (r: Result<(), String>)
        ensures
            r is Ok <==> file_size_ok(size),
            size == 0 ==> r is Err && r->Err_0@ == "ファイルサイズが0です"@,
            size > 0x4000_0000 ==> r is Err && r->Err_0@
                == "ファイルサイズが大きすぎます（1GB制限）"@,
    {
        if size == 0 {
            Err("ファイルサイズが0です".to_owned())
        } else if size > 0x4000_0000 {
            Err("ファイルサイズが大きすぎます（1GB制限）".to_owned())
        } else {
            Ok(())
        }
    }

    /// True when the path names an archive the viewer opens.
    pub fn is_supported_file(path: &str) -> (r: bool)
        ensures
            r == supported_file_spec(path@),
    {
        proof {
            reveal_strlit("rar");
            reveal_strlit("zip");
            reveal_strlit("cbr");
            reveal_strlit("cbz");
            assert(lower_seq("rar"@) =~= "rar"@);
            assert(lower_seq("zip"@) =~= "zip"@);
            assert(lower_seq("cbr"@) =~= "cbr"@);
            assert(lower_seq("cbz"@) =~= "cbz"@);
        }
        match extension_of(path) {
            Some(e) => {
                str_eq_ignore_case(e, "rar") || str_eq_ignore_case(e, "zip") || str_eq_ignore_case(
                    e,
                    "cbr",
                ) || str_eq_ignore_case(e, "cbz")
            },
            None => false,
        }
    }

    /// True when the name carries an image extension.
    pub fn is_image_file(filename: &str) -> (r: bool)
        ensures
            r == image_file_spec(filename@),
    {
        str_ends_with_lower(filename, ".jpg") || str_ends_with_lower(filename, ".jpeg")
            || str_ends_with_lower(filename, ".png") || str_ends_with_lower(filename, ".gif")
            || str_ends_with_lower(filename, ".bmp") || str_ends_with_lower(filename, ".webp")
            || str_ends_with_lower(filename, ".tiff") || str_ends_with_lower(filename, ".tif")
            || str_ends_with_lower(filename, ".ico") || str_ends_with_lower(filename, ".svg")
            || str_ends_with_lower(filename, ".avif")
    }

    /// Keeps only the members whose base name is an image file.
    #[verifier::loop_isolation(false)]
    pub fn filter_image_files(files: Vec<MemberFile>) -> (r: Vec<MemberFile>)
        ensures
            r@ == filter_images(files@),
    {
        let ghost orig = files@;
        let mut rest = files;
        let mut out: Vec<MemberFile> = Vec::new();
        while rest.len() > 0
            invariant
                filter_images(orig) == filter_images(rest@) + out@,
            decreases rest@.len(),
        {
            let ghost before = rest@;
            let f = match rest.pop() {
                Some(x) => x,
                None => {
                    break ;
                },
            };
            let ghost fv = f;
            proof {
                assert(before.drop_last() =~= rest@);
            }
            if Self::is_image_file(f.filename.as_str()) {
                let ghost out_before = out@;
                out.insert(0, f);
                proof {
                    assert(out@ =~= seq![fv] + out_before);
                    assert(filter_images(rest@) + (seq![fv] + out_before) =~= filter_images(
                        rest@,
                    ).push(fv) + out_before);
                }
            }
        }
        proof {
            assert(filter_images(rest@) + out@ =~= out@);
        }
        out
    }

    /// Remembers a recently opened path; the viewer keeps no such list
    /// yet, so this records nothing.
    pub fn add_to_recent_files(_path: &str) {
    }
}

impl Default for FileHandler {
    fn default() -> Self {
        Self::new()
    }
}

} // verus!
