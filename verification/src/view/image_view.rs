//! Per-image text and validity checks over the viewer state.

use vstd::prelude::*;

use crate::archive_reader::CompressionType;
use crate::model::app_state::AppState;
use crate::model::archive_manager::{decompress_member_spec, ArchiveManager};
use crate::model::image_manager::{supported_image_spec, ImageManager};
use crate::text::{dec_str, u64_to_string};

verus! {

/// The name of a compression kind, as its debug form spells it.
pub open spec fn ctype_name(c: CompressionType) -> Seq<char> {
    match c {
        CompressionType::Uncompress => "Uncompress"@,
        CompressionType::Unsupported => "Unsupported"@,
        CompressionType::Deflate => "Deflate"@,
        CompressionType::Deflate64 => "Deflate64"@,
        CompressionType::Rar5 => "Rar5"@,
        CompressionType::Rar4 => "Rar4"@,
    }
}

/// The caption shown for the member at `i`: name, uncompressed size
/// and compression kind, or a fixed notice when `i` is out of range.
pub open spec fn image_info_text_spec(st: AppState, i: usize) -> Seq<char> {
    if i < st.archive_files@.len() {
        let f = st.archive_files@[i as int];
        "ファイル: "@ + f.filename@ + "\nサイズ: "@ + dec_str(f.fsize as int) + " bytes\n圧縮: "@
            + ctype_name(f.ctype)
    } else {
        "画像情報が取得できません"@
    }
}

/// True when the member at `i` exists, has data, and decompresses to
/// bytes bearing a supported image signature.
pub open spec fn valid_image_spec(st: AppState, i: usize) -> bool {
    &&& i < st.archive_files@.len()
    &&& st.archive_files@[i as int].size != 0
    &&& st.archive_files@[i as int].fsize != 0
    &&& match decompress_member_spec(st.archive_buffer@, st.archive_files@[i as int]@) {
        Ok(d) => d.len() > 0 && supported_image_spec(d),
        Err(_) => false,
    }
}

/// Image-related views over the state.
pub struct ImageView;

impl ImageView {
    pub fn new() -> Self {
        Self
    }

    /// Builds the caption for the member at `file_index`, as
    /// `image_info_text_spec` describes.
    pub fn get_image_info_text(state: &AppState, file_index: usize) -> (r: String)
        ensures
            r@ == image_info_text_spec(*state, file_index),
    {
        proof {
            reveal_strlit("ファイル: ");
            reveal_strlit("\nサイズ: ");
            reveal_strlit(" bytes\n圧縮: ");
            reveal_strlit("画像情報が取得できません");
            reveal_strlit("Uncompress");
            reveal_strlit("Unsupported");
            reveal_strlit("Deflate");
            reveal_strlit("Deflate64");
            reveal_strlit("Rar5");
            reveal_strlit("Rar4");
        }
        match state.get_file(file_index) {
            Some(file) => {
                let mut s = "ファイル: ".to_owned();
                s.append(file.filename.as_str());
                s.append("\nサイズ: ");
                let z = u64_to_string(file.fsize);
                s.append(z.as_str());
                s.append(" bytes\n圧縮: ");
                let name: &str = match file.ctype {
                    CompressionType::Uncompress => "Uncompress",
                    CompressionType::Unsupported => "Unsupported",
                    CompressionType::Deflate => "Deflate",
                    CompressionType::Deflate64 => "Deflate64",
                    CompressionType::Rar5 => "Rar5",
                    CompressionType::Rar4 => "Rar4",
                };
                s.append(name);
                s
            },
            None => "画像情報が取得できません".to_owned(),
        }
    }

    /// True when the member at `file_index` decompresses to a
    /// supported image, as `valid_image_spec` describes.
    pub fn is_valid_image(state: &AppState, file_index: usize) -> (r: bool)
        ensures
            r == valid_image_spec(*state, file_index),
    {
        let file = match state.get_file(file_index) {
            Some(f) => f,
            None => {
                return false;
            },
        };
        if file.size == 0 || file.fsize == 0 {
            return false;
        }
        match ArchiveManager::decompress_file_data(state.archive_buffer.as_slice(), file) {
            Ok(data) => ImageManager::validate_image_data(data.as_slice()),
            Err(_) => false,
        }
    }
}

impl Default for ImageView {
    fn default() -> Self {
        Self::new()
    }
}

} // verus!
