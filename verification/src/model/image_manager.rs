//! Image-format checks over raw bytes: signature validation and format
//! detection.  Pixel decoding itself is a collaborator outside this
//! crate's core.

use vstd::prelude::*;

verus! {

/// The image containers the viewer recognizes by signature.
#[derive(Debug, Clone, Copy, PartialEq, Eq, Structural)]
pub enum ImageFormat {
    Jpeg,
    Png,
    Gif,
    Bmp,
    WebP,
    Tiff,
    Unknown,
}

/// Metadata of a decoded image.
#[derive(Debug, Clone)]
pub struct ImageInfo {
    pub width: u32,
    pub height: u32,
    pub format: ImageFormat,
}

pub open spec fn jpeg_sig(d: Seq<u8>) -> bool {
    d.len() >= 2 && d[0] == 0xff && d[1] == 0xd8
}

pub open spec fn png_sig(d: Seq<u8>) -> bool {
    d.len() >= 8 && d[0] == 0x89 && d[1] == 0x50 && d[2] == 0x4e && d[3] == 0x47 && d[4] == 0x0d
        && d[5] == 0x0a && d[6] == 0x1a && d[7] == 0x0a
}

pub open spec fn gif_sig(d: Seq<u8>) -> bool {
    d.len() >= 6 && d[0] == 0x47 && d[1] == 0x49 && d[2] == 0x46 && d[3] == 0x38 && (d[4] == 0x37
        || d[4] == 0x39) && d[5] == 0x61
}

pub open spec fn bmp_sig(d: Seq<u8>) -> bool {
    d.len() >= 2 && d[0] == 0x42 && d[1] == 0x4d
}

pub open spec fn webp_sig(d: Seq<u8>) -> bool {
    d.len() >= 12 && d[0] == 0x52 && d[1] == 0x49 && d[2] == 0x46 && d[3] == 0x46 && d[8] == 0x57
        && d[9] == 0x45 && d[10] == 0x42 && d[11] == 0x50
}

pub open spec fn tiff_le_sig(d: Seq<u8>) -> bool {
    d.len() >= 4 && d[0] == 0x49 && d[1] == 0x49 && d[2] == 0x2a && d[3] == 0x00
}

pub open spec fn tiff_be_sig(d: Seq<u8>) -> bool {
    d.len() >= 4 && d[0] == 0x4d && d[1] == 0x4d && d[2] == 0x00 && d[3] == 0x2a
}

/// True when the bytes begin with a supported image signature; buffers
/// shorter than four bytes are never accepted.
pub open spec fn supported_image_spec(d: Seq<u8>) -> bool {
    d.len() >= 4 && (jpeg_sig(d) || png_sig(d) || gif_sig(d) || bmp_sig(d) || webp_sig(d)
        || tiff_le_sig(d) || tiff_be_sig(d))
}

/// The format the leading bytes declare; TIFF is not distinguished
/// here and reports as `Unknown`.
pub open spec fn detect_format_spec(d: Seq<u8>) -> ImageFormat {
    if d.len() < 4 {
        ImageFormat::Unknown
    } else if jpeg_sig(d) {
        ImageFormat::Jpeg
    } else if png_sig(d) {
        ImageFormat::Png
    } else if gif_sig(d) {
        ImageFormat::Gif
    } else if bmp_sig(d) {
        ImageFormat::Bmp
    } else if webp_sig(d) {
        ImageFormat::WebP
    } else {
        ImageFormat::Unknown
    }
}

/// Image-format checks over raw bytes.
pub struct ImageManager;

impl ImageManager {
    pub fn new() -> Self {
        Self
    }

    /// True when the bytes look like a decodable image: nonempty and
    /// starting with a supported signature.
    pub fn validate_image_data(data: &[u8]) -> (r: bool)
        ensures
            r == (data@.len() > 0 && supported_image_spec(data@)),
    {
        if data.is_empty() {
            return false;
        }
        Self::is_supported_image_format(data)
    }

    /// True when the bytes begin with a supported image signature.
    pub fn is_supported_image_format(data: &[u8]) -> (r: bool)
        ensures
            r == supported_image_spec(data@),
    {
        let len = data.len();
        if len < 4 {
            return false;
        }
        if data[0] == 0xff && data[1] == 0xd8 {
            return true;
        }
        if len >= 8 && data[0] == 0x89 && data[1] == 0x50 && data[2] == 0x4e && data[3] == 0x47
            && data[4] == 0x0d && data[5] == 0x0a && data[6] == 0x1a && data[7] == 0x0a {
            return true;
        }
        if len >= 6 && data[0] == 0x47 && data[1] == 0x49 && data[2] == 0x46 && data[3] == 0x38 && (
        data[4] == 0x37 || data[4] == 0x39) && data[5] == 0x61 {
            return true;
        }
        if data[0] == 0x42 && data[1] == 0x4d {
            return true;
        }
        if len >= 12 && data[0] == 0x52 && data[1] == 0x49 && data[2] == 0x46 && data[3] == 0x46
            && data[8] == 0x57 && data[9] == 0x45 && data[10] == 0x42 && data[11] == 0x50 {
            return true;
        }
        if data[0] == 0x49 && data[1] == 0x49 && data[2] == 0x2a && data[3] == 0x00 {
            return true;
        }
        if data[0] == 0x4d && data[1] == 0x4d && data[2] == 0x00 && data[3] == 0x2a {
            return true;
        }
        false
    }

    /// Detects the format the leading bytes declare, as
    /// `detect_format_spec` describes.
    pub fn detect_format_from_data(data: &[u8]) -> (r: ImageFormat)
        ensures
            r == detect_format_spec(data@),
    {
        let len = data.len();
        if len < 4 {
            return ImageFormat::Unknown;
        }
        if data[0] == 0xff && data[1] == 0xd8 {
            return ImageFormat::Jpeg;
        }
        if len >= 8 && data[0] == 0x89 && data[1] == 0x50 && data[2] == 0x4e && data[3] == 0x47
            && data[4] == 0x0d && data[5] == 0x0a && data[6] == 0x1a && data[7] == 0x0a {
            return ImageFormat::Png;
        }
        if len >= 6 && data[0] == 0x47 && data[1] == 0x49 && data[2] == 0x46 && data[3] == 0x38 && (
        data[4] == 0x37 || data[4] == 0x39) && data[5] == 0x61 {
            return ImageFormat::Gif;
        }
        if data[0] == 0x42 && data[1] == 0x4d {
            return ImageFormat::Bmp;
        }
        if len >= 12 && data[0] == 0x52 && data[1] == 0x49 && data[2] == 0x46 && data[3] == 0x46
            && data[8] == 0x57 && data[9] == 0x45 && data[10] == 0x42 && data[11] == 0x50 {
            return ImageFormat::WebP;
        }
        ImageFormat::Unknown
    }
}

impl Default for ImageManager {
    fn default() -> Self {
        Self::new()
    }
}

} // verus!
