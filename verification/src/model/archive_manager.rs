//! Archive handling: parsing a buffer into a sorted member index, and
//! decompressing one member's data.

use vstd::prelude::*;

use crate::archive_reader::{
    member_views, read_slice, ArcReader, ArchiveError, ArchiveResult, CompressionType, MemberFile,
    MemberView,
};
use crate::compress_deflate::{uncomp_deflate, uncomp_deflate_spec};
use crate::file_checker::{check_file_type, file_type_spec, FileType};
use crate::reader_rar4::{rar4_parse, Rar4Reader};
use crate::reader_rar5::{rar5_parse, Rar5Reader};
use crate::reader_zip::{zip_parse, ZipReader};
use crate::sort_filename::{member_le, sort_filename};

verus! {

/// The member index a buffer parses to, before sorting: the format is
/// detected by signature and the matching parser runs; a buffer with no
/// recognized signature is an unsupported format.
pub open spec fn parse_members(s: Seq<u8>) -> ArchiveResult<Seq<MemberView>> {
    match file_type_spec(s) {
        Err(e) => Err(e),
        Ok(FileType::Rar5) => rar5_parse(s),
        Ok(FileType::Rar4) => rar4_parse(s),
        Ok(FileType::Zip) => zip_parse(s),
        Ok(FileType::Unsupported) => Err(ArchiveError::UnsupportedFormat),
    }
}

/// The outcome of decompressing one member: stored data is read as is,
/// Deflate and Deflate64 go through the raw-Deflate decoder, and the
/// RAR methods are not supported here.
pub open spec fn decompress_member_spec(s: Seq<u8>, f: MemberView) -> ArchiveResult<Seq<u8>> {
    match f.ctype {
        CompressionType::Uncompress => {
            if f.offset + f.size > s.len() {
                Err(ArchiveError::OutOfBounds {
                    offset: f.offset,
                    size: f.size,
                    buffer_len: s.len() as usize,
                })
            } else {
                Ok(s.subrange(f.offset as int, f.offset + f.size))
            }
        },
        CompressionType::Deflate => uncomp_deflate_spec(s, f.offset, f.size),
        CompressionType::Deflate64 => uncomp_deflate_spec(s, f.offset, f.size),
        _ => Err(ArchiveError::DecompressionError),
    }
}

/// Parsing and extraction over an in-memory archive buffer.
pub struct ArchiveManager;

impl ArchiveManager {
    pub fn new() -> Self {
        Self
    }

    /// Parses the buffer into its member index and sorts it into
    /// natural path order.  On success the returned records are
    /// exactly the parsed ones, reordered; a structural failure
    /// returns the parser's single terminal error.
    pub fn process_archive(buffer: &[u8]) -> (r: ArchiveResult<Vec<MemberFile>>)
        ensures
            match r {
                Ok(v) => parse_members(buffer@) is Ok && member_views(v@).to_multiset()
                    == parse_members(buffer@)->Ok_0.to_multiset() && (forall|p: int, q: int|
                    0 <= p < q < v@.len() ==> member_le(#[trigger] v@[p], #[trigger] v@[q])),
                Err(e) => parse_members(buffer@) == Err::<Seq<MemberView>, _>(e),
            },
    {
        let file_type = match check_file_type(buffer) {
            Ok(t) => t,
            Err(e) => {
                return Err(e);
            },
        };
        let mut files: Vec<MemberFile> = Vec::new();
        match file_type {
            FileType::Rar5 => {
                match Rar5Reader::read_archive(buffer, &mut files) {
                    Ok(_) => {},
                    Err(e) => {
                        return Err(e);
                    },
                }
            },
            FileType::Rar4 => {
                match Rar4Reader::read_archive(buffer, &mut files) {
                    Ok(_) => {},
                    Err(e) => {
                        return Err(e);
                    },
                }
            },
            FileType::Zip => {
                match ZipReader::read_archive(buffer, &mut files) {
                    Ok(_) => {},
                    Err(e) => {
                        return Err(e);
                    },
                }
            },
            FileType::Unsupported => {
                return Err(ArchiveError::UnsupportedFormat);
            },
        }
        proof {
            assert(Seq::<MemberView>::empty() + parse_members(buffer@)->Ok_0 =~= parse_members(
                buffer@,
            )->Ok_0);
        }
        sort_filename(&mut files);
        Ok(files)
    }

    /// Decompresses one member's data, as `decompress_member_spec`
    /// describes.
    pub fn decompress_file_data(buffer: &[u8], file: &MemberFile) -> (r: ArchiveResult<Vec<u8>>)
        ensures
            match r {
                Ok(v) => decompress_member_spec(buffer@, file@) == Ok::<Seq<u8>, ArchiveError>(v@),
                Err(e) => decompress_member_spec(buffer@, file@) == Err::<Seq<u8>, ArchiveError>(
                    e,
                ),
            },
    {
        match file.ctype {
            CompressionType::Uncompress => read_slice(buffer, file.offset, file.size),
            CompressionType::Deflate | CompressionType::Deflate64 => uncomp_deflate(
                buffer,
                file.offset,
                file.size,
            ),
            CompressionType::Rar5 | CompressionType::Rar4 => Err(
                ArchiveError::DecompressionError,
            ),
            CompressionType::Unsupported => Err(ArchiveError::DecompressionError),
        }
    }

    /// True when a member record is plausible: a nonempty path and a
    /// nonzero stored size.
    pub fn validate_file_info(file: &MemberFile) -> (r: bool)
        ensures
            r == (file.filepath@.len() != 0 && file.size > 0),
    {
        file.filepath.as_str().unicode_len() != 0 && file.size > 0
    }

    /// True for the compression kinds this crate can decompress.
    pub fn is_supported_compression(compression_type: &CompressionType) -> (r: bool)
        ensures
            r == (compression_type is Uncompress || compression_type is Deflate
                || compression_type is Deflate64),
    {
        matches!(
            compression_type,
            CompressionType::Uncompress | CompressionType::Deflate | CompressionType::Deflate64
        )
    }

    /// The number of members in the index.
    pub fn get_file_count(files: &[MemberFile]) -> (r: usize)
        ensures
            r == files@.len(),
    {
        files.len()
    }

    /// True when `index` denotes a member of the index.
    pub fn is_valid_index(files: &[MemberFile], index: usize) -> (r: bool)
        ensures
            r == (index < files@.len()),
    {
        index < files.len()
    }
}

impl Default for ArchiveManager {
    fn default() -> Self {
        Self::new()
    }
}

} // verus!
