//! Version dispatcher: detects RAR4 versus RAR5, delegates to the
//! matching parser, and extracts member data behind one interface.

use vstd::prelude::*;

use crate::archive_reader::{
    member_views, read_slice, ArcReader, ArchiveError, ArchiveResult, CompressionType, MemberFile,
    MemberView,
};
use crate::file_checker::{find_sig_spec, find_signature, rar4_sig, rar5_sig, starts_with};
use crate::reader_rar4::{decompress_rar4_data, decompress_rar4_spec, rar4_parse, Rar4Reader};
use crate::reader_rar5::{decompress_rar5_data, decompress_rar5_spec, rar5_parse, Rar5Reader};
use crate::text::{ext_of, extension_of, lower_seq, str_eq_ignore_case};

verus! {

/// The RAR container generations this crate distinguishes.
#[derive(Debug, Clone, Copy, PartialEq, Eq, Structural)]
pub enum RarVersion {
    Rar4,
    Rar5,
    Unknown,
}

/// RAR version detection: the leading bytes are tested first (RAR5
/// before RAR4, whose magic is a prefix of RAR5's), then the whole
/// buffer is scanned for an embedded signature.
pub open spec fn detect_rar_version_spec(s: Seq<u8>) -> RarVersion {
    if starts_with(s, rar5_sig()) {
        RarVersion::Rar5
    } else if starts_with(s, rar4_sig()) {
        RarVersion::Rar4
    } else if find_sig_spec(s, rar5_sig(), 0) is Some {
        RarVersion::Rar5
    } else if find_sig_spec(s, rar4_sig(), 0) is Some {
        RarVersion::Rar4
    } else {
        RarVersion::Unknown
    }
}

/// True when the member's base name or full path equals `name` up to
/// ASCII case.
pub open spec fn name_matches(m: MemberView, name: Seq<char>) -> bool {
    lower_seq(m.filename) == lower_seq(name) || lower_seq(m.filepath) == lower_seq(name)
}

/// True when the member's base name carries `ext` (compared up to ASCII
/// case) as its extension.
pub open spec fn has_ext(m: MemberView, ext: Seq<char>) -> bool {
    match ext_of(m.filename) {
        Some(e) => lower_seq(e) == lower_seq(ext),
        None => false,
    }
}

/// The index of the first member matching `name`, if any.
pub open spec fn find_by_name_spec(ms: Seq<MemberView>, name: Seq<char>, i: int) -> Option<int>
    decreases ms.len() - i,
{
    if i < 0 || i >= ms.len() {
        None
    } else if name_matches(ms[i], name) {
        Some(i)
    } else {
        find_by_name_spec(ms, name, i + 1)
    }
}

/// The members whose extension matches `ext`, in their original order.
pub open spec fn filter_by_ext(ms: Seq<MemberFile>, ext: Seq<char>) -> Seq<MemberFile>
    decreases ms.len(),
{
    if ms.len() == 0 {
        Seq::empty()
    } else if has_ext(ms.last()@, ext) {
        filter_by_ext(ms.drop_last(), ext).push(ms.last())
    } else {
        filter_by_ext(ms.drop_last(), ext)
    }
}

/// The outcome of extracting one member: stored data is read as is, a
/// RAR-compressed member must match the archive's version and is handed
/// to that version's decoder with its default method, and anything else
/// cannot be decompressed here.
pub open spec fn extract_file_spec(s: Seq<u8>, f: MemberView, version: RarVersion) -> ArchiveResult<
    Seq<u8>,
> {
    match f.ctype {
        CompressionType::Uncompress => {
            if f.offset + f.size > s.len() {
                Err(ArchiveError::OutOfBounds {
                    offset: f.offset,
                    size: f.size,
                    buffer_len: s.len() as usize,
                })
            } else {
                Ok(s.subrange(f.offset as int, f.offset + f.size))
            }
        },
        CompressionType::Rar4 => {
            if version != RarVersion::Rar4 {
                Err(ArchiveError::CorruptedArchive)
            } else {
                decompress_rar4_spec(s, f.offset, f.size, f.fsize, 15)
            }
        },
        CompressionType::Rar5 => {
            if version != RarVersion::Rar5 {
                Err(ArchiveError::CorruptedArchive)
            } else {
                decompress_rar5_spec(s, f.offset, f.size, f.fsize, 1)
            }
        },
        _ => Err(ArchiveError::DecompressionError),
    }
}

/// Dispatches RAR parsing and extraction on the detected version.
pub struct RarHandler;

impl RarHandler {
    /// Detects the RAR generation of the buffer, as
    /// `detect_rar_version_spec` describes.
    pub fn detect_rar_version(buf: &[u8]) -> (r: RarVersion)
        ensures
            r == detect_rar_version_spec(buf@),
    {
        let rar5: [u8; 8] = [0x52, 0x61, 0x72, 0x21, 0x1a, 0x07, 0x01, 0x00];
        let rar4: [u8; 7] = [0x52, 0x61, 0x72, 0x21, 0x1a, 0x07, 0x00];
        proof {
            assert(rar5@ =~= rar5_sig());
            assert(rar4@ =~= rar4_sig());
        }
        if crate::file_checker::check_signature(buf, rar5.as_slice()) {
            return RarVersion::Rar5;
        }
        if crate::file_checker::check_signature(buf, rar4.as_slice()) {
            return RarVersion::Rar4;
        }
        let (_, found5) = find_signature(buf, rar5.as_slice());
        if found5 {
            return RarVersion::Rar5;
        }
        let (_, found4) = find_signature(buf, rar4.as_slice());
        if found4 {
            return RarVersion::Rar4;
        }
        RarVersion::Unknown
    }

    /// Detects the RAR generation and appends the matching parser's
    /// member index to `files`; a buffer with neither signature is an
    /// unsupported format.
    pub fn read_archive(buf: &[u8], files: &mut Vec<MemberFile>) -> (r: ArchiveResult<RarVersion>)
        ensures
            match detect_rar_version_spec(buf@) {
                RarVersion::Unknown => r == Err::<RarVersion, _>(ArchiveError::UnsupportedFormat)
                    && final(files)@ == old(files)@,
                RarVersion::Rar4 => match rar4_parse(buf@) {
                    Ok(ms) => r == Ok::<_, ArchiveError>(RarVersion::Rar4) && member_views(
                        final(files)@,
                    ) == member_views(old(files)@) + ms,
                    Err(e) => r == Err::<RarVersion, _>(e) && final(files)@ == old(files)@,
                },
                RarVersion::Rar5 => match rar5_parse(buf@) {
                    Ok(ms) => r == Ok::<_, ArchiveError>(RarVersion::Rar5) && member_views(
                        final(files)@,
                    ) == member_views(old(files)@) + ms,
                    Err(e) => r == Err::<RarVersion, _>(e) && final(files)@ == old(files)@,
                },
            },
    {
        let version = Self::detect_rar_version(buf);
        match version {
            RarVersion::Rar4 => {
                match Rar4Reader::read_archive(buf, files) {
                    Ok(_) => Ok(RarVersion::Rar4),
                    Err(e) => Err(e),
                }
            },
            RarVersion::Rar5 => {
                match Rar5Reader::read_archive(buf, files) {
                    Ok(_) => Ok(RarVersion::Rar5),
                    Err(e) => Err(e),
                }
            },
            RarVersion::Unknown => Err(ArchiveError::UnsupportedFormat),
        }
    }

    /// Extracts one member's data, as `extract_file_spec` describes.
    pub fn extract_file(buf: &[u8], file: &MemberFile, version: RarVersion) -> (r: ArchiveResult<
        Vec<u8>,
    >)
        ensures
            match r {
                Ok(v) => extract_file_spec(buf@, file@, version) == Ok::<Seq<u8>, ArchiveError>(
                    v@,
                ),
                Err(e) => extract_file_spec(buf@, file@, version) == Err::<Seq<u8>, ArchiveError>(
                    e,
                ),
            },
    {
        match file.ctype {
            CompressionType::Uncompress => read_slice(buf, file.offset, file.size),
            CompressionType::Rar4 => {
                if !matches!(version, RarVersion::Rar4) {
                    return Err(ArchiveError::CorruptedArchive);
                }
                decompress_rar4_data(buf, file.offset, file.size, file.fsize, 15)
            },
            CompressionType::Rar5 => {
                if !matches!(version, RarVersion::Rar5) {
                    return Err(ArchiveError::CorruptedArchive);
                }
                decompress_rar5_data(buf, file.offset, file.size, file.fsize, 1)
            },
            _ => Err(ArchiveError::DecompressionError),
        }
    }

    /// Finds the first member whose base name or path equals `name` up
    /// to ASCII case.
    pub fn find_file_by_name<'a>(files: &'a [MemberFile], name: &str) -> (r: Option<
        &'a MemberFile,
    >)
        ensures
            match r {
                Some(m) => find_by_name_spec(member_views(files@), name@, 0) is Some && *m
                    == files@[find_by_name_spec(member_views(files@), name@, 0)->Some_0],
                None => find_by_name_spec(member_views(files@), name@, 0) is None,
            },
    {
        let ghost ms = member_views(files@);
        let n = files.len();
        let mut i: usize = 0;
        while i < n
            invariant
                i <= n,
                n == files@.len(),
                ms == member_views(files@),
                find_by_name_spec(ms, name@, 0) == find_by_name_spec(ms, name@, i as int),
            decreases n - i,
        {
            let f = &files[i];
            if str_eq_ignore_case(f.filename.as_str(), name) || str_eq_ignore_case(
                f.filepath.as_str(),
                name,
            ) {
                assert(name_matches(ms[i as int], name@));
                return Some(f);
            }
            assert(!name_matches(ms[i as int], name@));
            i = i + 1;
        }
        None
    }

    /// Collects the members whose extension matches `extension` up to
    /// ASCII case, in their original order.
    pub fn find_files_by_extension<'a>(files: &'a [MemberFile], extension: &str) -> (r: Vec<
        &'a MemberFile,
    >)
        ensures
            r@.map_values(|m: &MemberFile| *m) == filter_by_ext(files@, extension@),
    {
        let n = files.len();
        let mut out: Vec<&MemberFile> = Vec::new();
        let mut i: usize = 0;
        while i < n
            invariant
                i <= n,
                n == files@.len(),
                out@.map_values(|m: &MemberFile| *m) == filter_by_ext(
                    files@.subrange(0, i as int),
                    extension@,
                ),
            decreases n - i,
        {
            let f = &files[i];
            let matches_ext = match extension_of(f.filename.as_str()) {
                Some(e) => str_eq_ignore_case(e, extension),
                None => false,
            };
            let ghost prefix = files@.subrange(0, i as int);
            let ghost prefix1 = files@.subrange(0, i + 1);
            proof {
                assert(prefix1.drop_last() =~= prefix);
                assert(prefix1.last() == files@[i as int]);
            }
            if matches_ext {
                let ghost out_before = out@;
                out.push(f);
                proof {
                    assert(out@.map_values(|m: &MemberFile| *m) =~= out_before.map_values(
                        |m: &MemberFile| *m,
                    ).push(files@[i as int]));
                }
            }
            i = i + 1;
        }
        proof {
            assert(files@.subrange(0, n as int) =~= files@);
        }
        out
    }

}

} // verus!
