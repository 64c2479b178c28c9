//! RAR5 parser: walks typed blocks whose sizes, types and fields are
//! vint-encoded, and collects the member index.

use vstd::prelude::*;
use vstd::utf8::{decode_utf8, valid_utf8};

use crate::archive_reader::{
    lemma_member_views_add, member_views, oob, opt_member_view, read_slice, ArcReader,
    ArchiveError, ArchiveResult, CompressionType, MemberFile, MemberView,
};
use crate::compress_deflate::{inflate_bytes, inflate_of};
use crate::file_checker::{find_sig_spec, find_signature, lemma_find_sig_bounds, rar5_sig};
use crate::primitives::{read_u32_le, read_vint, vint_result};
use crate::text::{base_name, base_name_spec, bytes_to_latin1, bytes_to_utf8, latin1_chars};

verus! {

broadcast use crate::primitives::lemma_vint_ok_bounds;

/// The characters of a RAR5 member name: UTF-8 when valid, with a
/// windows-1252 fallback that always succeeds.
pub open spec fn rar5_name_chars(b: Seq<u8>) -> Seq<char> {
    if valid_utf8(b) {
        decode_utf8(b)
    } else {
        latin1_chars(b)
    }
}

/// The compression kind a RAR5 method field denotes.
pub open spec fn rar5_method_ctype(m: u64) -> CompressionType {
    if m == 0 {
        CompressionType::Uncompress
    } else if 1 <= m <= 5 {
        CompressionType::Rar5
    } else {
        CompressionType::Unsupported
    }
}

/// The vint-encoded type of the block at `pos` (after its four CRC
/// bytes and its vint-encoded size).
pub open spec fn rar5_header_type(s: Seq<u8>, pos: int) -> ArchiveResult<u64> {
    if pos + 6 > s.len() {
        Err(oob(s, pos, 6))
    } else {
        match vint_result(s, pos + 4) {
            Err(e) => Err(e),
            Ok((hsize, l1)) => match vint_result(s, pos + 4 + l1) {
                Err(e) => Err(e),
                Ok((htype, _)) => Ok(htype),
            },
        }
    }
}

/// The declared total length of the block at `pos`: four CRC bytes, the
/// size vint, and the size it declares.
pub open spec fn rar5_header_size(s: Seq<u8>, pos: int) -> ArchiveResult<int> {
    if pos + 6 > s.len() {
        Err(oob(s, pos, 6))
    } else {
        match vint_result(s, pos + 4) {
            Err(e) => Err(e),
            Ok((hsize, l1)) => Ok(4 + l1 + hsize),
        }
    }
}

/// The main archive header at `pos`: its fields are read and checked,
/// and its declared total length is the walk's next step.
pub open spec fn rar5_main_header(s: Seq<u8>, pos: int) -> ArchiveResult<int> {
    match vint_result(s, pos + 4) {
        Err(e) => Err(e),
        Ok((hsize, l1)) => {
            let header_len = 4 + l1 + hsize;
            match vint_result(s, pos + 4 + l1) {
                Err(e) => Err(e),
                Ok((htype, l2)) => {
                    if htype != 1 {
                        Err(ArchiveError::CorruptedArchive)
                    } else {
                        let p1 = pos + 4 + l1 + l2;
                        match vint_result(s, p1) {
                            Err(e) => Err(e),
                            Ok((hflag, l3)) => {
                                let p2 = p1 + l3;
                                match (if hflag & 0x01 != 0 {
                                    vint_result(s, p2)
                                } else {
                                    Ok((0u64, 0u8))
                                }) {
                                    Err(e) => Err(e),
                                    Ok((_, l4)) => {
                                        let p3 = p2 + l4;
                                        match vint_result(s, p3) {
                                            Err(e) => Err(e),
                                            Ok((aflag, l5)) => {
                                                let p4 = p3 + l5;
                                                match (if aflag & 0x02 != 0 {
                                                    vint_result(s, p4)
                                                } else {
                                                    Ok((0u64, 0u8))
                                                }) {
                                                    Err(e) => Err(e),
                                                    Ok(_) => Ok(header_len),
                                                }
                                            },
                                        }
                                    },
                                }
                            },
                        }
                    }
                },
            }
        },
    }
}

/// One RAR5 file header at `pos`: the member it describes, or `None`
/// for a directory or data-less entry, and the position right after its
/// data area.
pub open spec fn rar5_file_header(s: Seq<u8>, pos: int) -> ArchiveResult<
    (Option<MemberView>, int),
> {
    match vint_result(s, pos + 4) {
        Err(e) => Err(e),
        Ok((hsize, l1)) => match vint_result(s, pos + 4 + l1) {
            Err(e) => Err(e),
            Ok((htype, l2)) => {
                if htype != 2 {
                    Err(ArchiveError::CorruptedArchive)
                } else {
                    let p1 = pos + 4 + l1 + l2;
                    match vint_result(s, p1) {
                        Err(e) => Err(e),
                        Ok((hflag, l3)) => {
                            let has_extra = hflag & 0x01 != 0;
                            let has_data = hflag & 0x02 != 0;
                            let p2 = p1 + l3;
                            match (if has_extra {
                                vint_result(s, p2)
                            } else {
                                Ok((0u64, 0u8))
                            }) {
                                Err(e) => Err(e),
                                Ok((extra_size, l4)) => {
                                    let p3 = p2 + l4;
                                    match (if has_data {
                                        vint_result(s, p3)
                                    } else {
                                        Ok((0u64, 0u8))
                                    }) {
                                        Err(e) => Err(e),
                                        Ok((data_size, l5)) => {
                                            let p4 = p3 + l5;
                                            match vint_result(s, p4) {
                                                Err(e) => Err(e),
                                                Ok((fflag, l6)) => rar5_file_header_rest(
                                                    s,
                                                    pos,
                                                    p4 + l6,
                                                    has_extra,
                                                    has_data,
                                                    extra_size,
                                                    data_size,
                                                    fflag,
                                                ),
                                            }
                                        },
                                    }
                                },
                            }
                        },
                    }
                }
            },
        },
    }
}

/// The tail of a RAR5 file header, from the unpacked-size field on.
pub open spec fn rar5_file_header_rest(
    s: Seq<u8>,
    pos: int,
    p: int,
    has_extra: bool,
    has_data: bool,
    extra_size: u64,
    data_size: u64,
    fflag: u64,
) -> ArchiveResult<(Option<MemberView>, int)> {
    let is_dir = fflag & 0x01 != 0;
    let has_unix_time = fflag & 0x02 != 0;
    let has_crc32 = fflag & 0x04 != 0;
    match vint_result(s, p) {
        Err(e) => Err(e),
        Ok((file_size, l7)) => {
            let p1 = p + l7;
            match vint_result(s, p1) {
                Err(e) => Err(e),
                Ok((_, l8)) => {
                    let p2 = p1 + l8;
                    let p3 = if has_unix_time {
                        p2 + 4
                    } else {
                        p2
                    };
                    if has_unix_time && p2 + 4 > s.len() {
                        Err(oob(s, p2, 4))
                    } else {
                        let p4 = if has_crc32 {
                            p3 + 4
                        } else {
                            p3
                        };
                        if has_crc32 && p3 + 4 > s.len() {
                            Err(oob(s, p3, 4))
                        } else {
                            match vint_result(s, p4) {
                                Err(e) => Err(e),
                                Ok((comp_info, l9)) => {
                                    let comp_method = (comp_info & 0x0380) >> 7u64;
                                    let p5 = p4 + l9;
                                    match vint_result(s, p5) {
                                        Err(e) => Err(e),
                                        Ok((_, l10)) => {
                                            let p6 = p5 + l10;
                                            match vint_result(s, p6) {
                                                Err(e) => Err(e),
                                                Ok((name_len, l11)) => {
                                                    let p7 = p6 + l11;
                                                    if p7 + name_len > s.len() {
                                                        Err(oob(s, p7, name_len as int))
                                                    } else {
                                                        let name = rar5_name_chars(
                                                            s.subrange(p7, p7 + name_len),
                                                        );
                                                        let p8 = p7 + name_len;
                                                        if has_extra && p8 + extra_size > s.len() {
                                                            Err(oob(s, p8, extra_size as int))
                                                        } else {
                                                            let data_offset = if has_extra {
                                                                p8 + extra_size
                                                            } else {
                                                                p8
                                                            };
                                                            let next0 = if has_data {
                                                                data_offset + data_size
                                                            } else {
                                                                data_offset
                                                            };
                                                            let next = if next0 > s.len() {
                                                                s.len() as int
                                                            } else {
                                                                next0
                                                            };
                                                            let ctype = rar5_method_ctype(
                                                                comp_method,
                                                            );
                                                            let m = if has_data && !is_dir {
                                                                Some(
                                                                    MemberView {
                                                                        filepath: name,
                                                                        filename: base_name_spec(
                                                                            name,
                                                                        ),
                                                                        offset: data_offset as u64,
                                                                        size: data_size,
                                                                        fsize: file_size,
                                                                        ctype,
                                                                    },
                                                                )
                                                            } else {
                                                                None
                                                            };
                                                            Ok((m, next))
                                                        }
                                                    }
                                                },
                                            }
                                        },
                                    }
                                },
                            }
                        }
                    }
                },
            }
        },
    }
}

/// One RAR5 service header at `pos`: its declared length plus its data
/// area is the walk's next step.
pub open spec fn rar5_service_header(s: Seq<u8>, pos: int) -> ArchiveResult<int> {
    match vint_result(s, pos + 4) {
        Err(e) => Err(e),
        Ok((hsize, l1)) => {
            let header_len = 4 + l1 + hsize;
            match vint_result(s, pos + 4 + l1) {
                Err(e) => Err(e),
                Ok((htype, l2)) => {
                    if htype != 3 {
                        Err(ArchiveError::CorruptedArchive)
                    } else {
                        let p1 = pos + 4 + l1 + l2;
                        match vint_result(s, p1) {
                            Err(e) => Err(e),
                            Ok((hflag, l3)) => {
                                let has_extra = hflag & 0x01 != 0;
                                let has_data = hflag & 0x02 != 0;
                                let p2 = p1 + l3;
                                match (if has_extra {
                                    vint_result(s, p2)
                                } else {
                                    Ok((0u64, 0u8))
                                }) {
                                    Err(e) => Err(e),
                                    Ok((_, l4)) => {
                                        let p3 = p2 + l4;
                                        match (if has_data {
                                            vint_result(s, p3)
                                        } else {
                                            Ok((0u64, 0u8))
                                        }) {
                                            Err(e) => Err(e),
                                            Ok((data_size, _)) => {
                                                if has_data {
                                                    Ok(header_len + data_size)
                                                } else {
                                                    Ok(header_len)
                                                }
                                            },
                                        }
                                    },
                                }
                            },
                        }
                    }
                },
            }
        },
    }
}

/// The members described by the RAR5 block chain starting at `pos`.
/// The walk ends at buffer exhaustion, at an end-of-archive block, or
/// when no further header can be read; unknown block types are skipped
/// by their declared size.
pub open spec fn rar5_walk(s: Seq<u8>, pos: int) -> ArchiveResult<Seq<MemberView>>
    recommends
        0 <= pos <= s.len(),
    decreases s.len() - pos,
{
    if pos >= s.len() {
        Ok(Seq::empty())
    } else {
        match rar5_header_type(s, pos) {
            Err(_) => Ok(Seq::empty()),
            Ok(t) => {
                if t == 2 {
                    match rar5_file_header(s, pos) {
                        Err(e) => Err(e),
                        Ok((m, next0)) => {
                            let next = if next0 <= pos {
                                pos + 1
                            } else if next0 > s.len() {
                                s.len() as int
                            } else {
                                next0
                            };
                            match rar5_walk(s, next) {
                                Err(e) => Err(e),
                                Ok(rest) => Ok(
                                    match m {
                                        Some(mv) => seq![mv] + rest,
                                        None => rest,
                                    },
                                ),
                            }
                        },
                    }
                } else if t == 3 {
                    match rar5_service_header(s, pos) {
                        Err(e) => Err(e),
                        Ok(hlen) => {
                            let next0 = pos + hlen;
                            let next = if next0 <= pos {
                                pos + 1
                            } else if next0 > s.len() {
                                s.len() as int
                            } else {
                                next0
                            };
                            rar5_walk(s, next)
                        },
                    }
                } else if t == 5 {
                    Ok(Seq::empty())
                } else {
                    match rar5_header_size(s, pos) {
                        Err(e) => Err(e),
                        Ok(hlen) => {
                            let next0 = pos + hlen;
                            let next = if next0 <= pos {
                                pos + 1
                            } else if next0 > s.len() {
                                s.len() as int
                            } else {
                                next0
                            };
                            rar5_walk(s, next)
                        },
                    }
                }
            },
        }
    }
}

/// The full RAR5 parse: the walk starts just past the first occurrence
/// of the RAR5 signature, after the main archive header is read and
/// checked; a buffer without the signature is a corrupted archive.
pub open spec fn rar5_parse(s: Seq<u8>) -> ArchiveResult<Seq<MemberView>> {
    match find_sig_spec(s, rar5_sig(), 0) {
        None => Err(ArchiveError::CorruptedArchive),
        Some(p) => {
            let pos = p + rar5_sig().len();
            match rar5_header_type(s, pos) {
                Err(e) => Err(e),
                Ok(t) => {
                    if t != 1 {
                        Err(ArchiveError::CorruptedArchive)
                    } else {
                        match rar5_main_header(s, pos) {
                            Err(e) => Err(e),
                            Ok(hlen) => {
                                let next0 = pos + hlen;
                                let next = if next0 <= pos {
                                    pos + 1
                                } else if next0 > s.len() {
                                    s.len() as int
                                } else {
                                    next0
                                };
                                rar5_walk(s, next)
                            },
                        }
                    }
                },
            }
        },
    }
}

/// Scans the buffer for the RAR5 signature; returns the position of the
/// first occurrence and whether one was found.
pub fn check_rarsign(data: &[u8]) -> (r: (usize, bool))
    ensures
        r == match find_sig_spec(data@, rar5_sig(), 0) {
            Some(p) => (p as usize, true),
            None => (0usize, false),
        },
{
    let sig: [u8; 8] = [0x52, 0x61, 0x72, 0x21, 0x1a, 0x07, 0x01, 0x00];
    proof {
        assert(sig@ =~= rar5_sig());
    }
    find_signature(data, sig.as_slice())
}

/// Reads the vint-encoded type of the block at `pos`.
pub fn check_headertype(data: &[u8], pos: usize) -> (r: ArchiveResult<u64>)
    ensures
        r == rar5_header_type(data@, pos as int),
{
    let len = data.len();
    if pos >= len || 6 > len - pos {
        return Err(ArchiveError::OutOfBounds { offset: pos as u64, size: 6, buffer_len: len });
    }
    let (_, l1) = match read_vint(data, pos + 4) {
        Ok(x) => x,
        Err(e) => {
            return Err(e);
        },
    };
    let (htype, _) = match read_vint(data, pos + 4 + l1 as usize) {
        Ok(x) => x,
        Err(e) => {
            return Err(e);
        },
    };
    Ok(htype)
}

/// Reads the declared total length of the block at `pos`, clamped to
/// the end of the buffer.
pub fn get_header_size(data: &[u8], pos: usize) -> (r: ArchiveResult<usize>)
    ensures
        match r {
            Ok(q) => rar5_header_size(data@, pos as int) is Ok && q == ({
                let next0 = pos + rar5_header_size(data@, pos as int)->Ok_0;
                if next0 <= pos {
                    pos + 1
                } else if next0 > data@.len() {
                    data@.len() as int
                } else {
                    next0
                }
            }) && pos < q <= data@.len(),
            Err(e) => rar5_header_size(data@, pos as int) == Err::<int, ArchiveError>(e),
        },
{
    let len = data.len();
    if pos >= len || 6 > len - pos {
        return Err(ArchiveError::OutOfBounds { offset: pos as u64, size: 6, buffer_len: len });
    }
    let (hsize, l1) = match read_vint(data, pos + 4) {
        Ok(x) => x,
        Err(e) => {
            return Err(e);
        },
    };
    let fields_end = pos + 4 + l1 as usize;
    if hsize > (len - fields_end) as u64 {
        Ok(len)
    } else {
        Ok(fields_end + hsize as usize)
    }
}

/// Decodes a RAR5 member name: UTF-8 first, then windows-1252, which
/// always succeeds.
pub fn decode_filename(data: &[u8]) -> (r: ArchiveResult<String>)
    ensures
        match r {
            Ok(nm) => nm@ == rar5_name_chars(data@),
            Err(_) => false,
        },
{
    match bytes_to_utf8(data) {
        Some(s) => Ok(s),
        None => Ok(bytes_to_latin1(data)),
    }
}

/// Parses the main archive header at `pos` and returns the position of
/// the block after it, clamped to the end of the buffer.
#[verifier::rlimit(60)]
fn process_main_archive_header(data: &[u8], pos: usize) -> (r: ArchiveResult<usize>)
    requires
        pos + 6 <= data@.len(),
    ensures
        match r {
            Ok(q) => rar5_main_header(data@, pos as int) is Ok && q == ({
                let next0 = pos + rar5_main_header(data@, pos as int)->Ok_0;
                if next0 <= pos {
                    pos + 1
                } else if next0 > data@.len() {
                    data@.len() as int
                } else {
                    next0
                }
            }) && pos < q <= data@.len(),
            Err(e) => rar5_main_header(data@, pos as int) == Err::<int, ArchiveError>(e),
        },
{
    let len = data.len();
    let (hsize, l1) = match read_vint(data, pos + 4) {
        Ok(x) => x,
        Err(e) => {
            return Err(e);
        },
    };
    let fields_end = pos + 4 + l1 as usize;
    let (htype, l2) = match read_vint(data, fields_end) {
        Ok(x) => x,
        Err(e) => {
            return Err(e);
        },
    };
    if htype != 1 {
        return Err(ArchiveError::CorruptedArchive);
    }
    let mut p = fields_end + l2 as usize;
    let (hflag, l3) = match read_vint(data, p) {
        Ok(x) => x,
        Err(e) => {
            return Err(e);
        },
    };
    p = p + l3 as usize;
    if hflag & 0x01 != 0 {
        let (_, l4) = match read_vint(data, p) {
            Ok(x) => x,
            Err(e) => {
                return Err(e);
            },
        };
        p = p + l4 as usize;
    }
    let (aflag, l5) = match read_vint(data, p) {
        Ok(x) => x,
        Err(e) => {
            return Err(e);
        },
    };
    p = p + l5 as usize;
    if aflag & 0x02 != 0 {
        let (_, _l6) = match read_vint(data, p) {
            Ok(x) => x,
            Err(e) => {
                return Err(e);
            },
        };
    }
    if hsize > (len - fields_end) as u64 {
        Ok(len)
    } else {
        Ok(fields_end + hsize as usize)
    }
}

/// Parses one RAR5 file header at `pos`, as `rar5_file_header`
/// describes; the returned position is right after the member's data
/// area, clamped to the end of the buffer.
#[verifier::rlimit(100)]
fn process_file_header(data: &[u8], pos: usize) -> (r: ArchiveResult<(Option<MemberFile>, usize)>)
    requires
        pos + 6 <= data@.len(),
    ensures
        match r {
            Ok((m, next)) => rar5_file_header(data@, pos as int) is Ok && ({
                let (mv, next0) = rar5_file_header(data@, pos as int)->Ok_0;
                opt_member_view(m) == mv && next == ({
                    if next0 <= pos {
                        pos + 1
                    } else if next0 > data@.len() {
                        data@.len() as int
                    } else {
                        next0
                    }
                }) && pos < next <= data@.len()
            }),
            Err(e) => rar5_file_header(data@, pos as int) == Err::<
                (Option<MemberView>, int),
                _,
            >(e),
        },
{
    let len = data.len();
    let (_hsize, l1) = match read_vint(data, pos + 4) {
        Ok(x) => x,
        Err(e) => {
            return Err(e);
        },
    };
    let (htype, l2) = match read_vint(data, pos + 4 + l1 as usize) {
        Ok(x) => x,
        Err(e) => {
            return Err(e);
        },
    };
    if htype != 2 {
        return Err(ArchiveError::CorruptedArchive);
    }
    let mut p = pos + 4 + l1 as usize + l2 as usize;
    let (hflag, l3) = match read_vint(data, p) {
        Ok(x) => x,
        Err(e) => {
            return Err(e);
        },
    };
    let has_extra = hflag & 0x01 != 0;
    let has_data = hflag & 0x02 != 0;
    p = p + l3 as usize;
    let mut extra_size: u64 = 0;
    if has_extra {
        let (sz, l4) = match read_vint(data, p) {
            Ok(x) => x,
            Err(e) => {
                return Err(e);
            },
        };
        extra_size = sz;
        p = p + l4 as usize;
    }
    let mut data_size: u64 = 0;
    if has_data {
        let (sz, l5) = match read_vint(data, p) {
            Ok(x) => x,
            Err(e) => {
                return Err(e);
            },
        };
        data_size = sz;
        p = p + l5 as usize;
    }
    let (fflag, l6) = match read_vint(data, p) {
        Ok(x) => x,
        Err(e) => {
            return Err(e);
        },
    };
    p = p + l6 as usize;
    proof {
        assert(rar5_file_header(data@, pos as int) == rar5_file_header_rest(
            data@,
            pos as int,
            p as int,
            has_extra,
            has_data,
            extra_size,
            data_size,
            fflag,
        ));
    }
    process_file_header_rest(data, pos, p, has_extra, has_data, extra_size, data_size, fflag)
}

/// Parses the tail of a RAR5 file header, as `rar5_file_header_rest`
/// describes.
#[verifier::rlimit(100)]
fn process_file_header_rest(
    data: &[u8],
    pos: usize,
    start: usize,
    has_extra: bool,
    has_data: bool,
    extra_size: u64,
    data_size: u64,
    fflag: u64,
) -> (r: ArchiveResult<(Option<MemberFile>, usize)>)
    requires
        pos < start <= data@.len(),
    ensures
        match r {
            Ok((m, next)) => rar5_file_header_rest(
                data@,
                pos as int,
                start as int,
                has_extra,
                has_data,
                extra_size,
                data_size,
                fflag,
            ) is Ok && ({
                let (mv, next0) = rar5_file_header_rest(
                    data@,
                    pos as int,
                    start as int,
                    has_extra,
                    has_data,
                    extra_size,
                    data_size,
                    fflag,
                )->Ok_0;
                opt_member_view(m) == mv && next == ({
                    if next0 <= pos {
                        pos + 1
                    } else if next0 > data@.len() {
                        data@.len() as int
                    } else {
                        next0
                    }
                }) && pos < next <= data@.len()
            }),
            Err(e) => rar5_file_header_rest(
                data@,
                pos as int,
                start as int,
                has_extra,
                has_data,
                extra_size,
                data_size,
                fflag,
            ) == Err::<(Option<MemberView>, int), _>(e),
        },
{
    let len = data.len();
    let mut p = start;
    let is_dir = fflag & 0x01 != 0;
    let has_unix_time = fflag & 0x02 != 0;
    let has_crc32 = fflag & 0x04 != 0;
    let (file_size, l7) = match read_vint(data, p) {
        Ok(x) => x,
        Err(e) => {
            return Err(e);
        },
    };
    p = p + l7 as usize;
    let (_attr, l8) = match read_vint(data, p) {
        Ok(x) => x,
        Err(e) => {
            return Err(e);
        },
    };
    p = p + l8 as usize;
    if has_unix_time {
        if p >= len || 4 > len - p {
            return Err(ArchiveError::OutOfBounds { offset: p as u64, size: 4, buffer_len: len });
        }
        let _mtime = read_u32_le(data, p);
        p = p + 4;
    }
    if has_crc32 {
        if p >= len || 4 > len - p {
            return Err(ArchiveError::OutOfBounds { offset: p as u64, size: 4, buffer_len: len });
        }
        let _crc32 = read_u32_le(data, p);
        p = p + 4;
    }
    let (comp_info, l9) = match read_vint(data, p) {
        Ok(x) => x,
        Err(e) => {
            return Err(e);
        },
    };
    p = p + l9 as usize;
    let comp_method = (comp_info & 0x0380) >> 7u64;
    let (_host_os, l10) = match read_vint(data, p) {
        Ok(x) => x,
        Err(e) => {
            return Err(e);
        },
    };
    p = p + l10 as usize;
    let (name_len, l11) = match read_vint(data, p) {
        Ok(x) => x,
        Err(e) => {
            return Err(e);
        },
    };
    p = p + l11 as usize;
    if name_len > (len - p) as u64 {
        return Err(ArchiveError::OutOfBounds {
            offset: p as u64,
            size: name_len,
            buffer_len: len,
        });
    }
    let name_end = p + name_len as usize;
    let name_slice = vstd::slice::slice_subrange(data, p, name_end);
    let name = match decode_filename(name_slice) {
        Ok(n) => n,
        Err(e) => {
            return Err(e);
        },
    };
    p = name_end;
    if has_extra {
        if extra_size > (len - p) as u64 {
            return Err(ArchiveError::OutOfBounds {
                offset: p as u64,
                size: extra_size,
                buffer_len: len,
            });
        }
        p = p + extra_size as usize;
    }
    let data_offset = p;
    let next = if has_data {
        if data_size > (len - data_offset) as u64 {
            len
        } else {
            data_offset + data_size as usize
        }
    } else {
        data_offset
    };
    let next = if next <= pos {
        pos + 1
    } else {
        next
    };
    let ctype = match comp_method {
        0 => CompressionType::Uncompress,
        1 | 2 | 3 | 4 | 5 => CompressionType::Rar5,
        _ => CompressionType::Unsupported,
    };
    let member = if has_data && !is_dir {
        let fname = base_name(name.as_str());
        Some(
            MemberFile {
                filepath: name,
                filename: fname,
                offset: data_offset as u64,
                size: data_size,
                fsize: file_size,
                ctype,
            },
        )
    } else {
        None
    };
    Ok((member, next))
}

/// Parses one RAR5 service header at `pos` and returns the position of
/// the block after it and its data area, clamped to the end of the
/// buffer.
#[verifier::rlimit(60)]
fn process_service_header(data: &[u8], pos: usize) -> (r: ArchiveResult<usize>)
    requires
        pos + 6 <= data@.len(),
    ensures
        match r {
            Ok(q) => rar5_service_header(data@, pos as int) is Ok && q == ({
                let next0 = pos + rar5_service_header(data@, pos as int)->Ok_0;
                if next0 <= pos {
                    pos + 1
                } else if next0 > data@.len() {
                    data@.len() as int
                } else {
                    next0
                }
            }) && pos < q <= data@.len(),
            Err(e) => rar5_service_header(data@, pos as int) == Err::<int, ArchiveError>(e),
        },
{
    let len = data.len();
    let (hsize, l1) = match read_vint(data, pos + 4) {
        Ok(x) => x,
        Err(e) => {
            return Err(e);
        },
    };
    let fields_end = pos + 4 + l1 as usize;
    let (htype, l2) = match read_vint(data, fields_end) {
        Ok(x) => x,
        Err(e) => {
            return Err(e);
        },
    };
    if htype != 3 {
        return Err(ArchiveError::CorruptedArchive);
    }
    let mut p = fields_end + l2 as usize;
    let (hflag, l3) = match read_vint(data, p) {
        Ok(x) => x,
        Err(e) => {
            return Err(e);
        },
    };
    let has_extra = hflag & 0x01 != 0;
    let has_data = hflag & 0x02 != 0;
    p = p + l3 as usize;
    if has_extra {
        let (_sz, l4) = match read_vint(data, p) {
            Ok(x) => x,
            Err(e) => {
                return Err(e);
            },
        };
        p = p + l4 as usize;
    }
    let mut data_size: u64 = 0;
    if has_data {
        let (sz, _l5) = match read_vint(data, p) {
            Ok(x) => x,
            Err(e) => {
                return Err(e);
            },
        };
        data_size = sz;
    }
    let avail = (len - fields_end) as u64;
    if hsize > avail {
        return Ok(len);
    }
    let header_end = fields_end + hsize as usize;
    if has_data {
        if data_size > (len - header_end) as u64 {
            Ok(len)
        } else {
            Ok(header_end + data_size as usize)
        }
    } else {
        Ok(header_end)
    }
}

/// Parser for RAR5 containers.
pub struct Rar5Reader {
    buf: Vec<u8>,
    files: Vec<MemberFile>,
}

impl ArcReader for Rar5Reader {
    open spec fn parse_spec(s: Seq<u8>) -> ArchiveResult<Seq<MemberView>> {
        rar5_parse(s)
    }

    fn new() -> Self {
        Self { buf: Vec::new(), files: Vec::new() }
    }

    #[verifier::loop_isolation(false)]
    #[verifier::rlimit(100)]
    fn read_archive(buf: &[u8], files: &mut Vec<MemberFile>) -> (r: ArchiveResult<()>) {
        let ghost s = buf@;
        let len = buf.len();
        let (sig_pos, is_sign) = check_rarsign(buf);
        if !is_sign {
            return Err(ArchiveError::CorruptedArchive);
        }
        proof {
            lemma_find_sig_bounds(s, rar5_sig(), 0);
        }
        let start = sig_pos + 8;
        let htype = match check_headertype(buf, start) {
            Ok(t) => t,
            Err(e) => {
                return Err(e);
            },
        };
        if htype != 1 {
            return Err(ArchiveError::CorruptedArchive);
        }
        let first = match process_main_archive_header(buf, start) {
            Ok(q) => q,
            Err(e) => {
                return Err(e);
            },
        };
        let mut acc: Vec<MemberFile> = Vec::new();
        let mut pos: usize = first;
        loop
            invariant
                pos <= len,
                rar5_walk(s, first as int) == match rar5_walk(s, pos as int) {
                    Ok(ms) => Ok::<_, ArchiveError>(member_views(acc@) + ms),
                    Err(e) => Err::<Seq<MemberView>, _>(e),
                },
            decreases len - pos,
        {
            if pos >= len {
                assert(member_views(acc@) + Seq::<MemberView>::empty() =~= member_views(acc@));
                break ;
            }
            let htype = match check_headertype(buf, pos) {
                Ok(t) => t,
                Err(_) => {
                    assert(member_views(acc@) + Seq::<MemberView>::empty() =~= member_views(
                        acc@,
                    ));
                    break ;
                },
            };
            if htype == 2 {
                let (member, next) = match process_file_header(buf, pos) {
                    Ok(x) => x,
                    Err(e) => {
                        return Err(e);
                    },
                };
                if let Some(m) = member {
                    let ghost acc_before = acc@;
                    acc.push(m);
                    proof {
                        assert(member_views(acc@) =~= member_views(acc_before).push(acc@.last()@));
                        if rar5_walk(s, next as int) is Ok {
                            let rest = rar5_walk(s, next as int)->Ok_0;
                            assert(member_views(acc_before) + (seq![acc@.last()@] + rest)
                                =~= member_views(acc@) + rest);
                        }
                    }
                }
                pos = next;
            } else if htype == 3 {
                let next = match process_service_header(buf, pos) {
                    Ok(q) => q,
                    Err(e) => {
                        return Err(e);
                    },
                };
                pos = next;
            } else if htype == 5 {
                assert(member_views(acc@) + Seq::<MemberView>::empty() =~= member_views(acc@));
                break ;
            } else {
                let next = match get_header_size(buf, pos) {
                    Ok(q) => q,
                    Err(e) => {
                        return Err(e);
                    },
                };
                pos = next;
            }
        }
        let ghost files_before = files@;
        files.append(&mut acc);
        proof {
            lemma_member_views_add(files_before, files@.subrange(
                files_before.len() as int,
                files@.len() as int,
            ));
            assert(files@ =~= files_before + files@.subrange(
                files_before.len() as int,
                files@.len() as int,
            ));
        }
        Ok(())
    }

    fn read_data(buf: &[u8], offset: u64, size: u64) -> (r: ArchiveResult<Vec<u8>>) {
        read_slice(buf, offset, size)
    }
}

/// The outcome of extracting a RAR5 member: stored data is returned as
/// is; method 1 is tried with the raw-Deflate decoder and falls back to
/// the raw bytes; methods 2 to 5 are not implemented and fall back to
/// the raw bytes; any other method is an error.
///
/// The fall-back is best effort and can hand back still-compressed
/// bytes: this contract states exactly which bytes come back, so a
/// caller can detect the case by comparing the result's length against
/// the member's unpacked size.  The viewer's own extraction path
/// (`ArchiveManager::decompress_file_data`) instead reports the RAR
/// methods as unsupported.
pub open spec fn decompress_rar5_spec(
    s: Seq<u8>,
    offset: u64,
    size: u64,
    fsize: u64,
    method: u8,
) -> ArchiveResult<Seq<u8>> {
    if offset + size > s.len() {
        Err(ArchiveError::OutOfBounds { offset, size, buffer_len: s.len() as usize })
    } else {
        let data = s.subrange(offset as int, offset + size);
        if method == 0 {
            Ok(data)
        } else if method == 1 {
            match inflate_of(data) {
                Some(d) => if d.len() == fsize {
                    Ok(d)
                } else {
                    Ok(data)
                },
                None => Ok(data),
            }
        } else if 2 <= method <= 5 {
            Ok(data)
        } else {
            Err(ArchiveError::DecompressionError)
        }
    }
}

/// Tries the decoders this crate implements on an extracted RAR5
/// payload; only method 1 (raw Deflate) is implemented.
fn decompress_rar5_basic(compressed_data: &[u8], expected_size: u64, method: u8) -> (r:
    ArchiveResult<Vec<u8>>)
    ensures
        match r {
            Ok(v) => method == 1 && inflate_of(compressed_data@) == Some(v@) && v@.len()
                == expected_size,
            Err(e) => e == ArchiveError::DecompressionError && (method != 1 || match inflate_of(
                compressed_data@,
            ) {
                Some(d) => d.len() != expected_size,
                None => true,
            }),
        },
{
    if method != 1 {
        return Err(ArchiveError::DecompressionError);
    }
    match inflate_bytes(compressed_data) {
        Some(decompressed) => {
            if decompressed.len() as u64 == expected_size {
                Ok(decompressed)
            } else {
                Err(ArchiveError::DecompressionError)
            }
        },
        None => Err(ArchiveError::DecompressionError),
    }
}

/// Extracts the member data stored at `[offset, offset+size)` with the
/// given RAR5 method, as `decompress_rar5_spec` describes.
pub fn decompress_rar5_data(
    buf: &[u8],
    offset: u64,
    size: u64,
    uncompressed_size: u64,
    method: u8,
) -> (r: ArchiveResult<Vec<u8>>)
    ensures
        match r {
            Ok(v) => decompress_rar5_spec(buf@, offset, size, uncompressed_size, method) == Ok::<
                Seq<u8>,
                ArchiveError,
            >(v@),
            Err(e) => decompress_rar5_spec(buf@, offset, size, uncompressed_size, method) == Err::<
                Seq<u8>,
                ArchiveError,
            >(e),
        },
{
    let len = buf.len();
    if offset > len as u64 || size > len as u64 - offset {
        return Err(ArchiveError::OutOfBounds { offset, size, buffer_len: len });
    }
    let start = offset as usize;
    let end = start + size as usize;
    let compressed_data = vstd::slice::slice_subrange(buf, start, end);
    match method {
        0 => Ok(vstd::slice::slice_to_vec(compressed_data)),
        1 | 2 | 3 | 4 | 5 => {
            match decompress_rar5_basic(compressed_data, uncompressed_size, method) {
                Ok(data) => Ok(data),
                Err(_) => Ok(vstd::slice::slice_to_vec(compressed_data)),
            }
        },
        _ => Err(ArchiveError::DecompressionError),
    }
}

} // verus!
