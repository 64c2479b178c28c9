//! RAR4 parser: walks the typed, flag-driven block chain (main header,
//! file headers, new-sub blocks, end-of-archive) and collects the member
//! index.

use vstd::prelude::*;
use vstd::utf8::{decode_utf8, valid_utf8};

use crate::archive_reader::{
    lemma_member_views_add, member_views, oob, opt_member_view, read_slice, ArcReader,
    ArchiveError, ArchiveResult, CompressionType, MemberFile, MemberView,
};
use crate::compress_deflate::{inflate_bytes, inflate_of};
use crate::file_checker::{find_sig_spec, find_signature, lemma_find_sig_bounds, rar4_sig};
use crate::primitives::{read_u16_le, read_u32_le, u16_le_spec, u32_le_spec};
use crate::text::{base_name, base_name_spec, bytes_to_cp866, bytes_to_sjis, bytes_to_utf8,
    cp866_decode, sjis_chars};

verus! {

/// The compression kind a RAR4 unpack-version byte denotes.
pub open spec fn rar4_unpver_ctype(v: int) -> CompressionType {
    if v == 0 {
        CompressionType::Uncompress
    } else if v == 15 || v == 20 || v == 26 || v == 29 || v == 36 {
        CompressionType::Rar4
    } else {
        CompressionType::Unsupported
    }
}

/// The index of the first zero byte in `[from, to)`, or `to` when there
/// is none.
pub open spec fn first_zero(s: Seq<u8>, from: int, to: int) -> int
    decreases to - from,
{
    if from >= to {
        to
    } else if s[from] == 0 {
        from
    } else {
        first_zero(s, from + 1, to)
    }
}

/// The characters of a RAR4 member name: UTF-8 when valid, then the
/// legacy code page IBM866, then Shift-JIS, which always succeeds.
pub open spec fn rar4_name_chars(b: Seq<u8>) -> Seq<char> {
    if valid_utf8(b) {
        decode_utf8(b)
    } else {
        match cp866_decode(b) {
            Some(c) => c,
            None => sjis_chars(b),
        }
    }
}

/// The seven-byte RAR4 volume header at `pos`: type, flags and size.
pub open spec fn rar4_header_spec(s: Seq<u8>, pos: int) -> ArchiveResult<(u8, u16, u16)> {
    if pos + 7 > s.len() {
        Err(oob(s, pos, 7))
    } else {
        Ok(
            (
                s[pos + 2],
                u16_le_spec(s, pos + 3) as u16,
                u16_le_spec(s, pos + 5) as u16,
            ),
        )
    }
}

/// The extended pack and unpack sizes when the LHD_LARGE flag is set:
/// each high word is read and shifted into the upper 32 bits.
pub open spec fn rar4_fh_sizes(
    s: Seq<u8>,
    p1: int,
    hflags: int,
    packed0: u64,
    unpacked0: u64,
) -> ArchiveResult<(u64, u64, int)> {
    if (hflags as u16) & 0x0100 == 0 {
        Ok((packed0, unpacked0, p1))
    } else if p1 + 4 > s.len() {
        Err(oob(s, p1, 4))
    } else {
        let packed = packed0 | ((u32_le_spec(s, p1) as u64) << 32u64);
        if p1 + 8 > s.len() {
            Err(oob(s, p1 + 4, 4))
        } else {
            let unpacked = unpacked0 | ((u32_le_spec(s, p1 + 4) as u64) << 32u64);
            Ok((packed, unpacked, p1 + 8))
        }
    }
}

/// Skips one extended-time section: a nonzero section code occupies
/// `((code & 3) + 1) * 2` bytes.
pub open spec fn rar4_skip_section(s: Seq<u8>, p: int, sec: u16) -> ArchiveResult<int> {
    if sec == 0 {
        Ok(p)
    } else {
        let size = ((sec & 3) + 1) * 2;
        if p + size > s.len() {
            Err(oob(s, p, size))
        } else {
            Ok(p + size)
        }
    }
}

/// Skips the optional salt (flag 0x0400) after the member name.
pub open spec fn rar4_salt(s: Seq<u8>, p: int, hflags: int) -> ArchiveResult<int> {
    if (hflags as u16) & 0x0400 == 0 {
        Ok(p)
    } else if p + 8 > s.len() {
        Err(oob(s, p, 8))
    } else {
        Ok(p + 8)
    }
}

/// Skips the optional extended-time block (flag 0x1000): a two-byte
/// section-flag word followed by four variable sections.
pub open spec fn rar4_ext_time(s: Seq<u8>, p: int, hflags: int) -> ArchiveResult<int> {
    if (hflags as u16) & 0x1000 == 0 {
        Ok(p)
    } else if p + 2 > s.len() {
        Err(oob(s, p, 2))
    } else {
        let f = u16_le_spec(s, p) as u16;
        match rar4_skip_section(s, p + 2, f & 0x000f) {
            Err(e) => Err(e),
            Ok(p1) => match rar4_skip_section(s, p1, (f & 0x00f0) >> 4u16) {
                Err(e) => Err(e),
                Ok(p2) => match rar4_skip_section(s, p2, (f & 0x0f00) >> 8u16) {
                    Err(e) => Err(e),
                    Ok(p3) => rar4_skip_section(s, p3, (f & 0xf000) >> 12u16),
                },
            },
        }
    }
}

/// One RAR4 file header at `p0` (just past the seven-byte volume
/// header): the member it describes, or `None` for a directory entry,
/// and the position right after the member's packed data.
pub open spec fn rar4_file_header(s: Seq<u8>, p0: int, hflags: int) -> ArchiveResult<
    (Option<MemberView>, int),
> {
    if p0 + 25 > s.len() {
        Err(oob(s, p0, 25))
    } else {
        let packed0 = u32_le_spec(s, p0) as u64;
        let unpacked0 = u32_le_spec(s, p0 + 4) as u64;
        let unpver = s[p0 + 17];
        let nsize = u16_le_spec(s, p0 + 19);
        let fattr = u32_le_spec(s, p0 + 21);
        match rar4_fh_sizes(s, p0 + 25, hflags, packed0, unpacked0) {
            Err(e) => Err(e),
            Ok((packed, unpacked, p1)) => {
                if p1 + nsize > s.len() {
                    Err(oob(s, p1, nsize))
                } else {
                    let endpos = first_zero(s, p1, p1 + nsize);
                    let name = rar4_name_chars(s.subrange(p1, endpos));
                    match rar4_salt(s, p1 + nsize, hflags) {
                        Err(e) => Err(e),
                        Ok(p2) => match rar4_ext_time(s, p2, hflags) {
                            Err(e) => Err(e),
                            Ok(p3) => {
                                let ctype = rar4_unpver_ctype(unpver as int);
                                let next0 = p3 + packed;
                                let next = if next0 > s.len() {
                                    s.len() as int
                                } else {
                                    next0
                                };
                                let m = if (fattr as u32) & 0x10 == 0 {
                                    Some(
                                        MemberView {
                                            filepath: name,
                                            filename: base_name_spec(name),
                                            offset: p3 as u64,
                                            size: packed,
                                            fsize: unpacked,
                                            ctype,
                                        },
                                    )
                                } else {
                                    None
                                };
                                Ok((m, next))
                            },
                        },
                    }
                }
            },
        }
    }
}

/// For every file header that parses with the LHD_LARGE flag set: a
/// member is produced exactly when the attributes' directory bit is
/// clear, and its stored and unpacked sizes carry the two high words
/// shifted into the upper 32 bits of the low words.
pub proof fn lemma_rar4_large_sizes(s: Seq<u8>, p0: int, hflags: int)
    requires
        (hflags as u16) & 0x0100 != 0,
        rar4_file_header(s, p0, hflags) is Ok,
    ensures
        ({
            let m = rar4_file_header(s, p0, hflags)->Ok_0.0;
            &&& (m is Some <==> (u32_le_spec(s, p0 + 21) as u32) & 0x10 == 0)
            &&& (m is Some ==> m->Some_0.size == ((u32_le_spec(s, p0) as u64) | ((u32_le_spec(
                s,
                p0 + 25,
            ) as u64) << 32u64)) && m->Some_0.fsize == ((u32_le_spec(s, p0 + 4) as u64) | ((
            u32_le_spec(s, p0 + 29) as u64) << 32u64)))
        }),
{
}

/// The members described by the RAR4 block chain starting at `pos`.
/// Unknown or unsupported block types end the walk without an error; a
/// header size below seven bytes is a corrupted archive.
pub open spec fn rar4_walk(s: Seq<u8>, pos: int) -> ArchiveResult<Seq<MemberView>>
    recommends
        0 <= pos <= s.len(),
    decreases s.len() - pos,
{
    if s.len() - pos <= 7 {
        Ok(Seq::empty())
    } else {
        let htype = s[pos + 2];
        let hflags = u16_le_spec(s, pos + 3);
        let hsize = u16_le_spec(s, pos + 5);
        let body = pos + 7;
        if hsize < 7 {
            Err(ArchiveError::CorruptedArchive)
        } else if htype == 0x73 {
            if body + (hsize - 7) > s.len() {
                Err(oob(s, body, hsize - 7))
            } else {
                rar4_walk(s, body + (hsize - 7))
            }
        } else if htype == 0x74 {
            match rar4_file_header(s, body, hflags) {
                Err(e) => Err(e),
                Ok((m, next0)) => {
                    let next = if next0 < body {
                        body
                    } else if next0 > s.len() {
                        s.len() as int
                    } else {
                        next0
                    };
                    match rar4_walk(s, next) {
                        Err(e) => Err(e),
                        Ok(rest) => Ok(
                            match m {
                                Some(mv) => seq![mv] + rest,
                                None => rest,
                            },
                        ),
                    }
                },
            }
        } else if htype == 0x7a {
            if body + 4 > s.len() {
                Err(oob(s, body, 4))
            } else {
                let nsub = u32_le_spec(s, body);
                let next0 = body + (hsize - 7) + nsub;
                let next = if next0 > s.len() {
                    s.len() as int
                } else {
                    next0
                };
                rar4_walk(s, next)
            }
        } else {
            Ok(Seq::empty())
        }
    }
}

/// The full RAR4 parse: the walk starts just past the first occurrence
/// of the RAR4 signature; a buffer without one is a corrupted archive.
pub open spec fn rar4_parse(s: Seq<u8>) -> ArchiveResult<Seq<MemberView>> {
    match find_sig_spec(s, rar4_sig(), 0) {
        None => Err(ArchiveError::CorruptedArchive),
        Some(p) => rar4_walk(s, p + rar4_sig().len()),
    }
}

/// Scans the buffer for the RAR4 signature; returns the position of the
/// first occurrence and whether one was found.
pub fn check_rarsign(data: &[u8]) -> (r: (usize, bool))
    ensures
        r == match find_sig_spec(data@, rar4_sig(), 0) {
            Some(p) => (p as usize, true),
            None => (0usize, false),
        },
{
    let sig: [u8; 7] = [0x52, 0x61, 0x72, 0x21, 0x1a, 0x07, 0x00];
    proof {
        assert(sig@ =~= rar4_sig());
    }
    find_signature(data, sig.as_slice())
}

/// Reads the seven-byte volume header at `pos`: CRC (skipped), block
/// type, flags and declared header size.
pub fn check_headertype(data: &[u8], pos: usize) -> (r: ArchiveResult<(u8, u16, u16)>)
    ensures
        r == rar4_header_spec(data@, pos as int),
{
    let len = data.len();
    if pos >= len || 7 > len - pos {
        return Err(ArchiveError::OutOfBounds { offset: pos as u64, size: 7, buffer_len: len });
    }
    let htype = data[pos + 2];
    let hflags = read_u16_le(data, pos + 3);
    let hsize = read_u16_le(data, pos + 5);
    Ok((htype, hflags, hsize))
}

/// Decodes a RAR4 member name: UTF-8 first, then IBM866, then
/// Shift-JIS; decoding never fails outright.
pub fn decode_filename(data: &[u8]) -> (r: ArchiveResult<String>)
    ensures
        match r {
            Ok(nm) => nm@ == rar4_name_chars(data@),
            Err(_) => false,
        },
{
    match bytes_to_utf8(data) {
        Some(s) => Ok(s),
        None => match bytes_to_cp866(data) {
            Some(s) => Ok(s),
            None => Ok(bytes_to_sjis(data)),
        },
    }
}

/// The index of the first zero byte in `[from, to)`, or `to` when there
/// is none; RAR4 names are truncated at an embedded NUL.
fn find_name_end(buf: &[u8], from: usize, to: usize) -> (r: usize)
    requires
        from <= to <= buf@.len(),
    ensures
        r == first_zero(buf@, from as int, to as int),
        from <= r <= to,
{
    let mut i: usize = from;
    while i < to
        invariant
            from <= i <= to <= buf@.len(),
            first_zero(buf@, from as int, to as int) == first_zero(buf@, i as int, to as int),
        decreases to - i,
    {
        if buf[i] == 0 {
            return i;
        }
        i = i + 1;
    }
    to
}

/// Skips one extended-time section, as `rar4_skip_section` describes.
fn skip_section(buf: &[u8], p: usize, sec: u16) -> (r: ArchiveResult<usize>)
    requires
        p <= buf@.len(),
    ensures
        match r {
            Ok(q) => rar4_skip_section(buf@, p as int, sec) == Ok::<int, ArchiveError>(q as int)
                && p <= q <= buf@.len(),
            Err(e) => rar4_skip_section(buf@, p as int, sec) == Err::<int, ArchiveError>(e),
        },
{
    let len = buf.len();
    if sec == 0 {
        return Ok(p);
    }
    let low = sec & 3;
    proof {
        assert(low <= 3) by (bit_vector)
            requires
                low == sec & 3,
        ;
    }
    let size = ((low as usize) + 1) * 2;
    if size > len - p {
        return Err(ArchiveError::OutOfBounds {
            offset: p as u64,
            size: size as u64,
            buffer_len: len,
        });
    }
    Ok(p + size)
}

/// Parses one RAR4 file header at `pos` (just past the volume header),
/// as `rar4_file_header` describes.
#[verifier::rlimit(60)]
fn process_file_header(buf: &[u8], pos: usize, hflags: u16) -> (r: ArchiveResult<
    (Option<MemberFile>, usize),
>)
    requires
        pos <= buf@.len(),
    ensures
        match r {
            Ok((m, next)) => rar4_file_header(buf@, pos as int, hflags as int) == Ok::<
                _,
                ArchiveError,
            >((opt_member_view(m), next as int)) && pos <= next <= buf@.len(),
            Err(e) => rar4_file_header(buf@, pos as int, hflags as int) == Err::<
                (Option<MemberView>, int),
                _,
            >(e),
        },
{
    let len = buf.len();
    if 25 > len - pos {
        return Err(ArchiveError::OutOfBounds { offset: pos as u64, size: 25, buffer_len: len });
    }
    let packed0 = read_u32_le(buf, pos) as u64;
    let unpacked0 = read_u32_le(buf, pos + 4) as u64;
    let unpver = buf[pos + 17];
    let nsize = read_u16_le(buf, pos + 19);
    let fattr = read_u32_le(buf, pos + 21);
    let mut p = pos + 25;
    let mut packed = packed0;
    let mut unpacked = unpacked0;
    if hflags & 0x0100 != 0 {
        if 4 > len - p {
            return Err(ArchiveError::OutOfBounds { offset: p as u64, size: 4, buffer_len: len });
        }
        let high_packed = read_u32_le(buf, p) as u64;
        packed = packed | (high_packed << 32u64);
        p = p + 4;
        if 4 > len - p {
            return Err(ArchiveError::OutOfBounds { offset: p as u64, size: 4, buffer_len: len });
        }
        let high_unpacked = read_u32_le(buf, p) as u64;
        unpacked = unpacked | (high_unpacked << 32u64);
        p = p + 4;
    }
    if nsize as usize > len - p {
        return Err(ArchiveError::OutOfBounds {
            offset: p as u64,
            size: nsize as u64,
            buffer_len: len,
        });
    }
    let name_limit = p + nsize as usize;
    let endpos = find_name_end(buf, p, name_limit);
    let name_slice = vstd::slice::slice_subrange(buf, p, endpos);
    let name = match decode_filename(name_slice) {
        Ok(n) => n,
        Err(e) => {
            return Err(e);
        },
    };
    p = name_limit;
    if hflags & 0x0400 != 0 {
        if 8 > len - p {
            return Err(ArchiveError::OutOfBounds { offset: p as u64, size: 8, buffer_len: len });
        }
        p = p + 8;
    }
    if hflags & 0x1000 != 0 {
        if 2 > len - p {
            return Err(ArchiveError::OutOfBounds { offset: p as u64, size: 2, buffer_len: len });
        }
        let ext_flags = read_u16_le(buf, p);
        p = p + 2;
        p = match skip_section(buf, p, ext_flags & 0x000f) {
            Ok(q) => q,
            Err(e) => {
                return Err(e);
            },
        };
        p = match skip_section(buf, p, (ext_flags & 0x00f0) >> 4u16) {
            Ok(q) => q,
            Err(e) => {
                return Err(e);
            },
        };
        p = match skip_section(buf, p, (ext_flags & 0x0f00) >> 8u16) {
            Ok(q) => q,
            Err(e) => {
                return Err(e);
            },
        };
        p = match skip_section(buf, p, (ext_flags & 0xf000) >> 12u16) {
            Ok(q) => q,
            Err(e) => {
                return Err(e);
            },
        };
    }
    let data_offset = p;
    let ctype = match unpver {
        0 => CompressionType::Uncompress,
        15 | 20 | 26 | 29 | 36 => CompressionType::Rar4,
        _ => CompressionType::Unsupported,
    };
    let member = if fattr & 0x10 == 0 {
        let fname = base_name(name.as_str());
        Some(
            MemberFile {
                filepath: name,
                filename: fname,
                offset: data_offset as u64,
                size: packed,
                fsize: unpacked,
                ctype,
            },
        )
    } else {
        None
    };
    let next = if packed > (len - data_offset) as u64 {
        len
    } else {
        data_offset + packed as usize
    };
    Ok((member, next))
}

/// Parser for RAR4 containers.
pub struct Rar4Reader {
    buf: Vec<u8>,
    files: Vec<MemberFile>,
}

impl ArcReader for Rar4Reader {
    open spec fn parse_spec(s: Seq<u8>) -> ArchiveResult<Seq<MemberView>> {
        rar4_parse(s)
    }

    fn new() -> Self {
        Self { buf: Vec::new(), files: Vec::new() }
    }

    #[verifier::loop_isolation(false)]
    #[verifier::rlimit(100)]
    fn read_archive(buf: &[u8], files: &mut Vec<MemberFile>) -> (r: ArchiveResult<()>) {
        let ghost s = buf@;
        let len = buf.len();
        let (sig_pos, is_sign) = check_rarsign(buf);
        if !is_sign {
            return Err(ArchiveError::CorruptedArchive);
        }
        proof {
            lemma_find_sig_bounds(s, rar4_sig(), 0);
        }
        let start = sig_pos + 7;
        let mut acc: Vec<MemberFile> = Vec::new();
        let mut pos: usize = start;
        loop
            invariant
                pos <= len,
                rar4_walk(s, start as int) == match rar4_walk(s, pos as int) {
                    Ok(ms) => Ok::<_, ArchiveError>(member_views(acc@) + ms),
                    Err(e) => Err::<Seq<MemberView>, _>(e),
                },
            decreases len - pos,
        {
            if len - pos <= 7 {
                assert(member_views(acc@) + Seq::<MemberView>::empty() =~= member_views(acc@));
                break ;
            }
            let (htype, hflags, hsize) = match check_headertype(buf, pos) {
                Ok(h) => h,
                Err(e) => {
                    return Err(e);
                },
            };
            let body = pos + 7;
            if hsize < 7 {
                return Err(ArchiveError::CorruptedArchive);
            }
            if htype == 0x73 {
                let skip = (hsize - 7) as usize;
                if skip > len - body {
                    return Err(ArchiveError::OutOfBounds {
                        offset: body as u64,
                        size: skip as u64,
                        buffer_len: len,
                    });
                }
                pos = body + skip;
            } else if htype == 0x74 {
                let (member, next) = match process_file_header(buf, body, hflags) {
                    Ok(x) => x,
                    Err(e) => {
                        return Err(e);
                    },
                };
                if let Some(m) = member {
                    let ghost acc_before = acc@;
                    acc.push(m);
                    proof {
                        assert(member_views(acc@) =~= member_views(acc_before).push(acc@.last()@));
                        if rar4_walk(s, next as int) is Ok {
                            let rest = rar4_walk(s, next as int)->Ok_0;
                            assert(member_views(acc_before) + (seq![acc@.last()@] + rest)
                                =~= member_views(acc@) + rest);
                        }
                    }
                }
                pos = next;
            } else if htype == 0x7a {
                if 4 > len - body {
                    return Err(ArchiveError::OutOfBounds {
                        offset: body as u64,
                        size: 4,
                        buffer_len: len,
                    });
                }
                let nsub = read_u32_le(buf, body);
                let skip = (hsize - 7) as u64 + nsub as u64;
                if skip > (len - body) as u64 {
                    pos = len;
                } else {
                    pos = body + skip as usize;
                }
            } else {
                assert(member_views(acc@) + Seq::<MemberView>::empty() =~= member_views(acc@));
                break ;
            }
        }
        let ghost files_before = files@;
        files.append(&mut acc);
        proof {
            lemma_member_views_add(files_before, files@.subrange(
                files_before.len() as int,
                files@.len() as int,
            ));
            assert(files@ =~= files_before + files@.subrange(
                files_before.len() as int,
                files@.len() as int,
            ));
        }
        Ok(())
    }

    fn read_data(buf: &[u8], offset: u64, size: u64) -> (r: ArchiveResult<Vec<u8>>) {
        read_slice(buf, offset, size)
    }
}

/// The outcome of extracting a RAR4 member: stored data is returned as
/// is; the proprietary methods are tried with the raw-Deflate decoder and
/// fall back to the raw bytes; any other method byte is an error.
///
/// The fall-back is best effort and can hand back still-compressed
/// bytes: this contract states exactly which bytes come back, so a
/// caller can detect the case by comparing the result's length against
/// the member's unpacked size.  The viewer's own extraction path
/// (`ArchiveManager::decompress_file_data`) instead reports the RAR
/// methods as unsupported.
pub open spec fn decompress_rar4_spec(
    s: Seq<u8>,
    offset: u64,
    size: u64,
    fsize: u64,
    method: u8,
) -> ArchiveResult<Seq<u8>> {
    if offset + size > s.len() {
        Err(ArchiveError::OutOfBounds { offset, size, buffer_len: s.len() as usize })
    } else {
        let data = s.subrange(offset as int, offset + size);
        if method == 0 {
            Ok(data)
        } else if method == 15 || method == 20 || method == 26 || method == 29 || method == 36 {
            match inflate_of(data) {
                Some(d) => if d.len() == fsize {
                    Ok(d)
                } else {
                    Ok(data)
                },
                None => Ok(data),
            }
        } else {
            Err(ArchiveError::DecompressionError)
        }
    }
}

/// Tries the raw-Deflate decoder on already-extracted bytes and checks
/// the declared uncompressed size.
fn decompress_rar4_deflate(compressed_data: &[u8], expected_size: u64) -> (r: ArchiveResult<
    Vec<u8>,
>)
    ensures
        match r {
            Ok(v) => inflate_of(compressed_data@) == Some(v@) && v@.len() == expected_size,
            Err(e) => e == ArchiveError::DecompressionError && match inflate_of(
                compressed_data@,
            ) {
                Some(d) => d.len() != expected_size,
                None => true,
            },
        },
{
    match inflate_bytes(compressed_data) {
        Some(decompressed) => {
            if decompressed.len() as u64 == expected_size {
                Ok(decompressed)
            } else {
                Err(ArchiveError::DecompressionError)
            }
        },
        None => Err(ArchiveError::DecompressionError),
    }
}

/// Extracts the member data stored at `[offset, offset+size)` with the
/// given RAR4 method byte, as `decompress_rar4_spec` describes.
pub fn decompress_rar4_data(
    buf: &[u8],
    offset: u64,
    size: u64,
    uncompressed_size: u64,
    method: u8,
) -> (r: ArchiveResult<Vec<u8>>)
    ensures
        match r {
            Ok(v) => decompress_rar4_spec(buf@, offset, size, uncompressed_size, method) == Ok::<
                Seq<u8>,
                ArchiveError,
            >(v@),
            Err(e) => decompress_rar4_spec(buf@, offset, size, uncompressed_size, method) == Err::<
                Seq<u8>,
                ArchiveError,
            >(e),
        },
{
    let len = buf.len();
    if offset > len as u64 || size > len as u64 - offset {
        return Err(ArchiveError::OutOfBounds { offset, size, buffer_len: len });
    }
    let start = offset as usize;
    let end = start + size as usize;
    let compressed_data = vstd::slice::slice_subrange(buf, start, end);
    match method {
        0 => Ok(vstd::slice::slice_to_vec(compressed_data)),
        15 | 20 | 26 | 29 | 36 => {
            match decompress_rar4_deflate(compressed_data, uncompressed_size) {
                Ok(data) => Ok(data),
                Err(_) => Ok(vstd::slice::slice_to_vec(compressed_data)),
            }
        },
        _ => Err(ArchiveError::DecompressionError),
    }
}

} // verus!
