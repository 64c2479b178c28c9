//! ZIP parser: walks sequential local-file-header records and collects
//! the byte range, sizes and compression kind of each stored entry.

use vstd::prelude::*;
use vstd::utf8::{decode_utf8, valid_utf8};

use crate::archive_reader::{
    lemma_member_views_add, member_views, read_slice, ArcReader, ArchiveError, ArchiveResult,
    CompressionType, MemberFile, MemberView,
};
use crate::file_checker::{starts_with, zip_sig};
use crate::primitives::{read_u16_le, read_u32_le, u16_le_spec, u32_le_spec};
use crate::text::{base_name, base_name_spec, bytes_to_utf8};

verus! {

/// The compression kind a ZIP method code denotes.
pub open spec fn zip_method_ctype(m: int) -> CompressionType {
    if m == 0 {
        CompressionType::Uncompress
    } else if m == 8 {
        CompressionType::Deflate
    } else if m == 9 {
        CompressionType::Deflate64
    } else {
        CompressionType::Unsupported
    }
}

/// True when a local-file-header magic stands at `pos`.
pub open spec fn zip_magic_at(s: Seq<u8>, pos: int) -> bool {
    s[pos] == 0x50 && s[pos + 1] == 0x4b && s[pos + 2] == 0x03 && s[pos + 3] == 0x04
}

/// The members described by the local-file-header chain starting at
/// `pos`.  The walk stops when fewer than a header's worth of bytes
/// remain or the next bytes are not the header magic; it fails when a
/// name runs past the buffer or is not valid UTF-8.  Positions are
/// clamped to the buffer length, so a declared size that overruns the
/// buffer ends the walk at the buffer's end.
pub open spec fn zip_walk(s: Seq<u8>, pos: int) -> ArchiveResult<Seq<MemberView>>
    recommends
        0 <= pos <= s.len(),
    decreases s.len() - pos,
{
    if s.len() - pos <= 30 || !zip_magic_at(s, pos) {
        Ok(Seq::empty())
    } else {
        let comp = u16_le_spec(s, pos + 8);
        let csize = u32_le_spec(s, pos + 18);
        let ucsize = u32_le_spec(s, pos + 22);
        let fname_size = u16_le_spec(s, pos + 26);
        let ex_len = u16_le_spec(s, pos + 28);
        let name_start = pos + 30;
        if name_start + fname_size > s.len() {
            Err(ArchiveError::CorruptedArchive)
        } else {
            let name_bytes = s.subrange(name_start, name_start + fname_size);
            if !valid_utf8(name_bytes) {
                Err(ArchiveError::StringConversionError)
            } else {
                let name = decode_utf8(name_bytes);
                let name_end = name_start + fname_size;
                let data_offset = if name_end + ex_len > s.len() {
                    s.len() as int
                } else {
                    name_end + ex_len
                };
                let next = if data_offset + csize > s.len() {
                    s.len() as int
                } else {
                    data_offset + csize
                };
                let mv = MemberView {
                    filepath: name,
                    filename: base_name_spec(name),
                    offset: data_offset as u64,
                    size: csize as u64,
                    fsize: ucsize as u64,
                    ctype: zip_method_ctype(comp),
                };
                match zip_walk(s, next) {
                    Ok(rest) => if csize > 0 {
                        Ok(seq![mv] + rest)
                    } else {
                        Ok(rest)
                    },
                    Err(e) => Err(e),
                }
            }
        }
    }
}

/// The full ZIP parse: members are collected only when the buffer starts
/// with the local-file-header magic; otherwise the index is empty.
pub open spec fn zip_parse(s: Seq<u8>) -> ArchiveResult<Seq<MemberView>> {
    if starts_with(s, zip_sig()) {
        zip_walk(s, 0)
    } else {
        Ok(Seq::empty())
    }
}

/// Reports whether the buffer begins with the ZIP local-file-header
/// magic; the position of a match is always zero.
pub fn check_zipsign(data: &[u8]) -> (r: ArchiveResult<(usize, bool)>)
    ensures
        r == Ok::<_, ArchiveError>((0usize, starts_with(data@, zip_sig()))),
{
    let sig: [u8; 4] = [0x50, 0x4b, 0x03, 0x04];
    proof {
        assert(sig@ =~= zip_sig());
    }
    let found = crate::file_checker::check_signature(data, sig.as_slice());
    Ok((0, found))
}

/// Parser for ZIP containers.
pub struct ZipReader {
    buf: Vec<u8>,
    files: Vec<MemberFile>,
}

impl ArcReader for ZipReader {
    open spec fn parse_spec(s: Seq<u8>) -> ArchiveResult<Seq<MemberView>> {
        zip_parse(s)
    }

    fn new() -> Self {
        Self { buf: Vec::new(), files: Vec::new() }
    }

    #[verifier::loop_isolation(false)]
    #[verifier::rlimit(60)]
    fn read_archive(buf: &[u8], files: &mut Vec<MemberFile>) -> (r: ArchiveResult<()>) {
        let ghost s = buf@;
        let len = buf.len();
        let (start, is_sign) = match check_zipsign(buf) {
            Ok(p) => p,
            Err(e) => {
                return Err(e);
            },
        };
        if !is_sign {
            assert(member_views(files@) + Seq::<MemberView>::empty() =~= member_views(files@));
            return Ok(());
        }
        let mut acc: Vec<MemberFile> = Vec::new();
        let mut pos: usize = start;
        loop
            invariant
                pos <= len,
                len == s.len(),
                s == buf@,
                zip_walk(s, start as int) == match zip_walk(s, pos as int) {
                    Ok(ms) => Ok::<_, ArchiveError>(member_views(acc@) + ms),
                    Err(e) => Err::<Seq<MemberView>, _>(e),
                },
            decreases len - pos,
        {
            if len - pos <= 30 {
                assert(zip_walk(s, pos as int) == Ok::<Seq<MemberView>, ArchiveError>(Seq::empty()));
                assert(member_views(acc@) + Seq::<MemberView>::empty() =~= member_views(acc@));
                break ;
            }
            if !(buf[pos] == 0x50 && buf[pos + 1] == 0x4b && buf[pos + 2] == 0x03 && buf[pos + 3]
                == 0x04) {
                assert(zip_walk(s, pos as int) == Ok::<Seq<MemberView>, ArchiveError>(Seq::empty()));
                assert(member_views(acc@) + Seq::<MemberView>::empty() =~= member_views(acc@));
                break ;
            }
            let comp = read_u16_le(buf, pos + 8);
            let csize = read_u32_le(buf, pos + 18);
            let ucsize = read_u32_le(buf, pos + 22);
            let fname_size = read_u16_le(buf, pos + 26);
            let ex_len = read_u16_le(buf, pos + 28);
            let name_start = pos + 30;
            if fname_size as usize > len - name_start {
                return Err(ArchiveError::CorruptedArchive);
            }
            let name_end = name_start + fname_size as usize;
            let name_slice = vstd::slice::slice_subrange(buf, name_start, name_end);
            let name = match bytes_to_utf8(name_slice) {
                Some(n) => n,
                None => {
                    return Err(ArchiveError::StringConversionError);
                },
            };
            let data_offset = if ex_len as usize > len - name_end {
                len
            } else {
                name_end + ex_len as usize
            };
            let next = if csize as usize > len - data_offset {
                len
            } else {
                data_offset + csize as usize
            };
            let ctype = match comp {
                0 => CompressionType::Uncompress,
                8 => CompressionType::Deflate,
                9 => CompressionType::Deflate64,
                _ => CompressionType::Unsupported,
            };
            if csize > 0 {
                let fname = base_name(name.as_str());
                let member = MemberFile {
                    filepath: name,
                    filename: fname,
                    offset: data_offset as u64,
                    size: csize as u64,
                    fsize: ucsize as u64,
                    ctype,
                };
                let ghost acc_before = acc@;
                acc.push(member);
                proof {
                    assert(member_views(acc@) =~= member_views(acc_before).push(member@));
                    if zip_walk(s, next as int) is Ok {
                        let rest = zip_walk(s, next as int)->Ok_0;
                        assert(member_views(acc_before) + (seq![member@] + rest) =~= member_views(
                            acc@,
                        ) + rest);
                    }
                }
            }
            pos = next;
        }
        let ghost files_before = files@;
        files.append(&mut acc);
        proof {
            lemma_member_views_add(files_before, files@.subrange(
                files_before.len() as int,
                files@.len() as int,
            ));
            assert(files@ =~= files_before + files@.subrange(
                files_before.len() as int,
                files@.len() as int,
            ));
            assert(member_views(acc@) + Seq::<MemberView>::empty() =~= member_views(acc@));
        }
        Ok(())
    }

    fn read_data(buf: &[u8], offset: u64, size: u64) -> (r: ArchiveResult<Vec<u8>>) {
        read_slice(buf, offset, size)
    }
}

} // verus!
