//! Shared data model: member records, compression kinds and the error
//! taxonomy used by every parser in this crate.

use vstd::prelude::*;

verus! {

/// Everything that can go wrong while reading an archive.
#[derive(Debug, Clone, Copy, PartialEq, Eq, Structural)]
pub enum ArchiveError {
    /// An underlying read failed; surfaced by callers doing file I/O.
    IoError,
    /// No recognizable archive signature.
    UnsupportedFormat,
    /// A structurally invalid header.
    CorruptedArchive,
    /// A declared byte count does not match the actual one.
    InvalidFileSize { expected: u64, found: u64 },
    /// A malformed field sequence.
    HeaderParseError,
    /// A member name that is not valid UTF-8 where no fallback applies.
    StringConversionError,
    /// A compressed payload failed to expand or had the wrong size.
    DecompressionError,
    /// A computed range exceeds the buffer length.
    OutOfBounds { offset: u64, size: u64, buffer_len: usize },
    /// Raised by the downstream image decoder, not by this crate's core.
    ImageError,
}

pub type ArchiveResult<T> = Result<T, ArchiveError>;

/// The closed set of compression kinds a member's data can use.
#[derive(Debug, Clone, Copy, PartialEq, Eq, Structural)]
pub enum CompressionType {
    Uncompress,
    Unsupported,
    Deflate,
    Deflate64,
    Rar5,
    Rar4,
}

/// One extractable file inside an archive, with the byte range of its
/// stored data inside the source buffer.
#[derive(Debug, Clone)]
pub struct MemberFile {
    /// Full intra-archive path.
    pub filepath: String,
    /// Base name: the text after the last path separator of `filepath`.
    pub filename: String,
    /// Absolute byte offset of the member's data within the source buffer.
    pub offset: u64,
    /// Byte length of the stored (possibly compressed) data at `offset`.
    pub size: u64,
    /// Logical uncompressed size.
    pub fsize: u64,
    /// Compression kind of the stored data.
    pub ctype: CompressionType,
}

/// The mathematical content of a `MemberFile`.
pub ghost struct MemberView {
    pub filepath: Seq<char>,
    pub filename: Seq<char>,
    pub offset: u64,
    pub size: u64,
    pub fsize: u64,
    pub ctype: CompressionType,
}

impl View for MemberFile {
    type V = MemberView;

    open spec fn view(&self) -> MemberView {
        MemberView {
            filepath: self.filepath@,
            filename: self.filename@,
            offset: self.offset,
            size: self.size,
            fsize: self.fsize,
            ctype: self.ctype,
        }
    }
}

/// The views of a sequence of member records.
pub open spec fn member_views(s: Seq<MemberFile>) -> Seq<MemberView> {
    s.map_values(|m: MemberFile| m@)
}

/// The `OutOfBounds` error a failed range check at `p` for `sz` bytes
/// reports.
pub open spec fn oob(s: Seq<u8>, p: int, sz: int) -> ArchiveError {
    ArchiveError::OutOfBounds { offset: p as u64, size: sz as u64, buffer_len: s.len() as usize }
}

/// The view of an optional member record.
pub open spec fn opt_member_view(o: Option<MemberFile>) -> Option<MemberView> {
    match o {
        Some(m) => Some(m@),
        None => None,
    }
}

pub proof fn lemma_member_views_add(a: Seq<MemberFile>, b: Seq<MemberFile>)
    ensures
        member_views(a + b) == member_views(a) + member_views(b),
{
    assert(member_views(a + b) =~= member_views(a) + member_views(b));
}

/// Bounds-checked read of `size` bytes at `offset`; when the range
/// exceeds the buffer the read fails without touching it.
pub fn read_slice(buf: &[u8], offset: u64, size: u64) -> (r: ArchiveResult<Vec<u8>>)
    ensures
        match r {
            Ok(v) => offset + size <= buf@.len() && v@ == buf@.subrange(
                offset as int,
                offset + size,
            ),
            Err(e) => offset + size > buf@.len() && e == (ArchiveError::OutOfBounds {
                offset,
                size,
                buffer_len: buf@.len() as usize,
            }),
        },
{
    let len = buf.len();
    if offset > len as u64 || size > len as u64 - offset {
        return Err(ArchiveError::OutOfBounds { offset, size, buffer_len: len });
    }
    let start = offset as usize;
    let end = start + size as usize;
    Ok(vstd::slice::slice_to_vec(vstd::slice::slice_subrange(buf, start, end)))
}

/// The interface every container parser offers: a full parse of the
/// member index, and a bounds-checked read of a member's byte range.
pub trait ArcReader: Sized {
    /// The exact result of parsing the given buffer.
    spec fn parse_spec(s: Seq<u8>) -> ArchiveResult<Seq<MemberView>>;

    fn new() -> Self;

    /// Appends the parsed member index to `files`; on a structural parse
    /// failure nothing is appended and the single terminal error is
    /// returned.
    fn read_archive(buf: &[u8], files: &mut Vec<MemberFile>) -> (r: ArchiveResult<()>)
        ensures
            match Self::parse_spec(buf@) {
                Ok(ms) => r is Ok && member_views(final(files)@) == member_views(old(files)@) + ms,
                Err(e) => r == Err::<(), ArchiveError>(e) && final(files)@ == old(files)@,
            },
    ;

    /// Reads `size` raw bytes at `offset`, failing with `OutOfBounds`
    /// when the range exceeds the buffer.
    fn read_data(buf: &[u8], offset: u64, size: u64) -> (r: ArchiveResult<Vec<u8>>)
        ensures
            match r {
                Ok(v) => offset + size <= buf@.len() && v@ == buf@.subrange(
                    offset as int,
                    offset + size,
                ),
                Err(e) => offset + size > buf@.len() && e == (ArchiveError::OutOfBounds {
                    offset,
                    size,
                    buffer_len: buf@.len() as usize,
                }),
            },
    ;
}

/// The description each error kind shows the user; the three
/// user-facing categories (unsupported archive, corrupted archive,
/// image decoding) stay distinct.
pub open spec fn message_spec(e: ArchiveError) -> Seq<char> {
    match e {
        ArchiveError::IoError => "ファイル読み取りエラー"@,
        ArchiveError::UnsupportedFormat => "サポートされていないアーカイブ形式"@,
        ArchiveError::CorruptedArchive => "破損したアーカイブファイル"@,
        ArchiveError::InvalidFileSize { .. } => "ファイルサイズが不正です"@,
        ArchiveError::HeaderParseError => "ヘッダー解析エラー"@,
        ArchiveError::StringConversionError => "文字列変換エラー"@,
        ArchiveError::DecompressionError => "圧縮解除エラー"@,
        ArchiveError::OutOfBounds { .. } => "範囲外アクセス"@,
        ArchiveError::ImageError => "画像処理エラー"@,
    }
}

impl ArchiveError {
    /// A short human-readable description of the error kind, as
    /// `message_spec` fixes it.
    pub fn message(&self) -> (r: String)
        ensures
            r@ == message_spec(*self),
            r@.len() > 0,
    {
        let s: &str = match self {
            ArchiveError::IoError => "ファイル読み取りエラー",
            ArchiveError::UnsupportedFormat => "サポートされていないアーカイブ形式",
            ArchiveError::CorruptedArchive => "破損したアーカイブファイル",
            ArchiveError::InvalidFileSize { .. } => "ファイルサイズが不正です",
            ArchiveError::HeaderParseError => "ヘッダー解析エラー",
            ArchiveError::StringConversionError => "文字列変換エラー",
            ArchiveError::DecompressionError => "圧縮解除エラー",
            ArchiveError::OutOfBounds { .. } => "範囲外アクセス",
            ArchiveError::ImageError => "画像処理エラー",
        };
        proof {
            reveal_strlit("ファイル読み取りエラー");
            reveal_strlit("サポートされていないアーカイブ形式");
            reveal_strlit("破損したアーカイブファイル");
            reveal_strlit("ファイルサイズが不正です");
            reveal_strlit("ヘッダー解析エラー");
            reveal_strlit("文字列変換エラー");
            reveal_strlit("圧縮解除エラー");
            reveal_strlit("範囲外アクセス");
            reveal_strlit("画像処理エラー");
        }
        s.to_owned()
    }
}

} // verus!
