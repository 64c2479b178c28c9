//! Bounds-checked raw-Deflate decompression of a byte range.

use std::io::Read;

use vstd::prelude::*;

use crate::archive_reader::{ArchiveError, ArchiveResult};

verus! {

/// What flate2's raw-Deflate decoder produces for the given stream, or
/// `None` when the stream is malformed; the result depends on the input
/// bytes alone.
pub uninterp spec fn inflate_of(s: Seq<u8>) -> Option<Seq<u8>>;

/// Relies on `flate2::read::DeflateDecoder::read_to_end`: decoding a raw
/// Deflate stream is a pure function of the input bytes.
#[verifier::external_body]
pub(crate) fn inflate_bytes(data: &[u8]) -> (r: Option<Vec<u8>>)
    ensures
        match r {
            Some(v) => inflate_of(data@) == Some(v@),
            None => inflate_of(data@) is None,
        },
{
    let mut decoder = flate2::read::DeflateDecoder::new(data);
    let mut out = Vec::new();
    match decoder.read_to_end(&mut out) {
        Ok(_) => Some(out),
        Err(_) => None,
    }
}

/// The outcome of decompressing the Deflate stream in `[offset, offset+size)`.
pub open spec fn uncomp_deflate_spec(s: Seq<u8>, offset: u64, size: u64) -> ArchiveResult<
    Seq<u8>,
> {
    if offset + size > s.len() {
        Err(ArchiveError::OutOfBounds { offset, size, buffer_len: s.len() as usize })
    } else {
        match inflate_of(s.subrange(offset as int, offset + size)) {
            Some(d) => Ok(d),
            None => Err(ArchiveError::DecompressionError),
        }
    }
}

/// Decompresses the raw-Deflate stream stored at `[offset, offset+size)`.
/// Fails with `OutOfBounds` before touching the buffer when the range
/// exceeds it, and with `DecompressionError` when the stream is
/// malformed.
pub fn uncomp_deflate(buf: &[u8], offset: u64, size: u64) -> (r: ArchiveResult<Vec<u8>>)
    ensures
        match r {
            Ok(v) => uncomp_deflate_spec(buf@, offset, size) == Ok::<Seq<u8>, ArchiveError>(v@),
            Err(e) => uncomp_deflate_spec(buf@, offset, size) == Err::<Seq<u8>, ArchiveError>(e),
        },
{
    let len = buf.len();
    if offset > len as u64 || size > len as u64 - offset {
        return Err(ArchiveError::OutOfBounds { offset, size, buffer_len: len });
    }
    let start = offset as usize;
    let end = start + size as usize;
    let src = vstd::slice::slice_subrange(buf, start, end);
    match inflate_bytes(src) {
        Some(data) => Ok(data),
        None => Err(ArchiveError::DecompressionError),
    }
}

} // verus!
