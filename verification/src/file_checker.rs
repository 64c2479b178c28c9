//! Signature detection: classifies a buffer as ZIP, RAR4, RAR5 or
//! unsupported by its leading magic bytes.

use vstd::prelude::*;

use crate::archive_reader::{ArchiveError, ArchiveResult};

verus! {

/// The ZIP local-file-header magic.
pub open spec fn zip_sig() -> Seq<u8> {
    seq![0x50u8, 0x4b, 0x03, 0x04]
}

/// The RAR4 archive magic.
pub open spec fn rar4_sig() -> Seq<u8> {
    seq![0x52u8, 0x61, 0x72, 0x21, 0x1a, 0x07, 0x00]
}

/// The RAR5 archive magic.
pub open spec fn rar5_sig() -> Seq<u8> {
    seq![0x52u8, 0x61, 0x72, 0x21, 0x1a, 0x07, 0x01, 0x00]
}

/// True when `s` begins with the bytes of `p`.
pub open spec fn starts_with(s: Seq<u8>, p: Seq<u8>) -> bool {
    p.len() <= s.len() && s.subrange(0, p.len() as int) == p
}

/// The container formats this crate recognizes.
#[derive(Debug, PartialEq, Eq, Structural, Clone, Copy)]
pub enum FileType {
    Zip,
    Rar5,
    Rar4,
    Unsupported,
}

/// Classification of a buffer by its leading bytes.  RAR5 is tested before
/// RAR4 because the RAR5 magic extends the first six bytes of the RAR4 one.
pub open spec fn file_type_spec(s: Seq<u8>) -> ArchiveResult<FileType> {
    if s.len() == 0 {
        Err(ArchiveError::CorruptedArchive)
    } else if starts_with(s, rar5_sig()) {
        Ok(FileType::Rar5)
    } else if starts_with(s, rar4_sig()) {
        Ok(FileType::Rar4)
    } else if starts_with(s, zip_sig()) {
        Ok(FileType::Zip)
    } else {
        Ok(FileType::Unsupported)
    }
}

/// True when the buffer begins with the given signature.
pub fn check_signature(data: &[u8], signature: &[u8]) -> (r: bool)
    ensures
        r == starts_with(data@, signature@),
{
    let n = signature.len();
    if data.len() < n {
        return false;
    }
    let mut i: usize = 0;
    while i < n
        invariant
            i <= n,
            n == signature@.len(),
            n <= data@.len(),
            forall|j: int| 0 <= j < i ==> data@[j] == signature@[j],
        decreases n - i,
    {
        if data[i] != signature[i] {
            assert(data@.subrange(0, n as int)[i as int] != signature@[i as int]);
            return false;
        }
        i = i + 1;
    }
    assert(data@.subrange(0, n as int) =~= signature@);
    true
}

/// True when the bytes of `sig` stand at position `i` of `s`.
pub open spec fn sig_at(s: Seq<u8>, sig: Seq<u8>, i: int) -> bool {
    s.subrange(i, i + sig.len()) == sig
}

/// The first position at or after `i` where `sig` occurs in `s`, if any.
pub open spec fn find_sig_spec(s: Seq<u8>, sig: Seq<u8>, i: int) -> Option<int>
    decreases s.len() - i,
{
    if i < 0 || sig.len() <= 0 || i + sig.len() > s.len() {
        None
    } else if sig_at(s, sig, i) {
        Some(i)
    } else {
        find_sig_spec(s, sig, i + 1)
    }
}

pub proof fn lemma_find_sig_bounds(s: Seq<u8>, sig: Seq<u8>, i: int)
    requires
        find_sig_spec(s, sig, i) is Some,
    ensures
        ({
            let p = find_sig_spec(s, sig, i)->Some_0;
            i <= p && 0 <= p && p + sig.len() <= s.len() && sig_at(s, sig, p)
        }),
    decreases s.len() - i,
{
    if !(i < 0 || sig.len() <= 0 || i + sig.len() > s.len()) && !sig_at(s, sig, i) {
        lemma_find_sig_bounds(s, sig, i + 1);
    }
}

/// True when `sig` stands at position `i`; the caller guarantees the
/// window fits the buffer.
pub fn sig_match_at(data: &[u8], sig: &[u8], i: usize) -> (r: bool)
    requires
        i + sig@.len() <= data@.len(),
    ensures
        r == sig_at(data@, sig@, i as int),
{
    let n = sig.len();
    let dlen = data.len();
    let mut j: usize = 0;
    while j < n
        invariant
            j <= n,
            n == sig@.len(),
            dlen == data@.len(),
            i + n <= data@.len(),
            forall|k: int| 0 <= k < j ==> data@[i + k] == sig@[k],
        decreases n - j,
    {
        if data[i + j] != sig[j] {
            assert(data@.subrange(i as int, i + n)[j as int] != sig@[j as int]);
            return false;
        }
        j = j + 1;
    }
    assert(data@.subrange(i as int, i + n) =~= sig@);
    true
}

/// Scans the buffer for the first occurrence of `sig`, as the embedded
/// signature search of the RAR readers does; returns its position and
/// whether one was found.
#[verifier::loop_isolation(false)]
pub fn find_signature(data: &[u8], sig: &[u8]) -> (r: (usize, bool))
    ensures
        r == match find_sig_spec(data@, sig@, 0) {
            Some(p) => (p as usize, true),
            None => (0usize, false),
        },
{
    let n = sig.len();
    let len = data.len();
    if n == 0 || n > len {
        return (0, false);
    }
    let mut i: usize = 0;
    while i <= len - n
        invariant
            i <= len - n + 1,
            find_sig_spec(data@, sig@, 0) == find_sig_spec(data@, sig@, i as int),
        decreases len - i,
    {
        if sig_match_at(data, sig, i) {
            return (i, true);
        }
        i = i + 1;
    }
    (0, false)
}

/// Classifies the buffer by its leading magic bytes; an empty buffer is a
/// corrupted archive, and unknown magic is `Unsupported` rather than an
/// error.
pub fn check_file_type(buf: &[u8]) -> (r: ArchiveResult<FileType>)
    ensures
        r == file_type_spec(buf@),
{
    if buf.is_empty() {
        return Err(ArchiveError::CorruptedArchive);
    }
    let rar5: [u8; 8] = [0x52, 0x61, 0x72, 0x21, 0x1a, 0x07, 0x01, 0x00];
    let rar4: [u8; 7] = [0x52, 0x61, 0x72, 0x21, 0x1a, 0x07, 0x00];
    let zip: [u8; 4] = [0x50, 0x4b, 0x03, 0x04];
    proof {
        assert(rar5@ =~= rar5_sig());
        assert(rar4@ =~= rar4_sig());
        assert(zip@ =~= zip_sig());
    }
    if check_signature(buf, rar5.as_slice()) {
        Ok(FileType::Rar5)
    } else if check_signature(buf, rar4.as_slice()) {
        Ok(FileType::Rar4)
    } else if check_signature(buf, zip.as_slice()) {
        Ok(FileType::Zip)
    } else {
        Ok(FileType::Unsupported)
    }
}

} // verus!
