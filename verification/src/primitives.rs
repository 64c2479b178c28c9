//! Binary primitives: fixed-width little-endian readers and the base-128
//! variable-length integer ("vint") codec used by the RAR5 parser.

use vstd::prelude::*;

use crate::archive_reader::{ArchiveError, ArchiveResult};

verus! {

/// The two-byte little-endian integer at `pos`.
pub open spec fn u16_le_spec(s: Seq<u8>, pos: int) -> int {
    s[pos + 1] * 0x100 + s[pos]
}

/// The four-byte little-endian integer at `pos`.
pub open spec fn u32_le_spec(s: Seq<u8>, pos: int) -> int {
    s[pos + 3] * 0x100_0000 + s[pos + 2] * 0x1_0000 + s[pos + 1] * 0x100 + s[pos]
}

/// Reads the two-byte little-endian field at `pos`; callers must have
/// bounds-checked the access already.
pub fn read_u16_le(data: &[u8], pos: usize) -> (r: u16)
    requires
        pos + 2 <= data@.len(),
    ensures
        r == u16_le_spec(data@, pos as int),
{
    // Binding the length keeps the slice's usize bound in scope for the
    // index arithmetic.
    let len = data.len();
    (data[pos + 1] as u16) * 0x100 + (data[pos] as u16)
}

/// Reads the four-byte little-endian field at `pos`; callers must have
/// bounds-checked the access already.
pub fn read_u32_le(data: &[u8], pos: usize) -> (r: u32)
    requires
        pos + 4 <= data@.len(),
    ensures
        r == u32_le_spec(data@, pos as int),
{
    let len = data.len();
    (data[pos + 3] as u32) * 0x100_0000 + (data[pos + 2] as u32) * 0x1_0000
        + (data[pos + 1] as u32) * 0x100 + (data[pos] as u32)
}

/// How many continuation bytes (high bit set) stand at `pos`, counting at
/// most `max` and stopping at the end of the buffer.
pub open spec fn vint_cont_len(s: Seq<u8>, pos: int, max: int) -> int
    decreases max,
{
    if max <= 0 {
        0
    } else if pos < s.len() && s[pos] >= 0x80 {
        1 + vint_cont_len(s, pos + 1, max - 1)
    } else {
        0
    }
}

/// The value of the `n`-byte group at `pos`: the low seven bits of each
/// byte, least-significant byte first, truncated to 64 bits.
pub open spec fn vint_val(s: Seq<u8>, pos: int, n: int) -> u64
    decreases n,
{
    if n <= 0 {
        0u64
    } else {
        vint_val(s, pos, n - 1) | (((s[pos + n - 1] & 0x7f) as u64) << ((7 * (n - 1)) as u64))
    }
}

/// The exact outcome of decoding a vint at `pos`: the value and the number
/// of bytes consumed, or the error the decoder reports.
pub open spec fn vint_result(s: Seq<u8>, pos: int) -> ArchiveResult<(u64, u8)> {
    let c = vint_cont_len(s, pos, 10);
    if c == 10 {
        Err(ArchiveError::CorruptedArchive)
    } else if pos + c >= s.len() {
        Err(ArchiveError::OutOfBounds {
            offset: pos as u64,
            size: (c + 1) as u64,
            buffer_len: s.len() as usize,
        })
    } else {
        Ok((vint_val(s, pos, c + 1), (c + 1) as u8))
    }
}

/// The base-128 encoding of `v`: seven value bits per byte, least
/// significant first, the high bit marking continuation.
pub open spec fn vint_enc(v: u64) -> Seq<u8>
    decreases v,
{
    if v < 0x80 {
        seq![v as u8]
    } else {
        seq![(v % 0x80 + 0x80) as u8] + vint_enc(v / 0x80)
    }
}

/// `128^k`.
pub open spec fn pow128(k: int) -> int
    decreases k,
{
    if k <= 0 {
        1
    } else {
        128 * pow128(k - 1)
    }
}

proof fn lemma_vint_enc_len(v: u64, k: int)
    requires
        1 <= k,
        v < pow128(k),
    ensures
        vint_enc(v).len() <= k,
    decreases v,
{
    if v >= 0x80 {
        assert(v / 0x80 < pow128(k - 1)) by (nonlinear_arith)
            requires
                v < 128 * pow128(k - 1),
                pow128(k - 1) >= 1,
        ;
        lemma_vint_enc_len(v / 0x80, k - 1);
    }
}

proof fn lemma_pow128_pos(k: int)
    ensures
        pow128(k) >= 1,
    decreases k,
{
    if k > 0 {
        lemma_pow128_pos(k - 1);
    }
}

/// The shape of an encoding: one to ten bytes, all but the last with
/// the continuation bit set and the last without it.
proof fn lemma_vint_enc_shape(v: u64)
    ensures
        1 <= vint_enc(v).len() <= 10,
        vint_enc(v)[vint_enc(v).len() - 1] < 0x80,
        forall|j: int| 0 <= j < vint_enc(v).len() - 1 ==> #[trigger] vint_enc(v)[j] >= 0x80,
    decreases v,
{
    reveal_with_fuel(pow128, 11);
    lemma_pow128_pos(9);
    assert(v < pow128(10));
    lemma_vint_enc_len(v, 10);
    if v >= 0x80 {
        lemma_vint_enc_shape(v / 0x80);
        let e = vint_enc(v);
        let e1 = vint_enc(v / 0x80);
        assert(e[0] >= 0x80);
        assert forall|j: int| 0 <= j < e.len() - 1 implies #[trigger] e[j] >= 0x80 by {
            if j > 0 {
                assert(e[j] == e1[j - 1]);
            }
        }
        assert(e[e.len() - 1] == e1[e1.len() - 1]);
    }
}

proof fn lemma_vint_val_head(s: Seq<u8>, pos: int, n: int)
    requires
        1 <= n <= 10,
    ensures
        vint_val(s, pos, n) == (((s[pos] & 0x7f) as u64) | (vint_val(s, pos + 1, n - 1)
            << 7u64)),
    decreases n,
{
    let a = (s[pos] & 0x7f) as u64;
    if n == 1 {
        assert(vint_val(s, pos, 0) == 0u64);
        assert(vint_val(s, pos + 1, 0) == 0u64);
        assert((7 * (n - 1)) as u64 == 0u64);
        assert(0u64 | (a << 0u64) == a | (0u64 << 7u64)) by (bit_vector);
        assert(vint_val(s, pos, 1) == 0u64 | (a << 0u64));
    } else {
        lemma_vint_val_head(s, pos, n - 1);
        let w = vint_val(s, pos + 1, n - 2);
        let x = (s[pos + n - 1] & 0x7f) as u64;
        let s2: u64 = (7 * (n - 2)) as u64;
        assert((a | (w << 7u64)) | (x << ((s2 + 7) as u64)) == a | ((w | (x << s2)) << 7u64))
            by (bit_vector)
            requires
                s2 <= 56u64,
        ;
        assert((7 * (n - 1)) as u64 == (s2 + 7) as u64);
        assert(vint_val(s, pos + 1, n - 1) == w | (x << s2));
        assert(vint_val(s, pos, n) == vint_val(s, pos, n - 1) | (x << ((7 * (n - 1)) as u64)));
        assert(vint_val(s, pos, n - 1) == a | (w << 7u64));
    }
}

proof fn lemma_vint_val_enc(v: u64, s: Seq<u8>, pos: int)
    requires
        0 <= pos,
        pos + vint_enc(v).len() <= s.len(),
        s.subrange(pos, pos + vint_enc(v).len() as int) == vint_enc(v),
    ensures
        vint_val(s, pos, vint_enc(v).len() as int) == v,
    decreases v,
{
    let e = vint_enc(v);
    lemma_vint_enc_shape(v);
    assert(s[pos] == e[0]) by {
        assert(s.subrange(pos, pos + e.len() as int)[0] == e[0]);
    }
    if v < 0x80 {
        let b0 = v as u8;
        assert(0u64 | (((b0 & 0x7f) as u64) << 0u64) == v) by (bit_vector)
            requires
                v < 0x80,
                b0 == v as u8,
        ;
        assert(vint_val(s, pos, 0) == 0u64);
        assert((7 * 0) as u64 == 0u64);
        assert(vint_val(s, pos, 1) == 0u64 | (((s[pos] & 0x7f) as u64) << 0u64));
        assert(s[pos] == b0);
    } else {
        let e1 = vint_enc(v / 0x80);
        assert forall|j: int| 0 <= j < e1.len() implies s.subrange(
            pos + 1,
            pos + 1 + e1.len() as int,
        )[j] == e1[j] by {
            assert(s.subrange(pos, pos + e.len() as int)[j + 1] == e[j + 1]);
            assert(e[j + 1] == e1[j]);
        }
        assert(s.subrange(pos + 1, pos + 1 + e1.len() as int) =~= e1);
        lemma_vint_val_enc(v / 0x80, s, pos + 1);
        lemma_vint_val_head(s, pos, e.len() as int);
        let b0 = e[0];
        let w = v / 0x80;
        assert(((b0 & 0x7f) as u64) | (w << 7u64) == v) by (bit_vector)
            requires
                v >= 0x80,
                b0 == (v % 0x80 + 0x80) as u8,
                w == v / 0x80,
        ;
    }
}

proof fn lemma_cont_len_shrink(s: Seq<u8>, pos: int, m1: int, m2: int)
    requires
        0 <= vint_cont_len(s, pos, m2) < m1 <= m2,
    ensures
        vint_cont_len(s, pos, m1) == vint_cont_len(s, pos, m2),
    decreases m2,
{
    if pos < s.len() && s[pos] >= 0x80 {
        lemma_vint_cont_len_range(s, pos + 1, m2 - 1);
        lemma_cont_len_shrink(s, pos + 1, m1 - 1, m2 - 1);
    }
}

/// Round trip: wherever the encoding of `v` stands in a buffer, the
/// decoder reproduces `v` exactly and reports the encoding's length as
/// the consumed byte count.
pub proof fn lemma_vint_round_trip(v: u64, s: Seq<u8>, pos: int)
    requires
        0 <= pos,
        pos + vint_enc(v).len() <= s.len(),
        s.subrange(pos, pos + vint_enc(v).len() as int) == vint_enc(v),
    ensures
        vint_result(s, pos) == Ok::<(u64, u8), ArchiveError>((v, vint_enc(v).len() as u8)),
    decreases v,
{
    let e = vint_enc(v);
    lemma_vint_enc_shape(v);
    assert(s[pos] == e[0]) by {
        assert(s.subrange(pos, pos + e.len() as int)[0] == e[0]);
    }
    lemma_vint_val_enc(v, s, pos);
    if v < 0x80 {
        assert(vint_cont_len(s, pos, 10) == 0);
    } else {
        let e1 = vint_enc(v / 0x80);
        assert forall|j: int| 0 <= j < e1.len() implies s.subrange(
            pos + 1,
            pos + 1 + e1.len() as int,
        )[j] == e1[j] by {
            assert(s.subrange(pos, pos + e.len() as int)[j + 1] == e[j + 1]);
            assert(e[j + 1] == e1[j]);
        }
        assert(s.subrange(pos + 1, pos + 1 + e1.len() as int) =~= e1);
        lemma_vint_round_trip(v / 0x80, s, pos + 1);
        lemma_vint_enc_shape(v / 0x80);
        lemma_vint_cont_len_range(s, pos + 1, 10);
        assert(vint_cont_len(s, pos + 1, 10) == e1.len() - 1);
        lemma_cont_len_shrink(s, pos + 1, 9, 10);
        assert(vint_cont_len(s, pos, 10) == 1 + vint_cont_len(s, pos + 1, 9));
    }
}

/// Encodes `v` as a base-128 vint, as `vint_enc` describes.
#[verifier::loop_isolation(false)]
pub fn encode_vint(v: u64) -> (r: Vec<u8>)
    ensures
        r@ == vint_enc(v),
{
    let mut out: Vec<u8> = Vec::new();
    let mut x = v;
    loop
        invariant
            vint_enc(v) == out@ + vint_enc(x),
        decreases x,
    {
        let ghost out_before = out@;
        if x < 0x80 {
            out.push(x as u8);
            proof {
                assert(out@ =~= out_before + vint_enc(x));
            }
            return out;
        }
        out.push((x % 0x80 + 0x80) as u8);
        proof {
            assert(out@ + vint_enc(x / 0x80) =~= out_before + vint_enc(x));
        }
        x = x / 0x80;
    }
}

proof fn lemma_vint_cont_len_range(s: Seq<u8>, pos: int, max: int)
    requires
        max >= 0,
    ensures
        0 <= vint_cont_len(s, pos, max) <= max,
    decreases max,
{
    if max > 0 && pos < s.len() && s[pos] >= 0x80 {
        lemma_vint_cont_len_range(s, pos + 1, max - 1);
    }
}

/// A successful vint decode consumed between one and ten bytes, all of
/// them inside the buffer.
pub broadcast proof fn lemma_vint_ok_bounds(s: Seq<u8>, pos: int)
    ensures
        #[trigger] vint_result(s, pos) is Ok ==> ({
            let l = vint_result(s, pos)->Ok_0.1;
            1 <= l <= 10 && pos + l <= s.len()
        }),
{
    lemma_vint_cont_len_range(s, pos, 10);
}

/// Decodes a base-128 variable-length integer at `pos`: each byte holds
/// seven value bits, low byte first, and the high bit is a continuation
/// flag.  Fails with `OutOfBounds` when the buffer ends before a byte with
/// the high bit clear, and with `CorruptedArchive` when ten continuation
/// bytes appear (the value would exceed 64 bits).
pub fn read_vint(data: &[u8], pos: usize) -> (r: ArchiveResult<(u64, u8)>)
    ensures
        r == vint_result(data@, pos as int),
{
    let ghost s = data@;
    let mut val: u64 = 0;
    let mut i: usize = 0;
    loop
        invariant
            i <= 10,
            pos + i <= usize::MAX,
            vint_cont_len(s, pos as int, 10) == i + vint_cont_len(s, pos + i, 10 - i),
            val == vint_val(s, pos as int, i as int),
            s == data@,
        decreases 10 - i,
    {
        if i == 10 {
            return Err(ArchiveError::CorruptedArchive);
        }
        if pos >= data.len() || data.len() - pos <= i {
            assert(vint_cont_len(s, pos + i, 10 - i) == 0);
            return Err(ArchiveError::OutOfBounds {
                offset: pos as u64,
                size: (i + 1) as u64,
                buffer_len: data.len(),
            });
        }
        let d = data[pos + i];
        let chunk = (d & 0x7f) as u64;
        let shift = 7 * (i as u64);
        val = val | (chunk << shift);
        assert(val == vint_val(s, pos as int, i + 1));
        if d & 0x80 != 0x80 {
            proof {
                assert(d < 0x80) by (bit_vector)
                    requires
                        d & 0x80 != 0x80,
                ;
                assert(vint_cont_len(s, pos + i, 10 - i) == 0);
            }
            return Ok((val, (i + 1) as u8));
        }
        proof {
            assert(d >= 0x80) by (bit_vector)
                requires
                    d & 0x80 == 0x80,
            ;
            assert(vint_cont_len(s, pos + i, 10 - i) == 1 + vint_cont_len(
                s,
                pos + i + 1,
                10 - i - 1,
            ));
        }
        i = i + 1;
    }
}

} // verus!
