//! Text helpers: member-name decoding (UTF-8 with legacy code-page
//! fallbacks), ASCII case folding, path splitting and decimal formatting.

use vstd::prelude::*;
use vstd::utf8::{decode_utf8, valid_utf8};

verus! {

/// What `encoding_rs`'s IBM866 decoder returns for the given bytes, or
/// `None` when it reports errors; the result depends on the bytes alone.
pub uninterp spec fn cp866_decode(s: Seq<u8>) -> Option<Seq<char>>;

/// What `encoding_rs`'s Shift-JIS decoder returns for the given bytes
/// (with its replacement characters); the result depends on the bytes
/// alone.
pub uninterp spec fn sjis_chars(s: Seq<u8>) -> Seq<char>;

/// What `encoding_rs`'s windows-1252 decoder returns for the given bytes
/// (with its replacement characters); the result depends on the bytes
/// alone.
pub uninterp spec fn latin1_chars(s: Seq<u8>) -> Seq<char>;

/// Relies on `core::str::from_utf8`: it succeeds exactly on valid UTF-8
/// input, and the characters are the ones the bytes encode.
#[verifier::external_body]
pub(crate) fn bytes_to_utf8(v: &[u8]) -> (r: Option<String>)
    ensures
        r is Some <==> valid_utf8(v@),
        r is Some ==> r.unwrap()@ == decode_utf8(v@),
{
    match core::str::from_utf8(v) {
        Ok(s) => Some(s.to_string()),
        Err(_) => None,
    }
}

/// Relies on `encoding_rs::IBM866::decode`: a pure function of the input
/// bytes; the third component of its result reports decoding errors.
#[verifier::external_body]
pub(crate) fn bytes_to_cp866(v: &[u8]) -> (r: Option<String>)
    ensures
        match r {
            Some(s) => cp866_decode(v@) == Some(s@),
            None => cp866_decode(v@) is None,
        },
{
    let (decoded, _, had_errors) = encoding_rs::IBM866.decode(v);
    if had_errors {
        None
    } else {
        Some(decoded.into_owned())
    }
}

/// Relies on `encoding_rs::SHIFT_JIS::decode`: a pure function of the
/// input bytes that always produces text, substituting replacement
/// characters for undecodable input.
#[verifier::external_body]
pub(crate) fn bytes_to_sjis(v: &[u8]) -> (r: String)
    ensures
        r@ == sjis_chars(v@),
{
    let (decoded, _, _) = encoding_rs::SHIFT_JIS.decode(v);
    decoded.into_owned()
}

/// Relies on `encoding_rs::WINDOWS_1252::decode`: a pure function of the
/// input bytes that always produces text, substituting replacement
/// characters for undecodable input.
#[verifier::external_body]
pub(crate) fn bytes_to_latin1(v: &[u8]) -> (r: String)
    ensures
        r@ == latin1_chars(v@),
{
    let (decoded, _, _) = encoding_rs::WINDOWS_1252.decode(v);
    decoded.into_owned()
}

/// True for the ASCII decimal digits.
pub open spec fn is_digit(c: char) -> bool {
    48 <= c as u32 <= 57
}

/// ASCII lower-casing of one character; other characters are unchanged.
pub open spec fn lower_char(c: char) -> char {
    if 65 <= c as u32 <= 90 {
        (((c as u8) + 32) as char)
    } else {
        c
    }
}

/// ASCII lower-casing of a character sequence.
pub open spec fn lower_seq(s: Seq<char>) -> Seq<char> {
    s.map_values(|c: char| lower_char(c))
}

/// ASCII lower-casing of one character.
pub fn lower_char_exec(c: char) -> (r: char)
    ensures
        r == lower_char(c),
{
    let u = c as u32;
    if 65 <= u && u <= 90 {
        ((c as u8) + 32) as char
    } else {
        c
    }
}

/// True for the two path separators member paths may use.
pub open spec fn is_sep(c: char) -> bool {
    c == '/' || c == '\\'
}

/// The base name of a path: the text after the last path separator, or
/// the whole path when it has none.
pub open spec fn base_name_spec(s: Seq<char>) -> Seq<char>
    decreases s.len(),
{
    if s.len() == 0 {
        s
    } else if is_sep(s.last()) {
        Seq::empty()
    } else {
        base_name_spec(s.drop_last()).push(s.last())
    }
}

/// Extracts the base name of a member path.
pub fn base_name(path: &str) -> (r: String)
    ensures
        r@ == base_name_spec(path@),
{
    let n = path.unicode_len();
    let mut k: usize = n;
    while k > 0
        invariant
            k <= n,
            n == path@.len(),
            forall|j: int| k <= j < n ==> !is_sep(#[trigger] path@[j]),
        decreases k,
    {
        let c = path.get_char(k - 1);
        if c == '/' || c == '\\' {
            proof {
                lemma_base_name_after_sep(path@, k - 1);
            }
            let tail = path.substring_char(k, n);
            return tail.to_owned();
        }
        k = k - 1;
    }
    proof {
        lemma_base_name_no_sep(path@);
    }
    path.to_owned()
}

proof fn lemma_base_name_after_sep(s: Seq<char>, k: int)
    requires
        0 <= k < s.len(),
        is_sep(s[k]),
        forall|j: int| k < j < s.len() ==> !is_sep(#[trigger] s[j]),
    ensures
        base_name_spec(s) == s.subrange(k + 1, s.len() as int),
    decreases s.len() - k,
{
    if k == s.len() - 1 {
        assert(base_name_spec(s) =~= s.subrange(k + 1, s.len() as int));
    } else {
        let prefix = s.drop_last();
        assert(prefix[k] == s[k]);
        lemma_base_name_after_sep(prefix, k);
        assert(base_name_spec(s) == base_name_spec(prefix).push(s.last()));
        assert(base_name_spec(s) =~= s.subrange(k + 1, s.len() as int));
    }
}

proof fn lemma_base_name_no_sep(s: Seq<char>)
    requires
        forall|j: int| 0 <= j < s.len() ==> !is_sep(#[trigger] s[j]),
    ensures
        base_name_spec(s) == s,
    decreases s.len(),
{
    if s.len() > 0 {
        lemma_base_name_no_sep(s.drop_last());
        assert(base_name_spec(s) =~= s);
    }
}

/// The text after the last dot of `name`, or `None` when it has no dot.
pub open spec fn ext_of(name: Seq<char>) -> Option<Seq<char>>
    decreases name.len(),
{
    if name.len() == 0 {
        None
    } else if name.last() == '.' {
        Some(Seq::empty())
    } else {
        match ext_of(name.drop_last()) {
            Some(e) => Some(e.push(name.last())),
            None => None,
        }
    }
}

proof fn lemma_ext_of_after_dot(s: Seq<char>, k: int)
    requires
        0 <= k < s.len(),
        s[k] == '.',
        forall|j: int| k < j < s.len() ==> s[j] != '.',
    ensures
        ext_of(s) == Some(s.subrange(k + 1, s.len() as int)),
    decreases s.len() - k,
{
    if k == s.len() - 1 {
        assert(ext_of(s)->Some_0 =~= s.subrange(k + 1, s.len() as int));
    } else {
        let prefix = s.drop_last();
        assert(prefix[k] == s[k]);
        lemma_ext_of_after_dot(prefix, k);
        assert(ext_of(s)->Some_0 =~= s.subrange(k + 1, s.len() as int));
    }
}

proof fn lemma_ext_of_no_dot(s: Seq<char>)
    requires
        forall|j: int| 0 <= j < s.len() ==> s[j] != '.',
    ensures
        ext_of(s) is None,
    decreases s.len(),
{
    if s.len() > 0 {
        lemma_ext_of_no_dot(s.drop_last());
    }
}

/// Extracts the text after the last dot of `name`, as `ext_of`
/// describes.
pub fn extension_of(name: &str) -> (r: Option<&str>)
    ensures
        match r {
            Some(e) => ext_of(name@) == Some(e@),
            None => ext_of(name@) is None,
        },
{
    let n = name.unicode_len();
    let mut k: usize = n;
    while k > 0
        invariant
            k <= n,
            n == name@.len(),
            forall|j: int| k <= j < n ==> name@[j] != '.',
        decreases k,
    {
        let c = name.get_char(k - 1);
        if c == '.' {
            proof {
                lemma_ext_of_after_dot(name@, k - 1);
            }
            return Some(name.substring_char(k, n));
        }
        k = k - 1;
    }
    proof {
        lemma_ext_of_no_dot(name@);
    }
    None
}

/// True when `a` and `b` are equal up to ASCII case.
pub fn str_eq_ignore_case(a: &str, b: &str) -> (r: bool)
    ensures
        r == (lower_seq(a@) == lower_seq(b@)),
{
    let n = a.unicode_len();
    let m = b.unicode_len();
    if n != m {
        assert(lower_seq(a@).len() != lower_seq(b@).len());
        return false;
    }
    let mut i: usize = 0;
    while i < n
        invariant
            i <= n,
            n == a@.len(),
            n == b@.len(),
            forall|j: int| 0 <= j < i ==> lower_char(a@[j]) == lower_char(b@[j]),
        decreases n - i,
    {
        let ca = lower_char_exec(a.get_char(i));
        let cb = lower_char_exec(b.get_char(i));
        if ca != cb {
            assert(lower_seq(a@)[i as int] != lower_seq(b@)[i as int]);
            return false;
        }
        i = i + 1;
    }
    assert(lower_seq(a@) =~= lower_seq(b@));
    true
}

/// True when `s` ends with the characters of `p`.
pub open spec fn ends_with(s: Seq<char>, p: Seq<char>) -> bool {
    p.len() <= s.len() && s.subrange(s.len() - p.len(), s.len() as int) == p
}

/// True when `s`, lower-cased, ends with `suffix` (given lower case).
pub fn str_ends_with_lower(s: &str, suffix: &str) -> (r: bool)
    ensures
        r == ends_with(lower_seq(s@), suffix@),
{
    let n = s.unicode_len();
    let m = suffix.unicode_len();
    if m > n {
        return false;
    }
    let base = n - m;
    let mut i: usize = 0;
    while i < m
        invariant
            i <= m,
            m <= n,
            base == n - m,
            n == s@.len(),
            m == suffix@.len(),
            forall|j: int| 0 <= j < i ==> lower_char(s@[base + j]) == suffix@[j],
        decreases m - i,
    {
        let c = lower_char_exec(s.get_char(base + i));
        let d = suffix.get_char(i);
        if c != d {
            assert(lower_seq(s@).subrange(n - m, n as int)[i as int] != suffix@[i as int]);
            return false;
        }
        i = i + 1;
    }
    assert(lower_seq(s@).subrange(n - m, n as int) =~= suffix@);
    true
}

/// The decimal digit characters of a nonnegative integer, most significant
/// first.
pub open spec fn dec_str(n: int) -> Seq<char>
    decreases n,
{
    if n < 10 {
        seq![((48 + if n < 0 { 0int } else { n }) as u8) as char]
    } else {
        dec_str(n / 10) + seq![((48 + n % 10) as u8) as char]
    }
}

/// The digit bytes read as characters.
pub open spec fn bytes_as_chars(b: Seq<u8>) -> Seq<char> {
    b.map_values(|d: u8| d as char)
}

proof fn lemma_dec_str_ascii(n: int)
    requires
        n >= 0,
    ensures
        vstd::utf8::is_ascii_chars(dec_str(n)),
    decreases n,
{
    let s = dec_str(n);
    if n < 10 {
        assert forall|i: int| 0 <= i < s.len() implies '\0' <= #[trigger] s[i] <= '\u{7f}' by {
            assert(s[i] == ((48 + n) as u8) as char);
        }
    } else {
        lemma_dec_str_ascii(n / 10);
        let prefix = dec_str(n / 10);
        assert forall|i: int| 0 <= i < s.len() implies '\0' <= #[trigger] s[i] <= '\u{7f}' by {
            if i < prefix.len() {
                assert(s[i] == prefix[i]);
                assert('\0' <= prefix[i] <= '\u{7f}');
            } else {
                assert(s[i] == ((48 + n % 10) as u8) as char);
            }
        }
    }
}

/// Builds the decimal digits of `n`, as `dec_str` describes.  The
/// digits are ASCII bytes, turned into text through the UTF-8 decoder.
#[verifier::loop_isolation(false)]
pub(crate) fn u64_to_string(n: u64) -> (r: String)
    ensures
        r@ == dec_str(n as int),
{
    let ghost cs = dec_str(n as int);
    let mut rev: Vec<u8> = Vec::new();
    let mut x = n;
    loop
        invariant
            dec_str(n as int) == dec_str(x as int) + bytes_as_chars(rev@).reverse(),
        decreases x,
    {
        let d = (x % 10) as u8 + 48;
        let ghost rev0 = rev@;
        rev.push(d);
        proof {
            assert(bytes_as_chars(rev@).reverse() =~= seq![(d as char)] + bytes_as_chars(
                rev0,
            ).reverse());
            assert(d as char == ((48 + (x as int) % 10) as u8) as char);
        }
        if x < 10 {
            proof {
                assert(dec_str(x as int) =~= seq![(d as char)]);
                assert(dec_str(n as int) =~= bytes_as_chars(rev@).reverse());
            }
            break ;
        }
        proof {
            assert(dec_str(x as int) =~= dec_str(x as int / 10) + seq![(d as char)]);
            assert(dec_str(x as int / 10) + (seq![(d as char)] + bytes_as_chars(rev0).reverse())
                =~= dec_str(x as int) + bytes_as_chars(rev0).reverse());
        }
        x = x / 10;
    }
    let len = rev.len();
    let mut bytes: Vec<u8> = Vec::new();
    let mut j: usize = 0;
    while j < len
        invariant
            j <= len,
            bytes@.len() == j,
            forall|t: int| 0 <= t < j ==> bytes@[t] == rev@[len - 1 - t],
        decreases len - j,
    {
        bytes.push(rev[len - 1 - j]);
        j = j + 1;
    }
    proof {
        assert(bytes_as_chars(bytes@) =~= bytes_as_chars(rev@).reverse());
        assert(cs == bytes_as_chars(bytes@));
        lemma_dec_str_ascii(n as int);
        vstd::utf8::is_ascii_chars_encode_utf8(cs);
        assert(vstd::utf8::encode_utf8(cs) =~= bytes@);
        vstd::utf8::encode_utf8_valid_utf8(cs);
        vstd::utf8::encode_utf8_decode_utf8(cs);
    }
    bytes_to_utf8(bytes.as_slice()).unwrap()
}

} // verus!
