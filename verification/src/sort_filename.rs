//! Natural-order sorting of member records by path: every maximal run
//! of decimal digits is compared by magnitude (via fixed-width zero
//! padding) and the rest case-insensitively.

use vstd::prelude::*;

use crate::archive_reader::{member_views, MemberFile};
use crate::text::{is_digit, lower_char};

verus! {

broadcast use vstd::seq_lib::group_to_multiset_ensures, vstd::utf8::char_u32_cast;

/// The end of the digit run starting at `i`: the first position at or
/// after `i` holding no digit.
pub open spec fn run_end(s: Seq<char>, i: int) -> int
    decreases s.len() - i,
{
    if i < 0 || i >= s.len() || !is_digit(s[i]) {
        i
    } else {
        run_end(s, i + 1)
    }
}

proof fn lemma_run_end_bounds(s: Seq<char>, i: int)
    requires
        0 <= i <= s.len(),
    ensures
        i <= run_end(s, i) <= s.len(),
        i < s.len() && is_digit(s[i]) ==> i < run_end(s, i),
    decreases s.len() - i,
{
    if i < s.len() && is_digit(s[i]) {
        lemma_run_end_bounds(s, i + 1);
    }
}

/// `n` zero characters.
pub open spec fn zero_chars(n: int) -> Seq<char> {
    Seq::new(if n < 0 {
        0nat
    } else {
        n as nat
    }, |i: int| '0')
}

/// A digit run padded with leading zeros to thirty characters; longer
/// runs stay as they are.
pub open spec fn pad_run(run: Seq<char>) -> Seq<char> {
    if run.len() >= 30 {
        run
    } else {
        zero_chars(30 - run.len()) + run
    }
}

/// The natural-sort key of the suffix of `s` starting at `i`: digit
/// runs are zero-padded, other characters are ASCII lower-cased.
pub open spec fn nat_key_from(s: Seq<char>, i: int) -> Seq<char>
    decreases s.len() - i,
    via nat_key_from_dec
{
    if i < 0 || i >= s.len() {
        Seq::empty()
    } else if is_digit(s[i]) {
        let e = run_end(s, i);
        pad_run(s.subrange(i, e)) + nat_key_from(s, e)
    } else {
        seq![lower_char(s[i])] + nat_key_from(s, i + 1)
    }
}

#[via_fn]
proof fn nat_key_from_dec(s: Seq<char>, i: int) {
    if 0 <= i < s.len() && is_digit(s[i]) {
        lemma_run_end_bounds(s, i);
    }
}

/// The natural-sort key of a whole path.
pub open spec fn nat_key(s: Seq<char>) -> Seq<char> {
    nat_key_from(s, 0)
}

/// Lexicographic order on character sequences by scalar value; a
/// proper prefix comes first.
pub open spec fn chars_le(a: Seq<char>, b: Seq<char>) -> bool
    decreases a.len(),
{
    if a.len() == 0 {
        true
    } else if b.len() == 0 {
        false
    } else if (a[0] as u32) < (b[0] as u32) {
        true
    } else if (a[0] as u32) > (b[0] as u32) {
        false
    } else {
        chars_le(a.drop_first(), b.drop_first())
    }
}

/// The natural order on member records: their paths' keys compared
/// lexicographically.
pub open spec fn member_le(x: MemberFile, y: MemberFile) -> bool {
    chars_le(nat_key(x.filepath@), nat_key(y.filepath@))
}

/// The natural order is total: of any two keys, one is less than or
/// equal to the other.
pub proof fn lemma_chars_le_total(a: Seq<char>, b: Seq<char>)
    ensures
        chars_le(a, b) || chars_le(b, a),
    decreases a.len(),
{
    if a.len() > 0 && b.len() > 0 && (a[0] as u32) == (b[0] as u32) {
        lemma_chars_le_total(a.drop_first(), b.drop_first());
    }
}

/// The natural order is transitive.
pub proof fn lemma_chars_le_trans(a: Seq<char>, b: Seq<char>, c: Seq<char>)
    requires
        chars_le(a, b),
        chars_le(b, c),
    ensures
        chars_le(a, c),
    decreases a.len(),
{
    if a.len() > 0 && b.len() > 0 && c.len() > 0 {
        if (a[0] as u32) == (b[0] as u32) && (b[0] as u32) == (c[0] as u32) {
            lemma_chars_le_trans(a.drop_first(), b.drop_first(), c.drop_first());
        }
    }
}

/// The member order is antisymmetric up to key equality: two records
/// each at most the other have equal keys.
pub proof fn lemma_chars_le_antisymmetric(a: Seq<char>, b: Seq<char>)
    requires
        chars_le(a, b),
        chars_le(b, a),
    ensures
        a == b,
    decreases a.len(),
{
    if a.len() > 0 && b.len() > 0 && (a[0] as u32) == (b[0] as u32) {
        lemma_chars_le_antisymmetric(a.drop_first(), b.drop_first());
        vstd::utf8::char_u32_cast(a[0], a[0] as u32);
        vstd::utf8::char_u32_cast(b[0], b[0] as u32);
        assert(a[0] == b[0]);
        assert(a.drop_first().len() == a.len() - 1);
        assert(b.drop_first().len() == b.len() - 1);
        assert(a.len() == b.len());
        assert forall|i: int| 0 <= i < a.len() implies a[i] == b[i] by {
            if i > 0 {
                assert(a[i] == a.drop_first()[i - 1]);
                assert(b[i] == b.drop_first()[i - 1]);
            }
        }
        assert(a =~= b);
    }
}

/// True when the member's path has the natural-sort key `k`.
pub open spec fn has_key(m: MemberFile, k: Seq<char>) -> bool {
    nat_key(m.filepath@) == k
}

/// The members of `s` whose path has key `k`, in their order in `s`.
pub open spec fn same_key_members(s: Seq<MemberFile>, k: Seq<char>) -> Seq<MemberFile> {
    s.filter(|m: MemberFile| has_key(m, k))
}

proof fn lemma_same_key_add(a: Seq<MemberFile>, b: Seq<MemberFile>, k: Seq<char>)
    ensures
        same_key_members(a + b, k) == same_key_members(a, k) + same_key_members(b, k),
    decreases b.len(),
{
    reveal(Seq::filter);
    if b.len() == 0 {
        assert(a + b =~= a);
        assert(same_key_members(b, k) =~= Seq::<MemberFile>::empty());
        assert(same_key_members(a, k) + same_key_members(b, k) =~= same_key_members(a, k));
    } else {
        lemma_same_key_add(a, b.drop_last(), k);
        assert((a + b).drop_last() =~= a + b.drop_last());
        assert((a + b).last() == b.last());
        if has_key(b.last(), k) {
            assert(same_key_members(a, k) + same_key_members(b.drop_last(), k).push(b.last())
                =~= (same_key_members(a, k) + same_key_members(b.drop_last(), k)).push(b.last()));
        }
    }
}

proof fn lemma_same_key_all_out(s: Seq<MemberFile>, k: Seq<char>)
    requires
        forall|j: int| 0 <= j < s.len() ==> nat_key(#[trigger] s[j].filepath@) != k,
    ensures
        same_key_members(s, k) == Seq::<MemberFile>::empty(),
    decreases s.len(),
{
    reveal(Seq::filter);
    if s.len() > 0 {
        lemma_same_key_all_out(s.drop_last(), k);
    }
}

proof fn lemma_same_key_single(x: MemberFile, k: Seq<char>)
    ensures
        same_key_members(seq![x], k) == if has_key(x, k) {
            seq![x]
        } else {
            Seq::<MemberFile>::empty()
        },
{
    reveal_with_fuel(Seq::filter, 3);
    assert(seq![x].drop_last() =~= Seq::<MemberFile>::empty());
    if has_key(x, k) {
        assert(same_key_members(seq![x], k) =~= seq![x]);
    }
}

/// True for an ASCII decimal digit.
fn is_digit_exec(c: char) -> (r: bool)
    ensures
        r == is_digit(c),
{
    let u = c as u32;
    48 <= u && u <= 57
}

/// Builds the natural-sort key of a path, as `nat_key` describes.
#[verifier::loop_isolation(false)]
#[verifier::rlimit(60)]
pub fn natural_key(s: &str) -> (r: Vec<char>)
    ensures
        r@ == nat_key(s@),
{
    let n = s.unicode_len();
    let mut key: Vec<char> = Vec::new();
    let mut i: usize = 0;
    while i < n
        invariant
            i <= n,
            nat_key(s@) == key@ + nat_key_from(s@, i as int),
        decreases n - i,
    {
        let c = s.get_char(i);
        if is_digit_exec(c) {
            let mut e = i;
            while e < n && is_digit_exec(s.get_char(e))
                invariant
                    i <= e <= n,
                    run_end(s@, i as int) == run_end(s@, e as int),
                decreases n - e,
            {
                e = e + 1;
            }
            assert(run_end(s@, i as int) == e);
            let ghost run = s@.subrange(i as int, e as int);
            let ghost key0 = key@;
            let run_len = e - i;
            let zeros: usize = if run_len >= 30 {
                0
            } else {
                30 - run_len
            };
            let mut z: usize = 0;
            while z < zeros
                invariant
                    z <= zeros,
                    key@ == key0 + zero_chars(z as int),
                decreases zeros - z,
            {
                proof {
                    assert(key@.push('0') =~= key0 + zero_chars(z + 1));
                }
                key.push('0');
                z = z + 1;
            }
            let mut j = i;
            while j < e
                invariant
                    i <= j <= e,
                    key@ == key0 + zero_chars(zeros as int) + s@.subrange(i as int, j as int),
                decreases e - j,
            {
                proof {
                    assert(key@.push(s@[j as int]) =~= key0 + zero_chars(zeros as int)
                        + s@.subrange(i as int, j + 1));
                }
                key.push(s.get_char(j));
                j = j + 1;
            }
            proof {
                if run_len >= 30 {
                    assert(zero_chars(0) =~= Seq::<char>::empty());
                    assert(key@ =~= key0 + pad_run(run));
                } else {
                    assert(key@ =~= key0 + pad_run(run));
                }
                assert(key0 + (pad_run(run) + nat_key_from(s@, e as int)) =~= key@ + nat_key_from(
                    s@,
                    e as int,
                ));
            }
            i = e;
        } else {
            proof {
                assert(key@.push(lower_char(c)) =~= key@ + seq![lower_char(c)]);
                assert((key@ + seq![lower_char(c)]) + nat_key_from(s@, i + 1) =~= key@ + (seq![
                    lower_char(c),
                ] + nat_key_from(s@, i + 1)));
            }
            key.push(crate::text::lower_char_exec(c));
            i = i + 1;
        }
    }
    assert(key@ + nat_key_from(s@, n as int) =~= key@);
    key
}

/// Compares two keys in the natural order, as `chars_le` describes.
#[verifier::loop_isolation(false)]
pub fn chars_le_exec(a: &Vec<char>, b: &Vec<char>) -> (r: bool)
    ensures
        r == chars_le(a@, b@),
{
    let na = a.len();
    let nb = b.len();
    let mut i: usize = 0;
    proof {
        assert(a@.skip(0) =~= a@);
        assert(b@.skip(0) =~= b@);
    }
    while i < na && i < nb
        invariant
            i <= na,
            i <= nb,
            chars_le(a@, b@) == chars_le(a@.skip(i as int), b@.skip(i as int)),
        decreases na - i,
    {
        let ca = a[i] as u32;
        let cb = b[i] as u32;
        if ca < cb {
            assert(chars_le(a@.skip(i as int), b@.skip(i as int)));
            return true;
        }
        if ca > cb {
            assert(!chars_le(a@.skip(i as int), b@.skip(i as int)));
            return false;
        }
        proof {
            assert(a@.skip(i as int).drop_first() =~= a@.skip(i + 1));
            assert(b@.skip(i as int).drop_first() =~= b@.skip(i + 1));
        }
        i = i + 1;
    }
    if i == na {
        assert(a@.skip(i as int).len() == 0);
        true
    } else {
        assert(b@.skip(i as int).len() == 0 && a@.skip(i as int).len() > 0);
        false
    }
}

proof fn lemma_insert_to_multiset<A>(s: Seq<A>, i: int, a: A)
    requires
        0 <= i <= s.len(),
    ensures
        s.insert(i, a).to_multiset() == s.to_multiset().insert(a),
{
    let t = s.insert(i, a);
    assert(t.remove(i) =~= s);
    assert(t[i] == a);
    assert(t.remove(i).to_multiset() =~= t.to_multiset().remove(a));
    assert(t.to_multiset().contains(a)) by {
        assert(t.contains(a));
    }
    assert(t.to_multiset() =~= s.to_multiset().insert(a));
}

/// Sorts the member list in place into the natural order of their
/// paths, keeping exactly the original records.  The sort is stable:
/// for every key, the members carrying it keep their input order.
#[verifier::loop_isolation(false)]
#[verifier::rlimit(100)]
pub fn sort_filename(files: &mut Vec<MemberFile>)
    ensures
        final(files)@.len() == old(files)@.len(),
        final(files)@.to_multiset() == old(files)@.to_multiset(),
        member_views(final(files)@).to_multiset() == member_views(old(files)@).to_multiset(),
        forall|p: int, q: int|
            0 <= p < q < final(files)@.len() ==> member_le(
                #[trigger] final(files)@[p],
                #[trigger] final(files)@[q],
            ),
        forall|k: Seq<char>| #[trigger] same_key_members(final(files)@, k) == same_key_members(
            old(files)@,
            k,
        ),
{
    let n = files.len();
    let mut i: usize = 1;
    while i < n
        invariant
            1 <= i,
            files@.len() == n,
            files@.to_multiset() == old(files)@.to_multiset(),
            member_views(files@).to_multiset() == member_views(old(files)@).to_multiset(),
            forall|p: int, q: int|
                0 <= p < q < i ==> member_le(#[trigger] files@[p], #[trigger] files@[q]),
            forall|k: Seq<char>| #[trigger] same_key_members(files@, k) == same_key_members(
                old(files)@,
                k,
            ),
        decreases n - i,
    {
        let xkey = natural_key(files[i].filepath.as_str());
        let mut p: usize = 0;
        while p < i
            invariant
                p <= i,
                xkey@ == nat_key(files@[i as int].filepath@),
                forall|q: int| 0 <= q < p ==> member_le(#[trigger] files@[q], files@[i as int]),
            decreases i - p,
        {
            let pkey = natural_key(files[p].filepath.as_str());
            if !chars_le_exec(&pkey, &xkey) {
                break ;
            }
            p = p + 1;
        }
        let ghost s0 = files@;
        let ghost x = files@[i as int];
        proof {
            if p < i {
                lemma_chars_le_total(
                    nat_key(s0[p as int].filepath@),
                    nat_key(s0[i as int].filepath@),
                );
            }
        }
        let moved = files.remove(i);
        files.insert(p, moved);
        proof {
            assert(s0.remove(i as int).to_multiset() =~= s0.to_multiset().remove(x));
            lemma_insert_to_multiset(s0.remove(i as int), p as int, x);
            assert(s0.to_multiset().contains(x)) by {
                assert(s0.contains(x));
            }
            assert(files@.to_multiset() =~= s0.to_multiset());
            let vs = member_views(s0);
            assert(member_views(s0.remove(i as int)) =~= vs.remove(i as int));
            assert(member_views(files@) =~= member_views(s0.remove(i as int)).insert(
                p as int,
                x@,
            ));
            assert(vs.remove(i as int).to_multiset() =~= vs.to_multiset().remove(vs[i as int]));
            lemma_insert_to_multiset(vs.remove(i as int), p as int, x@);
            assert(vs.to_multiset().contains(x@)) by {
                assert(vs[i as int] == x@);
                assert(vs.contains(x@));
            }
            assert(member_views(files@).to_multiset() =~= vs.to_multiset());
            let t = files@;
            assert forall|a: int, b: int| 0 <= a < b < i + 1 implies member_le(
                #[trigger] t[a],
                #[trigger] t[b],
            ) by {
                if b < p {
                    assert(t[a] == s0[a] && t[b] == s0[b]);
                } else if b == p {
                    assert(t[b] == x && t[a] == s0[a]);
                } else if a < p {
                    assert(t[a] == s0[a] && t[b] == s0[b - 1]);
                } else if a == p {
                    assert(t[a] == x && t[b] == s0[b - 1]);
                    if p < i {
                        if b - 1 > p {
                            lemma_chars_le_trans(
                                nat_key(x.filepath@),
                                nat_key(s0[p as int].filepath@),
                                nat_key(s0[b - 1].filepath@),
                            );
                        }
                    }
                } else {
                    assert(t[a] == s0[a - 1] && t[b] == s0[b - 1]);
                }
            }
            // Stability: the element moves only across members whose
            // keys are strictly greater, so per-key order is kept.
            let kx = nat_key(x.filepath@);
            let aseg = s0.subrange(0, p as int);
            let bseg = s0.subrange(p as int, i as int);
            let cseg = s0.subrange(i + 1, n as int);
            assert(s0 =~= aseg + bseg + seq![x] + cseg);
            assert(t =~= aseg + seq![x] + bseg + cseg);
            assert forall|j: int| 0 <= j < bseg.len() implies nat_key(
                #[trigger] bseg[j].filepath@,
            ) != kx by {
                assert(bseg[j] == s0[p + j]);
                lemma_chars_le_total(kx, kx);
                if j > 0 {
                    assert(member_le(s0[p as int], s0[p + j]));
                }
                if nat_key(bseg[j].filepath@) == kx {
                    assert(chars_le(nat_key(s0[p as int].filepath@), kx));
                    assert(false);
                }
            }
            assert forall|k: Seq<char>| #[trigger] same_key_members(t, k) == same_key_members(
                s0,
                k,
            ) by {
                lemma_same_key_add(aseg + bseg + seq![x], cseg, k);
                lemma_same_key_add(aseg + bseg, seq![x], k);
                lemma_same_key_add(aseg, bseg, k);
                lemma_same_key_add(aseg + seq![x] + bseg, cseg, k);
                lemma_same_key_add(aseg + seq![x], bseg, k);
                lemma_same_key_add(aseg, seq![x], k);
                lemma_same_key_single(x, k);
                if k == kx {
                    lemma_same_key_all_out(bseg, k);
                    assert(same_key_members(t, k) =~= same_key_members(s0, k));
                } else {
                    assert(same_key_members(t, k) =~= same_key_members(s0, k));
                }
            }
        }
        i = i + 1;
    }
}

} // verus!
