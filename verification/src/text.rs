//! Character-level helpers: substring search, prefix tests and character
//! replacement, each with its meaning stated over `Seq<char>`.
use vstd::prelude::*;
use vstd::string::StrSliceExecFns;
use vstd::string::StringExecFns;

verus! {

broadcast use vstd::string::group_string_axioms;

/// `t` occurs in `s` as a contiguous run of characters.
pub open spec fn has_sub(s: Seq<char>, t: Seq<char>) -> bool {
    exists|i: int| 0 <= i <= s.len() - t.len() && #[trigger] s.subrange(i, i + t.len()) == t
}

/// `s` begins with `t`.
pub open spec fn has_prefix(s: Seq<char>, t: Seq<char>) -> bool {
    t.len() <= s.len() && s.subrange(0, t.len() as int) == t
}

/// `s` with every occurrence of `c` replaced by `w`.
pub open spec fn replace_char(s: Seq<char>, c: char, w: Seq<char>) -> Seq<char>
    decreases s.len(),
{
    if s.len() == 0 {
        Seq::empty()
    } else {
        let p = replace_char(s.drop_last(), c, w);
        if s.last() == c {
            p + w
        } else {
            p.push(s.last())
        }
    }
}

/// Appends one character with `String::push`. The contract claims that the
/// characters of `s` afterwards are the former ones followed by `c`.
#[verifier::external_body]
pub(crate) fn push_char(s: &mut String, c: char)
    ensures
        final(s)@ == old(s)@.push(c),
{
    s.push(c);
}

/// The characters of `s`, in order.
pub fn chars_of(s: &str) -> (r: Vec<char>)
    ensures
        r@ == s@,
{
    let n = s.unicode_len();
    let mut v: Vec<char> = Vec::new();
    let mut i: usize = 0;
    while i < n
        invariant
            n == s@.len(),
            i <= n,
            v@ == s@.take(i as int),
        decreases n - i,
    {
        v.push(s.get_char(i));
        i = i + 1;
        assert(v@ =~= s@.take(i as int));
    }
    assert(v@ =~= s@);
    v
}

/// Whether `t` occurs in `s` at position `i`.
fn occurs_at(s: &Vec<char>, t: &Vec<char>, i: usize) -> (r: bool)
    requires
        i + t.len() <= s.len(),
    ensures
        r == (s@.subrange(i as int, i + t@.len()) == t@),
{
    let mut j: usize = 0;
    while j < t.len()
        invariant
            j <= t.len(),
            i + t.len() <= s.len(),
            s@.subrange(i as int, i + j) == t@.take(j as int),
        decreases t.len() - j,
    {
        if s[i + j] != t[j] {
            assert(s@.subrange(i as int, i + t@.len())[j as int] != t@[j as int]);
            return false;
        }
        j = j + 1;
        assert(s@.subrange(i as int, i + j) =~= t@.take(j as int));
    }
    assert(t@.take(t.len() as int) =~= t@);
    true
}

/// Whether `t` occurs in `s` somewhere.
pub fn contains_chars(s: &Vec<char>, t: &Vec<char>) -> (r: bool)
    ensures
        r == has_sub(s@, t@),
{
    if t.len() > s.len() {
        return false;
    }
    if t.len() == 0 {
        assert(s@.subrange(0int, 0int + t@.len()) =~= t@);
        return true;
    }
    let last = s.len() - t.len();
    let mut i: usize = 0;
    while i <= last
        invariant
            last == s.len() - t.len(),
            0 < t.len() <= s.len(),
            i <= last + 1,
            forall|k: int| 0 <= k < i ==> #[trigger] s@.subrange(k, k + t@.len()) != t@,
        decreases last + 1 - i,
    {
        if occurs_at(s, t, i) {
            assert(s@.subrange(i as int, i + t@.len()) == t@);
            return true;
        }
        i = i + 1;
    }
    false
}

/// Whether the literal `t` occurs in `s`.
pub fn contains_str(s: &Vec<char>, t: &str) -> (r: bool)
    ensures
        r == has_sub(s@, t@),
{
    let tc = chars_of(t);
    contains_chars(s, &tc)
}

/// Whether `s` begins with the literal `t`.
pub fn starts_with_str(s: &Vec<char>, t: &str) -> (r: bool)
    ensures
        r == has_prefix(s@, t@),
{
    let tc = chars_of(t);
    if tc.len() > s.len() {
        return false;
    }
    occurs_at(s, &tc, 0)
}

/// `s` with every `c` replaced by `w`.
pub fn replace_char_str(s: &str, c: char, w: &str) -> (r: String)
    ensures
        r@ == replace_char(s@, c, w@),
{
    let sc = chars_of(s);
    let mut r = String::new();
    let mut i: usize = 0;
    while i < sc.len()
        invariant
            i <= sc.len(),
            sc@ == s@,
            r@ == replace_char(s@.take(i as int), c, w@),
        decreases sc.len() - i,
    {
        let ch = sc[i];
        assert(s@.take(i + 1).drop_last() =~= s@.take(i as int));
        if ch == c {
            r.append(w);
        } else {
            push_char(&mut r, ch);
        }
        i = i + 1;
    }
    assert(s@.take(sc.len() as int) =~= s@);
    r
}

/// `pieces` joined with `sep` between neighbours.
pub open spec fn join_with(pieces: Seq<Seq<char>>, sep: Seq<char>) -> Seq<char>
    decreases pieces.len(),
{
    if pieces.len() == 0 {
        Seq::empty()
    } else if pieces.len() == 1 {
        pieces[0]
    } else {
        join_with(pieces.drop_last(), sep) + sep + pieces.last()
    }
}

/// Joins `pieces` with `sep` between neighbours.
pub fn join_strs(pieces: &[&str], sep: &str) -> (r: String)
    ensures
        r@ == join_with(pieces@.map_values(|p: &str| p@), sep@),
{
    let ghost ps = pieces@.map_values(|p: &str| p@);
    let mut r = String::new();
    let mut i: usize = 0;
    while i < pieces.len()
        invariant
            i <= pieces@.len(),
            ps == pieces@.map_values(|p: &str| p@),
            r@ == join_with(ps.take(i as int), sep@),
        decreases pieces.len() - i,
    {
        assert(ps.take(i + 1).drop_last() =~= ps.take(i as int));
        if i > 0 {
            r.append(sep);
        } else {
            assert(r@ =~= Seq::<char>::empty());
        }
        r.append(pieces[i]);
        i = i + 1;
    }
    assert(ps.take(pieces@.len() as int) =~= ps);
    r
}

/// Whether two strings hold the same characters.
pub fn eq_str(a: &str, b: &str) -> (r: bool)
    ensures
        r == (a@ == b@),
{
    let x = chars_of(a);
    let y = chars_of(b);
    if x.len() != y.len() {
        return false;
    }
    let mut i: usize = 0;
    while i < x.len()
        invariant
            i <= x.len(),
            x@ == a@,
            y@ == b@,
            x.len() == y.len(),
            x@.take(i as int) == y@.take(i as int),
        decreases x.len() - i,
    {
        if x[i] != y[i] {
            assert(x@[i as int] != y@[i as int]);
            return false;
        }
        i = i + 1;
        assert(x@.take(i as int) =~= x@.take(i - 1).push(x@[i - 1]));
        assert(y@.take(i as int) =~= y@.take(i - 1).push(y@[i - 1]));
    }
    assert(x@ =~= x@.take(x.len() as int));
    assert(y@ =~= y@.take(y.len() as int));
    true
}

/// `d` does not occur in `s`.
pub open spec fn lacks(s: Seq<char>, d: char) -> bool {
    forall|i: int| 0 <= i < s.len() ==> #[trigger] s[i] != d
}

/// Replacing `c` by a text without `d` leaves no `d` behind, when `d` is `c`
/// or was absent.
pub proof fn lemma_replace_char_lacks(s: Seq<char>, c: char, w: Seq<char>, d: char)
    requires
        lacks(w, d),
        d == c || lacks(s, d),
    ensures
        lacks(replace_char(s, c, w), d),
    decreases s.len(),
{
    if s.len() > 0 {
        let p = s.drop_last();
        if d != c {
            assert forall|i: int| 0 <= i < p.len() implies #[trigger] p[i] != d by {
                assert(p[i] == s[i]);
            }
        }
        lemma_replace_char_lacks(p, c, w, d);
        let rp = replace_char(p, c, w);
        if s.last() == c {
            assert forall|i: int| 0 <= i < (rp + w).len() implies #[trigger] (rp + w)[i] != d by {
                if i < rp.len() {
                    assert((rp + w)[i] == rp[i]);
                } else {
                    assert((rp + w)[i] == w[i - rp.len()]);
                }
            }
        } else {
            if d != c {
                assert(s[s.len() - 1] != d);
            }
            assert forall|i: int| 0 <= i < rp.push(s.last()).len() implies #[trigger] rp.push(
                s.last(),
            )[i] != d by {
                if i < rp.len() {
                    assert(rp.push(s.last())[i] == rp[i]);
                }
            }
        }
    }
}

/// `s` ends with `t`.
pub open spec fn has_suffix(s: Seq<char>, t: Seq<char>) -> bool {
    t.len() <= s.len() && s.subrange(s.len() - t.len(), s.len() as int) == t
}

/// A run inside a run of `s` is a run of `s`.
pub proof fn lemma_has_sub_trans(s: Seq<char>, x: Seq<char>, y: Seq<char>)
    requires
        has_sub(s, x),
        has_sub(x, y),
    ensures
        has_sub(s, y),
{
    let i = choose|i: int| 0 <= i <= s.len() - x.len() && #[trigger] s.subrange(i, i + x.len()) == x;
    let j = choose|j: int| 0 <= j <= x.len() - y.len() && #[trigger] x.subrange(j, j + y.len()) == y;
    assert(s.subrange(i + j, i + j + y.len()) =~= y);
}

/// A run of `a` is a run of `a + b`.
pub proof fn lemma_has_sub_extend(a: Seq<char>, b: Seq<char>, y: Seq<char>)
    requires
        has_sub(a, y),
    ensures
        has_sub(a + b, y),
{
    let i = choose|i: int| 0 <= i <= a.len() - y.len() && #[trigger] a.subrange(i, i + y.len()) == y;
    assert((a + b).subrange(i, i + y.len()) =~= y);
}

/// Where `x` ends with `d` and `y` begins with `e`, the seam of `x + t + y`
/// holds `d + t + e`.
pub proof fn lemma_seam(x: Seq<char>, d: Seq<char>, t: Seq<char>, e: Seq<char>, y: Seq<char>)
    requires
        has_suffix(x, d),
        has_prefix(y, e),
    ensures
        has_sub(x + t + y, d + t + e),
{
    let s = x + t + y;
    let i = x.len() - d.len();
    assert(s.subrange(i, i + (d + t + e).len()) =~= d + t + e);
}

/// The joined text holds every piece, the separator and the next piece
/// side by side.
pub proof fn lemma_join_adjacent(pieces: Seq<Seq<char>>, sep: Seq<char>, k: int)
    requires
        0 <= k,
        k + 1 < pieces.len(),
    ensures
        has_sub(join_with(pieces, sep), pieces[k] + sep + pieces[k + 1]),
    decreases pieces.len(),
{
    let n = pieces.len();
    let y = pieces[k] + sep + pieces[k + 1];
    let rest = pieces.drop_last();
    if k + 1 == n - 1 {
        let j = join_with(rest, sep);
        assert(rest.last() == pieces[k]);
        if rest.len() == 1 {
            assert(j == pieces[k]);
            assert(j.subrange(0, j.len() as int) =~= j);
        } else {
            let q = join_with(rest.drop_last(), sep) + sep;
            assert(j == q + rest.last());
            assert(j.subrange(j.len() - pieces[k].len(), j.len() as int) =~= pieces[k]);
        }
        assert(has_suffix(j, pieces[k]));
        assert(pieces[k + 1].subrange(0, pieces[k + 1].len() as int) =~= pieces[k + 1]);
        assert(has_prefix(pieces[k + 1], pieces[k + 1]));
        lemma_seam(j, pieces[k], sep, pieces[k + 1], pieces[k + 1]);
        assert(join_with(pieces, sep) == j + sep + pieces.last());
    } else {
        lemma_join_adjacent(rest, sep, k);
        assert(rest[k] == pieces[k] && rest[k + 1] == pieces[k + 1]);
        lemma_has_sub_extend(join_with(rest, sep), sep + pieces.last(), y);
        assert(join_with(pieces, sep) =~= join_with(rest, sep) + (sep + pieces.last()));
    }
}

} // verus!
