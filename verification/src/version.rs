//! Release version comparison, after semantic versioning.
//!
//! A version such as `2.2.3-beta.1+build.7` has a release part (`2.2.3`,
//! up to the first `-` or `+`), an optional pre-release tag (`beta.1`, after
//! a `-` that ends the release part, up to any `+`) and build metadata
//! (after `+`), which is ignored. Release components are dot-separated; a
//! component counts as the number spelled by its leading decimal digits (0
//! when it has none), a missing component counts as 0, and components
//! compare numerically with no bound on the size of a number. On equal
//! release parts a version without pre-release tag is newer than one with;
//! two tags compare identifier by identifier, numeric identifiers
//! numerically and before textual ones, textual ones by character code, and
//! a shorter list of equal identifiers first.
use vstd::prelude::*;
use crate::text::chars_of;

verus! {

pub open spec fn is_digit(c: char) -> bool {
    '0' <= c <= '9'
}

pub open spec fn all_digits(s: Seq<char>) -> bool {
    forall|i: int| 0 <= i < s.len() ==> is_digit(#[trigger] s[i])
}

pub open spec fn digit_value(c: char) -> nat {
    (c as int - '0' as int) as nat
}

/// The number that the decimal digits `s` spell (0 for no digits).
pub open spec fn digits_value(s: Seq<char>) -> nat
    decreases s.len(),
{
    if s.len() == 0 {
        0
    } else {
        digits_value(s.drop_last()) * 10 + digit_value(s.last())
    }
}

pub open spec fn pow10(n: nat) -> nat
    decreases n,
{
    if n == 0 {
        1
    } else {
        10 * pow10((n - 1) as nat)
    }
}

/// The longest prefix of `s` whose characters all satisfy `p`.
pub open spec fn take_while(s: Seq<char>, p: spec_fn(char) -> bool) -> Seq<char>
    decreases s.len(),
{
    if s.len() > 0 && p(s[0]) {
        seq![s[0]] + take_while(s.drop_first(), p)
    } else {
        Seq::empty()
    }
}

pub open spec fn not_release_end(c: char) -> bool {
    c != '-' && c != '+'
}

/// The part of a version before any pre-release or build suffix.
pub open spec fn release_part(s: Seq<char>) -> Seq<char> {
    take_while(s, |c: char| not_release_end(c))
}

pub open spec fn leading_digits(s: Seq<char>) -> Seq<char> {
    take_while(s, |c: char| is_digit(c))
}

/// `s` cut at every `.`; an input without `.` gives one piece.
pub open spec fn split_dots(s: Seq<char>) -> Seq<Seq<char>>
    decreases s.len(),
{
    if s.len() == 0 {
        seq![Seq::empty()]
    } else {
        let p = split_dots(s.drop_last());
        if s.last() == '.' {
            p.push(Seq::empty())
        } else {
            p.update(p.len() - 1, p.last().push(s.last()))
        }
    }
}

pub open spec fn component_value(c: Seq<char>) -> nat {
    digits_value(leading_digits(c))
}

/// The numeric release components of a version.
pub open spec fn version_components(s: Seq<char>) -> Seq<nat> {
    split_dots(release_part(s)).map_values(|c: Seq<char>| component_value(c))
}

pub open spec fn nth_or_zero(v: Seq<nat>, i: int) -> nat {
    if 0 <= i < v.len() {
        v[i]
    } else {
        0
    }
}

pub open spec fn sign_of(x: int, y: int) -> int {
    if x < y {
        -1
    } else if x > y {
        1
    } else {
        0
    }
}

/// Compares `a` and `b` from component `i` on, padding with zeros.
pub open spec fn compare_components_from(a: Seq<nat>, b: Seq<nat>, i: nat) -> int
    decreases a.len() + b.len() - i,
{
    if i >= a.len() && i >= b.len() {
        0
    } else if nth_or_zero(a, i as int) != nth_or_zero(b, i as int) {
        sign_of(nth_or_zero(a, i as int) as int, nth_or_zero(b, i as int) as int)
    } else {
        compare_components_from(a, b, i + 1)
    }
}

/// The pre-release tag of a version: the text after a `-` that ends the
/// release part, up to any `+` (build metadata).
pub open spec fn prerelease(s: Seq<char>) -> Option<Seq<char>> {
    let k = release_part(s).len();
    if k < s.len() && s[k as int] == '-' {
        Some(take_while(s.skip(k + 1int), |c: char| c != '+'))
    } else {
        None
    }
}

/// An identifier made only of decimal digits.
pub open spec fn is_numeric_id(x: Seq<char>) -> bool {
    x.len() > 0 && all_digits(x)
}

/// Texts ordered by character code, a proper prefix first.
pub open spec fn text_order(a: Seq<char>, b: Seq<char>) -> int
    decreases a.len(),
{
    if a.len() == 0 {
        if b.len() == 0 {
            0
        } else {
            -1
        }
    } else if b.len() == 0 {
        1
    } else if (a[0] as int) < (b[0] as int) {
        -1
    } else if (a[0] as int) > (b[0] as int) {
        1
    } else {
        text_order(a.drop_first(), b.drop_first())
    }
}

/// Pre-release identifiers: numeric ones numerically and before all others,
/// the others by text.
pub open spec fn identifier_order(x: Seq<char>, y: Seq<char>) -> int {
    if is_numeric_id(x) && is_numeric_id(y) {
        sign_of(digits_value(x) as int, digits_value(y) as int)
    } else if is_numeric_id(x) {
        -1
    } else if is_numeric_id(y) {
        1
    } else {
        text_order(x, y)
    }
}

/// Identifier lists compared from position `i` on; a proper prefix first.
pub open spec fn identifiers_order_from(a: Seq<Seq<char>>, b: Seq<Seq<char>>, i: nat) -> int
    decreases a.len() + b.len() - i,
{
    if i >= a.len() && i >= b.len() {
        0
    } else if i >= a.len() {
        -1
    } else if i >= b.len() {
        1
    } else if identifier_order(a[i as int], b[i as int]) != 0 {
        identifier_order(a[i as int], b[i as int])
    } else {
        identifiers_order_from(a, b, i + 1)
    }
}

/// A version without pre-release tag is newer than one with; two tags
/// compare by their dot-separated identifiers.
pub open spec fn prerelease_order(pa: Option<Seq<char>>, pb: Option<Seq<char>>) -> int {
    match (pa, pb) {
        (None, None) => 0,
        (None, Some(_)) => 1,
        (Some(_), None) => -1,
        (Some(x), Some(y)) => identifiers_order_from(split_dots(x), split_dots(y), 0),
    }
}

/// -1, 0 or 1 as version `a` is older than, level with, or newer than `b`:
/// release components first, then the pre-release tags.
pub open spec fn version_order(a: Seq<char>, b: Seq<char>) -> int {
    let r = compare_components_from(version_components(a), version_components(b), 0);
    if r != 0 {
        r
    } else {
        prerelease_order(prerelease(a), prerelease(b))
    }
}

// ---------------------------------------------------------------------
// Facts about decimal digit strings.
// ---------------------------------------------------------------------

proof fn lemma_pow10_positive(n: nat)
    ensures
        pow10(n) >= 1,
    decreases n,
{
    if n > 0 {
        lemma_pow10_positive((n - 1) as nat);
    }
}

proof fn lemma_pow10_monotone(m: nat, n: nat)
    requires
        m <= n,
    ensures
        pow10(m) <= pow10(n),
    decreases n - m,
{
    if m < n {
        lemma_pow10_monotone(m, (n - 1) as nat);
        lemma_pow10_positive((n - 1) as nat);
    }
}

/// value(x + y) == value(x) * 10^|y| + value(y).
proof fn lemma_digits_value_concat(x: Seq<char>, y: Seq<char>)
    ensures
        digits_value(x + y) == digits_value(x) * pow10(y.len()) + digits_value(y),
    decreases y.len(),
{
    if y.len() == 0 {
        assert(x + y =~= x);
        assert(pow10(0) == 1);
        assert(digits_value(y) == 0);
        assert(digits_value(x) * 1 == digits_value(x));
    } else {
        let yp = y.drop_last();
        assert((x + y).drop_last() =~= x + yp);
        assert((x + y).last() == y.last());
        lemma_digits_value_concat(x, yp);
        let a = digits_value(x);
        let p = pow10(yp.len());
        let b = digits_value(yp);
        let d = digit_value(y.last());
        assert(pow10(y.len()) == 10 * p);
        assert(digits_value(x + y) == digits_value(x + yp) * 10 + d);
        assert(digits_value(y) == b * 10 + d);
        assert((a * p + b) * 10 + d == a * (10 * p) + (b * 10 + d)) by (nonlinear_arith);
    }
}

proof fn lemma_digits_value_upper(s: Seq<char>)
    requires
        all_digits(s),
    ensures
        digits_value(s) < pow10(s.len()),
    decreases s.len(),
{
    if s.len() > 0 {
        let p = s.drop_last();
        assert(all_digits(p)) by {
            assert forall|i: int| 0 <= i < p.len() implies is_digit(#[trigger] p[i]) by {
                assert(p[i] == s[i]);
            }
        }
        lemma_digits_value_upper(p);
        assert(is_digit(s[s.len() - 1]));
        let v = digits_value(p);
        let q = pow10(p.len());
        let d = digit_value(s.last());
        assert(d <= 9);
        assert(v * 10 + d < 10 * q) by (nonlinear_arith)
            requires
                v < q,
                d <= 9,
        ;
    }
}

proof fn lemma_zeros_value(s: Seq<char>)
    requires
        forall|i: int| 0 <= i < s.len() ==> #[trigger] s[i] == '0',
    ensures
        digits_value(s) == 0,
    decreases s.len(),
{
    if s.len() > 0 {
        let p = s.drop_last();
        assert forall|i: int| 0 <= i < p.len() implies #[trigger] p[i] == '0' by {
            assert(p[i] == s[i]);
        }
        lemma_zeros_value(p);
        assert(s[s.len() - 1] == '0');
    }
}

proof fn lemma_digits_value_lower(s: Seq<char>)
    requires
        all_digits(s),
        s.len() > 0,
        s[0] != '0',
    ensures
        digits_value(s) >= pow10((s.len() - 1) as nat),
{
    let head = s.take(1);
    let rest = s.skip(1);
    assert(head + rest =~= s);
    lemma_digits_value_concat(head, rest);
    assert(head.drop_last() =~= Seq::<char>::empty());
    assert(head.last() == s[0]);
    assert(head.len() == 1);
    assert(digits_value(head.drop_last()) == 0);
    assert(digits_value(head) == digits_value(head.drop_last()) * 10 + digit_value(head.last()));
    assert(is_digit(s[0]));
    assert(digits_value(head) == digit_value(s[0]));
    assert(digits_value(head) >= 1);
    let p = pow10(rest.len());
    assert(digits_value(head) * p >= p) by (nonlinear_arith)
        requires
            digits_value(head) >= 1,
    ;
}

/// Decimal strings of equal length order as their first differing digit.
proof fn lemma_digits_value_first_difference(a: Seq<char>, b: Seq<char>, k: int)
    requires
        all_digits(a),
        all_digits(b),
        a.len() == b.len(),
        0 <= k < a.len(),
        a.take(k) == b.take(k),
        a[k] < b[k],
    ensures
        digits_value(a) < digits_value(b),
{
    let ha = a.take(k + 1);
    let hb = b.take(k + 1);
    let ra = a.skip(k + 1);
    let rb = b.skip(k + 1);
    assert(ha + ra =~= a);
    assert(hb + rb =~= b);
    lemma_digits_value_concat(ha, ra);
    lemma_digits_value_concat(hb, rb);
    assert(ha.drop_last() =~= a.take(k));
    assert(hb.drop_last() =~= b.take(k));
    assert(all_digits(ra)) by {
        assert forall|i: int| 0 <= i < ra.len() implies is_digit(#[trigger] ra[i]) by {
            assert(ra[i] == a[i + k + 1]);
        }
    }
    lemma_digits_value_upper(ra);
    assert(is_digit(a[k]) && is_digit(b[k]));
    let v = digits_value(a.take(k));
    let x = digits_value(ha);
    let y = digits_value(hb);
    assert(x == v * 10 + digit_value(a[k]));
    assert(y == v * 10 + digit_value(b[k]));
    assert(x + 1 <= y);
    let p = pow10(ra.len());
    assert(rb.len() == ra.len());
    let r = digits_value(ra);
    let s = digits_value(rb);
    assert(x * p + r < y * p + s) by (nonlinear_arith)
        requires
            x + 1 <= y,
            r < p,
            s >= 0,
    ;
}

/// Leading zeros do not change the value.
proof fn lemma_digits_value_skip_zeros(s: Seq<char>, z: int)
    requires
        0 <= z <= s.len(),
        forall|i: int| 0 <= i < z ==> #[trigger] s[i] == '0',
    ensures
        digits_value(s) == digits_value(s.skip(z)),
{
    let zs = s.take(z);
    assert(zs + s.skip(z) =~= s);
    lemma_digits_value_concat(zs, s.skip(z));
    assert forall|i: int| 0 <= i < zs.len() implies #[trigger] zs[i] == '0' by {
        assert(zs[i] == s[i]);
    }
    lemma_zeros_value(zs);
}

proof fn lemma_take_while_prefix(s: Seq<char>, p: spec_fn(char) -> bool, k: int)
    requires
        0 <= k <= s.len(),
        forall|j: int| 0 <= j < k ==> p(#[trigger] s[j]),
        k == s.len() || !p(s[k]),
    ensures
        take_while(s, p) == s.take(k),
    decreases k,
{
    if k == 0 {
        assert(s.take(0) =~= Seq::<char>::empty());
    } else {
        let t = s.drop_first();
        assert forall|j: int| 0 <= j < k - 1 implies p(#[trigger] t[j]) by {
            assert(t[j] == s[j + 1]);
            assert(p(s[j + 1]));
        }
        if k < s.len() {
            assert(t[k - 1] == s[k]);
        }
        lemma_take_while_prefix(t, p, k - 1);
        assert(p(s[0]));
        assert(seq![s[0]] + t.take(k - 1) =~= s.take(k));
    }
}

proof fn lemma_split_dots_nonempty(s: Seq<char>)
    ensures
        split_dots(s).len() >= 1,
    decreases s.len(),
{
    if s.len() > 0 {
        lemma_split_dots_nonempty(s.drop_last());
    }
}

// ---------------------------------------------------------------------
// Executable comparison.
// ---------------------------------------------------------------------

/// The numeric order of two decimal digit strings: -1, 0 or 1.
fn compare_digit_strings(a: &Vec<char>, b: &Vec<char>) -> (r: i32)
    requires
        all_digits(a@),
        all_digits(b@),
    ensures
        r == sign_of(digits_value(a@) as int, digits_value(b@) as int),
{
    let mut za: usize = 0;
    while za < a.len() && a[za] == '0'
        invariant
            za <= a.len(),
            forall|i: int| 0 <= i < za ==> #[trigger] a@[i] == '0',
        decreases a.len() - za,
    {
        za = za + 1;
    }
    let mut zb: usize = 0;
    while zb < b.len() && b[zb] == '0'
        invariant
            zb <= b.len(),
            forall|i: int| 0 <= i < zb ==> #[trigger] b@[i] == '0',
        decreases b.len() - zb,
    {
        zb = zb + 1;
    }
    let ghost ta = a@.skip(za as int);
    let ghost tb = b@.skip(zb as int);
    proof {
        lemma_digits_value_skip_zeros(a@, za as int);
        lemma_digits_value_skip_zeros(b@, zb as int);
        assert(all_digits(ta)) by {
            assert forall|i: int| 0 <= i < ta.len() implies is_digit(#[trigger] ta[i]) by {
                assert(ta[i] == a@[i + za]);
            }
        }
        assert(all_digits(tb)) by {
            assert forall|i: int| 0 <= i < tb.len() implies is_digit(#[trigger] tb[i]) by {
                assert(tb[i] == b@[i + zb]);
            }
        }
        if ta.len() > 0 {
            assert(ta[0] == a@[za as int]);
            lemma_digits_value_lower(ta);
        }
        if tb.len() > 0 {
            assert(tb[0] == b@[zb as int]);
            lemma_digits_value_lower(tb);
        }
        lemma_digits_value_upper(ta);
        lemma_digits_value_upper(tb);
    }
    let la = a.len() - za;
    let lb = b.len() - zb;
    if la < lb {
        proof {
            lemma_pow10_monotone(la as nat, (lb - 1) as nat);
        }
        return -1;
    }
    if la > lb {
        proof {
            lemma_pow10_monotone(lb as nat, (la - 1) as nat);
        }
        return 1;
    }
    let mut j: usize = 0;
    while j < la
        invariant
            la == lb,
            za + la == a.len(),
            zb + lb == b.len(),
            ta == a@.skip(za as int),
            tb == b@.skip(zb as int),
            all_digits(ta),
            all_digits(tb),
            digits_value(a@) == digits_value(ta),
            digits_value(b@) == digits_value(tb),
            j <= la,
            ta.take(j as int) == tb.take(j as int),
        decreases la - j,
    {
        let ca = a[za + j];
        let cb = b[zb + j];
        assert(ta[j as int] == ca && tb[j as int] == cb);
        if ca < cb {
            proof {
                lemma_digits_value_first_difference(ta, tb, j as int);
            }
            return -1;
        }
        if ca > cb {
            proof {
                lemma_digits_value_first_difference(tb, ta, j as int);
            }
            return 1;
        }
        assert(ta.take(j + 1) =~= ta.take(j as int).push(ca));
        assert(tb.take(j + 1) =~= tb.take(j as int).push(cb));
        j = j + 1;
    }
    assert(ta =~= ta.take(la as int));
    assert(tb =~= tb.take(lb as int));
    0
}

/// How many leading characters of `s` belong to its release part.
fn release_len(s: &Vec<char>) -> (r: usize)
    ensures
        r <= s.len(),
        s@.take(r as int) == release_part(s@),
{
    let mut k: usize = 0;
    while k < s.len() && s[k] != '-' && s[k] != '+'
        invariant
            k <= s.len(),
            forall|j: int| 0 <= j < k ==> not_release_end(#[trigger] s@[j]),
        decreases s.len() - k,
    {
        k = k + 1;
    }
    proof {
        let p = |c: char| not_release_end(c);
        assert forall|j: int| 0 <= j < k implies p(#[trigger] s@[j]) by {
            assert(not_release_end(s@[j]));
        }
        lemma_take_while_prefix(s@, p, k as int);
    }
    k
}

/// The leading decimal digits of `c`.
fn leading_digits_of(c: &Vec<char>) -> (r: Vec<char>)
    ensures
        r@ == leading_digits(c@),
        all_digits(r@),
{
    let mut r: Vec<char> = Vec::new();
    let mut k: usize = 0;
    while k < c.len() && '0' <= c[k] && c[k] <= '9'
        invariant
            k <= c.len(),
            r@ == c@.take(k as int),
            forall|j: int| 0 <= j < k ==> is_digit(#[trigger] c@[j]),
        decreases c.len() - k,
    {
        r.push(c[k]);
        k = k + 1;
        assert(r@ =~= c@.take(k as int));
    }
    proof {
        let p = |ch: char| is_digit(ch);
        assert forall|j: int| 0 <= j < k implies p(#[trigger] c@[j]) by {
            assert(is_digit(c@[j]));
        }
        lemma_take_while_prefix(c@, p, k as int);
        assert forall|i: int| 0 <= i < r@.len() implies is_digit(#[trigger] r@[i]) by {
            assert(r@[i] == c@[i]);
        }
    }
    r
}

/// The characters of `s` from `from` up to `to`.
fn sub_chars(s: &Vec<char>, from: usize, to: usize) -> (r: Vec<char>)
    requires
        from <= to <= s.len(),
    ensures
        r@ == s@.subrange(from as int, to as int),
{
    let mut r: Vec<char> = Vec::new();
    let mut i: usize = from;
    while i < to
        invariant
            from <= i <= to <= s.len(),
            r@ == s@.subrange(from as int, i as int),
        decreases to - i,
    {
        r.push(s[i]);
        i = i + 1;
        assert(r@ =~= s@.subrange(from as int, i as int));
    }
    r
}

/// `s` cut at every `.`.
fn split_dots_of(s: &Vec<char>) -> (r: Vec<Vec<char>>)
    ensures
        r@.map_values(|x: Vec<char>| x@) == split_dots(s@),
{
    let mut done: Vec<Vec<char>> = Vec::new();
    let mut cur: Vec<char> = Vec::new();
    let mut i: usize = 0;
    while i < s.len()
        invariant
            i <= s.len(),
            split_dots(s@.take(i as int)) == done@.map_values(|x: Vec<char>| x@).push(cur@),
        decreases s.len() - i,
    {
        let ch = s[i];
        let ghost before = s@.take(i as int);
        assert(s@.take(i + 1).drop_last() =~= before);
        assert(s@.take(i + 1).last() == ch);
        proof {
            lemma_split_dots_nonempty(before);
        }
        if ch == '.' {
            let finished = cur;
            done.push(finished);
            cur = Vec::new();
            assert(done@.map_values(|x: Vec<char>| x@).push(cur@) =~= split_dots(before).push(
                Seq::empty(),
            ));
        } else {
            let ghost old_cur = cur@;
            cur.push(ch);
            assert(done@.map_values(|x: Vec<char>| x@).push(cur@) =~= split_dots(before).update(
                split_dots(before).len() - 1,
                old_cur.push(ch),
            ));
        }
        i = i + 1;
    }
    assert(s@.take(s.len() as int) =~= s@);
    done.push(cur);
    assert(done@.map_values(|x: Vec<char>| x@) =~= split_dots(s@));
    done
}

/// The leading digits of every release component of `v`, in order.
fn component_digits(v: &str) -> (r: Vec<Vec<char>>)
    ensures
        r@.len() == split_dots(release_part(v@)).len(),
        forall|i: int|
            0 <= i < r@.len() ==> #[trigger] r@[i]@ == leading_digits(
                split_dots(release_part(v@))[i],
            ) && all_digits(r@[i]@),
{
    let s = chars_of(v);
    let end = release_len(&s);
    let rel = sub_chars(&s, 0, end);
    assert(rel@ =~= release_part(v@));
    let done = split_dots_of(&rel);
    let ghost pieces = split_dots(rel@);
    let mut out: Vec<Vec<char>> = Vec::new();
    let mut j: usize = 0;
    while j < done.len()
        invariant
            j <= done.len(),
            done@.map_values(|x: Vec<char>| x@) == pieces,
            out@.len() == j,
            forall|k: int|
                0 <= k < j ==> #[trigger] out@[k]@ == leading_digits(pieces[k]) && all_digits(
                    out@[k]@,
                ),
        decreases done.len() - j,
    {
        assert(done@[j as int]@ == pieces[j as int]);
        let d = leading_digits_of(&done[j]);
        out.push(d);
        j = j + 1;
    }
    out
}

/// The pre-release identifiers of `v`, if it has a pre-release tag.
fn prerelease_identifiers(v: &str) -> (r: Option<Vec<Vec<char>>>)
    ensures
        match prerelease(v@) {
            None => r is None,
            Some(p) => r matches Some(ids) && ids@.map_values(|x: Vec<char>| x@) == split_dots(p),
        },
{
    let s = chars_of(v);
    let end = release_len(&s);
    if end < s.len() && s[end] == '-' {
        let mut m: usize = end + 1;
        while m < s.len() && s[m] != '+'
            invariant
                end + 1 <= m <= s.len(),
                forall|j: int| end + 1 <= j < m ==> #[trigger] s@[j] != '+',
            decreases s.len() - m,
        {
            m = m + 1;
        }
        let ghost t = s@.skip(end + 1);
        proof {
            let p = |c: char| c != '+';
            assert forall|j: int| 0 <= j < m - end - 1 implies p(#[trigger] t[j]) by {
                assert(t[j] == s@[j + end + 1]);
            }
            if m < s.len() {
                assert(t[m - end - 1] == s@[m as int]);
            }
            lemma_take_while_prefix(t, p, m - end - 1);
            assert(t.take(m - end - 1) =~= s@.subrange(end + 1, m as int));
        }
        let pre = sub_chars(&s, end + 1, m);
        Some(split_dots_of(&pre))
    } else {
        None
    }
}

/// The order of the release components of two versions.
fn compare_release(a: &str, b: &str) -> (r: i32)
    ensures
        r == compare_components_from(version_components(a@), version_components(b@), 0),
{
    let da = component_digits(a);
    let db = component_digits(b);
    let ghost va = version_components(a@);
    let ghost vb = version_components(b@);
    let empty: Vec<char> = Vec::new();
    let n = if da.len() > db.len() {
        da.len()
    } else {
        db.len()
    };
    let mut i: usize = 0;
    while i < n
        invariant
            va == version_components(a@),
            vb == version_components(b@),
            va.len() == da@.len(),
            vb.len() == db@.len(),
            forall|k: int| 0 <= k < da@.len() ==> #[trigger] va[k] == digits_value(da@[k]@),
            forall|k: int| 0 <= k < db@.len() ==> #[trigger] vb[k] == digits_value(db@[k]@),
            forall|k: int| 0 <= k < da@.len() ==> all_digits(#[trigger] da@[k]@),
            forall|k: int| 0 <= k < db@.len() ==> all_digits(#[trigger] db@[k]@),
            empty@ == Seq::<char>::empty(),
            n == if da.len() > db.len() {
                da.len()
            } else {
                db.len()
            },
            i <= n,
            compare_components_from(va, vb, 0) == compare_components_from(va, vb, i as nat),
        decreases n - i,
    {
        let x = if i < da.len() {
            &da[i]
        } else {
            &empty
        };
        let y = if i < db.len() {
            &db[i]
        } else {
            &empty
        };
        assert(digits_value(x@) == nth_or_zero(va, i as int));
        assert(digits_value(y@) == nth_or_zero(vb, i as int));
        let c = compare_digit_strings(x, y);
        if c != 0 {
            return c;
        }
        i = i + 1;
    }
    0
}

/// The order of two texts by character code, a proper prefix first.
fn compare_text(a: &Vec<char>, b: &Vec<char>) -> (r: i32)
    ensures
        r == text_order(a@, b@),
{
    let mut i: usize = 0;
    assert(a@.skip(0) =~= a@ && b@.skip(0) =~= b@);
    while i < a.len() && i < b.len() && a[i] == b[i]
        invariant
            i <= a.len(),
            i <= b.len(),
            text_order(a@, b@) == text_order(a@.skip(i as int), b@.skip(i as int)),
        decreases a.len() - i,
    {
        assert(a@.skip(i as int).drop_first() =~= a@.skip(i + 1));
        assert(b@.skip(i as int).drop_first() =~= b@.skip(i + 1));
        assert(a@.skip(i as int)[0] == a@[i as int]);
        assert(b@.skip(i as int)[0] == b@[i as int]);
        i = i + 1;
    }
    let ghost sa = a@.skip(i as int);
    let ghost sb = b@.skip(i as int);
    if i == a.len() {
        assert(sa.len() == 0);
        if i == b.len() {
            0
        } else {
            -1
        }
    } else if i == b.len() {
        1
    } else {
        assert(sa[0] == a@[i as int] && sb[0] == b@[i as int]);
        assert(sa.len() > 0 && sb.len() > 0);
        if a[i] < b[i] {
            -1
        } else {
            1
        }
    }
}

/// Whether `x` is a numeric identifier: one or more decimal digits.
fn is_numeric_identifier(x: &Vec<char>) -> (r: bool)
    ensures
        r == is_numeric_id(x@),
{
    if x.len() == 0 {
        return false;
    }
    let mut i: usize = 0;
    while i < x.len()
        invariant
            i <= x.len(),
            forall|j: int| 0 <= j < i ==> is_digit(#[trigger] x@[j]),
        decreases x.len() - i,
    {
        if !('0' <= x[i] && x[i] <= '9') {
            return false;
        }
        i = i + 1;
    }
    true
}

/// The order of two pre-release identifiers.
fn compare_identifier(x: &Vec<char>, y: &Vec<char>) -> (r: i32)
    ensures
        r == identifier_order(x@, y@),
{
    let nx = is_numeric_identifier(x);
    let ny = is_numeric_identifier(y);
    if nx && ny {
        compare_digit_strings(x, y)
    } else if nx {
        -1
    } else if ny {
        1
    } else {
        compare_text(x, y)
    }
}

/// The order of two lists of pre-release identifiers.
fn compare_identifiers(a: &Vec<Vec<char>>, b: &Vec<Vec<char>>) -> (r: i32)
    ensures
        r == identifiers_order_from(
            a@.map_values(|x: Vec<char>| x@),
            b@.map_values(|x: Vec<char>| x@),
            0,
        ),
{
    let ghost va = a@.map_values(|x: Vec<char>| x@);
    let ghost vb = b@.map_values(|x: Vec<char>| x@);
    let mut i: usize = 0;
    while i < a.len() && i < b.len()
        invariant
            va == a@.map_values(|x: Vec<char>| x@),
            vb == b@.map_values(|x: Vec<char>| x@),
            i <= a.len(),
            i <= b.len(),
            identifiers_order_from(va, vb, 0) == identifiers_order_from(va, vb, i as nat),
        decreases a.len() - i,
    {
        assert(va[i as int] == a@[i as int]@ && vb[i as int] == b@[i as int]@);
        let c = compare_identifier(&a[i], &b[i]);
        if c != 0 {
            return c;
        }
        i = i + 1;
    }
    if i == a.len() {
        if i == b.len() {
            0
        } else {
            -1
        }
    } else {
        1
    }
}

/// Compares two versions: -1 when `a` is older than `b`, 0 when they are
/// level, 1 when `a` is newer. Release components decide first; on a tie a
/// version without pre-release tag is newer than one with, and two tags
/// compare identifier by identifier.
pub fn compare_versions(a: &str, b: &str) -> (r: i32)
    ensures
        r == version_order(a@, b@),
        -1 <= r <= 1,
{
    proof {
        lemma_version_order_antisymmetric(a@, b@);
    }
    let c = compare_release(a, b);
    if c != 0 {
        return c;
    }
    let pa = prerelease_identifiers(a);
    let pb = prerelease_identifiers(b);
    match (pa, pb) {
        (None, None) => 0,
        (None, Some(_)) => 1,
        (Some(_), None) => -1,
        (Some(x), Some(y)) => compare_identifiers(&x, &y),
    }
}

// ---------------------------------------------------------------------
// Laws of the version order.
// ---------------------------------------------------------------------

proof fn lemma_compare_from_reflexive(a: Seq<nat>, i: nat)
    ensures
        compare_components_from(a, a, i) == 0,
    decreases a.len() + a.len() - i,
{
    if !(i >= a.len()) {
        lemma_compare_from_reflexive(a, i + 1);
    }
}

proof fn lemma_compare_from_antisymmetric(a: Seq<nat>, b: Seq<nat>, i: nat)
    ensures
        compare_components_from(a, b, i) == -compare_components_from(b, a, i),
    decreases a.len() + b.len() - i,
{
    if !(i >= a.len() && i >= b.len()) && nth_or_zero(a, i as int) == nth_or_zero(b, i as int) {
        lemma_compare_from_antisymmetric(a, b, i + 1);
    }
}

proof fn lemma_compare_from_range(a: Seq<nat>, b: Seq<nat>, i: nat)
    ensures
        -1 <= compare_components_from(a, b, i) <= 1,
    decreases a.len() + b.len() - i,
{
    if !(i >= a.len() && i >= b.len()) && nth_or_zero(a, i as int) == nth_or_zero(b, i as int) {
        lemma_compare_from_range(a, b, i + 1);
    }
}

proof fn lemma_compare_from_transitive(a: Seq<nat>, b: Seq<nat>, c: Seq<nat>, i: nat)
    requires
        compare_components_from(a, b, i) <= 0,
        compare_components_from(b, c, i) <= 0,
    ensures
        compare_components_from(a, c, i) <= 0,
        compare_components_from(a, b, i) < 0 || compare_components_from(b, c, i) < 0
            ==> compare_components_from(a, c, i) < 0,
    decreases a.len() + b.len() + c.len() - i,
{
    let x = nth_or_zero(a, i as int);
    let y = nth_or_zero(b, i as int);
    let z = nth_or_zero(c, i as int);
    if i >= a.len() && i >= b.len() && i >= c.len() {
    } else if x == y && y == z {
        lemma_compare_from_transitive(a, b, c, i + 1);
    }
}

proof fn lemma_compare_from_zero_transitive(a: Seq<nat>, b: Seq<nat>, c: Seq<nat>)
    requires
        compare_components_from(a, b, 0) == 0,
        compare_components_from(b, c, 0) == 0,
    ensures
        compare_components_from(a, c, 0) == 0,
{
    lemma_compare_from_antisymmetric(a, b, 0);
    lemma_compare_from_antisymmetric(b, c, 0);
    lemma_compare_from_transitive(a, b, c, 0);
    lemma_compare_from_transitive(c, b, a, 0);
    lemma_compare_from_antisymmetric(a, c, 0);
}

proof fn lemma_text_order_laws(a: Seq<char>, b: Seq<char>)
    ensures
        text_order(a, a) == 0,
        text_order(a, b) == -text_order(b, a),
        -1 <= text_order(a, b) <= 1,
    decreases a.len(),
{
    if a.len() > 0 && b.len() > 0 {
        lemma_text_order_laws(a.drop_first(), b.drop_first());
    }
    if a.len() > 0 {
        lemma_text_order_laws(a.drop_first(), a.drop_first());
    }
}

proof fn lemma_text_order_transitive(a: Seq<char>, b: Seq<char>, c: Seq<char>)
    requires
        text_order(a, b) <= 0,
        text_order(b, c) <= 0,
    ensures
        text_order(a, c) <= 0,
        text_order(a, b) < 0 || text_order(b, c) < 0 ==> text_order(a, c) < 0,
    decreases a.len(),
{
    if a.len() > 0 && b.len() > 0 && c.len() > 0 && a[0] == b[0] && b[0] == c[0] {
        lemma_text_order_transitive(a.drop_first(), b.drop_first(), c.drop_first());
    }
}

proof fn lemma_identifier_order_laws(x: Seq<char>, y: Seq<char>)
    ensures
        identifier_order(x, x) == 0,
        identifier_order(x, y) == -identifier_order(y, x),
        -1 <= identifier_order(x, y) <= 1,
{
    lemma_text_order_laws(x, y);
}

proof fn lemma_identifier_order_transitive(x: Seq<char>, y: Seq<char>, z: Seq<char>)
    requires
        identifier_order(x, y) <= 0,
        identifier_order(y, z) <= 0,
    ensures
        identifier_order(x, z) <= 0,
        identifier_order(x, y) < 0 || identifier_order(y, z) < 0 ==> identifier_order(x, z) < 0,
{
    if !is_numeric_id(x) && !is_numeric_id(y) && !is_numeric_id(z) {
        lemma_text_order_transitive(x, y, z);
    }
}

proof fn lemma_identifiers_order_reflexive(a: Seq<Seq<char>>, i: nat)
    ensures
        identifiers_order_from(a, a, i) == 0,
    decreases a.len() + a.len() - i,
{
    if i < a.len() {
        lemma_identifier_order_laws(a[i as int], a[i as int]);
        lemma_identifiers_order_reflexive(a, i + 1);
    }
}

proof fn lemma_identifiers_order_laws(a: Seq<Seq<char>>, b: Seq<Seq<char>>, i: nat)
    ensures
        identifiers_order_from(a, b, i) == -identifiers_order_from(b, a, i),
        -1 <= identifiers_order_from(a, b, i) <= 1,
    decreases a.len() + b.len() - i,
{
    if i < a.len() && i < b.len() {
        lemma_identifier_order_laws(a[i as int], b[i as int]);
        lemma_identifiers_order_laws(a, b, i + 1);
    }
}

proof fn lemma_identifiers_order_transitive(
    a: Seq<Seq<char>>,
    b: Seq<Seq<char>>,
    c: Seq<Seq<char>>,
    i: nat,
)
    requires
        identifiers_order_from(a, b, i) <= 0,
        identifiers_order_from(b, c, i) <= 0,
    ensures
        identifiers_order_from(a, c, i) <= 0,
        identifiers_order_from(a, b, i) < 0 || identifiers_order_from(b, c, i) < 0
            ==> identifiers_order_from(a, c, i) < 0,
    decreases a.len() + b.len() + c.len() - i,
{
    if i < a.len() && i < b.len() && i < c.len() {
        let x = a[i as int];
        let y = b[i as int];
        let z = c[i as int];
        lemma_identifier_order_laws(x, y);
        lemma_identifier_order_laws(y, z);
        lemma_identifier_order_laws(x, z);
        lemma_identifier_order_transitive(x, y, z);
        if identifier_order(x, y) == 0 && identifier_order(y, z) == 0 {
            lemma_identifier_order_transitive(z, y, x);
            lemma_identifiers_order_transitive(a, b, c, i + 1);
        }
    }
}

proof fn lemma_prerelease_order_laws(pa: Option<Seq<char>>, pb: Option<Seq<char>>)
    ensures
        prerelease_order(pa, pa) == 0,
        prerelease_order(pa, pb) == -prerelease_order(pb, pa),
        -1 <= prerelease_order(pa, pb) <= 1,
{
    if let Some(x) = pa {
        lemma_identifiers_order_reflexive(split_dots(x), 0);
        if let Some(y) = pb {
            lemma_identifiers_order_laws(split_dots(x), split_dots(y), 0);
        }
    }
}

proof fn lemma_prerelease_order_transitive(
    pa: Option<Seq<char>>,
    pb: Option<Seq<char>>,
    pc: Option<Seq<char>>,
)
    requires
        prerelease_order(pa, pb) <= 0,
        prerelease_order(pb, pc) <= 0,
    ensures
        prerelease_order(pa, pc) <= 0,
        prerelease_order(pa, pb) < 0 || prerelease_order(pb, pc) < 0 ==> prerelease_order(pa, pc)
            < 0,
{
    if let (Some(x), Some(y), Some(z)) = (pa, pb, pc) {
        lemma_identifiers_order_transitive(split_dots(x), split_dots(y), split_dots(z), 0);
    }
}

/// Every version is level with itself.
pub proof fn lemma_version_order_reflexive(a: Seq<char>)
    ensures
        version_order(a, a) == 0,
{
    lemma_compare_from_reflexive(version_components(a), 0);
    lemma_prerelease_order_laws(prerelease(a), prerelease(a));
}

/// Swapping the two versions negates the order.
pub proof fn lemma_version_order_antisymmetric(a: Seq<char>, b: Seq<char>)
    ensures
        version_order(a, b) == -version_order(b, a),
        -1 <= version_order(a, b) <= 1,
{
    lemma_compare_from_antisymmetric(version_components(a), version_components(b), 0);
    lemma_compare_from_range(version_components(a), version_components(b), 0);
    lemma_prerelease_order_laws(prerelease(a), prerelease(b));
}

/// The order is transitive: not newer than a version that is not newer than
/// a third is not newer than the third, and strictly so if either step is
/// strict.
pub proof fn lemma_version_order_transitive(a: Seq<char>, b: Seq<char>, c: Seq<char>)
    requires
        version_order(a, b) <= 0,
        version_order(b, c) <= 0,
    ensures
        version_order(a, c) <= 0,
        version_order(a, b) < 0 || version_order(b, c) < 0 ==> version_order(a, c) < 0,
{
    let va = version_components(a);
    let vb = version_components(b);
    let vc = version_components(c);
    lemma_compare_from_antisymmetric(va, vb, 0);
    lemma_compare_from_antisymmetric(vb, vc, 0);
    lemma_compare_from_antisymmetric(va, vc, 0);
    lemma_compare_from_range(va, vb, 0);
    lemma_compare_from_range(vb, vc, 0);
    let rab = compare_components_from(va, vb, 0);
    let rbc = compare_components_from(vb, vc, 0);
    if rab == 0 && rbc == 0 {
        lemma_compare_from_zero_transitive(va, vb, vc);
        lemma_prerelease_order_transitive(prerelease(a), prerelease(b), prerelease(c));
    } else {
        lemma_compare_from_transitive(va, vb, vc, 0);
    }
}

proof fn lemma_first_difference_decides(a: Seq<nat>, b: Seq<nat>, i: nat, k: nat)
    requires
        i <= k,
        forall|j: int| i <= j < k ==> nth_or_zero(a, j) == nth_or_zero(b, j),
        nth_or_zero(a, k as int) > nth_or_zero(b, k as int),
    ensures
        compare_components_from(a, b, i) == 1,
    decreases k - i,
{
    if i < k {
        assert(nth_or_zero(a, i as int) == nth_or_zero(b, i as int));
        assert(i < a.len() || i < b.len()) by {
            if i >= a.len() && i >= b.len() {
                assert(nth_or_zero(a, k as int) == 0);
            }
        }
        lemma_first_difference_decides(a, b, i + 1, k);
    } else {
        assert(k < a.len());
    }
}

/// The first release component in which two versions differ decides: the
/// version with the greater number there is the newer one, whatever follows
/// and whatever pre-release tags they carry. A new major version is newer
/// than every release of an older one.
pub proof fn lemma_greater_component_is_newer(a: Seq<char>, b: Seq<char>, k: nat)
    requires
        forall|j: int|
            0 <= j < k ==> nth_or_zero(version_components(a), j) == nth_or_zero(
                version_components(b),
                j,
            ),
        nth_or_zero(version_components(a), k as int) > nth_or_zero(version_components(b), k as int),
    ensures
        version_order(a, b) == 1,
        version_order(b, a) == -1,
{
    lemma_first_difference_decides(version_components(a), version_components(b), 0, k);
    lemma_version_order_antisymmetric(a, b);
}

/// On equal release components a version without pre-release tag is newer
/// than one with a tag.
pub proof fn lemma_release_is_newer_than_its_prerelease(a: Seq<char>, b: Seq<char>)
    requires
        version_components(a) == version_components(b),
        prerelease(a) is None,
        prerelease(b) is Some,
    ensures
        version_order(a, b) == 1,
{
    lemma_same_components_level(version_components(a), 0);
}

proof fn lemma_same_components_level(a: Seq<nat>, i: nat)
    ensures
        compare_components_from(a, a, i) == 0,
    decreases a.len() + a.len() - i,
{
    if i < a.len() {
        lemma_same_components_level(a, i + 1);
    }
}

} // verus!
