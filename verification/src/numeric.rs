//! Decimal numbers and dotted version strings.

use vstd::prelude::*;
use crate::paths::joined_with;

verus! {

/// Whether `c` is one of the ASCII digits `0`..`9`.
pub open spec fn is_digit(c: char) -> bool {
    '0' <= c && c <= '9'
}

/// The numeric value of the ASCII digit `c`.
pub open spec fn digit_value(c: char) -> int {
    (c as int) - ('0' as int)
}

/// Whether every character of `s` is an ASCII digit.
pub open spec fn all_digits(s: Seq<char>) -> bool {
    forall|i: int| 0 <= i < s.len() ==> is_digit(#[trigger] s[i])
}

/// The value of the decimal numeral `s` (most significant digit first).
pub open spec fn digits_value(s: Seq<char>) -> int
    decreases s.len(),
{
    if s.len() == 0 {
        0
    } else {
        digits_value(s.drop_last()) * 10 + digit_value(s.last())
    }
}

/// The digits of an unsigned numeral: `s` without one leading `+`.
pub open spec fn unsigned_digits(s: Seq<char>) -> Seq<char> {
    if s.len() > 0 && s[0] == '+' {
        s.skip(1)
    } else {
        s
    }
}

/// The `u32` that the text `s` denotes: an optional `+` followed by at least
/// one ASCII digit, with a value that fits in 32 bits.  Anything else
/// (empty text, a sign alone, a `-`, blanks, other characters, overflow)
/// denotes no number.
pub open spec fn u32_from_text(s: Seq<char>) -> Option<u32> {
    let d = unsigned_digits(s);
    if d.len() > 0 && all_digits(d) && digits_value(d) <= u32::MAX {
        Some(digits_value(d) as u32)
    } else {
        None
    }
}

/// The pieces of `s` between occurrences of `sep`: one more piece than there
/// are separators, pieces possibly empty.
pub open spec fn split_parts(s: Seq<char>, sep: char) -> Seq<Seq<char>>
    decreases s.len(),
{
    if s.len() == 0 {
        seq![Seq::<char>::empty()]
    } else {
        let prev = split_parts(s.drop_last(), sep);
        if s.last() == sep {
            prev.push(Seq::<char>::empty())
        } else {
            prev.update(prev.len() - 1, prev.last().push(s.last()))
        }
    }
}

/// The numbers that the pieces `ps` denote, if every piece denotes one.
pub open spec fn parsed_parts(ps: Seq<Seq<char>>) -> Option<Seq<u32>> {
    if forall|i: int| 0 <= i < ps.len() ==> (#[trigger] u32_from_text(ps[i])) is Some {
        Some(Seq::new(ps.len(), |i: int| u32_from_text(ps[i])->0))
    } else {
        None
    }
}

/// The components of a dotted version string such as `10.0.19045`: every
/// dot-separated piece must be a `u32` numeral.
pub open spec fn parsed_version(s: Seq<char>) -> Option<Seq<u32>> {
    parsed_parts(split_parts(s, '.'))
}

/// Component `i` of a version, where missing components count as zero.
pub open spec fn padded(v: Seq<u32>, i: int) -> int {
    if 0 <= i < v.len() {
        v[i] as int
    } else {
        0
    }
}

/// The comparison of `l` and `r` from component `i` on: -1, 0 or 1.
pub open spec fn order_from(l: Seq<u32>, r: Seq<u32>, i: int) -> int
    decreases l.len() + r.len() - i,
{
    if i >= l.len() && i >= r.len() {
        0
    } else if padded(l, i) < padded(r, i) {
        -1
    } else if padded(l, i) > padded(r, i) {
        1
    } else {
        order_from(l, r, i + 1)
    }
}

/// Lexicographic comparison of two versions padded with zeros to the same
/// length: -1 when `l` is older, 0 when equal, 1 when newer.
pub open spec fn version_order(l: Seq<u32>, r: Seq<u32>) -> int {
    order_from(l, r, 0)
}

proof fn lemma_split_parts_nonempty(s: Seq<char>, sep: char)
    ensures
        split_parts(s, sep).len() >= 1,
    decreases s.len(),
{
    if s.len() > 0 {
        lemma_split_parts_nonempty(s.drop_last(), sep);
    }
}

proof fn lemma_digits_value_monotone(s: Seq<char>, k: int)
    requires
        all_digits(s),
        0 <= k <= s.len(),
    ensures
        0 <= digits_value(s.take(k)) <= digits_value(s),
    decreases s.len(),
{
    if s.len() > 0 {
        if k == s.len() {
            assert(s.take(k) == s);
            lemma_digits_value_monotone(s.drop_last(), k - 1);
            assert(s.drop_last().take(k - 1) == s.drop_last());
        } else {
            assert(all_digits(s.drop_last()));
            lemma_digits_value_monotone(s.drop_last(), k);
            assert(s.drop_last().take(k) == s.take(k));
            assert(is_digit(s[s.len() - 1]));
            lemma_digits_value_monotone(s.drop_last(), s.len() - 1);
            assert(s.drop_last().take(s.len() - 1) == s.drop_last());
        }
    }
}

/// Comparing two versions the other way round gives the opposite answer.
pub proof fn lemma_version_order_antisymmetric(l: Seq<u32>, r: Seq<u32>)
    ensures
        version_order(l, r) == -version_order(r, l),
{
    lemma_order_from_antisymmetric(l, r, 0);
}

proof fn lemma_order_from_antisymmetric(l: Seq<u32>, r: Seq<u32>, i: int)
    ensures
        order_from(l, r, i) == -order_from(r, l, i),
    decreases l.len() + r.len() - i,
{
    if !(i >= l.len() && i >= r.len()) && padded(l, i) == padded(r, i) {
        lemma_order_from_antisymmetric(l, r, i + 1);
    }
}

/// Every version is equal to itself.
pub proof fn lemma_version_order_reflexive(v: Seq<u32>)
    ensures
        version_order(v, v) == 0,
{
    lemma_order_from_reflexive(v, 0);
}

proof fn lemma_order_from_reflexive(v: Seq<u32>, i: int)
    ensures
        order_from(v, v, i) == 0,
    decreases v.len() + v.len() - i,
{
    if !(i >= v.len()) {
        lemma_order_from_reflexive(v, i + 1);
    }
}

/// Versions are ordered transitively: if `a` is not newer than `b` and `b`
/// not newer than `c`, then `a` is not newer than `c`, and strictly older
/// when either step is strict.
pub proof fn lemma_version_order_transitive(a: Seq<u32>, b: Seq<u32>, c: Seq<u32>)
    requires
        version_order(a, b) <= 0,
        version_order(b, c) <= 0,
    ensures
        version_order(a, c) <= 0,
        version_order(a, b) < 0 || version_order(b, c) < 0 ==> version_order(a, c) < 0,
{
    lemma_order_from_transitive(a, b, c, 0);
}

/// A version comparison is -1, 0 or 1.
pub proof fn lemma_version_order_values(l: Seq<u32>, r: Seq<u32>)
    ensures
        -1 <= version_order(l, r) <= 1,
{
    lemma_order_from_range(l, r, 0);
}

proof fn lemma_order_from_range(a: Seq<u32>, b: Seq<u32>, i: int)
    ensures
        -1 <= order_from(a, b, i) <= 1,
        i >= a.len() && i >= b.len() ==> order_from(a, b, i) == 0,
    decreases a.len() + b.len() - i,
{
    if !(i >= a.len() && i >= b.len()) && padded(a, i) == padded(b, i) {
        lemma_order_from_range(a, b, i + 1);
    }
}

proof fn lemma_order_from_transitive(a: Seq<u32>, b: Seq<u32>, c: Seq<u32>, i: int)
    requires
        i >= 0,
        order_from(a, b, i) <= 0,
        order_from(b, c, i) <= 0,
    ensures
        order_from(a, c, i) <= 0,
        order_from(a, b, i) < 0 || order_from(b, c, i) < 0 ==> order_from(a, c, i) < 0,
    decreases a.len() + b.len() + c.len() - i,
{
    lemma_order_from_range(a, b, i);
    lemma_order_from_range(b, c, i);
    lemma_order_from_range(a, c, i);
    if i >= a.len() && i >= b.len() && i >= c.len() {
    } else if padded(a, i) == padded(b, i) && padded(b, i) == padded(c, i) {
        lemma_order_from_range(a, b, i + 1);
        lemma_order_from_range(b, c, i + 1);
        lemma_order_from_range(a, c, i + 1);
        lemma_order_from_transitive(a, b, c, i + 1);
    }
}

/// Two versions compare by their first differing component (missing
/// components counting as zero): older when it is smaller, newer when larger.
pub proof fn lemma_version_order_first_difference(l: Seq<u32>, r: Seq<u32>, i: int)
    requires
        0 <= i,
        forall|j: int| 0 <= j < i ==> padded(l, j) == padded(r, j),
        padded(l, i) != padded(r, i),
    ensures
        padded(l, i) < padded(r, i) ==> version_order(l, r) == -1,
        padded(l, i) > padded(r, i) ==> version_order(l, r) == 1,
{
    lemma_order_from_first_difference(l, r, 0, i);
}

proof fn lemma_order_from_first_difference(l: Seq<u32>, r: Seq<u32>, k: int, i: int)
    requires
        0 <= k <= i,
        forall|j: int| k <= j < i ==> padded(l, j) == padded(r, j),
        padded(l, i) != padded(r, i),
    ensures
        padded(l, i) < padded(r, i) ==> order_from(l, r, k) == -1,
        padded(l, i) > padded(r, i) ==> order_from(l, r, k) == 1,
    decreases i - k,
{
    if k < i {
        assert(padded(l, k) == padded(r, k));
        lemma_order_from_first_difference(l, r, k + 1, i);
    }
}

/// Two versions compare equal exactly when they agree in every component,
/// missing components counting as zero.
pub proof fn lemma_version_order_equal(l: Seq<u32>, r: Seq<u32>)
    ensures
        version_order(l, r) == 0 <==> forall|j: int| 0 <= j ==> #[trigger] padded(l, j) == padded(r, j),
{
    if version_order(l, r) == 0 {
        assert forall|j: int| 0 <= j implies #[trigger] padded(l, j) == padded(r, j) by {
            if padded(l, j) != padded(r, j) {
                lemma_first_difference_exists(l, r, j);
            }
        }
    } else {
        if forall|j: int| 0 <= j ==> #[trigger] padded(l, j) == padded(r, j) {
            lemma_order_from_all_equal(l, r, 0);
        }
    }
}

proof fn lemma_order_from_all_equal(l: Seq<u32>, r: Seq<u32>, k: int)
    requires
        0 <= k,
        forall|j: int| 0 <= j ==> #[trigger] padded(l, j) == padded(r, j),
    ensures
        order_from(l, r, k) == 0,
    decreases l.len() + r.len() - k,
{
    assert(padded(l, k) == padded(r, k));
    if !(k >= l.len() && k >= r.len()) {
        lemma_order_from_all_equal(l, r, k + 1);
    }
}

proof fn lemma_first_difference_exists(l: Seq<u32>, r: Seq<u32>, j: int)
    requires
        0 <= j,
        padded(l, j) != padded(r, j),
    ensures
        version_order(l, r) != 0,
    decreases j,
{
    if exists|k: int| 0 <= k < j && #[trigger] padded(l, k) != padded(r, k) {
        let k = choose|k: int| 0 <= k < j && #[trigger] padded(l, k) != padded(r, k);
        lemma_first_difference_exists(l, r, k);
    } else {
        lemma_version_order_first_difference(l, r, j);
    }
}

/// Trailing zero components do not change a version: `1.2` equals `1.2.0`.
pub proof fn lemma_version_order_trailing_zero(v: Seq<u32>)
    ensures
        version_order(v, v.push(0)) == 0,
{
    lemma_order_from_trailing_zero(v, 0);
}

proof fn lemma_order_from_trailing_zero(v: Seq<u32>, i: int)
    requires
        i >= 0,
    ensures
        order_from(v, v.push(0), i) == 0,
    decreases v.len() + v.len() + 1 - i,
{
    let w = v.push(0);
    if !(i >= v.len() && i >= w.len()) {
        assert(padded(v, i) == padded(w, i));
        lemma_order_from_trailing_zero(v, i + 1);
    }
}

/// The ASCII digit of a value below 10.
pub open spec fn digit_char(d: int) -> char {
    seq!['0', '1', '2', '3', '4', '5', '6', '7', '8', '9'][d]
}

/// The decimal numeral of `n`, without leading zeros (as `u32::to_string`
/// writes it).
pub open spec fn decimal(n: nat) -> Seq<char>
    decreases n,
{
    if n < 10 {
        seq![digit_char(n as int)]
    } else {
        decimal(n / 10).push(digit_char((n % 10) as int))
    }
}

/// A version written out: its components in decimal, joined with dots.
pub open spec fn rendered_version(v: Seq<u32>) -> Seq<char> {
    joined_with(v.map_values(|x: u32| decimal(x as nat)), seq!['.'])
}

proof fn lemma_digit_char(d: int)
    requires
        0 <= d < 10,
    ensures
        is_digit(digit_char(d)),
        digit_value(digit_char(d)) == d,
{
    let t = seq!['0', '1', '2', '3', '4', '5', '6', '7', '8', '9'];
    assert(t[0] == '0' && t[1] == '1' && t[2] == '2' && t[3] == '3' && t[4] == '4');
    assert(t[5] == '5' && t[6] == '6' && t[7] == '7' && t[8] == '8' && t[9] == '9');
}

proof fn lemma_decimal(n: nat)
    ensures
        decimal(n).len() > 0,
        all_digits(decimal(n)),
        digits_value(decimal(n)) == n,
    decreases n,
{
    if n < 10 {
        lemma_digit_char(n as int);
        assert(decimal(n).drop_last() =~= Seq::<char>::empty());
        assert(decimal(n).last() == digit_char(n as int));
        assert(digits_value(Seq::<char>::empty()) == 0);
        assert(digits_value(decimal(n)) == digits_value(decimal(n).drop_last()) * 10 + digit_value(
            decimal(n).last(),
        ));
    } else {
        lemma_decimal(n / 10);
        lemma_digit_char((n % 10) as int);
        let d = decimal(n);
        assert(d.drop_last() == decimal(n / 10));
        assert forall|i: int| 0 <= i < d.len() implies is_digit(#[trigger] d[i]) by {
            if i < d.len() - 1 {
                assert(d[i] == decimal(n / 10)[i]);
            }
        }
        vstd::arithmetic::div_mod::lemma_fundamental_div_mod(n as int, 10);
        assert(d.last() == digit_char((n % 10) as int));
        assert(digits_value(d) == digits_value(decimal(n / 10)) * 10 + (n % 10));
        assert(digits_value(decimal(n / 10)) == n / 10);
        assert((n / 10) * 10 + (n % 10) == n);
    }
}

proof fn lemma_split_without_sep(t: Seq<char>, sep: char)
    requires
        forall|i: int| 0 <= i < t.len() ==> t[i] != sep,
    ensures
        split_parts(t, sep) == seq![t],
    decreases t.len(),
{
    if t.len() == 0 {
        assert(t =~= Seq::<char>::empty());
    } else {
        assert(t.last() != sep);
        lemma_split_without_sep(t.drop_last(), sep);
        assert(t.drop_last().push(t.last()) =~= t);
        assert(seq![t.drop_last()].update(0, t.drop_last().push(t.last())) =~= seq![t]);
    }
}

proof fn lemma_split_after_sep(s: Seq<char>, t: Seq<char>, sep: char)
    requires
        forall|i: int| 0 <= i < t.len() ==> t[i] != sep,
    ensures
        split_parts(s + seq![sep] + t, sep) == split_parts(s, sep).push(t),
    decreases t.len(),
{
    lemma_split_parts_nonempty(s, sep);
    if t.len() == 0 {
        assert(s + seq![sep] + t =~= s.push(sep));
        assert((s + seq![sep] + t).drop_last() =~= s);
        assert(t =~= Seq::<char>::empty());
    } else {
        let u = s + seq![sep] + t;
        lemma_split_after_sep(s, t.drop_last(), sep);
        assert(u.drop_last() =~= s + seq![sep] + t.drop_last());
        assert(u.last() == t.last());
        let prev = split_parts(s, sep).push(t.drop_last());
        assert(t.drop_last().push(t.last()) =~= t);
        assert(prev.update(prev.len() - 1, prev.last().push(t.last())) =~= split_parts(s, sep).push(
            t,
        ));
    }
}

proof fn lemma_split_joined(parts: Seq<Seq<char>>, sep: char)
    requires
        parts.len() >= 1,
        forall|k: int, i: int| 0 <= k < parts.len() && 0 <= i < parts[k].len() ==> parts[k][i] != sep,
    ensures
        split_parts(joined_with(parts, seq![sep]), sep) == parts,
    decreases parts.len(),
{
    if parts.len() == 1 {
        assert forall|i: int| 0 <= i < parts[0].len() implies parts[0][i] != sep by {}
        lemma_split_without_sep(parts[0], sep);
        assert(seq![parts[0]] =~= parts);
    } else {
        let d = parts.drop_last();
        assert forall|k: int, i: int| 0 <= k < d.len() && 0 <= i < d[k].len() implies d[k][i]
            != sep by {
            assert(d[k] == parts[k]);
        }
        lemma_split_joined(d, sep);
        let last = parts.last();
        assert forall|i: int| 0 <= i < last.len() implies last[i] != sep by {
            assert(last == parts[parts.len() - 1]);
        }
        lemma_split_after_sep(joined_with(d, seq![sep]), last, sep);
        assert(d.push(last) =~= parts);
    }
}

/// Reading a version written out in decimal with dots gives the version back.
pub proof fn lemma_parse_rendered_version(v: Seq<u32>)
    requires
        v.len() >= 1,
    ensures
        parsed_version(rendered_version(v)) == Some(v),
{
    let parts = v.map_values(|x: u32| decimal(x as nat));
    assert forall|k: int, i: int| 0 <= k < parts.len() && 0 <= i < parts[k].len() implies parts[k][i]
        != '.' by {
        lemma_decimal(v[k] as nat);
        assert(is_digit(parts[k][i]));
    }
    lemma_split_joined(parts, '.');
    assert forall|k: int| 0 <= k < parts.len() implies (#[trigger] u32_from_text(parts[k])) == Some(
        v[k],
    ) by {
        lemma_decimal(v[k] as nat);
        assert(is_digit(parts[k][0]));
        assert(unsigned_digits(parts[k]) == parts[k]);
    }
    assert(Seq::new(parts.len(), |i: int| u32_from_text(parts[i])->0) =~= v);
}

/// The `u32` that the characters `s` denote, as `str::parse::<u32>` reads it.
pub fn parse_u32(s: &Vec<char>) -> (r: Option<u32>)
    ensures
        r == u32_from_text(s@),
{
    let n = s.len();
    let mut start: usize = 0;
    if n > 0 && s[0] == '+' {
        start = 1;
    }
    let ghost d = unsigned_digits(s@);
    assert(d == s@.skip(start as int));
    if start == n {
        return None;
    }
    let mut acc: u64 = 0;
    let mut i = start;
    while i < n
        invariant
            n == s@.len(),
            start <= i <= n,
            start < n,
            d == s@.skip(start as int),
            d == unsigned_digits(s@),
            all_digits(d.take(i - start)),
            acc == digits_value(d.take(i - start)),
            acc <= u32::MAX,
        decreases n - i,
    {
        let c = s[i];
        if !('0' <= c && c <= '9') {
            assert(d[i - start] == c);
            assert(!is_digit(d[i - start]));
            return None;
        }
        let v = (c as u64) - ('0' as u64);
        assert(d.take(i - start + 1).drop_last() == d.take(i - start));
        assert(d.take(i - start + 1).last() == c);
        assert(acc * 10 + v <= u32::MAX * 10 + 9) by (nonlinear_arith)
            requires
                acc <= u32::MAX,
                v <= 9,
        ;
        let next = acc * 10 + v;
        if next > 0xffff_ffff {
            assert(all_digits(d.take(i - start + 1)));
            proof {
                if all_digits(d) {
                    lemma_digits_value_monotone(d, (i - start + 1) as int);
                }
            }
            return None;
        }
        acc = next;
        i = i + 1;
        assert(all_digits(d.take(i - start)));
    }
    assert(d.take(n - start) == d);
    Some(acc as u32)
}

/// The pieces of `s` between occurrences of `sep` (see [`split_parts`]).
pub fn split_on(s: &Vec<char>, sep: char) -> (r: Vec<Vec<char>>)
    ensures
        r@.len() == split_parts(s@, sep).len(),
        forall|j: int| 0 <= j < r@.len() ==> (#[trigger] r@[j])@ == split_parts(s@, sep)[j],
{
    let mut done: Vec<Vec<char>> = Vec::new();
    let mut cur: Vec<char> = Vec::new();
    let n = s.len();
    assert(s@.take(0) == Seq::<char>::empty());
    for i in 0..n
        invariant
            n == s@.len(),
            done@.len() + 1 == split_parts(s@.take(i as int), sep).len(),
            forall|j: int|
                0 <= j < done@.len() ==> (#[trigger] done@[j])@ == split_parts(
                    s@.take(i as int),
                    sep,
                )[j],
            cur@ == split_parts(s@.take(i as int), sep).last(),
    {
        let ghost prev = split_parts(s@.take(i as int), sep);
        assert(s@.take(i + 1).drop_last() == s@.take(i as int));
        assert(s@.take(i + 1).last() == s@[i as int]);
        proof {
            lemma_split_parts_nonempty(s@.take(i as int), sep);
        }
        if s[i] == sep {
            let piece = cur;
            cur = Vec::new();
            done.push(piece);
        } else {
            cur.push(s[i]);
        }
    }
    assert(s@.take(n as int) == s@);
    done.push(cur);
    done
}

/// Parses every piece of `ps` as a `u32`; `None` as soon as one fails.
pub fn parse_parts(ps: &Vec<Vec<char>>) -> (r: Option<Vec<u32>>)
    ensures
        match r {
            Some(v) => parsed_parts(ps@.map_values(|p: Vec<char>| p@)) == Some(v@),
            None => parsed_parts(ps@.map_values(|p: Vec<char>| p@)) is None,
        },
{
    let ghost views = ps@.map_values(|p: Vec<char>| p@);
    let mut out: Vec<u32> = Vec::new();
    let n = ps.len();
    for i in 0..n
        invariant
            n == ps@.len(),
            views == ps@.map_values(|p: Vec<char>| p@),
            out@.len() == i,
            forall|j: int| 0 <= j < i ==> (#[trigger] u32_from_text(views[j])) == Some(out@[j]),
    {
        match parse_u32(&ps[i]) {
            Some(x) => {
                out.push(x);
            },
            None => {
                assert(u32_from_text(views[i as int]) is None);
                return None;
            },
        }
    }
    assert(Seq::new(views.len(), |i: int| u32_from_text(views[i])->0) =~= out@);
    Some(out)
}

/// Compares two versions component by component, padding the shorter with
/// zeros: -1 when `l` is older, 0 when equal, 1 when newer.
pub fn compare_parts(l: &Vec<u32>, r: &Vec<u32>) -> (c: i8)
    ensures
        c == version_order(l@, r@),
{
    let max_len = if l.len() >= r.len() {
        l.len()
    } else {
        r.len()
    };
    for i in 0..max_len
        invariant
            max_len == if l@.len() >= r@.len() {
                l@.len()
            } else {
                r@.len()
            },
            order_from(l@, r@, 0) == order_from(l@, r@, i as int),
    {
        let a: u32 = if i < l.len() {
            l[i]
        } else {
            0
        };
        let b: u32 = if i < r.len() {
            r[i]
        } else {
            0
        };
        assert(a == padded(l@, i as int) && b == padded(r@, i as int));
        if a < b {
            return -1;
        } else if a > b {
            return 1;
        }
    }
    0
}

} // verus!
