//! Character-level string helpers with exact specifications.

use vstd::prelude::*;

verus! {

/// `String::push` appends one character at the end of the string.
pub assume_specification[ std::string::String::push ](s: &mut std::string::String, ch: char)
    ensures
        final(s)@ == old(s)@.push(ch),
;

/// The characters of `s`, in order.
pub fn chars_of(s: &str) -> (r: Vec<char>)
    ensures
        r@ == s@,
{
    let mut out: Vec<char> = Vec::new();
    for c in it: s.chars()
        invariant
            out@ == it.seq().take(it.index() as int),
            it.seq() == s@,
    {
        out.push(c);
    }
    out
}

/// A string holding exactly the characters of `cs`.
pub fn string_from_chars(cs: &Vec<char>) -> (r: String)
    ensures
        r@ == cs@,
{
    let mut out = String::new();
    let n = cs.len();
    for i in 0..n
        invariant
            n == cs@.len(),
            out@ == cs@.take(i as int),
    {
        out.push(cs[i]);
        assert(cs@.take(i + 1) == cs@.take(i as int).push(cs@[i as int]));
    }
    assert(cs@.take(n as int) == cs@);
    out
}

/// Whether two strings hold the same characters.
pub fn str_eq(a: &str, b: &str) -> (r: bool)
    ensures
        r == (a@ == b@),
{
    let x = chars_of(a);
    let y = chars_of(b);
    if x.len() != y.len() {
        return false;
    }
    let n = x.len();
    for i in 0..n
        invariant
            n == x@.len(),
            n == y@.len(),
            x@ == a@,
            y@ == b@,
            forall|j: int| 0 <= j < i ==> x@[j] == y@[j],
    {
        if x[i] != y[i] {
            assert(x@[i as int] != y@[i as int]);
            return false;
        }
    }
    assert(x@ =~= y@);
    true
}

/// The result of replacing, from left to right, every non-overlapping
/// occurrence of `pat` in `s` by `rep`.  An empty pattern matches before
/// every character and once more at the end.
pub open spec fn replaced(s: Seq<char>, pat: Seq<char>, rep: Seq<char>) -> Seq<char>
    decreases s.len(),
{
    if pat.len() == 0 {
        if s.len() == 0 {
            rep
        } else {
            rep + seq![s[0]] + replaced(s.skip(1), pat, rep)
        }
    } else if s.len() < pat.len() {
        s
    } else if s.take(pat.len() as int) == pat {
        rep + replaced(s.skip(pat.len() as int), pat, rep)
    } else {
        seq![s[0]] + replaced(s.skip(1), pat, rep)
    }
}

/// Text in which the first character of a non-empty pattern never occurs
/// comes out of a replacement unchanged.
pub proof fn lemma_replaced_without_lead_char(s: Seq<char>, pat: Seq<char>, rep: Seq<char>)
    requires
        pat.len() > 0,
        forall|i: int| 0 <= i < s.len() ==> s[i] != pat[0],
    ensures
        replaced(s, pat, rep) == s,
    decreases s.len(),
{
    if s.len() >= pat.len() {
        assert(s.take(pat.len() as int)[0] == s[0]);
        let t = s.skip(1);
        assert forall|i: int| 0 <= i < t.len() implies t[i] != pat[0] by {
            assert(t[i] == s[i + 1]);
        }
        lemma_replaced_without_lead_char(t, pat, rep);
        assert(seq![s[0]] + t =~= s);
    }
}

/// Appends all of `src` to `out`.
pub fn push_all(out: &mut Vec<char>, src: &Vec<char>)
    ensures
        final(out)@ == old(out)@ + src@,
{
    let n = src.len();
    for i in 0..n
        invariant
            n == src@.len(),
            out@ == old(out)@ + src@.take(i as int),
    {
        out.push(src[i]);
        assert(src@.take(i + 1) == src@.take(i as int).push(src@[i as int]));
    }
    assert(src@.take(n as int) == src@);
}

/// Whether `p` occurs in `c` at position `i`.
fn occurs_at(c: &Vec<char>, i: usize, p: &Vec<char>) -> (r: bool)
    requires
        i + p@.len() <= c@.len(),
    ensures
        r == (c@.subrange(i as int, i + p@.len()) == p@),
{
    let m = p.len();
    for k in 0..m
        invariant
            m == p@.len(),
            i + m <= c.len(),
            forall|j: int| 0 <= j < k ==> c@[i + j] == p@[j],
    {
        if c[i + k] != p[k] {
            assert(c@.subrange(i as int, i + m)[k as int] != p@[k as int]);
            return false;
        }
    }
    assert(c@.subrange(i as int, i + m) =~= p@);
    true
}

/// `s` with every occurrence of `pat` replaced by `rep` (see [`replaced`]).
pub fn replace_all(s: &str, pat: &str, rep: &str) -> (r: String)
    ensures
        r@ == replaced(s@, pat@, rep@),
{
    let c = chars_of(s);
    let p = chars_of(pat);
    let q = chars_of(rep);
    let n = c.len();
    let m = p.len();
    let mut out: Vec<char> = Vec::new();
    let mut i: usize = 0;
    assert(c@.skip(0) == c@);
    if m == 0 {
        while i < n
            invariant
                n == c@.len(),
                m == p@.len(),
                m == 0,
                i <= n,
                out@ + replaced(c@.skip(i as int), p@, q@) == replaced(c@, p@, q@),
            decreases n - i,
        {
            let ghost before = out@;
            assert(c@.skip(i as int).skip(1) == c@.skip(i + 1));
            assert(c@.skip(i as int)[0] == c@[i as int]);
            push_all(&mut out, &q);
            out.push(c[i]);
            i = i + 1;
            assert(before + (q@ + seq![c@[i - 1]] + replaced(c@.skip(i as int), p@, q@)) =~= out@
                + replaced(c@.skip(i as int), p@, q@));
        }
        assert(c@.skip(i as int).len() == 0);
        push_all(&mut out, &q);
    } else {
        while i < n
            invariant
                n == c@.len(),
                m == p@.len(),
                m > 0,
                i <= n,
                out@ + replaced(c@.skip(i as int), p@, q@) == replaced(c@, p@, q@),
            decreases n - i,
        {
            let ghost before = out@;
            let ghost rest = c@.skip(i as int);
            if n - i < m {
                while i < n
                    invariant
                        n == c@.len(),
                        i <= n,
                        out@ + c@.skip(i as int) == before + rest,
                    decreases n - i,
                {
                    assert(c@.skip(i as int) =~= seq![c@[i as int]] + c@.skip(i + 1));
                    out.push(c[i]);
                    i = i + 1;
                    assert(out@ + c@.skip(i as int) =~= before + rest);
                }
                assert(c@.skip(i as int) =~= Seq::<char>::empty());
                assert(out@ =~= before + rest);
            } else if occurs_at(&c, i, &p) {
                assert(rest.take(m as int) =~= c@.subrange(i as int, i + m));
                assert(rest.skip(m as int) =~= c@.skip(i + m));
                push_all(&mut out, &q);
                i = i + m;
                assert(before + (q@ + replaced(c@.skip(i as int), p@, q@)) =~= out@ + replaced(
                    c@.skip(i as int),
                    p@,
                    q@,
                ));
            } else {
                assert(rest.take(m as int) =~= c@.subrange(i as int, i + m));
                assert(rest.skip(1) =~= c@.skip(i + 1));
                assert(rest[0] == c@[i as int]);
                out.push(c[i]);
                i = i + 1;
                assert(before + (seq![c@[i - 1]] + replaced(c@.skip(i as int), p@, q@)) =~= out@
                    + replaced(c@.skip(i as int), p@, q@));
            }
        }
        assert(c@.skip(i as int).len() == 0);
        assert(replaced(c@.skip(i as int), p@, q@) == c@.skip(i as int));
        assert(out@ + c@.skip(i as int) =~= out@);
    }
    string_from_chars(&out)
}

/// Whether `p` has the shape of a template placeholder: `${`, then a name
/// without `$` or `}`, then `}`.
pub open spec fn is_placeholder(p: Seq<char>) -> bool {
    &&& p.len() >= 3
    &&& p[0] == '$'
    &&& p[1] == '{'
    &&& p[p.len() - 1] == '}'
    &&& forall|i: int| 1 <= i < p.len() ==> p[i] != '$'
    &&& forall|i: int| 0 <= i < p.len() - 1 ==> p[i] != '}'
}

/// Whether `s` contains no `$`.
pub open spec fn no_dollar(s: Seq<char>) -> bool {
    forall|i: int| 0 <= i < s.len() ==> s[i] != '$'
}

/// A text that is exactly the pattern is replaced by the replacement.
pub proof fn lemma_replaced_whole(p: Seq<char>, rep: Seq<char>)
    requires
        p.len() > 0,
    ensures
        replaced(p, p, rep) == rep,
{
    assert(p.take(p.len() as int) =~= p);
    assert(p.skip(p.len() as int) =~= Seq::<char>::empty());
    assert(replaced(p.skip(p.len() as int), p, rep) == p.skip(p.len() as int));
    assert(replaced(p, p, rep) == rep + replaced(p.skip(p.len() as int), p, rep));
    assert(rep + Seq::<char>::empty() =~= rep);
}

/// One placeholder is left alone when another placeholder is replaced.
pub proof fn lemma_replaced_other_placeholder(s: Seq<char>, pat: Seq<char>, rep: Seq<char>)
    requires
        is_placeholder(s),
        is_placeholder(pat),
        s != pat,
    ensures
        replaced(s, pat, rep) == s,
{
    if s.len() >= pat.len() {
        if s.take(pat.len() as int) == pat {
            assert(s[pat.len() - 1] == '}');
            assert(pat.len() == s.len());
            assert(s.take(pat.len() as int) =~= s);
        }
        let t = s.skip(1);
        assert forall|i: int| 0 <= i < t.len() implies t[i] != pat[0] by {
            assert(t[i] == s[i + 1]);
        }
        lemma_replaced_without_lead_char(t, pat, rep);
        assert(seq![s[0]] + t =~= s);
    }
}

/// Text without `$` is left alone when a placeholder is replaced.
pub proof fn lemma_replaced_no_dollar(s: Seq<char>, pat: Seq<char>, rep: Seq<char>)
    requires
        no_dollar(s),
        is_placeholder(pat),
    ensures
        replaced(s, pat, rep) == s,
{
    lemma_replaced_without_lead_char(s, pat, rep);
}

} // verus!
