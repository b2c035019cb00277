//! Reading the OS version out of the text that the Windows `ver` command
//! prints, such as `Microsoft Windows [Version 10.0.19045.3803]`.

use vstd::prelude::*;
use crate::numeric::is_digit;
use crate::text::{chars_of, string_from_chars};

verus! {

/// Whether `c` has the Unicode `White_Space` property (as `char::is_whitespace`).
pub open spec fn is_white(c: char) -> bool {
    ||| c == ' '
    ||| ('\t' <= c && c <= '\r')
    ||| c == '\u{85}'
    ||| c == '\u{a0}'
    ||| c == '\u{1680}'
    ||| ('\u{2000}' <= c && c <= '\u{200a}')
    ||| c == '\u{2028}'
    ||| c == '\u{2029}'
    ||| c == '\u{202f}'
    ||| c == '\u{205f}'
    ||| c == '\u{3000}'
}

/// The position of the first `c` in `s`, if any.
pub open spec fn first_index(s: Seq<char>, c: char) -> Option<int>
    decreases s.len(),
{
    if s.len() == 0 {
        None
    } else if s[0] == c {
        Some(0)
    } else {
        match first_index(s.skip(1), c) {
            Some(k) => Some(k + 1),
            None => None,
        }
    }
}

/// The number of characters before the first white space of `s` (or its length).
pub open spec fn leading_token_len(s: Seq<char>) -> nat
    decreases s.len(),
{
    if s.len() == 0 || is_white(s[0]) {
        0
    } else {
        1 + leading_token_len(s.skip(1))
    }
}

/// A leading word is no longer than the text, and non-empty when the text
/// starts with a non-blank character.
pub proof fn lemma_leading_token_len_bounds(s: Seq<char>)
    ensures
        leading_token_len(s) <= s.len(),
        s.len() > 0 && !is_white(s[0]) ==> leading_token_len(s) >= 1,
    decreases s.len(),
{
    if s.len() > 0 && !is_white(s[0]) {
        lemma_leading_token_len_bounds(s.skip(1));
    }
}

/// The first white-space-separated word of `s` that starts with an ASCII digit.
pub open spec fn first_numeric_token(s: Seq<char>) -> Option<Seq<char>>
    decreases s.len(),
{
    if s.len() == 0 {
        None
    } else if is_white(s[0]) {
        first_numeric_token(s.skip(1))
    } else {
        proof {
            lemma_leading_token_len_bounds(s);
        }
        let n = leading_token_len(s) as int;
        if is_digit(s[0]) {
            Some(s.take(n))
        } else {
            first_numeric_token(s.skip(n))
        }
    }
}

/// The version in the output `text` of `ver`: the first word starting with a
/// digit between the first `[` and the first `]` after it.  Nothing when the
/// command did not succeed, a bracket is missing, or no such word exists.
pub open spec fn ver_output_version(succeeded: bool, text: Seq<char>) -> Option<Seq<char>> {
    if !succeeded {
        None
    } else {
        match first_index(text, '[') {
            None => None,
            Some(a) => {
                let rest = text.skip(a + 1);
                match first_index(rest, ']') {
                    None => None,
                    Some(b) => first_numeric_token(rest.take(b)),
                }
            },
        }
    }
}

proof fn lemma_first_index_found(s: Seq<char>, c: char, k: int)
    requires
        0 <= k < s.len(),
        s[k] == c,
        forall|j: int| 0 <= j < k ==> s[j] != c,
    ensures
        first_index(s, c) == Some(k),
    decreases k,
{
    if k > 0 {
        lemma_first_index_found(s.skip(1), c, k - 1);
    }
}

proof fn lemma_first_index_absent(s: Seq<char>, c: char)
    requires
        forall|j: int| 0 <= j < s.len() ==> s[j] != c,
    ensures
        first_index(s, c) is None,
    decreases s.len(),
{
    if s.len() > 0 {
        lemma_first_index_absent(s.skip(1), c);
    }
}

proof fn lemma_leading_token_len_exact(s: Seq<char>, m: int)
    requires
        0 <= m <= s.len(),
        forall|j: int| 0 <= j < m ==> !is_white(#[trigger] s[j]),
        m == s.len() || is_white(s[m]),
    ensures
        leading_token_len(s) == m,
    decreases m,
{
    if m > 0 {
        let t = s.skip(1);
        assert forall|j: int| 0 <= j < m - 1 implies !is_white(#[trigger] t[j]) by {
            assert(t[j] == s[j + 1]);
        }
        lemma_leading_token_len_exact(t, m - 1);
    }
}

fn is_white_char(c: char) -> (r: bool)
    ensures
        r == is_white(c),
{
    c == ' ' || ('\t' <= c && c <= '\r') || c == '\u{85}' || c == '\u{a0}' || c == '\u{1680}'
        || ('\u{2000}' <= c && c <= '\u{200a}') || c == '\u{2028}' || c == '\u{2029}' || c
        == '\u{202f}' || c == '\u{205f}' || c == '\u{3000}'
}

/// The position of the first `ch` at or after `from`.
fn find_from(c: &Vec<char>, from: usize, ch: char) -> (r: Option<usize>)
    requires
        from <= c@.len(),
    ensures
        match r {
            Some(k) => from <= k < c@.len() && first_index(c@.skip(from as int), ch) == Some(
                k - from,
            ),
            None => first_index(c@.skip(from as int), ch) is None,
        },
{
    let n = c.len();
    let mut i = from;
    while i < n
        invariant
            n == c@.len(),
            from <= i <= n,
            forall|j: int| from <= j < i ==> c@[j] != ch,
        decreases n - i,
    {
        if c[i] == ch {
            proof {
                let s = c@.skip(from as int);
                assert forall|j: int| 0 <= j < i - from implies s[j] != ch by {
                    assert(s[j] == c@[from + j]);
                }
                lemma_first_index_found(s, ch, i - from);
            }
            return Some(i);
        }
        i = i + 1;
    }
    proof {
        let s = c@.skip(from as int);
        assert forall|j: int| 0 <= j < s.len() implies s[j] != ch by {
            assert(s[j] == c@[from + j]);
        }
        lemma_first_index_absent(s, ch);
    }
    None
}

/// The characters `c[from..to]`.
fn copy_range(c: &Vec<char>, from: usize, to: usize) -> (r: Vec<char>)
    requires
        from <= to <= c@.len(),
    ensures
        r@ == c@.subrange(from as int, to as int),
{
    let mut out: Vec<char> = Vec::new();
    let mut i = from;
    while i < to
        invariant
            from <= i <= to,
            to <= c@.len(),
            out@ == c@.subrange(from as int, i as int),
        decreases to - i,
    {
        out.push(c[i]);
        i = i + 1;
        assert(out@ =~= c@.subrange(from as int, i as int));
    }
    out
}

/// The first word of `s` that starts with an ASCII digit (see [`first_numeric_token`]).
fn numeric_token(s: &Vec<char>) -> (r: Option<Vec<char>>)
    ensures
        match r {
            Some(t) => first_numeric_token(s@) == Some(t@),
            None => first_numeric_token(s@) is None,
        },
{
    let n = s.len();
    let mut i: usize = 0;
    assert(s@.skip(0) == s@);
    while i < n
        invariant
            n == s@.len(),
            i <= n,
            first_numeric_token(s@) == first_numeric_token(s@.skip(i as int)),
        decreases n - i,
    {
        let ghost t = s@.skip(i as int);
        assert(t[0] == s@[i as int]);
        if is_white_char(s[i]) {
            assert(t.skip(1) =~= s@.skip(i + 1));
            i = i + 1;
        } else {
            let mut j = i + 1;
            while j < n && !is_white_char(s[j])
                invariant
                    n == s@.len(),
                    i < j <= n,
                    forall|k: int| i <= k < j ==> !is_white(#[trigger] s@[k]),
                decreases n - j,
            {
                j = j + 1;
            }
            proof {
                assert forall|k: int| 0 <= k < j - i implies !is_white(#[trigger] t[k]) by {
                    assert(t[k] == s@[i + k]);
                }
                if j < n {
                    assert(t[j - i] == s@[j as int]);
                }
                lemma_leading_token_len_exact(t, j - i);
            }
            if '0' <= s[i] && s[i] <= '9' {
                let tok = copy_range(s, i, j);
                assert(t.take(j - i) =~= s@.subrange(i as int, j as int));
                return Some(tok);
            }
            assert(t.skip(j - i) =~= s@.skip(j as int));
            i = j;
        }
    }
    assert(s@.skip(i as int).len() == 0);
    None
}

/// The OS version in the output of the Windows `ver` command: `succeeded`
/// tells whether the command ran and exited successfully, `output` is what
/// it printed (see [`ver_output_version`]).
pub fn get_os_version(succeeded: bool, output: &str) -> (r: Option<String>)
    ensures
        match r {
            Some(v) => ver_output_version(succeeded, output@) == Some(v@),
            None => ver_output_version(succeeded, output@) is None,
        },
{
    if !succeeded {
        return None;
    }
    let text = chars_of(output);
    let start = match find_from(&text, 0, '[') {
        Some(k) => k,
        None => {
            assert(text@.skip(0) == text@);
            return None;
        },
    };
    assert(text@.skip(0) == text@);
    let end = match find_from(&text, start + 1, ']') {
        Some(k) => k,
        None => {
            return None;
        },
    };
    let inside = copy_range(&text, start + 1, end);
    assert(inside@ =~= text@.skip(start + 1).take(end - (start + 1)));
    match numeric_token(&inside) {
        Some(t) => Some(string_from_chars(&t)),
        None => None,
    }
}

} // verus!
