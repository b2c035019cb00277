//! File-system paths as text, joined the way `Path::join` joins them on the
//! host, and simple string building.

use vstd::prelude::*;
use crate::text::{chars_of, string_from_chars, push_all, str_eq};

verus! {

/// Whether the host runs Windows, from the operating system name that Rust
/// reports (`std::env::consts::OS`).
pub open spec fn is_windows(os: Seq<char>) -> bool {
    os == "windows"@
}

/// The separator that joined paths use on the host.
pub open spec fn separator(windows: bool) -> char {
    if windows {
        '\\'
    } else {
        '/'
    }
}

/// Whether `c` separates path components on the host (`/` everywhere, and
/// also `\` on Windows).
pub open spec fn is_separator(c: char, windows: bool) -> bool {
    c == '/' || (windows && c == '\\')
}

/// Whether `c` is an ASCII letter.
pub open spec fn is_ascii_letter(c: char) -> bool {
    ('a' <= c && c <= 'z') || ('A' <= c && c <= 'Z')
}

/// Whether `s` has a drive letter and a colon at position `i`.
pub open spec fn is_drive_at(s: Seq<char>, i: int) -> bool {
    s.len() >= i + 2 && is_ascii_letter(s[i]) && s[i + 1] == ':'
}

/// The number of characters of `s` before its first separator; verbatim
/// paths separate components with `\` only.
pub open spec fn component_len(s: Seq<char>, verbatim: bool) -> nat
    decreases s.len(),
{
    if s.len() == 0 || s[0] == '\\' || (!verbatim && s[0] == '/') {
        0
    } else {
        1 + component_len(s.skip(1), verbatim)
    }
}

/// The length of `server\share` at the start of `s` (the share and its
/// separator only when the share is not empty).
pub open spec fn server_share_len(s: Seq<char>, verbatim: bool) -> int {
    let a = component_len(s, verbatim) as int;
    if a < s.len() {
        let b = component_len(s.skip(a + 1), verbatim) as int;
        if b > 0 {
            a + 1 + b
        } else {
            a
        }
    } else {
        a
    }
}

/// Whether none of the first eight characters of `s` is a `/`.
pub open spec fn no_slash_in_first_eight(s: Seq<char>) -> bool {
    forall|i: int| 0 <= i < s.len() && i < 8 ==> s[i] != '/'
}

/// Whether `s` starts with the verbatim marker `\\?\`.
pub open spec fn starts_verbatim(s: Seq<char>) -> bool {
    s.len() >= 4 && s[0] == '\\' && s[1] == '\\' && s[2] == '?' && s[3] == '\\'
}

/// The length of the Windows prefix of `s`, 0 when it has none: a drive
/// `C:`; a verbatim prefix `\\?\UNC\server\share`, `\\?\C:` or
/// `\\?\name`; a device `\\.\name`; or a share `\\server\share`.
pub open spec fn windows_prefix_len(s: Seq<char>) -> int {
    if is_drive_at(s, 0) {
        2
    } else if s.len() >= 2 && is_separator(s[0], true) && is_separator(s[1], true) {
        if starts_verbatim(s) && no_slash_in_first_eight(s) {
            let r = s.skip(4);
            if r.len() >= 4 && r[0] == 'U' && r[1] == 'N' && r[2] == 'C' && r[3] == '\\' {
                8 + server_share_len(r.skip(4), true)
            } else if is_drive_at(r, 0) && (r.len() == 2 || r[2] == '\\') {
                6
            } else {
                4 + component_len(r, true) as int
            }
        } else if s.len() >= 4 && s[2] == '.' && is_separator(s[3], true) {
            4 + component_len(s.skip(4), false) as int
        } else {
            let r = s.skip(2);
            let a = component_len(r, false) as int;
            if a > 0 && a < r.len() && component_len(r.skip(a + 1), false) > 0 {
                2 + server_share_len(r, false)
            } else {
                0
            }
        }
    } else {
        0
    }
}

/// Whether `s` is a drive and nothing else (`C:` or `\\?\C:`).
pub open spec fn is_bare_drive(s: Seq<char>) -> bool {
    ||| (s.len() == 2 && is_drive_at(s, 0))
    ||| (s.len() == 6 && starts_verbatim(s) && is_drive_at(s, 4))
}

/// `base` joined with `part`, as `PathBuf::push` extends a path.
/// Elsewhere than on Windows: a `part` starting with `/` replaces `base`;
/// otherwise a `/` goes between them unless `base` is empty or ends with one.
/// On Windows: a `part` with a prefix replaces `base`; a `part` starting
/// with a separator keeps only the prefix of `base`; otherwise a `\` goes
/// between them unless `base` is empty, ends with a separator or is a bare
/// drive.  (When `base` itself starts with the verbatim marker `\\?\`,
/// `PathBuf::push` also drops `.` and `..` components and rewrites `/`;
/// that normalisation is not part of this function.)
pub open spec fn joined_path(base: Seq<char>, part: Seq<char>, windows: bool) -> Seq<char> {
    if windows {
        if windows_prefix_len(part) > 0 {
            part
        } else if part.len() > 0 && is_separator(part[0], true) {
            base.take(windows_prefix_len(base)) + part
        } else if base.len() > 0 && !is_separator(base.last(), true) && !is_bare_drive(base) {
            base + seq!['\\'] + part
        } else {
            base + part
        }
    } else {
        if part.len() > 0 && part[0] == '/' {
            part
        } else if base.len() > 0 && base.last() != '/' {
            base + seq!['/'] + part
        } else {
            base + part
        }
    }
}

/// The parts joined with `sep` between consecutive ones.
pub open spec fn joined_with(parts: Seq<Seq<char>>, sep: Seq<char>) -> Seq<char>
    decreases parts.len(),
{
    if parts.len() == 0 {
        Seq::empty()
    } else if parts.len() == 1 {
        parts[0]
    } else {
        joined_with(parts.drop_last(), sep) + sep + parts.last()
    }
}

/// Whether `os` names Windows.
pub fn windows_host(os: &str) -> (r: bool)
    ensures
        r == is_windows(os@),
{
    str_eq(os, "windows")
}

proof fn lemma_component_len_bounds(s: Seq<char>, verbatim: bool)
    ensures
        component_len(s, verbatim) <= s.len(),
    decreases s.len(),
{
    if !(s.len() == 0 || s[0] == '\\' || (!verbatim && s[0] == '/')) {
        lemma_component_len_bounds(s.skip(1), verbatim);
    }
}

proof fn lemma_component_len_exact(s: Seq<char>, verbatim: bool, m: int)
    requires
        0 <= m <= s.len(),
        forall|j: int| 0 <= j < m ==> s[j] != '\\' && (verbatim || s[j] != '/'),
        m == s.len() || s[m] == '\\' || (!verbatim && s[m] == '/'),
    ensures
        component_len(s, verbatim) == m,
    decreases m,
{
    if m > 0 {
        let t = s.skip(1);
        assert forall|j: int| 0 <= j < m - 1 implies t[j] != '\\' && (verbatim || t[j] != '/') by {
            assert(t[j] == s[j + 1]);
        }
        lemma_component_len_exact(t, verbatim, m - 1);
    }
}

/// The number of characters of `s` from `from` on before a separator.
fn component_len_from(s: &Vec<char>, from: usize, verbatim: bool) -> (r: usize)
    requires
        from <= s@.len(),
    ensures
        r == component_len(s@.skip(from as int), verbatim),
        from + r <= s@.len(),
{
    let n = s.len();
    let mut i = from;
    while i < n && s[i] != '\\' && (verbatim || s[i] != '/')
        invariant
            n == s@.len(),
            from <= i <= n,
            forall|j: int| from <= j < i ==> s@[j] != '\\' && (verbatim || s@[j] != '/'),
        decreases n - i,
    {
        i = i + 1;
    }
    proof {
        let t = s@.skip(from as int);
        assert forall|j: int| 0 <= j < i - from implies t[j] != '\\' && (verbatim || t[j] != '/') by {
            assert(t[j] == s@[from + j]);
        }
        if i < n {
            assert(t[i - from] == s@[i as int]);
        }
        lemma_component_len_exact(t, verbatim, i - from);
    }
    i - from
}

fn server_share_len_from(s: &Vec<char>, from: usize, verbatim: bool) -> (r: usize)
    requires
        from <= s@.len(),
    ensures
        r == server_share_len(s@.skip(from as int), verbatim),
        from + r <= s@.len(),
{
    let a = component_len_from(s, from, verbatim);
    if a < s.len() - from {
        let b = component_len_from(s, from + a + 1, verbatim);
        assert(s@.skip(from as int).skip(a + 1) =~= s@.skip(from + a + 1));
        if b > 0 {
            a + 1 + b
        } else {
            a
        }
    } else {
        a
    }
}

fn ascii_letter(c: char) -> (r: bool)
    ensures
        r == is_ascii_letter(c),
{
    ('a' <= c && c <= 'z') || ('A' <= c && c <= 'Z')
}

fn drive_at(s: &Vec<char>, i: usize) -> (r: bool)
    requires
        i <= s@.len(),
    ensures
        r == is_drive_at(s@, i as int),
{
    s.len() - i >= 2 && ascii_letter(s[i]) && s[i + 1] == ':'
}

/// The length of the Windows prefix of `s` (see [`windows_prefix_len`]).
fn prefix_len(s: &Vec<char>) -> (r: usize)
    ensures
        r == windows_prefix_len(s@),
        r <= s@.len(),
{
    let n = s.len();
    if drive_at(s, 0) {
        return 2;
    }
    if !(n >= 2 && separator_char(s[0], true) && separator_char(s[1], true)) {
        return 0;
    }
    let verbatim = n >= 4 && s[0] == '\\' && s[1] == '\\' && s[2] == '?' && s[3] == '\\';
    let mut slash_free = true;
    let mut k: usize = 0;
    while k < n && k < 8
        invariant
            n == s@.len(),
            k <= n,
            k <= 8,
            slash_free == (forall|j: int| 0 <= j < k ==> s@[j] != '/'),
        decreases n - k,
    {
        if s[k] == '/' {
            slash_free = false;
        }
        k = k + 1;
    }
    assert(slash_free == no_slash_in_first_eight(s@));
    if verbatim && slash_free {
        let ghost r = s@.skip(4);
        if n >= 8 && s[4] == 'U' && s[5] == 'N' && s[6] == 'C' && s[7] == '\\' {
            let l = server_share_len_from(s, 8, true);
            assert(r.skip(4) =~= s@.skip(8));
            return 8 + l;
        } else if drive_at(s, 4) && (n == 6 || s[6] == '\\') {
            return 6;
        } else {
            let l = component_len_from(s, 4, true);
            return 4 + l;
        }
    } else if n >= 4 && s[2] == '.' && separator_char(s[3], true) {
        let l = component_len_from(s, 4, false);
        return 4 + l;
    } else {
        let ghost r = s@.skip(2);
        let a = component_len_from(s, 2, false);
        if a > 0 && 2 + a < n {
            let b = component_len_from(s, 2 + a + 1, false);
            assert(r.skip(a + 1) =~= s@.skip(2 + a + 1));
            if b > 0 {
                let l = server_share_len_from(s, 2, false);
                return 2 + l;
            }
        }
        return 0;
    }
}

fn separator_char(c: char, windows: bool) -> (r: bool)
    ensures
        r == is_separator(c, windows),
{
    c == '/' || (windows && c == '\\')
}

/// `base` joined with `part` (see [`joined_path`]).
pub fn join_path(base: &str, part: &str, windows: bool) -> (r: String)
    ensures
        r@ == joined_path(base@, part@, windows),
{
    let b = chars_of(base);
    let p = chars_of(part);
    let mut out: Vec<char> = Vec::new();
    if windows {
        if prefix_len(&p) > 0 {
            return part.to_owned();
        }
        if p.len() > 0 && separator_char(p[0], true) {
            let keep = prefix_len(&b);
            let mut i: usize = 0;
            while i < keep
                invariant
                    keep <= b@.len(),
                    i <= keep,
                    out@ == b@.take(i as int),
                decreases keep - i,
            {
                out.push(b[i]);
                i = i + 1;
                assert(out@ =~= b@.take(i as int));
            }
            push_all(&mut out, &p);
            return string_from_chars(&out);
        }
        push_all(&mut out, &b);
        let bare = (b.len() == 2 && drive_at(&b, 0)) || (b.len() == 6 && b[0] == '\\' && b[1] == '\\'
            && b[2] == '?' && b[3] == '\\' && drive_at(&b, 4));
        if b.len() > 0 && !separator_char(b[b.len() - 1], true) && !bare {
            out.push('\\');
        }
    } else {
        if p.len() > 0 && p[0] == '/' {
            return part.to_owned();
        }
        push_all(&mut out, &b);
        if b.len() > 0 && b[b.len() - 1] != '/' {
            out.push('/');
        }
    }
    push_all(&mut out, &p);
    string_from_chars(&out)
}

/// `a` followed by `b`.
pub fn concatenated(a: &str, b: &str) -> (r: String)
    ensures
        r@ == a@ + b@,
{
    let mut out: Vec<char> = Vec::new();
    push_all(&mut out, &chars_of(a));
    push_all(&mut out, &chars_of(b));
    string_from_chars(&out)
}

/// The strings of `parts` joined with `sep` (as `[String]::join`).
pub fn join_strings(parts: &Vec<String>, sep: &str) -> (r: String)
    ensures
        r@ == joined_with(parts@.map_values(|s: String| s@), sep@),
{
    let ghost views = parts@.map_values(|s: String| s@);
    let sep_chars = chars_of(sep);
    let mut out: Vec<char> = Vec::new();
    let n = parts.len();
    for i in 0..n
        invariant
            n == parts@.len(),
            views == parts@.map_values(|s: String| s@),
            sep_chars@ == sep@,
            out@ == joined_with(views.take(i as int), sep@),
    {
        assert(views.take(i + 1).drop_last() =~= views.take(i as int));
        assert(views.take(i + 1).last() == parts@[i as int]@);
        if i > 0 {
            push_all(&mut out, &sep_chars);
        } else {
            assert(views.take(1) =~= seq![views[0]]);
        }
        push_all(&mut out, &chars_of(parts[i].as_str()));
        assert(i > 0 ==> out@ =~= joined_with(views.take(i as int), sep@) + sep@ + parts@[i as int]@);
    }
    assert(views.take(n as int) =~= views);
    string_from_chars(&out)
}

} // verus!
