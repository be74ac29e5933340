//! Path strings: trailing separators, the last path component, parent directories.
//!
//! A local path is read by the rules of the platform the program runs on, as
//! `std::path::Path` reads it: on Unix, components are separated by `/`; on
//! Windows, by `/` and `\`, after a prefix such as `C:`, `\\server\share`,
//! `\\?\C:`, `\\?\UNC\server\share`, `\\?\name` or `\\.\device`, and in the
//! verbatim (`\\?\`) forms by `\` alone. A trailing `/` or `\` is dropped on
//! either platform. Remote paths are POSIX paths.

use vstd::prelude::*;
use crate::text::{last_index_of, lemma_last_index_of, opt_view, push_char, rfind_char};

verus! {

/// A path separator accepted at the end of a path.
pub open spec fn is_separator(c: char) -> bool {
    c == '/' || c == '\\'
}

/// The path ends with `/` or `\`.
pub open spec fn has_trailing_sep(s: Seq<char>) -> bool {
    s.len() > 0 && is_separator(s.last())
}

/// The path with a `/` appended unless it already ends with a separator.
pub open spec fn with_trailing_sep(s: Seq<char>) -> Seq<char> {
    if has_trailing_sep(s) {
        s
    } else {
        s.push('/')
    }
}

/// The path without its trailing `/` and `\` characters.
pub open spec fn trim_trailing_seps(s: Seq<char>) -> Seq<char>
    decreases s.len(),
{
    if has_trailing_sep(s) {
        trim_trailing_seps(s.drop_last())
    } else {
        s
    }
}

/// The path without its trailing `/` characters.
pub open spec fn trim_trailing_slashes(s: Seq<char>) -> Seq<char>
    decreases s.len(),
{
    if s.len() > 0 && s.last() == '/' {
        trim_trailing_slashes(s.drop_last())
    } else {
        s
    }
}

/// The path rules a local path is read by.
#[derive(Debug, Clone, Copy, PartialEq, Eq, Structural)]
pub enum PathStyle {
    Unix,
    Windows,
}

/// A character that separates path components. Verbatim Windows paths are
/// separated by `\` alone.
pub open spec fn is_component_sep(style: PathStyle, verbatim: bool, c: char) -> bool {
    if verbatim {
        c == '\\'
    } else {
        c == '/' || (style == PathStyle::Windows && c == '\\')
    }
}

/// Index of the last component separator in `s`, or -1.
pub open spec fn last_sep_index(s: Seq<char>, style: PathStyle, verbatim: bool) -> int
    decreases s.len(),
{
    if s.len() == 0 {
        -1
    } else if is_component_sep(style, verbatim, s.last()) {
        s.len() - 1
    } else {
        last_sep_index(s.drop_last(), style, verbatim)
    }
}

/// `last_sep_index` is -1 or a position in `s`.
pub proof fn lemma_last_sep_index(s: Seq<char>, style: PathStyle, verbatim: bool)
    ensures
        -1 <= last_sep_index(s, style, verbatim) < s.len(),
        forall|i: int|
            last_sep_index(s, style, verbatim) < i < s.len() ==> !is_component_sep(
                style,
                verbatim,
                #[trigger] s[i],
            ),
    decreases s.len(),
{
    if s.len() > 0 && !is_component_sep(style, verbatim, s.last()) {
        lemma_last_sep_index(s.drop_last(), style, verbatim);
        assert forall|i: int| last_sep_index(s, style, verbatim) < i < s.len() implies
            !is_component_sep(style, verbatim, #[trigger] s[i]) by {
            if i < s.len() - 1 {
                assert(s[i] == s.drop_last()[i]);
            }
        }
    }
}

/// The first position at or after `i` that holds a component separator, or
/// the length of `s`.
pub open spec fn next_sep_index(s: Seq<char>, style: PathStyle, verbatim: bool, i: int) -> int
    decreases s.len() - i,
{
    if i < 0 || i >= s.len() {
        s.len() as int
    } else if is_component_sep(style, verbatim, s[i]) {
        i
    } else {
        next_sep_index(s, style, verbatim, i + 1)
    }
}

/// `next_sep_index` lies between `i` and the length of `s`.
pub proof fn lemma_next_sep_index(s: Seq<char>, style: PathStyle, verbatim: bool, i: int)
    requires
        0 <= i <= s.len(),
    ensures
        i <= next_sep_index(s, style, verbatim, i) <= s.len(),
    decreases s.len() - i,
{
    if i < s.len() && !is_component_sep(style, verbatim, s[i]) {
        lemma_next_sep_index(s, style, verbatim, i + 1);
    }
}

/// An ASCII letter, as a drive letter must be.
pub open spec fn is_ascii_letter(c: char) -> bool {
    ('a' <= c <= 'z') || ('A' <= c <= 'Z')
}

/// A Windows separator, `/` or `\`.
pub open spec fn is_win_sep(c: char) -> bool {
    c == '/' || c == '\\'
}

/// The length of the Windows prefix of `t`, and whether it is verbatim:
/// `\\?\UNC\server\share`, `\\?\C:`, `\\?\name` (verbatim); `\\.\device`;
/// `\\server\share` (both parts non-empty); `C:`; or none (length 0).
pub open spec fn windows_prefix(t: Seq<char>) -> (int, bool) {
    let w = PathStyle::Windows;
    if t.len() >= 2 && is_win_sep(t[0]) && is_win_sep(t[1]) {
        if t.len() >= 4 && t[0] == '\\' && t[1] == '\\' && t[2] == '?' && t[3] == '\\' {
            if t.len() >= 8 && t[4] == 'U' && t[5] == 'N' && t[6] == 'C' && is_win_sep(t[7]) {
                let a = next_sep_index(t, w, true, 8);
                let b = if a < t.len() {
                    next_sep_index(t, w, true, a + 1)
                } else {
                    a
                };
                (if a < t.len() && b > a + 1 {
                    b
                } else {
                    a
                }, true)
            } else if t.len() >= 6 && is_ascii_letter(t[4]) && t[5] == ':' && (t.len() == 6 || t[6]
                == '\\') {
                (6, true)
            } else {
                (next_sep_index(t, w, true, 4), true)
            }
        } else if t.len() >= 4 && t[2] == '.' && is_win_sep(t[3]) {
            (next_sep_index(t, w, false, 4), false)
        } else {
            let a = next_sep_index(t, w, false, 2);
            let b = if a < t.len() {
                next_sep_index(t, w, false, a + 1)
            } else {
                a
            };
            if a > 2 && a < t.len() && b > a + 1 {
                (b, false)
            } else {
                (0, false)
            }
        }
    } else if t.len() >= 2 && is_ascii_letter(t[0]) && t[1] == ':' {
        (2, false)
    } else {
        (0, false)
    }
}

/// The prefix of `t` under a path style: none on Unix.
pub open spec fn path_prefix(style: PathStyle, t: Seq<char>) -> (int, bool) {
    match style {
        PathStyle::Unix => (0, false),
        PathStyle::Windows => windows_prefix(t),
    }
}

/// The last normal component of the part of a path after its prefix: the
/// text after the last separator, where empty components are skipped, and so
/// are `.` components outside verbatim paths; none when the path ends in
/// `..` (or in `.` in a verbatim path) or has no normal component.
pub open spec fn last_normal_component(s: Seq<char>, style: PathStyle, verbatim: bool) -> Option<
    Seq<char>,
>
    decreases s.len(),
{
    let k = last_sep_index(s, style, verbatim);
    let seg = s.subrange(k + 1, s.len() as int);
    if seg == seq!['.', '.'] || (verbatim && seg == seq!['.']) {
        None
    } else if seg.len() == 0 || seg == seq!['.'] {
        if k < 0 {
            None
        } else {
            proof {
                lemma_last_sep_index(s, style, verbatim);
            }
            last_normal_component(s.subrange(0, k), style, verbatim)
        }
    } else {
        Some(seg)
    }
}

/// The path starts with a separator right after its prefix (its root).
pub open spec fn has_physical_root(style: PathStyle, s: Seq<char>) -> bool {
    let p = path_prefix(style, s).0;
    0 <= p < s.len() && is_component_sep(style, false, s[p])
}

/// The path starts with a `.` component right after its prefix (a path with
/// a root has none).
pub open spec fn has_cur_dir(style: PathStyle, s: Seq<char>) -> bool {
    let (p, verbatim) = path_prefix(style, s);
    &&& !has_physical_root(style, s)
    &&& 0 <= p < s.len()
    &&& s[p] == '.'
    &&& (p + 1 == s.len() || is_component_sep(style, verbatim, s[p + 1]))
}

/// Where the components of a path begin: after its prefix, its root and a
/// leading `.` component.
pub open spec fn body_start(style: PathStyle, s: Seq<char>) -> int {
    let p = path_prefix(style, s).0;
    if has_physical_root(style, s) || has_cur_dir(style, s) {
        p + 1
    } else {
        p
    }
}

/// The final component of a path, as `Path::file_name` gives it on the platform.
pub open spec fn file_name(style: PathStyle, t: Seq<char>) -> Option<Seq<char>> {
    let verbatim = path_prefix(style, t).1;
    last_normal_component(t.subrange(body_start(style, t), t.len() as int), style, verbatim)
}

/// The end of `s[..e]` once empty and (outside verbatim paths) `.` components
/// at the end of its body, which starts at `b`, are dropped with their separators.
pub open spec fn trim_body_end(s: Seq<char>, style: PathStyle, verbatim: bool, b: int, e: int) -> int
    decreases e - b,
{
    if e <= b || b < 0 || e > s.len() {
        e
    } else {
        let k = last_sep_index(s.subrange(b, e), style, verbatim);
        let seg = s.subrange(b + k + 1, e);
        if seg.len() == 0 || (!verbatim && seg == seq!['.']) {
            proof {
                lemma_last_sep_index(s.subrange(b, e), style, verbatim);
            }
            trim_body_end(
                s,
                style,
                verbatim,
                b,
                if k >= 0 {
                    b + k
                } else {
                    b
                },
            )
        } else {
            e
        }
    }
}

/// The path without its final component, as `Path::parent` gives it on the
/// platform: none for an empty path, a root or a prefix alone; the empty
/// path for a single relative component.
pub open spec fn spec_parent(style: PathStyle, s: Seq<char>) -> Option<Seq<char>> {
    let (p, verbatim) = path_prefix(style, s);
    let b = body_start(style, s);
    let e = trim_body_end(s, style, verbatim, b, s.len() as int);
    if e > b {
        let k = last_sep_index(s.subrange(b, e), style, verbatim);
        let rest = if k >= 0 {
            b + k
        } else {
            b
        };
        Some(s.subrange(0, trim_body_end(s, style, verbatim, b, rest)))
    } else if p == 0 && has_cur_dir(style, s) {
        Some(seq![])
    } else {
        None
    }
}

/// The path is exactly a drive prefix, `C:` or `\\?\C:`.
pub open spec fn is_drive_only(s: Seq<char>) -> bool {
    ||| s.len() == 2 && is_ascii_letter(s[0]) && s[1] == ':'
    ||| s.len() == 6 && s[0] == '\\' && s[1] == '\\' && s[2] == '?' && s[3] == '\\'
        && is_ascii_letter(s[4]) && s[5] == ':'
}

/// The separator a path is extended with: `/` on Unix, `\` on Windows.
pub open spec fn main_sep(style: PathStyle) -> char {
    match style {
        PathStyle::Unix => '/',
        PathStyle::Windows => '\\',
    }
}

/// A relative `name` appended to `dir`, as `Path::join` does: a separator goes
/// between them unless `dir` is empty, ends with a separator, or (on Windows)
/// is a drive prefix alone.
pub open spec fn spec_join(style: PathStyle, dir: Seq<char>, name: Seq<char>) -> Seq<char> {
    if dir.len() == 0 || is_component_sep(style, false, dir.last()) || (style == PathStyle::Windows
        && is_drive_only(dir)) {
        dir + name
    } else {
        dir.push(main_sep(style)) + name
    }
}

/// The name of the file or directory a local path points at, once trailing
/// separators are removed.
pub open spec fn tail_component(style: PathStyle, s: Seq<char>) -> Option<Seq<char>> {
    let t = trim_trailing_seps(s);
    if t.len() == 0 {
        None
    } else {
        file_name(style, t)
    }
}

/// The directory that holds a remote path: `.` for a bare name, `/` for an
/// entry of the root.
pub open spec fn remote_parent(s: Seq<char>) -> Seq<char> {
    let t = trim_trailing_slashes(s);
    let k = last_index_of(t, '/');
    if k < 0 {
        "."@
    } else if k == 0 {
        "/"@
    } else {
        t.subrange(0, k)
    }
}

/// Whether the path ends with `/` or `\`.
pub fn has_trailing_separator(path: &str) -> (b: bool)
    ensures
        b == has_trailing_sep(path@),
{
    let n = path.unicode_len();
    if n == 0 {
        false
    } else {
        let c = path.get_char(n - 1);
        c == '/' || c == '\\'
    }
}

/// The path with a `/` appended unless it already ends with a separator.
pub fn ensure_trailing_separator(path: &str) -> (r: String)
    ensures
        r@ == with_trailing_sep(path@),
        has_trailing_sep(r@),
{
    let mut s = String::from_str(path);
    if !has_trailing_separator(path) {
        push_char(&mut s, '/');
    }
    s
}

/// Length of the path once trailing separators are removed.
fn trailing_separators_start(path: &str) -> (k: usize)
    ensures
        k <= path@.len(),
        path@.subrange(0, k as int) == trim_trailing_seps(path@),
{
    let n = path.unicode_len();
    let mut j = n;
    assert(path@.subrange(0, n as int) =~= path@);
    while j > 0 && (path.get_char(j - 1) == '/' || path.get_char(j - 1) == '\\')
        invariant
            j <= n,
            n == path@.len(),
            trim_trailing_seps(path@.subrange(0, j as int)) == trim_trailing_seps(path@),
        decreases j,
    {
        assert(path@.subrange(0, j as int).drop_last() =~= path@.subrange(0, j - 1));
        j = j - 1;
    }
    j
}

/// Length of the path once trailing `/` characters are removed.
fn trailing_slashes_start(path: &str) -> (k: usize)
    ensures
        k <= path@.len(),
        path@.subrange(0, k as int) == trim_trailing_slashes(path@),
{
    let n = path.unicode_len();
    let mut j = n;
    assert(path@.subrange(0, n as int) =~= path@);
    while j > 0 && path.get_char(j - 1) == '/'
        invariant
            j <= n,
            n == path@.len(),
            trim_trailing_slashes(path@.subrange(0, j as int)) == trim_trailing_slashes(path@),
        decreases j,
    {
        assert(path@.subrange(0, j as int).drop_last() =~= path@.subrange(0, j - 1));
        j = j - 1;
    }
    j
}

/// Whether `c` separates path components.
fn is_sep_char(style: PathStyle, verbatim: bool, c: char) -> (b: bool)
    ensures
        b == is_component_sep(style, verbatim, c),
{
    if verbatim {
        c == '\\'
    } else {
        c == '/' || (style == PathStyle::Windows && c == '\\')
    }
}

/// Position of the last component separator in `s`.
fn rfind_sep(s: &str, style: PathStyle, verbatim: bool) -> (r: Option<usize>)
    ensures
        match r {
            Some(i) => i as int == last_sep_index(s@, style, verbatim),
            None => last_sep_index(s@, style, verbatim) == -1,
        },
{
    let n = s.unicode_len();
    let mut j = n;
    assert(s@.subrange(0, n as int) =~= s@);
    while j > 0
        invariant
            j <= n,
            n == s@.len(),
            last_sep_index(s@.subrange(0, j as int), style, verbatim) == last_sep_index(
                s@,
                style,
                verbatim,
            ),
        decreases j,
    {
        if is_sep_char(style, verbatim, s.get_char(j - 1)) {
            return Some(j - 1);
        }
        assert(s@.subrange(0, j as int).drop_last() =~= s@.subrange(0, j - 1));
        j = j - 1;
    }
    None
}

/// The first component separator at or after `i`, or the length of `s`.
fn next_sep(s: &str, style: PathStyle, verbatim: bool, i: usize) -> (r: usize)
    requires
        i <= s@.len(),
    ensures
        r as int == next_sep_index(s@, style, verbatim, i as int),
        i <= r <= s@.len(),
{
    proof {
        lemma_next_sep_index(s@, style, verbatim, i as int);
    }
    let n = s.unicode_len();
    let mut j = i;
    while j < n && !is_sep_char(style, verbatim, s.get_char(j))
        invariant
            i <= j <= n,
            n == s@.len(),
            next_sep_index(s@, style, verbatim, j as int) == next_sep_index(
                s@,
                style,
                verbatim,
                i as int,
            ),
        decreases n - j,
    {
        j = j + 1;
    }
    j
}

/// Whether `c` is an ASCII letter.
fn char_is_ascii_letter(c: char) -> (b: bool)
    ensures
        b == is_ascii_letter(c),
{
    ('a' <= c && c <= 'z') || ('A' <= c && c <= 'Z')
}

/// The Windows prefix of `t`, as `windows_prefix` describes it.
fn windows_prefix_of(t: &str) -> (r: (usize, bool))
    ensures
        (r.0 as int, r.1) == windows_prefix(t@),
        r.0 <= t@.len(),
{
    let w = PathStyle::Windows;
    let n = t.unicode_len();
    if n >= 2 && (t.get_char(0) == '/' || t.get_char(0) == '\\') && (t.get_char(1) == '/'
        || t.get_char(1) == '\\') {
        if n >= 4 && t.get_char(0) == '\\' && t.get_char(1) == '\\' && t.get_char(2) == '?'
            && t.get_char(3) == '\\' {
            if n >= 8 && t.get_char(4) == 'U' && t.get_char(5) == 'N' && t.get_char(6) == 'C' && (
            t.get_char(7) == '/' || t.get_char(7) == '\\') {
                let a = next_sep(t, w, true, 8);
                let b = if a < n {
                    next_sep(t, w, true, a + 1)
                } else {
                    a
                };
                if a < n && b > a + 1 {
                    (b, true)
                } else {
                    (a, true)
                }
            } else if n >= 6 && char_is_ascii_letter(t.get_char(4)) && t.get_char(5) == ':' && (n
                == 6 || t.get_char(6) == '\\') {
                (6, true)
            } else {
                (next_sep(t, w, true, 4), true)
            }
        } else if n >= 4 && t.get_char(2) == '.' && (t.get_char(3) == '/' || t.get_char(3)
            == '\\') {
            (next_sep(t, w, false, 4), false)
        } else {
            let a = next_sep(t, w, false, 2);
            let b = if a < n {
                next_sep(t, w, false, a + 1)
            } else {
                a
            };
            if a > 2 && a < n && b > a + 1 {
                (b, false)
            } else {
                (0, false)
            }
        }
    } else if n >= 2 && char_is_ascii_letter(t.get_char(0)) && t.get_char(1) == ':' {
        (2, false)
    } else {
        (0, false)
    }
}

/// The last normal component of a path without prefix, as in `last_normal_component`.
fn last_normal_of(s: &str, style: PathStyle, verbatim: bool) -> (r: Option<String>)
    ensures
        opt_view(r) == last_normal_component(s@, style, verbatim),
    decreases s@.len(),
{
    let n = s.unicode_len();
    let k = rfind_sep(s, style, verbatim);
    proof {
        lemma_last_sep_index(s@, style, verbatim);
    }
    let start: usize = match k {
        Some(i) => i + 1,
        None => 0,
    };
    let seg = s.substring_char(start, n);
    let seg_len = n - start;
    let is_dot_dot = seg_len == 2 && seg.get_char(0) == '.' && seg.get_char(1) == '.';
    let is_dot = seg_len == 1 && seg.get_char(0) == '.';
    if is_dot_dot {
        assert(seg@ =~= seq!['.', '.']);
    }
    if is_dot {
        assert(seg@ =~= seq!['.']);
    }
    assert(seg@ == seq!['.', '.'] ==> is_dot_dot) by {
        if seg@ == seq!['.', '.'] {
            assert(seg@[0] == '.' && seg@[1] == '.');
        }
    }
    assert(seg@ == seq!['.'] ==> is_dot) by {
        if seg@ == seq!['.'] {
            assert(seg@.len() == seq!['.'].len());
            assert(seg@[0] == seq!['.'][0]);
        }
    }
    if is_dot_dot || (verbatim && is_dot) {
        None
    } else if seg_len == 0 || is_dot {
        match k {
            None => None,
            Some(i) => last_normal_of(s.substring_char(0, i), style, verbatim),
        }
    } else {
        Some(String::from_str(seg))
    }
}

/// The name of the file or directory a local path points at: its last
/// component, as `Path::file_name` reads it on the platform, once trailing
/// separators are removed; none for an empty path, a root or prefix alone,
/// or a path that ends in `..`.
pub fn path_tail_component(path: &str, style: PathStyle) -> (r: Option<String>)
    ensures
        opt_view(r) == tail_component(style, path@),
{
    let k = trailing_separators_start(path);
    if k == 0 {
        return None;
    }
    let t = path.substring_char(0, k);
    let (b, _p, verbatim) = body_start_of(t, style);
    last_normal_of(t.substring_char(b, k), style, verbatim)
}

/// Where the components of `s` begin, the length of its prefix, and whether
/// the prefix is verbatim.
fn body_start_of(s: &str, style: PathStyle) -> (r: (usize, usize, bool))
    ensures
        r.0 as int == body_start(style, s@),
        (r.1 as int, r.2) == path_prefix(style, s@),
        r.1 <= r.0 <= s@.len(),
{
    let n = s.unicode_len();
    let (p, verbatim) = match style {
        PathStyle::Unix => (0, false),
        PathStyle::Windows => windows_prefix_of(s),
    };
    let root = p < n && is_sep_char(style, false, s.get_char(p));
    let cur_dir = !root && p < n && s.get_char(p) == '.' && (p + 1 == n || is_sep_char(
        style,
        verbatim,
        s.get_char(p + 1),
    ));
    if root || cur_dir {
        (p + 1, p, verbatim)
    } else {
        (p, p, verbatim)
    }
}


/// `trim_body_end` does not go past the end it starts from, nor before the body.
pub proof fn lemma_trim_body_end_bounds(s: Seq<char>, style: PathStyle, verbatim: bool, b: int, e: int)
    requires
        0 <= b <= e <= s.len(),
    ensures
        b <= trim_body_end(s, style, verbatim, b, e) <= e,
    decreases e - b,
{
    if e > b {
        let k = last_sep_index(s.subrange(b, e), style, verbatim);
        lemma_last_sep_index(s.subrange(b, e), style, verbatim);
        let seg = s.subrange(b + k + 1, e);
        if seg.len() == 0 || (!verbatim && seg == seq!['.']) {
            lemma_trim_body_end_bounds(
                s,
                style,
                verbatim,
                b,
                if k >= 0 {
                    b + k
                } else {
                    b
                },
            );
        }
    }
}

/// The prefix of a path lies within it.
pub proof fn lemma_path_prefix_bounds(style: PathStyle, s: Seq<char>)
    ensures
        0 <= path_prefix(style, s).0 <= s.len(),
        0 <= body_start(style, s) <= s.len(),
{
    if style == PathStyle::Windows {
        let w = PathStyle::Windows;
        if s.len() >= 8 {
            lemma_next_sep_index(s, w, true, 8);
        }
        if s.len() >= 4 {
            lemma_next_sep_index(s, w, true, 4);
            lemma_next_sep_index(s, w, false, 4);
        }
        if s.len() >= 2 {
            lemma_next_sep_index(s, w, false, 2);
            let a = next_sep_index(s, w, false, 2);
            if a < s.len() {
                lemma_next_sep_index(s, w, false, a + 1);
            }
        }
        if s.len() >= 8 {
            let a = next_sep_index(s, w, true, 8);
            if a < s.len() {
                lemma_next_sep_index(s, w, true, a + 1);
            }
        }
    }
}

/// A parent is shorter than the path it is the parent of.
pub proof fn lemma_parent_shorter(style: PathStyle, s: Seq<char>)
    ensures
        spec_parent(style, s) matches Some(q) ==> q.len() < s.len(),
{
    lemma_path_prefix_bounds(style, s);
    let verbatim = path_prefix(style, s).1;
    let b = body_start(style, s);
    lemma_trim_body_end_bounds(s, style, verbatim, b, s.len() as int);
    let e = trim_body_end(s, style, verbatim, b, s.len() as int);
    if e > b {
        lemma_last_sep_index(s.subrange(b, e), style, verbatim);
        let k = last_sep_index(s.subrange(b, e), style, verbatim);
        let rest = if k >= 0 {
            b + k
        } else {
            b
        };
        lemma_trim_body_end_bounds(s, style, verbatim, b, rest);
    }
}

proof fn lemma_last_normal_component_shape(s: Seq<char>, style: PathStyle, verbatim: bool)
    ensures
        last_normal_component(s, style, verbatim) matches Some(t) ==> t.len() > 0 && forall|i: int|
            0 <= i < t.len() ==> !is_component_sep(style, verbatim, #[trigger] t[i]),
    decreases s.len(),
{
    lemma_last_sep_index(s, style, verbatim);
    let k = last_sep_index(s, style, verbatim);
    let seg = s.subrange(k + 1, s.len() as int);
    if !(seg == seq!['.', '.'] || (verbatim && seg == seq!['.'])) {
        if seg.len() == 0 || seg == seq!['.'] {
            if k >= 0 {
                lemma_last_normal_component_shape(s.subrange(0, k), style, verbatim);
            }
        } else {
            assert forall|i: int| 0 <= i < seg.len() implies !is_component_sep(
                style,
                verbatim,
                #[trigger] seg[i],
            ) by {
                assert(seg[i] == s[k + 1 + i]);
            }
        }
    }
}

proof fn lemma_trim_only_separators(s: Seq<char>)
    requires
        forall|i: int| 0 <= i < s.len() ==> is_separator(#[trigger] s[i]),
    ensures
        trim_trailing_seps(s).len() == 0,
    decreases s.len(),
{
    if s.len() > 0 {
        assert(is_separator(s[s.len() - 1]));
        assert forall|i: int| 0 <= i < s.drop_last().len() implies is_separator(
            #[trigger] s.drop_last()[i],
        ) by {
            assert(s.drop_last()[i] == s[i]);
        }
        lemma_trim_only_separators(s.drop_last());
    }
}

/// The name of the file or directory a local path points at does not depend
/// on trailing separators; a path made only of separators (the empty path
/// included) has none; and a name is never empty and never holds a
/// separator of its platform (`/` on Unix, `\` on Windows).
pub proof fn lemma_tail_component_laws(style: PathStyle, s: Seq<char>, sep: char)
    requires
        is_separator(sep),
    ensures
        tail_component(style, s.push(sep)) == tail_component(style, s),
        (forall|i: int| 0 <= i < s.len() ==> is_separator(#[trigger] s[i])) ==> tail_component(
            style,
            s,
        ) is None,
        tail_component(style, s) matches Some(t) ==> {
            &&& t.len() > 0
            &&& forall|i: int|
                0 <= i < t.len() ==> !(style == PathStyle::Unix && #[trigger] t[i] == '/') && !(
                style == PathStyle::Windows && t[i] == '\\')
        },
{
    assert(s.push(sep).drop_last() =~= s);
    assert(has_trailing_sep(s.push(sep)));
    if forall|i: int| 0 <= i < s.len() ==> is_separator(#[trigger] s[i]) {
        lemma_trim_only_separators(s);
    }
    let t = trim_trailing_seps(s);
    if t.len() > 0 {
        lemma_path_prefix_bounds(style, t);
        let verbatim = path_prefix(style, t).1;
        lemma_last_normal_component_shape(
            t.subrange(body_start(style, t), t.len() as int),
            style,
            verbatim,
        );
    }
}

proof fn lemma_last_sep_at(s: Seq<char>, style: PathStyle, verbatim: bool, i: int)
    requires
        -1 <= i < s.len(),
        i >= 0 ==> is_component_sep(style, verbatim, s[i]),
        forall|k: int| i < k < s.len() ==> !is_component_sep(style, verbatim, #[trigger] s[k]),
    ensures
        last_sep_index(s, style, verbatim) == i,
    decreases s.len(),
{
    if s.len() > 0 && i < s.len() - 1 {
        assert forall|k: int| i < k < s.drop_last().len() implies !is_component_sep(
            style,
            verbatim,
            #[trigger] s.drop_last()[k],
        ) by {
            assert(s.drop_last()[k] == s[k]);
        }
        lemma_last_sep_at(s.drop_last(), style, verbatim, i);
    }
}

/// A path that ends in a normal component names that component: for any
/// directory `d` and any name `c` that is not empty, holds no `/` or `\`, and
/// is neither `.` nor `..` (a name such as `.config` included), the last
/// component of `d/c` is `c`. On Unix this holds of every `d`; on Windows of
/// every `d/c` that does not begin with two separators (which would make
/// its start a `\\server\share` or verbatim prefix).
pub proof fn lemma_tail_of_named_path(style: PathStyle, d: Seq<char>, c: Seq<char>)
    requires
        c.len() > 0,
        forall|i: int| 0 <= i < c.len() ==> #[trigger] c[i] != '/' && c[i] != '\\',
        c != seq!['.'],
        c != seq!['.', '.'],
        style == PathStyle::Unix || !(is_win_sep((d + seq!['/'] + c)[0]) && is_win_sep(
            (d + seq!['/'] + c)[1],
        )),
    ensures
        tail_component(style, d + seq!['/'] + c) == Some(c),
{
    let t = d + seq!['/'] + c;
    let j = d.len() as int;
    assert(t[j] == '/');
    assert forall|k: int| j < k < t.len() implies #[trigger] t[k] != '/' && t[k] != '\\' by {
        assert(t[k] == c[k - j - 1]);
    }
    assert(t.last() == c.last());
    assert(!has_trailing_sep(t));
    assert(trim_trailing_seps(t) == t);
    lemma_path_prefix_bounds(style, t);
    let (p, verbatim) = path_prefix(style, t);
    assert(!verbatim);
    assert(p == 0 || p == 2);
    if p == 2 {
        assert(t[1] == ':');
        assert(j >= 2) by {
            if j == 0 {
                assert(t[0] == '/');
            }
        }
    }
    let b = body_start(style, t);
    assert(b <= j + 1);
    let body = t.subrange(b, t.len() as int);
    if b <= j {
        assert forall|k: int| j - b < k < body.len() implies !is_component_sep(
            style,
            false,
            #[trigger] body[k],
        ) by {
            assert(body[k] == t[k + b]);
        }
        assert(body[j - b] == t[j]);
        lemma_last_sep_at(body, style, false, j - b);
        assert(body.subrange(j - b + 1, body.len() as int) =~= c);
    } else {
        assert(body =~= c);
        lemma_last_sep_at(body, style, false, -1);
        assert(body.subrange(0, body.len() as int) =~= c);
    }
}

/// The end of the body of `s` once trailing empty and `.` components are dropped.
fn trim_body_end_of(s: &str, style: PathStyle, verbatim: bool, b: usize, e: usize) -> (r: usize)
    requires
        b <= e <= s@.len(),
    ensures
        r as int == trim_body_end(s@, style, verbatim, b as int, e as int),
        b <= r <= e,
{
    let mut cur = e;
    loop
        invariant
            b <= cur <= e,
            e <= s@.len(),
            trim_body_end(s@, style, verbatim, b as int, cur as int) == trim_body_end(
                s@,
                style,
                verbatim,
                b as int,
                e as int,
            ),
        decreases cur - b,
    {
        if cur == b {
            return cur;
        }
        let body = s.substring_char(b, cur);
        let k = rfind_sep(body, style, verbatim);
        proof {
            lemma_last_sep_index(body@, style, verbatim);
        }
        let seg_start = match k {
            Some(i) => b + i + 1,
            None => b,
        };
        let seg = s.substring_char(seg_start, cur);
        let seg_len = cur - seg_start;
        let is_dot = seg_len == 1 && seg.get_char(0) == '.';
        if is_dot {
            assert(seg@ =~= seq!['.']);
        }
        assert(seg@ == seq!['.'] ==> is_dot) by {
            if seg@ == seq!['.'] {
                assert(seg@.len() == seq!['.'].len());
                assert(seg@[0] == seq!['.'][0]);
            }
        }
        if seg_len == 0 || (!verbatim && is_dot) {
            cur = match k {
                Some(i) => b + i,
                None => b,
            };
        } else {
            return cur;
        }
    }
}

/// The path without its final component, as `spec_parent` describes it.
pub fn path_parent(path: &str, style: PathStyle) -> (r: Option<String>)
    ensures
        opt_view(r) == spec_parent(style, path@),
{
    let n = path.unicode_len();
    let (b, p, verbatim) = body_start_of(path, style);
    let e = trim_body_end_of(path, style, verbatim, b, n);
    if e > b {
        let body = path.substring_char(b, e);
        let k = rfind_sep(body, style, verbatim);
        proof {
            lemma_last_sep_index(body@, style, verbatim);
        }
        let rest = match k {
            Some(i) => b + i,
            None => b,
        };
        let end = trim_body_end_of(path, style, verbatim, b, rest);
        Some(String::from_str(path.substring_char(0, end)))
    } else {
        let root = p < n && is_sep_char(style, false, path.get_char(p));
        let cur_dir = !root && p < n && path.get_char(p) == '.' && (p + 1 == n || is_sep_char(
            style,
            verbatim,
            path.get_char(p + 1),
        ));
        if p == 0 && cur_dir {
            Some(String::new())
        } else {
            None
        }
    }
}

/// Whether the path is exactly a drive prefix.
fn drive_only(s: &str) -> (b: bool)
    ensures
        b == is_drive_only(s@),
{
    let n = s.unicode_len();
    (n == 2 && char_is_ascii_letter(s.get_char(0)) && s.get_char(1) == ':') || (n == 6
        && s.get_char(0) == '\\' && s.get_char(1) == '\\' && s.get_char(2) == '?' && s.get_char(3)
        == '\\' && char_is_ascii_letter(s.get_char(4)) && s.get_char(5) == ':')
}

/// `name` appended to the directory `dir`, as `spec_join` describes it.
pub fn path_join(dir: &str, name: &str, style: PathStyle) -> (r: String)
    ensures
        r@ == spec_join(style, dir@, name@),
{
    let n = dir.unicode_len();
    let mut joined = String::from_str(dir);
    let plain = n == 0 || is_sep_char(style, false, dir.get_char(n - 1)) || (style
        == PathStyle::Windows && drive_only(dir));
    if !plain {
        match style {
            PathStyle::Unix => push_char(&mut joined, '/'),
            PathStyle::Windows => push_char(&mut joined, '\\'),
        }
    }
    joined.append(name);
    joined
}

/// The directory that holds a remote path, once trailing `/` are removed:
/// everything before the last `/`, `/` when that is the first character, and
/// `.` when there is no `/`.
pub fn remote_parent_dir(path: &str) -> (r: String)
    ensures
        r@ == remote_parent(path@),
{
    let k = trailing_slashes_start(path);
    let trimmed = path.substring_char(0, k);
    proof {
        lemma_last_index_of(trimmed@, '/');
    }
    match rfind_char(trimmed, '/') {
        None => String::from_str("."),
        Some(index) => {
            if index == 0 {
                String::from_str("/")
            } else {
                String::from_str(trimmed.substring_char(0, index))
            }
        },
    }
}

} // verus!
