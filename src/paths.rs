//! Paths as strings, under the separator rules of the host: joining, the parent
//! directory, the last component, and the extension of a file name.
use vstd::prelude::*;
use vstd::string::*;

verus! {

/// The path conventions of a host. On Unix `/` is the one separator; on Windows
/// `\` and `/` both are, and a path may start with a drive such as `C:`.
#[derive(Clone, Copy, Debug, PartialEq, Eq, Structural)]
pub enum PathStyle {
    Unix,
    Windows,
}

/// Whether `c` separates components.
pub open spec fn is_sep(style: PathStyle, c: char) -> bool {
    c == '/' || (style == PathStyle::Windows && c == '\\')
}

/// The separator that joining puts between components.
pub open spec fn sep_of(style: PathStyle) -> char {
    match style {
        PathStyle::Unix => '/',
        PathStyle::Windows => '\\',
    }
}

/// Whether `c` is an ASCII letter, as a drive is named.
pub open spec fn is_drive_letter(c: char) -> bool {
    ('a' <= c && c <= 'z') || ('A' <= c && c <= 'Z')
}

/// Whether `p` starts with a drive such as `C:` (Windows only).
pub open spec fn has_drive(style: PathStyle, p: Seq<char>) -> bool {
    style == PathStyle::Windows && p.len() >= 2 && is_drive_letter(p[0]) && p[1] == ':'
}

/// Whether `p` is a drive and nothing more.
pub open spec fn is_bare_drive(style: PathStyle, p: Seq<char>) -> bool {
    has_drive(style, p) && p.len() == 2
}

/// Whether joining `p` onto a path replaces that path: `p` starts at a root or
/// names a drive.
pub open spec fn is_absolute(style: PathStyle, p: Seq<char>) -> bool {
    (p.len() > 0 && is_sep(style, p[0])) || has_drive(style, p)
}

/// The index of the last occurrence of `c` in `s`, or -1 where there is none.
pub open spec fn last_index(s: Seq<char>, c: char) -> int
    decreases s.len(),
{
    if s.len() == 0 {
        -1
    } else if s.last() == c {
        s.len() - 1
    } else {
        last_index(s.drop_last(), c)
    }
}

/// The index of the last separator in `s`, or -1 where there is none.
pub open spec fn last_sep(style: PathStyle, s: Seq<char>) -> int
    decreases s.len(),
{
    if s.len() == 0 {
        -1
    } else if is_sep(style, s.last()) {
        s.len() - 1
    } else {
        last_sep(style, s.drop_last())
    }
}

/// `s` without its trailing separators.
pub open spec fn trim_seps(style: PathStyle, s: Seq<char>) -> Seq<char>
    decreases s.len(),
{
    if s.len() > 0 && is_sep(style, s.last()) {
        trim_seps(style, s.drop_last())
    } else {
        s
    }
}

/// `part` appended to `base`. An absolute `part` replaces `base`; otherwise one
/// separator stands between them, unless `base` is empty or already ends in one.
pub open spec fn joined(style: PathStyle, base: Seq<char>, part: Seq<char>) -> Seq<char> {
    if is_absolute(style, part) {
        part
    } else if base.len() == 0 || is_sep(style, base.last()) {
        base + part
    } else {
        base + seq![sep_of(style)] + part
    }
}

/// The directory that holds `p`: `None` for an empty path, a root or a bare
/// drive; the empty path for a bare name; the root (of the drive, where there
/// is one) for a name right under it.
pub open spec fn parent_of(style: PathStyle, p: Seq<char>) -> Option<Seq<char>> {
    let t = trim_seps(style, p);
    if t.len() == 0 || is_bare_drive(style, t) {
        None
    } else if last_sep(style, t) < 0 {
        Some(Seq::<char>::empty())
    } else {
        let h = trim_seps(style, t.subrange(0, last_sep(style, t)));
        if h.len() == 0 {
            Some(seq![sep_of(style)])
        } else if is_bare_drive(style, h) {
            Some(h + seq![sep_of(style)])
        } else {
            Some(h)
        }
    }
}

/// The last component of a path, trailing separators aside.
pub open spec fn file_name_of(style: PathStyle, p: Seq<char>) -> Seq<char> {
    let t = trim_seps(style, p);
    t.subrange(last_sep(style, t) + 1, t.len() as int)
}

/// The extension of a file name: what follows its last dot, where a dot stands
/// after the first character. A name such as `.json` has none.
pub open spec fn extension_of(name: Seq<char>) -> Option<Seq<char>> {
    if last_index(name, '.') < 1 {
        None
    } else {
        Some(name.subrange(last_index(name, '.') + 1, name.len() as int))
    }
}

/// The part of a file name before the dot of its extension, where it has one.
pub open spec fn stem_of(name: Seq<char>) -> Option<Seq<char>> {
    if last_index(name, '.') < 1 {
        None
    } else {
        Some(name.subrange(0, last_index(name, '.')))
    }
}

proof fn lemma_last_index_bounds(s: Seq<char>, c: char)
    ensures
        -1 <= last_index(s, c) < s.len(),
    decreases s.len(),
{
    if s.len() > 0 && s.last() != c {
        lemma_last_index_bounds(s.drop_last(), c);
    }
}

proof fn lemma_last_sep_bounds(style: PathStyle, s: Seq<char>)
    ensures
        -1 <= last_sep(style, s) < s.len(),
    decreases s.len(),
{
    if s.len() > 0 && !is_sep(style, s.last()) {
        lemma_last_sep_bounds(style, s.drop_last());
    }
}

fn is_sep_char(style: PathStyle, c: char) -> (r: bool)
    ensures
        r == is_sep(style, c),
{
    c == '/' || (style == PathStyle::Windows && c == '\\')
}

fn sep_str(style: PathStyle) -> (r: &'static str)
    ensures
        r@ == seq![sep_of(style)],
{
    proof {
        reveal_strlit("/");
        reveal_strlit("\\");
    }
    match style {
        PathStyle::Unix => "/",
        PathStyle::Windows => "\\",
    }
}

/// Whether the first `end` characters of `s` are a drive and nothing more.
fn bare_drive_prefix(style: PathStyle, s: &str, end: usize) -> (r: bool)
    requires
        end <= s@.len(),
    ensures
        r == is_bare_drive(style, s@.subrange(0, end as int)),
{
    if style != PathStyle::Windows || end != 2 {
        return false;
    }
    let c = s.get_char(0);
    (('a' <= c && c <= 'z') || ('A' <= c && c <= 'Z')) && s.get_char(1) == ':'
}

/// Whether `p` is absolute under `style`.
pub fn is_absolute_path(style: PathStyle, p: &str) -> (r: bool)
    ensures
        r == is_absolute(style, p@),
{
    let len = p.unicode_len();
    if len > 0 && is_sep_char(style, p.get_char(0)) {
        return true;
    }
    if style != PathStyle::Windows || len < 2 {
        return false;
    }
    let c = p.get_char(0);
    (('a' <= c && c <= 'z') || ('A' <= c && c <= 'Z')) && p.get_char(1) == ':'
}

/// The index of the last `c` among the first `end` characters of `s`, if any.
fn last_index_before(s: &str, end: usize, c: char) -> (r: Option<usize>)
    requires
        end <= s@.len(),
    ensures
        r matches Some(k) ==> k == last_index(s@.subrange(0, end as int), c),
        r is None ==> last_index(s@.subrange(0, end as int), c) == -1,
{
    let mut i: usize = end;
    while i > 0
        invariant
            i <= end <= s@.len(),
            last_index(s@.subrange(0, end as int), c) == last_index(s@.subrange(0, i as int), c),
        decreases i,
    {
        if s.get_char(i - 1) == c {
            return Some(i - 1);
        }
        assert(s@.subrange(0, i as int).drop_last() =~= s@.subrange(0, i - 1));
        i = i - 1;
    }
    None
}

/// The index of the last separator among the first `end` characters of `s`, if any.
fn last_sep_before(style: PathStyle, s: &str, end: usize) -> (r: Option<usize>)
    requires
        end <= s@.len(),
    ensures
        r matches Some(k) ==> k == last_sep(style, s@.subrange(0, end as int)),
        r is None ==> last_sep(style, s@.subrange(0, end as int)) == -1,
{
    let mut i: usize = end;
    while i > 0
        invariant
            i <= end <= s@.len(),
            last_sep(style, s@.subrange(0, end as int)) == last_sep(style, s@.subrange(0, i as int)),
        decreases i,
    {
        if is_sep_char(style, s.get_char(i - 1)) {
            return Some(i - 1);
        }
        assert(s@.subrange(0, i as int).drop_last() =~= s@.subrange(0, i - 1));
        i = i - 1;
    }
    None
}

/// The number of characters that remain of the first `end` characters of `s`
/// once trailing separators are taken off.
fn trimmed_len(style: PathStyle, s: &str, end: usize) -> (n: usize)
    requires
        end <= s@.len(),
    ensures
        n <= end,
        trim_seps(style, s@.subrange(0, end as int)) == s@.subrange(0, n as int),
{
    let mut i: usize = end;
    while i > 0 && is_sep_char(style, s.get_char(i - 1))
        invariant
            i <= end <= s@.len(),
            trim_seps(style, s@.subrange(0, end as int)) == trim_seps(
                style,
                s@.subrange(0, i as int),
            ),
        decreases i,
    {
        assert(s@.subrange(0, i as int).drop_last() =~= s@.subrange(0, i - 1));
        i = i - 1;
    }
    i
}

/// Joins `part` onto `base`.
pub fn join_path(style: PathStyle, base: &str, part: &str) -> (r: String)
    ensures
        r@ == joined(style, base@, part@),
{
    if is_absolute_path(style, part) {
        return String::from_str(part);
    }
    let blen = base.unicode_len();
    let mut r = String::from_str(base);
    if blen > 0 && !is_sep_char(style, base.get_char(blen - 1)) {
        r.append(sep_str(style));
    }
    r.append(part);
    r
}

/// The directory that holds `p`.
pub fn parent_dir(style: PathStyle, p: &str) -> (r: Option<String>)
    ensures
        r matches Some(d) ==> parent_of(style, p@) == Some(d@),
        r is None ==> parent_of(style, p@) is None,
{
    proof {
        assert(p@.subrange(0, p@.len() as int) =~= p@);
    }
    let len = p.unicode_len();
    let t = trimmed_len(style, p, len);
    if t == 0 || bare_drive_prefix(style, p, t) {
        return None;
    }
    let ghost ts = p@.subrange(0, t as int);
    let k = match last_sep_before(style, p, t) {
        Some(k) => k,
        None => {
            return Some(String::new());
        },
    };
    proof {
        lemma_last_sep_bounds(style, ts);
        assert(ts.subrange(0, k as int) =~= p@.subrange(0, k as int));
    }
    let h = trimmed_len(style, p, k);
    if h == 0 {
        Some(String::from_str(sep_str(style)))
    } else {
        let head = String::from_str(p.substring_char(0, h));
        if bare_drive_prefix(style, p, h) {
            Some(head.concat(sep_str(style)))
        } else {
            Some(head)
        }
    }
}

/// The last component of `p`.
pub fn file_name(style: PathStyle, p: &str) -> (r: String)
    ensures
        r@ == file_name_of(style, p@),
{
    let len = p.unicode_len();
    proof {
        assert(p@.subrange(0, len as int) =~= p@);
    }
    let t = trimmed_len(style, p, len);
    let ghost ts = p@.subrange(0, t as int);
    proof {
        lemma_last_sep_bounds(style, ts);
    }
    let from = match last_sep_before(style, p, t) {
        Some(k) => k + 1,
        None => 0,
    };
    let r = String::from_str(p.substring_char(from, t));
    proof {
        assert(r@ =~= ts.subrange(last_sep(style, ts) + 1, ts.len() as int));
    }
    r
}

/// The stem of a file name together with its extension, where it has one.
pub fn split_extension(name: &str) -> (r: Option<(String, String)>)
    ensures
        r is None <==> extension_of(name@) is None,
        r matches Some(pair) ==> stem_of(name@) == Some(pair.0@) && extension_of(name@) == Some(
            pair.1@,
        ),
{
    let len = name.unicode_len();
    proof {
        assert(name@.subrange(0, len as int) =~= name@);
        lemma_last_index_bounds(name@, '.');
    }
    let d = match last_index_before(name, len, '.') {
        Some(d) => d,
        None => {
            return None;
        },
    };
    if d < 1 {
        return None;
    }
    let stem = String::from_str(name.substring_char(0, d));
    let ext = String::from_str(name.substring_char(d + 1, len));
    Some((stem, ext))
}

} // verus!
