//! Path strings.
//!
//! Paths are handled as strings whose components are separated by `/`, as
//! on the Unix targets the plugins run their tests on. Trailing separators
//! are ignored, a non-leading `.` component is skipped, and `..` has no file
//! name, as `std::path` has it there.

use vstd::prelude::*;
use crate::text::{chars_of, string_from_chars};

verus! {

/// Index of the last occurrence of `c` in `s`, or -1.
pub open spec fn last_index_of(s: Seq<char>, c: char) -> int
    decreases s.len(),
{
    if s.len() == 0 {
        -1
    } else if s.last() == c {
        s.len() - 1
    } else {
        last_index_of(s.drop_last(), c)
    }
}

/// `s` without trailing separators; a lone `/` is kept.
pub open spec fn trim_end_slashes(s: Seq<char>) -> Seq<char>
    decreases s.len(),
{
    if s.len() > 1 && s.last() == '/' {
        trim_end_slashes(s.drop_last())
    } else {
        s
    }
}

/// The final component of a path, if it has one.
pub open spec fn file_name(p: Seq<char>) -> Option<Seq<char>>
    decreases p.len(),
{
    let t = trim_end_slashes(p);
    let k = last_index_of(t, '/');
    let seg = t.subrange(k + 1, t.len() as int);
    if seg == seq!['.'] && 0 <= k < t.len() <= p.len() {
        file_name(t.subrange(0, k))
    } else if seg.len() == 0 || seg == seq!['.'] || seg == seq!['.', '.'] {
        None
    } else {
        Some(seg)
    }
}

/// The path without its final component, if it has one.
pub open spec fn parent(p: Seq<char>) -> Option<Seq<char>>
    decreases p.len(),
{
    let t = trim_end_slashes(p);
    let k = last_index_of(t, '/');
    let seg = t.subrange(k + 1, t.len() as int);
    if t.len() == 0 || seg.len() == 0 {
        None
    } else if seg == seq!['.'] && 0 <= k < t.len() <= p.len() {
        parent(t.subrange(0, k))
    } else if k < 0 {
        Some(Seq::empty())
    } else {
        Some(trim_end_slashes(t.subrange(0, k + 1)))
    }
}

/// The stem of a file name: everything before the last `.`, unless that dot
/// is the first character or there is none.
pub open spec fn name_stem(name: Seq<char>) -> Seq<char> {
    let d = last_index_of(name, '.');
    if d <= 0 {
        name
    } else {
        name.subrange(0, d)
    }
}

/// The extension of a file name: everything after the last `.`, unless that
/// dot is the first character or there is none.
pub open spec fn name_extension(name: Seq<char>) -> Option<Seq<char>> {
    let d = last_index_of(name, '.');
    if d <= 0 {
        None
    } else {
        Some(name.subrange(d + 1, name.len() as int))
    }
}

/// The stem of the file name of a path.
pub open spec fn file_stem(p: Seq<char>) -> Option<Seq<char>> {
    match file_name(p) {
        Some(n) => Some(name_stem(n)),
        None => None,
    }
}

/// The extension of the file name of a path.
pub open spec fn extension(p: Seq<char>) -> Option<Seq<char>> {
    match file_name(p) {
        Some(n) => name_extension(n),
        None => None,
    }
}

/// `name` appended to `base` as a new component; an absolute `name`
/// replaces `base`.
pub open spec fn join(base: Seq<char>, name: Seq<char>) -> Seq<char> {
    if name.len() > 0 && name[0] == '/' {
        name
    } else if base.len() == 0 {
        name
    } else if base.last() == '/' {
        base + name
    } else {
        base + seq!['/'] + name
    }
}

/// Index of the last occurrence of `c` in `v`, if any.
pub fn find_last(v: &[char], c: char) -> (r: Option<usize>)
    ensures
        match r {
            Some(i) => i as int == last_index_of(v@, c),
            None => last_index_of(v@, c) == -1,
        },
{
    let mut i: usize = v.len();
    assert(v@.take(v@.len() as int) =~= v@);
    while i > 0
        invariant
            i <= v@.len(),
            last_index_of(v@, c) == last_index_of(v@.take(i as int), c),
        decreases i,
    {
        if v[i - 1] == c {
            assert(v@.take(i as int).last() == c);
            return Some(i - 1);
        }
        assert(v@.take(i as int).drop_last() =~= v@.take(i - 1));
        i = i - 1;
    }
    None
}

/// Copy of `v[from..to]`.
pub fn slice_vec(v: &[char], from: usize, to: usize) -> (r: Vec<char>)
    requires
        from <= to <= v@.len(),
    ensures
        r@ == v@.subrange(from as int, to as int),
{
    let mut r: Vec<char> = Vec::new();
    let mut i: usize = from;
    while i < to
        invariant
            from <= i <= to <= v@.len(),
            r@ == v@.subrange(from as int, i as int),
        decreases to - i,
    {
        r.push(v[i]);
        assert(v@.subrange(from as int, i + 1) =~= v@.subrange(from as int, i as int).push(v@[i as int]));
        i = i + 1;
    }
    r
}

fn trim_slashes_vec(v: &[char]) -> (r: Vec<char>)
    ensures
        r@ == trim_end_slashes(v@),
{
    let mut n: usize = v.len();
    assert(v@.take(v@.len() as int) =~= v@);
    while n > 1 && v[n - 1] == '/'
        invariant
            n <= v@.len(),
            trim_end_slashes(v@) == trim_end_slashes(v@.take(n as int)),
        decreases n,
    {
        assert(v@.take(n as int).drop_last() =~= v@.take(n - 1));
        n = n - 1;
    }
    let r = slice_vec(v, 0, n);
    assert(r@ =~= v@.take(n as int));
    r
}

fn is_dot(v: &[char]) -> (r: bool)
    ensures
        r == (v@ == seq!['.']),
{
    let r = v.len() == 1 && v[0] == '.';
    proof {
        if r {
            assert(v@ =~= seq!['.']);
        }
    }
    r
}

fn is_dot_dot(v: &[char]) -> (r: bool)
    ensures
        r == (v@ == seq!['.', '.']),
{
    let r = v.len() == 2 && v[0] == '.' && v[1] == '.';
    proof {
        if v@ == seq!['.', '.'] {
            assert(v@[0] == '.' && v@[1] == '.');
        }
        if r {
            assert(v@ =~= seq!['.', '.']);
        }
    }
    r
}

proof fn lemma_trim_len(s: Seq<char>)
    ensures
        trim_end_slashes(s).len() <= s.len(),
        trim_end_slashes(s).len() == 0 <==> s.len() == 0,
    decreases s.len(),
{
    if s.len() > 1 && s.last() == '/' {
        lemma_trim_len(s.drop_last());
    }
}

proof fn lemma_last_index_bounds(s: Seq<char>, c: char)
    ensures
        -1 <= last_index_of(s, c) < s.len(),
        last_index_of(s, c) >= 0 ==> s[last_index_of(s, c)] == c,
    decreases s.len(),
{
    if s.len() > 0 && s.last() != c {
        lemma_last_index_bounds(s.drop_last(), c);
    }
}

fn file_name_vec(p: &[char]) -> (r: Option<Vec<char>>)
    ensures
        match r {
            Some(v) => file_name(p@) == Some(v@),
            None => file_name(p@) is None,
        },
    decreases p@.len(),
{
    let t = trim_slashes_vec(p);
    proof {
        lemma_trim_len(p@);
        lemma_last_index_bounds(t@, '/');
    }
    let k = find_last(t.as_slice(), '/');
    let start: usize = match k {
        Some(i) => {
            let tl = t.len();
            assert(i < tl);
            i + 1
        },
        None => 0,
    };
    let seg = slice_vec(t.as_slice(), start, t.len());
    if is_dot(seg.as_slice()) && k.is_some() {
        let head = slice_vec(t.as_slice(), 0, start - 1);
        file_name_vec(head.as_slice())
    } else if seg.len() == 0 || is_dot(seg.as_slice()) || is_dot_dot(seg.as_slice()) {
        None
    } else {
        Some(seg)
    }
}

/// The final component of a path, if it has one.
pub fn path_file_name(p: &str) -> (r: Option<String>)
    ensures
        match r {
            Some(s) => file_name(p@) == Some(s@),
            None => file_name(p@) is None,
        },
{
    let v = chars_of(p);
    match file_name_vec(v.as_slice()) {
        Some(n) => Some(string_from_chars(n.as_slice())),
        None => None,
    }
}

} // verus!

verus! {

fn parent_vec(p: &[char]) -> (r: Option<Vec<char>>)
    ensures
        match r {
            Some(v) => parent(p@) == Some(v@),
            None => parent(p@) is None,
        },
    decreases p@.len(),
{
    let t = trim_slashes_vec(p);
    proof {
        lemma_trim_len(p@);
        lemma_last_index_bounds(t@, '/');
    }
    let k = find_last(t.as_slice(), '/');
    let start: usize = match k {
        Some(i) => {
            let tl = t.len();
            assert(i < tl);
            i + 1
        },
        None => 0,
    };
    let seg = slice_vec(t.as_slice(), start, t.len());
    if t.len() == 0 || seg.len() == 0 {
        None
    } else if is_dot(seg.as_slice()) && k.is_some() {
        let head = slice_vec(t.as_slice(), 0, start - 1);
        parent_vec(head.as_slice())
    } else if k.is_none() {
        Some(Vec::new())
    } else {
        let head = slice_vec(t.as_slice(), 0, start);
        Some(trim_slashes_vec(head.as_slice()))
    }
}

/// The path without its final component, if it has one.
pub fn path_parent(p: &str) -> (r: Option<String>)
    ensures
        match r {
            Some(s) => parent(p@) == Some(s@),
            None => parent(p@) is None,
        },
{
    let v = chars_of(p);
    match parent_vec(v.as_slice()) {
        Some(n) => Some(string_from_chars(n.as_slice())),
        None => None,
    }
}

/// The stem of a file name.
pub fn stem_of_name(name: &[char]) -> (r: Vec<char>)
    ensures
        r@ == name_stem(name@),
{
    proof {
        lemma_last_index_bounds(name@, '.');
    }
    match find_last(name, '.') {
        Some(d) => {
            if d == 0 {
                slice_vec(name, 0, name.len())
            } else {
                slice_vec(name, 0, d)
            }
        },
        None => slice_vec(name, 0, name.len()),
    }
}

/// The extension of a file name.
pub fn extension_of_name(name: &[char]) -> (r: Option<Vec<char>>)
    ensures
        match r {
            Some(v) => name_extension(name@) == Some(v@),
            None => name_extension(name@) is None,
        },
{
    proof {
        lemma_last_index_bounds(name@, '.');
    }
    match find_last(name, '.') {
        Some(d) => {
            let nl = name.len();
            assert(d < nl);
            if d == 0 {
                None
            } else {
                Some(slice_vec(name, d + 1, nl))
            }
        },
        None => None,
    }
}

/// The stem of the file name of a path.
pub fn path_file_stem(p: &str) -> (r: Option<String>)
    ensures
        match r {
            Some(s) => file_stem(p@) == Some(s@),
            None => file_stem(p@) is None,
        },
{
    let v = chars_of(p);
    match file_name_vec(v.as_slice()) {
        Some(n) => {
            let s = stem_of_name(n.as_slice());
            Some(string_from_chars(s.as_slice()))
        },
        None => None,
    }
}

/// The extension of the file name of a path.
pub fn path_extension(p: &str) -> (r: Option<String>)
    ensures
        match r {
            Some(s) => extension(p@) == Some(s@),
            None => extension(p@) is None,
        },
{
    let v = chars_of(p);
    match file_name_vec(v.as_slice()) {
        Some(n) => match extension_of_name(n.as_slice()) {
            Some(e) => Some(string_from_chars(e.as_slice())),
            None => None,
        },
        None => None,
    }
}

/// `name` appended to `base` as a new component.
pub fn path_join(base: &str, name: &str) -> (r: String)
    ensures
        r@ == join(base@, name@),
{
    let b = chars_of(base);
    let n = chars_of(name);
    if n.len() > 0 && n[0] == '/' {
        return string_from_chars(n.as_slice());
    }
    if b.len() == 0 {
        return string_from_chars(n.as_slice());
    }
    let mut out = b.clone();
    if b[b.len() - 1] != '/' {
        out.push('/');
    }
    let mut i: usize = 0;
    let ghost pre = out@;
    while i < n.len()
        invariant
            i <= n@.len(),
            out@ == pre + n@.take(i as int),
        decreases n@.len() - i,
    {
        out.push(n[i]);
        assert(pre + n@.take(i + 1) =~= (pre + n@.take(i as int)).push(n@[i as int]));
        i = i + 1;
    }
    assert(n@.take(n@.len() as int) =~= n@);
    string_from_chars(out.as_slice())
}

/// `s` with every `\` turned into `/`.
pub open spec fn forward_slashes(s: Seq<char>) -> Seq<char> {
    s.map_values(|c: char| if c == '\\' { '/' } else { c })
}

/// A path with its separators written as `/`, as a Python script embeds it.
pub fn normalize_path_for_python(path: &str) -> (r: String)
    ensures
        r@ == forward_slashes(path@),
{
    let v = chars_of(path);
    let mut out: Vec<char> = Vec::new();
    let mut i: usize = 0;
    while i < v.len()
        invariant
            v@ == path@,
            i <= v@.len(),
            out@ == forward_slashes(v@.take(i as int)),
        decreases v@.len() - i,
    {
        let c = v[i];
        let d = if c == '\\' { '/' } else { c };
        out.push(d);
        assert(forward_slashes(v@.take(i + 1)) =~= forward_slashes(v@.take(i as int)).push(d));
        i = i + 1;
    }
    assert(v@.take(v@.len() as int) =~= v@);
    string_from_chars(out.as_slice())
}

/// A Windows path separator: `\` or `/`.
pub open spec fn is_win_sep(c: char) -> bool {
    c == '\\' || c == '/'
}

/// Index of the last Windows separator in `s`, or -1.
pub open spec fn last_win_sep(s: Seq<char>) -> int
    decreases s.len(),
{
    if s.len() == 0 {
        -1
    } else if is_win_sep(s.last()) {
        s.len() - 1
    } else {
        last_win_sep(s.drop_last())
    }
}

/// `s` without trailing Windows separators.
pub open spec fn trim_win_seps(s: Seq<char>) -> Seq<char>
    decreases s.len(),
{
    if s.len() > 0 && is_win_sep(s.last()) {
        trim_win_seps(s.drop_last())
    } else {
        s
    }
}

/// A bare drive such as `C:`.
pub open spec fn is_drive(s: Seq<char>) -> bool {
    s.len() == 2 && s[1] == ':'
}

/// The parent of a Windows path: `C:\path\to` for `C:\path\to\unins000.exe`,
/// `C:\` for `C:\unins000.exe`; none for an empty path, a root or a bare
/// drive. Either separator is accepted, and trailing separators are ignored.
pub open spec fn windows_parent(p: Seq<char>) -> Option<Seq<char>> {
    let t = trim_win_seps(p);
    let k = last_win_sep(t);
    if t.len() == 0 || is_drive(t) {
        None
    } else if k < 0 {
        if t.len() >= 2 && t[1] == ':' {
            Some(t.subrange(0, 2))
        } else {
            Some(Seq::empty())
        }
    } else {
        let h = trim_win_seps(t.subrange(0, k));
        if h.len() == 0 {
            Some(t.subrange(0, 1))
        } else if is_drive(h) {
            Some(t.subrange(0, 3))
        } else {
            Some(h)
        }
    }
}

proof fn lemma_trim_win_seps_prefix(s: Seq<char>)
    ensures
        trim_win_seps(s).len() <= s.len(),
        trim_win_seps(s) == s.subrange(0, trim_win_seps(s).len() as int),
    decreases s.len(),
{
    if s.len() > 0 && is_win_sep(s.last()) {
        lemma_trim_win_seps_prefix(s.drop_last());
        assert(s.drop_last().subrange(0, trim_win_seps(s).len() as int) =~= s.subrange(0, trim_win_seps(s).len() as int));
    } else {
        assert(s.subrange(0, s.len() as int) =~= s);
    }
}

proof fn lemma_last_win_sep_bounds(s: Seq<char>)
    ensures
        -1 <= last_win_sep(s) < s.len(),
        last_win_sep(s) >= 0 ==> is_win_sep(s[last_win_sep(s)]),
    decreases s.len(),
{
    if s.len() > 0 && !is_win_sep(s.last()) {
        lemma_last_win_sep_bounds(s.drop_last());
    }
}

/// Length of `v[..end]` without its trailing Windows separators.
fn trimmed_win_len(v: &[char], end: usize) -> (r: usize)
    requires
        end <= v@.len(),
    ensures
        r <= end,
        v@.subrange(0, r as int) == trim_win_seps(v@.subrange(0, end as int)),
{
    let mut i: usize = end;
    while i > 0 && (v[i - 1] == '\\' || v[i - 1] == '/')
        invariant
            i <= end <= v@.len(),
            trim_win_seps(v@.subrange(0, end as int)) == trim_win_seps(v@.subrange(0, i as int)),
        decreases i,
    {
        assert(v@.subrange(0, i as int).drop_last() =~= v@.subrange(0, i - 1));
        i = i - 1;
    }
    proof {
        if i > 0 {
            assert(v@.subrange(0, i as int).last() == v@[i - 1]);
        }
    }
    i
}

/// Index of the last Windows separator in `v[..end]`, if any.
fn last_win_sep_in(v: &[char], end: usize) -> (r: Option<usize>)
    requires
        end <= v@.len(),
    ensures
        match r {
            Some(k) => k as int == last_win_sep(v@.subrange(0, end as int)),
            None => last_win_sep(v@.subrange(0, end as int)) == -1,
        },
{
    let mut i: usize = end;
    while i > 0
        invariant
            i <= end <= v@.len(),
            last_win_sep(v@.subrange(0, end as int)) == last_win_sep(v@.subrange(0, i as int)),
        decreases i,
    {
        if v[i - 1] == '\\' || v[i - 1] == '/' {
            assert(v@.subrange(0, i as int).last() == v@[i - 1]);
            return Some(i - 1);
        }
        assert(v@.subrange(0, i as int).drop_last() =~= v@.subrange(0, i - 1));
        i = i - 1;
    }
    None
}

/// The parent of a Windows path, if it has one.
pub fn windows_path_parent(p: &str) -> (r: Option<String>)
    ensures
        match r {
            Some(d) => windows_parent(p@) == Some(d@),
            None => windows_parent(p@) is None,
        },
{
    let v = chars_of(p);
    let tl = trimmed_win_len(v.as_slice(), v.len());
    let ghost t = v@.subrange(0, tl as int);
    assert(v@.subrange(0, v@.len() as int) =~= v@);
    assert(t == trim_win_seps(p@));
    if tl == 0 || (tl == 2 && v[1] == ':') {
        return None;
    }
    match last_win_sep_in(v.as_slice(), tl) {
        None => {
            if tl >= 2 && v[1] == ':' {
                let d = slice_vec(v.as_slice(), 0, 2);
                assert(d@ =~= t.subrange(0, 2));
                Some(string_from_chars(d.as_slice()))
            } else {
                let d: Vec<char> = Vec::new();
                assert(d@ =~= Seq::<char>::empty());
                Some(string_from_chars(d.as_slice()))
            }
        },
        Some(k) => {
            proof {
                lemma_last_win_sep_bounds(t);
            }
            let hl = trimmed_win_len(v.as_slice(), k);
            assert(v@.subrange(0, k as int) =~= t.subrange(0, k as int));
            let ghost h = v@.subrange(0, hl as int);
            if hl == 0 {
                let d = slice_vec(v.as_slice(), 0, 1);
                assert(d@ =~= t.subrange(0, 1));
                Some(string_from_chars(d.as_slice()))
            } else if hl == 2 && v[1] == ':' {
                proof {
                    lemma_trim_win_seps_prefix(t.subrange(0, k as int));
                }
                assert(k >= 2);
                let d = slice_vec(v.as_slice(), 0, 3);
                assert(d@ =~= t.subrange(0, 3));
                Some(string_from_chars(d.as_slice()))
            } else {
                let d = slice_vec(v.as_slice(), 0, hl);
                Some(string_from_chars(d.as_slice()))
            }
        },
    }
}

} // verus!
