//! File names, stems and extensions of '/'-separated paths, following the
//! component rules of `std::path` on Unix: trailing separators and `.`
//! components after the first are skipped, and a last component of `..` or
//! the root has no file name.

use vstd::prelude::*;
use crate::text::{
    after_last_char, chars_after_last, chars_trim_end, lemma_after_last_char,
    lemma_trim_end_char, slice_range, trim_end_char,
};

verus! {

/// The last component of `s` when it is a normal name (`Path::file_name`).
pub open spec fn file_name(s: Seq<char>) -> Option<Seq<char>>
    decreases s.len(),
{
    let t = trim_end_char(s, '/');
    if t.len() == 0 {
        None
    } else {
        let seg = after_last_char(t, '/');
        let rest = t.subrange(0, t.len() - seg.len());
        if seg == seq!['.'] {
            if rest.len() == 0 {
                None
            } else {
                proof {
                    lemma_trim_end_char_len(s, '/');
                }
                file_name(rest)
            }
        } else if seg == seq!['.', '.'] {
            None
        } else {
            Some(seg)
        }
    }
}

/// Length of the part of a file name before its last `.`, when that dot is
/// not the first character; `None` otherwise.
pub open spec fn stem_len(name: Seq<char>) -> Option<int> {
    let after = after_last_char(name, '.');
    if after.len() == name.len() {
        None
    } else if name.len() - after.len() - 1 == 0 {
        None
    } else {
        Some(name.len() - after.len() - 1)
    }
}

/// The extension of a file name (`Path::extension` on that name).
pub open spec fn name_extension(name: Seq<char>) -> Option<Seq<char>> {
    match stem_len(name) {
        Some(k) => Some(name.subrange(k + 1, name.len() as int)),
        None => None,
    }
}

/// The stem of a file name (`Path::file_stem` on that name).
pub open spec fn name_stem(name: Seq<char>) -> Seq<char> {
    match stem_len(name) {
        Some(k) => name.subrange(0, k),
        None => name,
    }
}

/// `Path::extension` of `s`.
pub open spec fn path_extension(s: Seq<char>) -> Option<Seq<char>> {
    match file_name(s) {
        Some(n) => name_extension(n),
        None => None,
    }
}

/// `Path::file_stem` of `s`.
pub open spec fn path_file_stem(s: Seq<char>) -> Option<Seq<char>> {
    match file_name(s) {
        Some(n) => Some(name_stem(n)),
        None => None,
    }
}

/// The extension of a plain file name `stem.ext` (no `/` in it, no `.` in
/// the extension, neither part empty) is `ext`.
pub proof fn lemma_extension_of_name(stem: Seq<char>, ext: Seq<char>)
    requires
        stem.len() > 0,
        ext.len() > 0,
        forall|i: int| 0 <= i < stem.len() ==> #[trigger] stem[i] != '/',
        forall|i: int| 0 <= i < ext.len() ==> #[trigger] ext[i] != '/' && ext[i] != '.',
    ensures
        path_extension(stem + seq!['.'] + ext) == Some(ext),
{
    let name = stem + seq!['.'] + ext;
    let k = stem.len() as int;
    assert(name[k] == '.');
    assert forall|i: int| 0 <= i < name.len() implies #[trigger] name[i] != '/' by {
        if i < k {
            assert(name[i] == stem[i]);
        } else if i > k {
            assert(name[i] == ext[i - k - 1]);
        }
    }
    assert(name.last() == ext.last());
    lemma_trim_end_char(name, '/', name.len() as int);
    assert(name.subrange(0, name.len() as int) =~= name);
    lemma_after_last_char(name, '/', 0);
    assert(name.subrange(0, name.len() as int) =~= name);
    assert(name.subrange(0, 0).len() == 0);
    assert(name.len() >= 3);
    assert(file_name(name) == Some(name));
    assert forall|i: int| k + 1 <= i < name.len() implies #[trigger] name[i] != '.' by {
        assert(name[i] == ext[i - k - 1]);
    }
    lemma_after_last_char(name, '.', k + 1);
    assert(name.subrange(k + 1, name.len() as int) =~= ext);
}

pub proof fn lemma_trim_end_char_len(s: Seq<char>, c: char)
    ensures
        trim_end_char(s, c).len() <= s.len(),
    decreases s.len(),
{
    if s.len() > 0 && s.last() == c {
        lemma_trim_end_char_len(s.drop_last(), c);
    }
}

pub proof fn lemma_after_last_char_len(s: Seq<char>, c: char)
    ensures
        after_last_char(s, c).len() <= s.len(),
        after_last_char(s, c) == s.subrange(s.len() - after_last_char(s, c).len(), s.len() as int),
        after_last_char(s, c).len() < s.len() ==> s[s.len() - after_last_char(s, c).len() - 1]
            == c,
        forall|k: int|
            s.len() - after_last_char(s, c).len() <= k < s.len() ==> #[trigger] s[k] != c,
    decreases s.len(),
{
    if s.len() > 0 {
        let t = s.drop_last();
        lemma_after_last_char_len(t, c);
        if s.last() == c {
            assert(s.subrange(s.len() as int, s.len() as int) =~= Seq::<char>::empty());
        } else {
            let a = after_last_char(t, c);
            assert(a.push(s.last()) =~= s.subrange(s.len() - a.len() - 1, s.len() as int));
            assert forall|k: int| s.len() - a.len() - 1 <= k < s.len() implies #[trigger] s[k] != c by {
                if k < s.len() - 1 {
                    assert(s[k] == t[k]);
                }
            }
            if a.len() < t.len() {
                assert(s[s.len() - a.len() - 2] == t[t.len() - a.len() - 1]);
            }
        }
    } else {
        assert(s.subrange(0, 0) =~= s);
    }
}

/// Whether `v` is exactly the given characters.
fn is_single_dot(v: &[char]) -> (b: bool)
    ensures
        b == (v@ == seq!['.']),
{
    if v.len() == 1 && v[0] == '.' {
        assert(v@ =~= seq!['.']);
        true
    } else {
        false
    }
}

fn is_double_dot(v: &[char]) -> (b: bool)
    ensures
        b == (v@ == seq!['.', '.']),
{
    if v.len() == 2 && v[0] == '.' && v[1] == '.' {
        assert(v@ =~= seq!['.', '.']);
        true
    } else {
        false
    }
}

/// `Path::file_name` of the path `s`.
pub fn file_name_chars(s: &[char]) -> (r: Option<Vec<char>>)
    ensures
        match r {
            Some(v) => file_name(s@) == Some(v@),
            None => file_name(s@) is None,
        },
    decreases s@.len(),
{
    let t = chars_trim_end(s, '/');
    if t.len() == 0 {
        return None;
    }
    let seg = chars_after_last(t.as_slice(), '/');
    proof {
        lemma_after_last_char_len(t@, '/');
        lemma_trim_end_char_len(s@, '/');
    }
    let rest = slice_range(t.as_slice(), 0, t.len() - seg.len());
    if is_single_dot(seg.as_slice()) {
        if rest.len() == 0 {
            None
        } else {
            file_name_chars(rest.as_slice())
        }
    } else if is_double_dot(seg.as_slice()) {
        None
    } else {
        Some(seg)
    }
}

/// Position of the dot that separates stem and extension, if any.
fn stem_split(name: &[char]) -> (r: Option<usize>)
    ensures
        match r {
            Some(k) => stem_len(name@) == Some(k as int) && k < name@.len(),
            None => stem_len(name@) is None,
        },
{
    let after = chars_after_last(name, '.');
    proof {
        lemma_after_last_char_len(name@, '.');
    }
    if after.len() == name.len() {
        None
    } else if name.len() - after.len() - 1 == 0 {
        None
    } else {
        Some(name.len() - after.len() - 1)
    }
}

/// `Path::extension` of the path `s`.
pub fn extension_chars(s: &[char]) -> (r: Option<Vec<char>>)
    ensures
        match r {
            Some(v) => path_extension(s@) == Some(v@),
            None => path_extension(s@) is None,
        },
{
    match file_name_chars(s) {
        Some(name) => match stem_split(name.as_slice()) {
            Some(k) => {
                let n = name.len();
                Some(slice_range(name.as_slice(), k + 1, n))
            },
            None => None,
        },
        None => None,
    }
}

/// `Path::file_stem` of the path `s`.
pub fn file_stem_chars(s: &[char]) -> (r: Option<Vec<char>>)
    ensures
        match r {
            Some(v) => path_file_stem(s@) == Some(v@),
            None => path_file_stem(s@) is None,
        },
{
    match file_name_chars(s) {
        Some(name) => match stem_split(name.as_slice()) {
            Some(k) => Some(slice_range(name.as_slice(), 0, k)),
            None => Some(name),
        },
        None => None,
    }
}

/// Length of what comes before the components of `s`: a root `/`, or a
/// leading `.` component.
pub open spec fn prefix_len(s: Seq<char>) -> int {
    if s.len() > 0 && s[0] == '/' {
        1
    } else if s.len() > 0 && s[0] == '.' && (s.len() == 1 || s[1] == '/') {
        1
    } else {
        0
    }
}

/// The last `/`-separated segment of `t` after its first `start` characters.
pub open spec fn tail_segment(t: Seq<char>, start: int) -> Seq<char> {
    after_last_char(t.subrange(start, t.len() as int), '/')
}

/// `t` without its last segment and the `/` before it.
pub open spec fn drop_tail_segment(t: Seq<char>, start: int) -> Seq<char> {
    let seg = tail_segment(t, start);
    let cut: int = if seg.len() < t.len() - start {
        seg.len() + 1int
    } else {
        seg.len() as int
    };
    t.subrange(0, t.len() - cut)
}

pub proof fn lemma_drop_tail_segment(t: Seq<char>, start: int)
    requires
        0 <= start < t.len(),
    ensures
        start <= drop_tail_segment(t, start).len() < t.len(),
{
    lemma_after_last_char_len(t.subrange(start, t.len() as int), '/');
}

/// `t` without trailing empty and `.` segments (kept from its first `start`
/// characters).
pub open spec fn strip_empty_tail(t: Seq<char>, start: int) -> Seq<char>
    decreases t.len(),
{
    if start < 0 || t.len() <= start {
        t
    } else {
        let seg = tail_segment(t, start);
        if seg.len() > 0 && seg != seq!['.'] {
            t
        } else {
            proof {
                lemma_drop_tail_segment(t, start);
            }
            strip_empty_tail(drop_tail_segment(t, start), start)
        }
    }
}

/// What remains of `t` once its last component (neither empty nor `.`) is
/// removed; `None` when it has no such component.
pub open spec fn before_last_component(t: Seq<char>, start: int) -> Option<Seq<char>>
    decreases t.len(),
{
    if start < 0 || t.len() <= start {
        None
    } else {
        let seg = tail_segment(t, start);
        proof {
            lemma_drop_tail_segment(t, start);
        }
        if seg.len() > 0 && seg != seq!['.'] {
            Some(drop_tail_segment(t, start))
        } else {
            before_last_component(drop_tail_segment(t, start), start)
        }
    }
}

/// `Path::parent` of `s`: the path without its last component and the
/// separators and `.` components before it; the empty path for a lone `.`
/// component; none for the root or the empty path.
pub open spec fn path_parent(s: Seq<char>) -> Option<Seq<char>> {
    let start = prefix_len(s);
    match before_last_component(s, start) {
        Some(rest) => Some(strip_empty_tail(rest, start)),
        None => if start == 1 && s[0] == '.' {
            Some(Seq::empty())
        } else {
            None
        },
    }
}

/// Splits off the last segment of `s[..len]` after `start`: its start `j`
/// and the length left once it and its separator are removed.
fn split_tail(s: &[char], start: usize, len: usize) -> (r: (usize, usize))
    requires
        start < len <= s@.len(),
    ensures
        start <= r.0 <= len,
        tail_segment(s@.subrange(0, len as int), start as int) == s@.subrange(r.0 as int, len as int),
        drop_tail_segment(s@.subrange(0, len as int), start as int) == s@.subrange(0, r.1 as int),
        start <= r.1 < len,
{
    let mut j = len;
    while j > start && s[j - 1] != '/'
        invariant
            start <= j <= len,
            len <= s@.len(),
            forall|k: int| j <= k < len ==> #[trigger] s@[k] != '/',
        decreases j,
    {
        j -= 1;
    }
    let ghost t = s@.subrange(0, len as int);
    let ghost body = t.subrange(start as int, len as int);
    proof {
        assert forall|k: int| j - start <= k < body.len() implies #[trigger] body[k] != '/' by {
            assert(body[k] == s@[start + k]);
        }
        if j > start {
            assert(body[j - start - 1] == s@[j - 1]);
        }
        lemma_after_last_char(body, '/', j - start);
        assert(body.subrange(j - start, body.len() as int) =~= s@.subrange(j as int, len as int));
    }
    let rest = if j > start {
        j - 1
    } else {
        start
    };
    proof {
        assert(t.subrange(0, rest as int) =~= s@.subrange(0, rest as int));
    }
    (j, rest)
}

fn is_component(s: &[char], a: usize, b: usize) -> (r: bool)
    requires
        a <= b <= s@.len(),
    ensures
        r == (s@.subrange(a as int, b as int).len() > 0 && s@.subrange(a as int, b as int)
            != seq!['.']),
{
    if b == a {
        return false;
    }
    if b == a + 1 && s[a] == '.' {
        assert(s@.subrange(a as int, b as int) =~= seq!['.']);
        return false;
    }
    proof {
        if s@.subrange(a as int, b as int) == seq!['.'] {
            assert(s@.subrange(a as int, b as int).len() == 1);
            assert(b == a + 1);
            assert(s@.subrange(a as int, b as int)[0] == s@[a as int]);
        }
    }
    true
}

/// `Path::parent` of the path `s`.
pub fn parent_chars(s: &[char]) -> (r: Option<Vec<char>>)
    ensures
        match r {
            Some(v) => path_parent(s@) == Some(v@),
            None => path_parent(s@) is None,
        },
{
    let n = s.len();
    let start: usize = if n > 0 && s[0] == '/' {
        1
    } else if n > 0 && s[0] == '.' && (n == 1 || s[1] == '/') {
        1
    } else {
        0
    };
    assert(s@.subrange(0, n as int) =~= s@);
    let mut len = n;
    let mut found = false;
    while len > start && !found
        invariant
            start <= len <= n,
            n == s@.len(),
            start as int == prefix_len(s@),
            !found ==> before_last_component(s@, start as int) == before_last_component(
                s@.subrange(0, len as int),
                start as int,
            ),
            found ==> before_last_component(s@, start as int) == Some(s@.subrange(0, len as int)),
        decreases len,
    {
        let (j, rest) = split_tail(s, start, len);
        let ghost t = s@.subrange(0, len as int);
        proof {
            lemma_drop_tail_segment(t, start as int);
        }
        if is_component(s, j, len) {
            found = true;
        }
        len = rest;
        proof {
            assert(s@.subrange(0, len as int) == drop_tail_segment(t, start as int));
        }
    }
    if !found {
        proof {
            assert(before_last_component(s@.subrange(0, len as int), start as int) is None);
        }
        if start == 1 && s[0] == '.' {
            return Some(Vec::new());
        }
        return None;
    }
    let mut done = false;
    while len > start && !done
        invariant
            start <= len <= n,
            n == s@.len(),
            start as int == prefix_len(s@),
            before_last_component(s@, start as int) matches Some(rest) && strip_empty_tail(
                rest,
                start as int,
            ) == strip_empty_tail(s@.subrange(0, len as int), start as int),
            done ==> strip_empty_tail(s@.subrange(0, len as int), start as int) == s@.subrange(
                0,
                len as int,
            ),
        decreases len + (if done { 0int } else { 1int }),
    {
        let (j, rest) = split_tail(s, start, len);
        if is_component(s, j, len) {
            proof {
                let t = s@.subrange(0, len as int);
                assert(strip_empty_tail(t, start as int) == t);
            }
            done = true;
        } else {
            len = rest;
        }
    }
    proof {
        let t = s@.subrange(0, len as int);
        if len <= start {
            assert(strip_empty_tail(t, start as int) == t);
        }
    }
    Some(slice_range(s, 0, len))
}

} // verus!
