//! Names of transcode outputs: a clean base name taken from the source (a
//! path or a URL) and the output path built from it.

use vstd::prelude::*;
use crate::paths::{file_stem_chars, path_file_stem};
use crate::text::{
    after_last_char, append_str, chars_after_last, chars_of, chars_trim_end, decimal,
    decimal_chars_u128, lemma_trim_shape, push_char, slice_range, string_from_chars, trim,
    trim_bounds, trim_end_char, trimmed,
};

verus! {

/// The part of `s` before its first `?` or `#` (query and fragment cut off).
pub open spec fn before_query(s: Seq<char>) -> Seq<char>
    decreases s.len(),
{
    if s.len() == 0 {
        s
    } else if s[0] == '?' || s[0] == '#' {
        Seq::empty()
    } else {
        seq![s[0]] + before_query(s.drop_first())
    }
}

proof fn lemma_before_query(s: Seq<char>, i: int)
    requires
        0 <= i <= s.len(),
        forall|k: int| 0 <= k < i ==> #[trigger] s[k] != '?' && s[k] != '#',
        i == s.len() || s[i] == '?' || s[i] == '#',
    ensures
        before_query(s) == s.subrange(0, i),
    decreases i,
{
    if i == 0 {
        if s.len() == 0 {
            assert(s.subrange(0, 0) =~= s);
        } else {
            assert(s.subrange(0, 0) =~= Seq::<char>::empty());
        }
    } else {
        let t = s.drop_first();
        assert forall|k: int| 0 <= k < i - 1 implies #[trigger] t[k] != '?' && t[k] != '#' by {
            assert(t[k] == s[k + 1]);
        }
        lemma_before_query(t, i - 1);
        assert(seq![s[0]] + t.subrange(0, i - 1) =~= s.subrange(0, i));
    }
}

fn chars_before_query(s: &[char]) -> (r: Vec<char>)
    ensures
        r@ == before_query(s@),
{
    let mut i: usize = 0;
    while i < s.len() && s[i] != '?' && s[i] != '#'
        invariant
            i <= s@.len(),
            forall|k: int| 0 <= k < i ==> #[trigger] s@[k] != '?' && s@[k] != '#',
        decreases s@.len() - i,
    {
        i += 1;
    }
    proof {
        lemma_before_query(s@, i as int);
    }
    slice_range(s, 0, i)
}

/// Characters that file names may not hold on common systems.
pub open spec fn reserved_name_char(c: char) -> bool {
    c == '\\' || c == '/' || c == ':' || c == '*' || c == '?' || c == '"' || c == '<' || c == '>'
        || c == '|'
}

/// `s` with every reserved character replaced by `-`.
pub open spec fn sanitized(s: Seq<char>) -> Seq<char> {
    Seq::new(
        s.len(),
        |i: int|
            if reserved_name_char(s[i]) {
                '-'
            } else {
                s[i]
            },
    )
}

fn sanitize_chars(s: &[char]) -> (r: Vec<char>)
    ensures
        r@ == sanitized(s@),
{
    let mut r: Vec<char> = Vec::new();
    let mut i: usize = 0;
    while i < s.len()
        invariant
            i <= s@.len(),
            r@ == sanitized(s@.subrange(0, i as int)),
        decreases s@.len() - i,
    {
        let c = s[i];
        let d = if c == '\\' || c == '/' || c == ':' || c == '*' || c == '?' || c == '"' || c
            == '<' || c == '>' || c == '|' {
            '-'
        } else {
            c
        };
        r.push(d);
        i += 1;
        assert(r@ =~= sanitized(s@.subrange(0, i as int)));
    }
    assert(s@.subrange(0, s@.len() as int) =~= s@);
    r
}

/// The base name of outputs made from `source`: its last path segment
/// (query, fragment and trailing `/` removed), without extension, reserved
/// characters replaced by `-`, trimmed; `fallback` wherever one of these
/// steps leaves nothing.
pub open spec fn basename_of(source: Seq<char>, fallback: Seq<char>) -> Seq<char> {
    let no_query = trim_end_char(before_query(source), '/');
    let last = after_last_char(no_query, '/');
    let raw = if last.len() > 0 {
        last
    } else {
        fallback
    };
    let stem = match path_file_stem(raw) {
        Some(s) => s,
        None => fallback,
    };
    let clean = trim(sanitized(stem));
    if clean.len() == 0 {
        fallback
    } else {
        clean
    }
}

pub fn source_basename(source: &str, fallback: &str) -> (r: String)
    ensures
        r@ == basename_of(source@, fallback@),
{
    let s = chars_of(source);
    let fb = chars_of(fallback);
    let q = chars_before_query(s.as_slice());
    let no_query = chars_trim_end(q.as_slice(), '/');
    let last = chars_after_last(no_query.as_slice(), '/');
    let raw = if last.len() > 0 {
        last
    } else {
        chars_of(fallback)
    };
    let stem = match file_stem_chars(raw.as_slice()) {
        Some(st) => st,
        None => chars_of(fallback),
    };
    let clean = sanitize_chars(stem.as_slice());
    let (a, b) = trim_bounds(clean.as_slice());
    if a == b {
        string_from_chars(fb.as_slice())
    } else {
        let t = slice_range(clean.as_slice(), a, b);
        string_from_chars(t.as_slice())
    }
}

/// Law: an output base name is the fallback, or a non-empty name with no
/// whitespace at either end and none of the reserved characters.
pub proof fn law_basename_is_clean(source: Seq<char>, fallback: Seq<char>)
    ensures
        ({
            let r = basename_of(source, fallback);
            ||| r == fallback
            ||| {
                &&& r.len() > 0
                &&& trimmed(r)
                &&& trim(r) == r
                &&& forall|i: int| 0 <= i < r.len() ==> !reserved_name_char(#[trigger] r[i])
            }
        }),
{
    let no_query = trim_end_char(before_query(source), '/');
    let last = after_last_char(no_query, '/');
    let raw = if last.len() > 0 {
        last
    } else {
        fallback
    };
    let stem = match path_file_stem(raw) {
        Some(s) => s,
        None => fallback,
    };
    let san = sanitized(stem);
    let bounds = lemma_trim_shape(san);
    let clean = trim(san);
    assert forall|i: int| 0 <= i < clean.len() implies !reserved_name_char(#[trigger] clean[i]) by {
        assert(clean[i] == san[bounds.0 + i]);
    }
}

/// `dir` joined with a relative or absolute `name` (`Path::join` on Unix):
/// an absolute name replaces the directory; otherwise a `/` is put between
/// them unless `dir` is empty or already ends in one.
pub open spec fn joined(dir: Seq<char>, name: Seq<char>) -> Seq<char> {
    if name.len() > 0 && name[0] == '/' {
        name
    } else if dir.len() == 0 || dir.last() == '/' {
        dir + name
    } else {
        dir + seq!['/'] + name
    }
}

fn join_path(dir: &str, name: &str) -> (r: String)
    ensures
        r@ == joined(dir@, name@),
{
    let n = chars_of(name);
    let d = chars_of(dir);
    if n.len() > 0 && n[0] == '/' {
        return string_from_chars(n.as_slice());
    }
    let mut r = string_from_chars(d.as_slice());
    if d.len() > 0 && d[d.len() - 1] != '/' {
        push_char(&mut r, '/');
    }
    append_str(&mut r, name);
    r
}

/// The first output path tried: `<base><suffix>.<extension>` in `output_dir`.
pub open spec fn output_candidate(
    output_dir: Seq<char>,
    source: Seq<char>,
    suffix: Seq<char>,
    extension: Seq<char>,
    fallback: Seq<char>,
) -> Seq<char> {
    joined(output_dir, basename_of(source, fallback) + suffix + "."@ + extension)
}

/// The output path used when the first one is taken:
/// `<base><suffix>-<timestamp_ms>.<extension>` in `output_dir`.
pub open spec fn timestamped_candidate(
    output_dir: Seq<char>,
    source: Seq<char>,
    suffix: Seq<char>,
    extension: Seq<char>,
    fallback: Seq<char>,
    timestamp_ms: u128,
) -> Seq<char> {
    joined(
        output_dir,
        basename_of(source, fallback) + suffix + "-"@ + decimal(timestamp_ms as nat) + "."@
            + extension,
    )
}

/// The first output path tried for a source.
pub fn output_path_candidate(
    output_dir: &str,
    source: &str,
    suffix: &str,
    extension: &str,
    fallback: &str,
) -> (r: String)
    ensures
        r@ == output_candidate(output_dir@, source@, suffix@, extension@, fallback@),
{
    let mut name = source_basename(source, fallback);
    append_str(&mut name, suffix);
    append_str(&mut name, ".");
    append_str(&mut name, extension);
    join_path(output_dir, name.as_str())
}

/// The output path of a job: the first candidate unless a file already
/// stands there (`candidate_exists`), else the timestamped one
/// (`timestamp_ms` being the current time in milliseconds).
pub fn next_available_output_path(
    output_dir: &str,
    source: &str,
    suffix: &str,
    extension: &str,
    fallback: &str,
    candidate_exists: bool,
    timestamp_ms: u128,
) -> (r: String)
    ensures
        r@ == (if candidate_exists {
            timestamped_candidate(output_dir@, source@, suffix@, extension@, fallback@, timestamp_ms)
        } else {
            output_candidate(output_dir@, source@, suffix@, extension@, fallback@)
        }),
{
    if !candidate_exists {
        return output_path_candidate(output_dir, source, suffix, extension, fallback);
    }
    let mut name = source_basename(source, fallback);
    append_str(&mut name, suffix);
    append_str(&mut name, "-");
    let digits = decimal_chars_u128(timestamp_ms);
    let ds = string_from_chars(digits.as_slice());
    append_str(&mut name, ds.as_str());
    append_str(&mut name, ".");
    append_str(&mut name, extension);
    join_path(output_dir, name.as_str())
}

} // verus!
