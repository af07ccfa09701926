//! Calls into the `base64`, `image`, `oxipng` and `lofty` crates, with what
//! the library relies on.

use vstd::prelude::*;
use base64::Engine as _;
use lofty::file::{FileType, TaggedFileExt};
use lofty::picture::PictureType;
use lofty::probe::Probe;
use std::io::Cursor;
use crate::tags::opt_string_view;
use crate::text::{is_ws, trim, trim_end, trim_start};

verus! {

/// The character of the standard base64 alphabet for a six-bit value.
pub open spec fn base64_symbol(i: int) -> char {
    if 0 <= i < 26 {
        ((65 + i) as u32) as char
    } else if 26 <= i < 52 {
        ((97 + i - 26) as u32) as char
    } else if 52 <= i < 62 {
        ((48 + i - 52) as u32) as char
    } else if i == 62 {
        '+'
    } else {
        '/'
    }
}

/// Standard base64 with `=` padding (RFC 4648, section 4).
pub open spec fn base64_encoding(b: Seq<u8>) -> Seq<char>
    decreases b.len(),
{
    let b0 = b[0] as int;
    let b1 = b[1] as int;
    let b2 = b[2] as int;
    if b.len() == 0 {
        Seq::empty()
    } else if b.len() == 1 {
        seq![
            base64_symbol(b0 / 4),
            base64_symbol((b0 % 4) * 16),
            '=',
            '=',
        ]
    } else if b.len() == 2 {
        seq![
            base64_symbol(b0 / 4),
            base64_symbol((b0 % 4) * 16 + b1 / 16),
            base64_symbol((b1 % 16) * 4),
            '=',
        ]
    } else {
        seq![
            base64_symbol(b0 / 4),
            base64_symbol((b0 % 4) * 16 + b1 / 16),
            base64_symbol((b1 % 16) * 4 + b2 / 64),
            base64_symbol(b2 % 64),
        ] + base64_encoding(b.skip(3))
    }
}

proof fn lemma_symbol_injective(i: int, j: int)
    requires
        0 <= i < 64,
        0 <= j < 64,
        base64_symbol(i) == base64_symbol(j),
    ensures
        i == j,
{
}

proof fn lemma_symbol_not_pad(i: int)
    requires
        0 <= i < 64,
    ensures
        base64_symbol(i) != '=',
{
}

proof fn lemma_group_injective(a0: u8, a1: u8, a2: u8, b0: u8, b1: u8, b2: u8)
    requires
        a0 / 4 == b0 / 4,
        (a0 % 4) * 16 + a1 / 16 == (b0 % 4) * 16 + b1 / 16,
        (a1 % 16) * 4 + a2 / 64 == (b1 % 16) * 4 + b2 / 64,
        a2 % 64 == b2 % 64,
    ensures
        a0 == b0 && a1 == b1 && a2 == b2,
{
    assert(a0 == b0 && a1 == b1 && a2 == b2) by (bit_vector)
        requires
            a0 / 4 == b0 / 4,
            (a0 % 4) * 16 + a1 / 16 == (b0 % 4) * 16 + b1 / 16,
            (a1 % 16) * 4 + a2 / 64 == (b1 % 16) * 4 + b2 / 64,
            a2 % 64 == b2 % 64,
    ;
}

/// The first four characters of the encoding of a non-empty byte sequence.
pub proof fn lemma_encoding_head(a: Seq<u8>)
    requires
        a.len() > 0,
    ensures
        base64_encoding(a).len() >= 4,
        base64_encoding(a)[0] == base64_symbol(a[0] as int / 4),
        base64_encoding(a)[1] == base64_symbol(
            (a[0] as int % 4) * 16 + (if a.len() >= 2 { a[1] as int / 16 } else { 0 }),
        ),
        base64_encoding(a)[2] == (if a.len() == 1 {
            '='
        } else {
            base64_symbol((a[1] as int % 16) * 4 + (if a.len() >= 3 { a[2] as int / 64 } else { 0 }))
        }),
        base64_encoding(a)[3] == (if a.len() <= 2 { '=' } else { base64_symbol(a[2] as int % 64) }),
{
    if a.len() >= 3 {
        let head = seq![
            base64_symbol(a[0] as int / 4),
            base64_symbol((a[0] as int % 4) * 16 + a[1] as int / 16),
            base64_symbol((a[1] as int % 16) * 4 + a[2] as int / 64),
            base64_symbol(a[2] as int % 64),
        ];
        assert(base64_encoding(a) == head + base64_encoding(a.skip(3)));
        assert((head + base64_encoding(a.skip(3)))[0] == head[0]);
        assert((head + base64_encoding(a.skip(3)))[1] == head[1]);
        assert((head + base64_encoding(a.skip(3)))[2] == head[2]);
        assert((head + base64_encoding(a.skip(3)))[3] == head[3]);
    }
}

/// The standard base64 encoding is injective: equal encodings come from
/// equal bytes.
pub proof fn lemma_base64_injective(a: Seq<u8>, b: Seq<u8>)
    requires
        base64_encoding(a) == base64_encoding(b),
    ensures
        a == b,
    decreases a.len(),
{
    if a.len() == 0 || b.len() == 0 {
        if a.len() > 0 {
            lemma_encoding_head(a);
        }
        if b.len() > 0 {
            lemma_encoding_head(b);
        }
        assert(a =~= b);
        return;
    }
    lemma_encoding_head(a);
    lemma_encoding_head(b);
    let ea = base64_encoding(a);
    let eb = base64_encoding(b);
    assert(ea[0] == eb[0] && ea[1] == eb[1] && ea[2] == eb[2] && ea[3] == eb[3]);
    let a0 = a[0] as int;
    let b0 = b[0] as int;
    let a1: int = if a.len() >= 2 { a[1] as int } else { 0 };
    let b1: int = if b.len() >= 2 { b[1] as int } else { 0 };
    let a2: int = if a.len() >= 3 { a[2] as int } else { 0 };
    let b2: int = if b.len() >= 3 { b[2] as int } else { 0 };
    lemma_symbol_injective(a0 / 4, b0 / 4);
    lemma_symbol_injective((a0 % 4) * 16 + a1 / 16, (b0 % 4) * 16 + b1 / 16);
    if a.len() >= 2 {
        lemma_symbol_not_pad((a1 % 16) * 4 + a2 / 64);
    }
    if b.len() >= 2 {
        lemma_symbol_not_pad((b1 % 16) * 4 + b2 / 64);
    }
    if a.len() >= 3 {
        lemma_symbol_not_pad(a2 % 64);
    }
    if b.len() >= 3 {
        lemma_symbol_not_pad(b2 % 64);
    }
    if a.len() >= 2 && b.len() >= 2 {
        lemma_symbol_injective((a1 % 16) * 4 + a2 / 64, (b1 % 16) * 4 + b2 / 64);
    }
    if a.len() >= 3 && b.len() >= 3 {
        lemma_symbol_injective(a2 % 64, b2 % 64);
    }
    let x0 = a[0];
    let y0 = b[0];
    let x1: u8 = if a.len() >= 2 { a[1] } else { 0 };
    let y1: u8 = if b.len() >= 2 { b[1] } else { 0 };
    let x2: u8 = if a.len() >= 3 { a[2] } else { 0 };
    let y2: u8 = if b.len() >= 3 { b[2] } else { 0 };
    lemma_group_injective(x0, x1, x2, y0, y1, y2);
    if a.len() >= 3 {
        let ha = seq![ea[0], ea[1], ea[2], ea[3]];
        let hb = seq![eb[0], eb[1], eb[2], eb[3]];
        assert(ea == ha + base64_encoding(a.skip(3)));
        assert(eb == hb + base64_encoding(b.skip(3)));
        assert(ea.skip(4) =~= base64_encoding(a.skip(3)));
        assert(eb.skip(4) =~= base64_encoding(b.skip(3)));
        lemma_base64_injective(a.skip(3), b.skip(3));
        assert(a =~= seq![a[0], a[1], a[2]] + a.skip(3));
        assert(b =~= seq![b[0], b[1], b[2]] + b.skip(3));
    } else {
        assert(a =~= b);
    }
}

/// The message of the `DecodeError` that `STANDARD.decode` of the `base64`
/// crate reports for an input it rejects.
pub uninterp spec fn base64_decode_error(input: Seq<char>) -> Seq<char>;

/// No character of a base64 encoding is whitespace.
pub proof fn lemma_encoding_has_no_whitespace(b: Seq<u8>)
    ensures
        forall|k: int| 0 <= k < base64_encoding(b).len() ==> !is_ws(#[trigger] base64_encoding(b)[k]),
    decreases b.len(),
{
    if b.len() >= 3 {
        lemma_encoding_has_no_whitespace(b.skip(3));
        let head = seq![
            base64_symbol(b[0] as int / 4),
            base64_symbol((b[0] as int % 4) * 16 + b[1] as int / 16),
            base64_symbol((b[1] as int % 16) * 4 + b[2] as int / 64),
            base64_symbol(b[2] as int % 64),
        ];
        let rest = base64_encoding(b.skip(3));
        assert(base64_encoding(b) == head + rest);
        assert forall|k: int| 0 <= k < base64_encoding(b).len() implies !is_ws(
            #[trigger] base64_encoding(b)[k],
        ) by {
            if k >= 4 {
                assert(base64_encoding(b)[k] == rest[k - 4]);
            }
        }
    }
}

/// A base64 encoding is its own `trim`.
pub proof fn lemma_encoding_trimmed(b: Seq<u8>)
    ensures
        trim(base64_encoding(b)) == base64_encoding(b),
{
    let e = base64_encoding(b);
    lemma_encoding_has_no_whitespace(b);
    if e.len() > 0 {
        assert(!is_ws(e[0]));
        assert(!is_ws(e[e.len() - 1]));
    }
    assert(trim_start(e) == e);
    assert(trim_end(e) == e);
}

/// Whether the `image` crate, as built here, decodes `bytes` as an image
/// (`image::load_from_memory` succeeds).
pub uninterp spec fn image_decodes(bytes: Seq<u8>) -> bool;

/// Calls `STANDARD.encode` of the `base64` crate (standard alphabet, with
/// padding). Claims the result is the RFC 4648 encoding of `bytes`.
#[verifier::external_body]
pub(crate) fn base64_encode(bytes: &[u8]) -> (r: String)
    ensures
        r@ == base64_encoding(bytes@),
{
    base64::engine::general_purpose::STANDARD.encode(bytes)
}

/// Calls `STANDARD.decode` of the `base64` crate. That engine requires
/// canonical padding and rejects non-zero trailing bits, so it accepts exactly
/// the canonical encodings: the contract claims `Ok(v)` comes back precisely
/// when `input` is the encoding of `v`. The text of the error (the crate's
/// `DecodeError` display) is named `base64_decode_error` of the input.
#[verifier::external_body]
pub(crate) fn base64_decode(input: &str) -> (r: Result<Vec<u8>, String>)
    ensures
        r matches Ok(v) ==> base64_encoding(v@) == input@,
        r is Err ==> forall|v: Seq<u8>| #[trigger] base64_encoding(v) != input@,
        r matches Err(e) ==> e@ == base64_decode_error(input@),
{
    base64::engine::general_purpose::STANDARD.decode(input).map_err(|err| err.to_string())
}

/// Calls `image::load_from_memory` and reports whether it succeeded; the
/// outcome is named `image_decodes`.
#[verifier::external_body]
pub(crate) fn image_loads(bytes: &[u8]) -> (ok: bool)
    ensures
        ok == image_decodes(bytes@),
{
    image::load_from_memory(bytes).is_ok()
}

/// What `oxipng::optimize_from_memory` gives for `data` under the options
/// the library uses (the maximum-compression preset with every removable
/// chunk stripped): the optimized PNG, or the display text of oxipng's
/// `PngError`. The crate is built without its `parallel` feature and the
/// preset sets no timeout, so candidates are tried in a fixed order and the
/// outcome depends on `data` alone.
pub uninterp spec fn oxipng_optimized(data: Seq<u8>) -> Result<Seq<u8>, Seq<char>>;

/// Calls `oxipng::optimize_from_memory` with the maximum-compression preset
/// and all removable chunks stripped. Claims only that its result, with the
/// error turned into its display text, is `oxipng_optimized` of the input.
#[verifier::external_body]
pub(crate) fn optimized_png(data: &[u8]) -> (r: Result<Vec<u8>, String>)
    ensures
        match r {
            Ok(v) => oxipng_optimized(data@) == Ok::<Seq<u8>, Seq<char>>(v@),
            Err(e) => oxipng_optimized(data@) == Err::<Seq<u8>, Seq<char>>(e@),
        },
{
    let mut opts = oxipng::Options::max_compression();
    opts.strip = oxipng::StripChunks::All;
    oxipng::optimize_from_memory(data, &opts).map_err(|err| err.to_string())
}

/// A picture of a tag as the library reads it: whether it is the front
/// cover, its declared MIME type, and its bytes.
pub open spec fn picture_view(p: (bool, Option<String>, Vec<u8>)) -> (bool, Option<Seq<char>>, Seq<u8>) {
    (p.0, opt_string_view(p.1), p.2@)
}

pub open spec fn pictures_view(v: Seq<(bool, Option<String>, Vec<u8>)>) -> Seq<
    (bool, Option<Seq<char>>, Seq<u8>),
> {
    v.map_values(|p: (bool, Option<String>, Vec<u8>)| picture_view(p))
}

/// The view of what `primary_tag_pictures` returns.
pub open spec fn tag_pictures_view(
    r: Result<Option<Vec<(bool, Option<String>, Vec<u8>)>>, (bool, String)>,
) -> Result<Option<Seq<(bool, Option<Seq<char>>, Seq<u8>)>>, (bool, Seq<char>)> {
    match r {
        Ok(Some(v)) => Ok(Some(pictures_view(v@))),
        Ok(None) => Ok(None),
        Err((guessing, e)) => Err((guessing, e@)),
    }
}

/// What lofty reads from an audio file, given its bytes and its path, with
/// default parse options. The path's extension gives the file type that
/// `Probe::open` would start from; guessing from the content overrides it
/// when the content is recognised. `Err((true, text))` when guessing the
/// file type fails, `Err((false, text))` when reading the file fails (text:
/// lofty's error display); else `Ok(None)` when the file has no primary tag,
/// or the pictures of that tag in order, each as (is the front cover,
/// declared MIME type, bytes). Custom file-type resolvers or global options
/// registered with lofty would change this; nothing in this crate registers
/// any.
pub uninterp spec fn lofty_primary_tag_pictures(file: Seq<u8>, path: Seq<char>) -> Result<
    Option<Seq<(bool, Option<Seq<char>>, Seq<u8>)>>,
    (bool, Seq<char>),
>;

/// Reads an audio file with lofty as `Probe::open(path)` would, but from the
/// given bytes: a probe on a cursor, given the file type of the path's
/// extension (`FileType::from_path`) where there is one, then
/// `guess_file_type` and `read`; lists the pictures of its primary tag.
/// Claims only that the result is `lofty_primary_tag_pictures` of the bytes
/// and the path.
#[verifier::external_body]
pub(crate) fn primary_tag_pictures(file: &[u8], path: &str) -> (r: Result<
    Option<Vec<(bool, Option<String>, Vec<u8>)>>,
    (bool, String),
>)
    ensures
        tag_pictures_view(r) == lofty_primary_tag_pictures(file@, path@),
{
    let probe = match FileType::from_path(path) {
        Some(ty) => Probe::with_file_type(Cursor::new(file), ty),
        None => Probe::new(Cursor::new(file)),
    };
    let tagged = probe.guess_file_type().map_err(|e| (true, e.to_string()))?.read().map_err(|e| (false, e.to_string()))?;
    Ok(tagged.primary_tag().map(|tag| {
        tag.pictures().iter().map(|p| (p.pic_type() == PictureType::CoverFront, p.mime_type().map(|m| m.as_str().to_string()), p.data().to_vec())).collect()
    }))
}

} // verus!
