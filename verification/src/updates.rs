//! What the updater reports about itself: the platform key of update
//! manifests, the release page behind the update endpoints, and the context
//! line of the update log.

use vstd::prelude::*;
use crate::text::{append_str, chars_of, contains, find_chars, find_from, has_infix, slice_range, string_from_chars};

verus! {

/// The update manifest's platform key for a target operating system and
/// architecture (`std::env::consts::OS` and `ARCH` names).
pub open spec fn platform_key(os: Seq<char>, arch: Seq<char>) -> Seq<char> {
    if os == "macos"@ && arch == "aarch64"@ {
        "darwin-aarch64"@
    } else if os == "macos"@ && arch == "x86_64"@ {
        "darwin-x86_64"@
    } else if os == "windows"@ && arch == "aarch64"@ {
        "windows-aarch64"@
    } else if os == "windows"@ && arch == "x86_64"@ {
        "windows-x86_64"@
    } else if os == "linux"@ && arch == "aarch64"@ {
        "linux-aarch64"@
    } else if os == "linux"@ && arch == "x86_64"@ {
        "linux-x86_64"@
    } else {
        "unknown"@
    }
}

pub fn updater_platform_key(os: &str, arch: &str) -> (r: &'static str)
    ensures
        r@ == platform_key(os@, arch@),
{
    let o = chars_of(os);
    let a = chars_of(arch);
    let arm = crate::text::equals_str(a.as_slice(), "aarch64");
    let x64 = crate::text::equals_str(a.as_slice(), "x86_64");
    if crate::text::equals_str(o.as_slice(), "macos") {
        if arm {
            return "darwin-aarch64";
        } else if x64 {
            return "darwin-x86_64";
        }
    } else if crate::text::equals_str(o.as_slice(), "windows") {
        if arm {
            return "windows-aarch64";
        } else if x64 {
            return "windows-x86_64";
        }
    } else if crate::text::equals_str(o.as_slice(), "linux") {
        if arm {
            return "linux-aarch64";
        } else if x64 {
            return "linux-x86_64";
        }
    }
    "unknown"
}

/// The views of a list of strings.
pub open spec fn strings_view(items: Seq<String>) -> Seq<Seq<char>> {
    Seq::new(items.len(), |i: int| items[i]@)
}

/// The GitHub releases page of an update endpoint: the endpoint up to its
/// first `/releases/`, when that part holds `github.com/`, followed by
/// `/releases`.
pub open spec fn release_page_of(endpoint: Seq<char>) -> Option<Seq<char>> {
    match find_from(endpoint, "/releases/"@, 0) {
        Some(i) => {
            let base = endpoint.subrange(0, i);
            if has_infix(base, "github.com/"@) {
                Some(base + "/releases"@)
            } else {
                None
            }
        },
        None => None,
    }
}

/// The releases page of the first endpoint that has one.
pub open spec fn first_release_page(endpoints: Seq<Seq<char>>) -> Option<Seq<char>>
    decreases endpoints.len(),
{
    if endpoints.len() == 0 {
        None
    } else {
        match release_page_of(endpoints[0]) {
            Some(p) => Some(p),
            None => first_release_page(endpoints.drop_first()),
        }
    }
}

fn release_page(endpoint: &str) -> (r: Option<String>)
    ensures
        match r {
            Some(p) => release_page_of(endpoint@) == Some(p@),
            None => release_page_of(endpoint@) is None,
        },
{
    let e = chars_of(endpoint);
    let marker = chars_of("/releases/");
    let i = match find_chars(e.as_slice(), marker.as_slice()) {
        Some(i) => i,
        None => {
            return None;
        },
    };
    proof {
        lemma_find_from_in_bounds(e@, marker@, 0);
    }
    let base = slice_range(e.as_slice(), 0, i);
    let host = chars_of("github.com/");
    if contains(base.as_slice(), host.as_slice()) {
        let mut page = string_from_chars(base.as_slice());
        append_str(&mut page, "/releases");
        Some(page)
    } else {
        None
    }
}

proof fn lemma_find_from_in_bounds(s: Seq<char>, p: Seq<char>, i: int)
    ensures
        find_from(s, p, i) matches Some(k) ==> i <= k && k + p.len() <= s.len(),
    decreases s.len() + 1 - i,
{
    if !(i < 0 || i + p.len() > s.len()) && s.subrange(i, i + p.len()) != p {
        lemma_find_from_in_bounds(s, p, i + 1);
    }
}

/// The GitHub releases page behind the configured update endpoints, if any.
pub fn github_release_page_url(endpoints: &[String]) -> (r: Option<String>)
    ensures
        match r {
            Some(p) => first_release_page(strings_view(endpoints@)) == Some(p@),
            None => first_release_page(strings_view(endpoints@)) is None,
        },
{
    let mut i: usize = 0;
    assert(strings_view(endpoints@).subrange(0, endpoints@.len() as int) =~= strings_view(
        endpoints@,
    ));
    while i < endpoints.len()
        invariant
            i <= endpoints@.len(),
            first_release_page(strings_view(endpoints@)) == first_release_page(
                strings_view(endpoints@).subrange(i as int, endpoints@.len() as int),
            ),
        decreases endpoints@.len() - i,
    {
        let ghost rest = strings_view(endpoints@).subrange(i as int, endpoints@.len() as int);
        assert(rest[0] == endpoints@[i as int]@);
        if let Some(p) = release_page(endpoints[i].as_str()) {
            return Some(p);
        }
        assert(rest.drop_first() =~= strings_view(endpoints@).subrange(
            i + 1,
            endpoints@.len() as int,
        ));
        i += 1;
    }
    None
}

/// The items joined with `sep` between them.
pub open spec fn joined_with(items: Seq<Seq<char>>, sep: Seq<char>) -> Seq<char>
    decreases items.len(),
{
    if items.len() == 0 {
        Seq::empty()
    } else if items.len() == 1 {
        items[0]
    } else {
        joined_with(items.drop_last(), sep) + sep + items.last()
    }
}

/// The context line of the update log.
pub open spec fn update_log_line(platform: Seq<char>, version: Seq<char>, endpoints: Seq<Seq<char>>) -> Seq<
    char,
> {
    "platform="@ + platform + ", current_version="@ + version + ", endpoints="@ + (if endpoints.len()
        == 0 {
        "none"@
    } else {
        joined_with(endpoints, ", "@)
    })
}

pub fn update_log_context(platform: &str, version: &str, endpoints: &[String]) -> (r: String)
    ensures
        r@ == update_log_line(platform@, version@, strings_view(endpoints@)),
{
    let mut line = String::from_str("platform=");
    append_str(&mut line, platform);
    append_str(&mut line, ", current_version=");
    append_str(&mut line, version);
    append_str(&mut line, ", endpoints=");
    if endpoints.len() == 0 {
        append_str(&mut line, "none");
        return line;
    }
    let ghost prefix = line@;
    let ghost items = strings_view(endpoints@);
    append_str(&mut line, endpoints[0].as_str());
    let mut i: usize = 1;
    assert(items.subrange(0, 1).len() == 1);
    assert(joined_with(items.subrange(0, 1), ", "@) == items[0]);
    while i < endpoints.len()
        invariant
            1 <= i <= endpoints@.len(),
            items == strings_view(endpoints@),
            line@ == prefix + joined_with(items.subrange(0, i as int), ", "@),
        decreases endpoints@.len() - i,
    {
        append_str(&mut line, ", ");
        append_str(&mut line, endpoints[i].as_str());
        proof {
            let next = items.subrange(0, i + 1);
            assert(next.drop_last() =~= items.subrange(0, i as int));
            assert(next.last() == items[i as int]);
        }
        i += 1;
    }
    assert(items.subrange(0, endpoints@.len() as int) =~= items);
    line
}

} // verus!
