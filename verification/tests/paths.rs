use mediax::paths::{extension_chars, file_name_chars, file_stem_chars, parent_chars};
use std::path::Path;

const CASES: [&str; 26] = [
    "/a/b.png", "a/b.tar.gz", "b", "/", "", ".", "./", "./a.png", "a/./b.png", "a/b/", "a//b",
    "/a/.", "a/..", "..", "../x.png", "//x", "a/b/./", "./.", ".hidden", "a/.hidden", "a/b.",
    "a/..b", "x/.//y/", "/music/demo.MP3", "C:\\media\\clip.mp4", "a/b/c.d.e/",
];

fn chars(s: &str) -> Vec<char> {
    s.chars().collect()
}

fn text(v: Option<Vec<char>>) -> Option<String> {
    v.map(|c| c.into_iter().collect())
}

#[test]
fn path_parts_agree_with_std() {
    for case in CASES {
        let p = Path::new(case);
        let c = chars(case);
        assert_eq!(
            text(file_name_chars(&c)),
            p.file_name().map(|s| s.to_str().unwrap().to_string()),
            "file name of {case:?}"
        );
        assert_eq!(
            text(extension_chars(&c)),
            p.extension().map(|s| s.to_str().unwrap().to_string()),
            "extension of {case:?}"
        );
        assert_eq!(
            text(file_stem_chars(&c)),
            p.file_stem().map(|s| s.to_str().unwrap().to_string()),
            "stem of {case:?}"
        );
        assert_eq!(
            text(parent_chars(&c)),
            p.parent().map(|s| s.to_str().unwrap().to_string()),
            "parent of {case:?}"
        );
    }
}
