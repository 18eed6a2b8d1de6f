use dynamic_launcher::path::{components_of, join, parent_name_of, under};
use std::path::Path;

const PATHS: &[&str] = &[
    "",
    "/",
    "//",
    ".",
    "./",
    "..",
    "a",
    "a/",
    "/a",
    "/a/b",
    "/a//b/",
    "/a/./b",
    "./a",
    "./a/b",
    "a/./b",
    "a/../b",
    "/a/..",
    "/..",
    "/.",
    "../a",
    "a/.",
    "a/b/.",
    "/home/user/.local/share",
    "/home/user/.local/share/",
    "/home/user/.local/share/xdg-desktop-portal/icons/512x512/a.png",
    "/home/user/.local/share/xdg-desktop-portal/iconsets/a.png",
    "\u{e9}/x",
];

#[test]
fn components_are_those_of_the_standard_library() {
    for p in PATHS {
        let expected: Vec<String> =
            Path::new(p).components().map(|c| c.as_os_str().to_str().unwrap().to_string()).collect();
        assert_eq!(components_of(p), expected, "{:?}", p);
    }
}

#[test]
fn joins_are_those_of_the_standard_library() {
    for base in PATHS {
        for p in PATHS {
            assert_eq!(join(base, p), Path::new(base).join(p).to_str().unwrap(), "{:?} {:?}", base, p);
        }
    }
}

#[test]
fn what_lies_under_is_as_in_the_standard_library() {
    for base in PATHS {
        for p in PATHS {
            assert_eq!(under(p, base), Path::new(p).starts_with(base), "{:?} {:?}", p, base);
        }
    }
}

#[test]
fn parents_are_those_of_the_standard_library() {
    for p in PATHS {
        let expected = Path::new(p)
            .parent()
            .and_then(|q| q.file_name())
            .map(|n| n.to_str().unwrap().to_string());
        assert_eq!(parent_name_of(p), expected, "{:?}", p);
    }
}
