use std::path::Path;
use sync_helper::paths::{
    ensure_trailing_separator, has_trailing_separator, path_tail_component, remote_parent_dir,
    PathStyle,
};
use sync_helper::text::{decimal_string, rfind_char, trim_str};

#[test]
fn trailing_separators() {
    assert!(has_trailing_separator("/a/"));
    assert!(has_trailing_separator("C:\\a\\"));
    assert!(!has_trailing_separator("/a"));
    assert!(!has_trailing_separator(""));
    assert_eq!(ensure_trailing_separator("/a"), "/a/");
    assert_eq!(ensure_trailing_separator("/a/"), "/a/");
    assert_eq!(ensure_trailing_separator("a\\"), "a\\");
    assert_eq!(ensure_trailing_separator(""), "/");
}

fn std_tail(path: &str) -> Option<String> {
    let trimmed = path.trim_end_matches(['/', '\\']);
    if trimmed.is_empty() {
        return None;
    }
    Path::new(trimmed).file_name().map(|v| v.to_string_lossy().to_string())
}

#[test]
fn tail_component_agrees_with_std_path() {
    let cases = [
        "/Users/alice/project", "/Users/alice/project/", "project", "./project", "/", "",
        "//", ".", "..", "a/..", "a/.", "a/./", "a/.//.", "/a//b", "foo.txt/.", "a\\b",
        "a\\", "./.", "/.", "x/y/", "dir\\/", "héllo/wörld",
    ];
    for case in cases {
        assert_eq!(path_tail_component(case, PathStyle::Unix), std_tail(case), "case {case:?}");
    }
}

#[test]
fn remote_parent_of_paths() {
    assert_eq!(remote_parent_dir("/srv/releases/app.tar.gz"), "/srv/releases");
    assert_eq!(remote_parent_dir("/app"), "/");
    assert_eq!(remote_parent_dir("app"), ".");
    assert_eq!(remote_parent_dir("a/b//"), "a");
    assert_eq!(remote_parent_dir("/"), ".");
    assert_eq!(remote_parent_dir("//x"), "/");
}

#[test]
fn decimal_matches_to_string() {
    for n in [0u16, 7, 10, 22, 99, 100, 2222, 65535] {
        assert_eq!(decimal_string(n), n.to_string());
    }
}

#[test]
fn trim_matches_str_trim() {
    let cases = ["", "  ", " a ", "\t\na b\r\n", "\u{3000}x\u{a0}", "x", "\u{200b}y"];
    for case in cases {
        assert_eq!(trim_str(case), case.trim(), "case {case:?}");
    }
}

#[test]
fn rfind_finds_last() {
    assert_eq!(rfind_char("a/b/c", '/'), Some(3));
    assert_eq!(rfind_char("abc", '/'), None);
    assert_eq!(rfind_char("é/x", '/'), Some(1));
}

#[test]
fn windows_tail_components() {
    let w = PathStyle::Windows;
    let cases: [(&str, Option<&str>); 22] = [
        ("C:\\Users\\alice\\project", Some("project")),
        ("C:\\Users\\alice\\project\\", Some("project")),
        ("C:/Users/alice/app.tar.gz", Some("app.tar.gz")),
        ("C:", None),
        ("C:\\", None),
        ("C:proj", Some("proj")),
        ("C:.", None),
        ("a\\b", Some("b")),
        ("a\\.", Some("a")),
        ("a\\..", None),
        ("\\\\server\\share", None),
        ("\\\\server\\share\\dir\\", Some("dir")),
        ("//server/share/dir", Some("dir")),
        ("\\\\server", Some("server")),
        ("\\\\?\\C:\\x", Some("x")),
        ("\\\\?\\C:", None),
        ("\\\\?\\C:\\a/b", Some("a/b")),
        ("\\\\?\\C:\\x\\.", None),
        ("\\\\?\\UNC\\server\\share", None),
        ("\\\\?\\UNC\\server\\share\\f", Some("f")),
        ("\\\\.\\COM1", None),
        ("\\\\.\\pipe\\name", Some("name")),
    ];
    for (case, expected) in cases {
        assert_eq!(path_tail_component(case, w).as_deref(), expected, "case {case:?}");
    }
}

#[test]
fn tail_ignores_trailing_separators_and_has_no_separator() {
    for path in ["/a/b", "/a/b/", "/a/b//", "a", "/", "", "//\\/"] {
        let plain = path_tail_component(path, PathStyle::Unix);
        assert_eq!(path_tail_component(&format!("{path}/"), PathStyle::Unix), plain);
        if let Some(name) = plain {
            assert!(!name.is_empty() && !name.contains('/'));
        }
    }
    assert_eq!(path_tail_component("//\\/", PathStyle::Unix), None);
    assert_eq!(path_tail_component("/Users/alice/project/", PathStyle::Unix).as_deref(), Some("project"));
}
