use std::path::Path;
use sync_helper::gitignore::{
    gitignore_candidate, gitignore_search_start, gitignore_search_step, GitignoreStep,
};
use sync_helper::models::TransferMode;
use sync_helper::paths::{path_join, path_parent, PathStyle};

fn std_parent(path: &str) -> Option<String> {
    Path::new(path).parent().map(|p| p.to_string_lossy().to_string())
}

#[test]
fn parent_agrees_with_std_path() {
    let cases = [
        "", "/", "a", "/a", "a/b", "a/b/", "/a/b//", "a/.", "a/./b", "./a", ".", "..",
        "/a/..", "a//b", "//", "./", "/.", "a/b/./", "x/y/z",
    ];
    for case in cases {
        assert_eq!(path_parent(case, PathStyle::Unix), std_parent(case), "case {case:?}");
    }
}

#[test]
fn join_agrees_with_std_path() {
    for dir in ["", "/", "a", "/a/", "a/b", "."] {
        let expected = Path::new(dir).join(".gitignore").to_string_lossy().to_string();
        assert_eq!(path_join(dir, ".gitignore", PathStyle::Unix), expected, "dir {dir:?}");
    }
}

#[test]
fn windows_parent_and_join() {
    let w = PathStyle::Windows;
    assert_eq!(path_parent("C:\\a\\b", w).as_deref(), Some("C:\\a"));
    assert_eq!(path_parent("C:\\a", w).as_deref(), Some("C:\\"));
    assert_eq!(path_parent("C:\\", w), None);
    assert_eq!(path_parent("C:", w), None);
    assert_eq!(path_parent("C:a", w).as_deref(), Some("C:"));
    assert_eq!(path_parent("\\\\server\\share\\x", w).as_deref(), Some("\\\\server\\share\\"));
    assert_eq!(path_join("C:\\a", ".gitignore", w), "C:\\a\\.gitignore");
    assert_eq!(path_join("C:", ".gitignore", w), "C:.gitignore");
    assert_eq!(path_join("C:/a/", ".gitignore", w), "C:/a/.gitignore");
}

#[test]
fn search_starts_where_the_local_path_says() {
    let u = PathStyle::Unix;
    assert_eq!(gitignore_search_start(TransferMode::Pull, "/work/dest", false, u), "/work/dest");
    assert_eq!(gitignore_search_start(TransferMode::Push, "/work/proj", true, u), "/work/proj");
    assert_eq!(gitignore_search_start(TransferMode::Push, "/work/proj/a.txt", false, u), "/work/proj");
    assert_eq!(gitignore_search_start(TransferMode::Push, "a.txt", false, u), "");
    assert_eq!(gitignore_search_start(TransferMode::Push, "/", false, u), ".");
}

fn walk(start: &str, existing: &[&str]) -> Option<String> {
    let mut dir = start.to_string();
    loop {
        let candidate = gitignore_candidate(&dir, PathStyle::Unix);
        let is_file = existing.contains(&candidate.as_str());
        match gitignore_search_step(&dir, PathStyle::Unix, is_file) {
            GitignoreStep::Found(path) => return Some(path),
            GitignoreStep::Up(parent) => dir = parent,
            GitignoreStep::NotFound => return None,
        }
    }
}

#[test]
fn walk_finds_the_nearest_gitignore() {
    let files = ["/work/.gitignore", "/.gitignore"];
    assert_eq!(walk("/work/proj/src", &files).as_deref(), Some("/work/.gitignore"));
    assert_eq!(walk("/work", &files).as_deref(), Some("/work/.gitignore"));
    assert_eq!(walk("/other/x", &files).as_deref(), Some("/.gitignore"));
    assert_eq!(walk("/other/x", &[]), None);
    assert_eq!(walk("proj/src", &[".gitignore"]).as_deref(), Some(".gitignore"));
    assert_eq!(walk("proj/src", &["proj/src/.gitignore", "proj/.gitignore"]).as_deref(), Some("proj/src/.gitignore"));
}
