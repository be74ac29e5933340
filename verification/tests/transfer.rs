use sync_helper::models::{ServerProfile, TransferMode};
use sync_helper::paths::PathStyle;
use sync_helper::transfer::{
    filter_mode_label, remote_dir_to_create, resolve_remote_sync_path, rsync_transfer,
    transfer_mode_label, transfer_route_preview,
};

fn server() -> ServerProfile {
    ServerProfile {
        user: "alice".to_string(),
        host: "example.com".to_string(),
        port: 22,
        push_defaults: None,
        pull_defaults: None,
        shared_paths: None,
        push_paths: None,
        pull_paths: None,
    }
}

#[test]
fn direct_transfer_labels() {
    assert_eq!(transfer_mode_label(TransferMode::Pull), "pull");
    assert_eq!(filter_mode_label(TransferMode::Push, false, false), "none");
    assert_eq!(filter_mode_label(TransferMode::Push, true, false), ".gitignore only");
    assert_eq!(filter_mode_label(TransferMode::Pull, false, true), "exclude .git/ only");
    assert_eq!(filter_mode_label(TransferMode::Pull, true, true), ".gitignore + exclude .git/");
}

#[test]
fn direct_remote_sync_path() {
    assert_eq!(resolve_remote_sync_path("/a/proj", "/srv/", PathStyle::Unix), "/srv/proj");
    assert_eq!(resolve_remote_sync_path("/a/proj", "/srv", PathStyle::Unix), "/srv");
    assert_eq!(resolve_remote_sync_path("/", "/srv/", PathStyle::Unix), "/srv/");
    assert_eq!(transfer_route_preview(TransferMode::Push, "/a/proj", "/srv/", PathStyle::Unix), "/a/proj -> /srv/proj");
    assert_eq!(transfer_route_preview(TransferMode::Pull, "/a/proj", "/srv/", PathStyle::Unix), "/srv/ -> /a/proj");
    assert_eq!(remote_dir_to_create("/srv/proj", true), "/srv/proj");
    assert_eq!(remote_dir_to_create("/srv/proj/file.txt", false), "/srv/proj");
}

#[test]
fn direct_push_commands() {
    let t = rsync_transfer(&server(), TransferMode::Push, 2222, "/a/proj", "/srv/", true,
        &Some("/a/.gitignore".to_string()), true, true, PathStyle::Unix).unwrap();
    assert_eq!(t.rsync_args, vec![
        "-avzP", "-e", "ssh -p 2222", "--exclude-from", "/a/.gitignore", "--exclude=.git/",
        "/a/proj/", "alice@example.com:/srv/proj",
    ]);
    assert_eq!(t.mkdir_args, Some(vec![
        "-p".to_string(), "2222".to_string(), "alice@example.com".to_string(),
        "mkdir -p '/srv/proj'".to_string(),
    ]));
}

#[test]
fn direct_pull_commands() {
    let t = rsync_transfer(&server(), TransferMode::Pull, 22, "/local", "/srv/data", false,
        &None, false, false, PathStyle::Unix).unwrap();
    assert_eq!(t.rsync_args, vec!["-avzP", "-e", "ssh -p 22", "alice@example.com:/srv/data", "/local"]);
    assert_eq!(t.mkdir_args, None);
    let err = rsync_transfer(&server(), TransferMode::Pull, 22, "/local", "/srv/data", false,
        &None, true, false, PathStyle::Unix).unwrap_err();
    assert_eq!(err.message(), "Local .gitignore not found for the selected local path");
}

#[test]
fn direct_pull_into_existing_directory_uses_remote_as_typed() {
    let whole = rsync_transfer(&server(), TransferMode::Pull, 22, "/Users/alice/workspace",
        "/srv/www/project", true, &None, false, false, PathStyle::Unix).unwrap();
    assert_eq!(whole.rsync_args, vec![
        "-avzP", "-e", "ssh -p 22", "alice@example.com:/srv/www/project", "/Users/alice/workspace",
    ]);
    assert_eq!(whole.mkdir_args, None);
    let contents = rsync_transfer(&server(), TransferMode::Pull, 22, "/Users/alice/workspace",
        "/srv/www/project/", true, &None, false, true, PathStyle::Unix).unwrap();
    assert_eq!(contents.rsync_args, vec![
        "-avzP", "-e", "ssh -p 22", "--exclude=.git/", "alice@example.com:/srv/www/project/",
        "/Users/alice/workspace",
    ]);
}
