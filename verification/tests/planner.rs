use sync_helper::models::{
    default_filter_mode, default_ssh_port, FilterMode, ServerProfile, SyncPreset, TransferMode,
    TransferPaths,
};
use sync_helper::paths::PathStyle;
use sync_helper::planner::{
    build_sync_plan, compare_mode_label, delete_mode_label, filter_mode_label, path_mode_label,
    preview_route, source_kind_label, sync_preset_description, sync_preset_label,
    transfer_mode_label, CompareMode, DeleteMode, LocalKind, LocalProbe, PathMode, PlanError,
    SourceKind,
};

fn test_server() -> ServerProfile {
    ServerProfile {
        user: "alice".to_string(),
        host: "example.com".to_string(),
        port: default_ssh_port(),
        push_defaults: None,
        pull_defaults: None,
        shared_paths: None,
        push_paths: None,
        pull_paths: None,
    }
}

fn settings(local: &str, remote: &str, preset: SyncPreset, filter: Option<FilterMode>) -> TransferPaths {
    TransferPaths {
        local_path: local.to_string(),
        remote_dir: remote.to_string(),
        sync_preset: preset,
        filter_mode: filter,
        dry_run: false,
        use_gitignore: false,
        ignore_git_dir: true,
    }
}

fn probe(kind: LocalKind) -> LocalProbe {
    LocalProbe { kind, gitignore: None, style: PathStyle::Unix }
}

#[test]
fn push_dir_with_base_dir_preserves_directory_name() {
    let tail = "sync-helper-planner-dir-1700000000000000000";
    let source = format!("/tmp/{tail}");

    let settings = TransferPaths {
        local_path: source.clone(),
        remote_dir: "/srv/releases/".to_string(),
        sync_preset: SyncPreset::Strict,
        filter_mode: Some(default_filter_mode()),
        dry_run: false,
        use_gitignore: false,
        ignore_git_dir: true,
    };

    let plan = build_sync_plan(
        &test_server(),
        TransferMode::Push,
        22,
        &settings,
        &probe(LocalKind::Directory),
    )
    .expect("push plan");

    assert_eq!(plan.path_mode, PathMode::DirectoryItself);
    assert_eq!(plan.resolved_remote_path, format!("/srv/releases/{tail}"));
    assert!(plan.source_arg.ends_with('/'));
}

#[test]
fn mirror_requires_push_directory() {
    let settings = TransferPaths {
        local_path: "/tmp/sync-helper-planner-file.txt-1700000000".to_string(),
        remote_dir: "/srv/app.txt".to_string(),
        sync_preset: SyncPreset::Mirror,
        filter_mode: Some(default_filter_mode()),
        dry_run: false,
        use_gitignore: false,
        ignore_git_dir: true,
    };

    let error = build_sync_plan(&test_server(), TransferMode::Push, 22, &settings, &probe(LocalKind::File))
        .expect_err("mirror should fail");

    assert!(error.message().contains("directory source"));
}

#[test]
fn pull_cannot_use_mirror_preset() {
    let settings = TransferPaths {
        local_path: "/tmp/sync-helper-pull-destination-1700000000".to_string(),
        remote_dir: "/srv/app/".to_string(),
        sync_preset: SyncPreset::Mirror,
        filter_mode: Some(default_filter_mode()),
        dry_run: false,
        use_gitignore: false,
        ignore_git_dir: true,
    };

    let error = build_sync_plan(&test_server(), TransferMode::Pull, 22, &settings, &probe(LocalKind::Missing))
        .expect_err("mirror should fail");

    assert!(error.message().contains("push mode"));
}

fn push(local: &str, remote: &str, kind: LocalKind) -> sync_helper::planner::SyncPlan {
    build_sync_plan(
        &test_server(),
        TransferMode::Push,
        22,
        &settings(local, remote, SyncPreset::Strict, None),
        &probe(kind),
    )
    .expect("push plan")
}

fn pull(remote: &str, local: &str) -> sync_helper::planner::SyncPlan {
    build_sync_plan(
        &test_server(),
        TransferMode::Pull,
        22,
        &settings(local, remote, SyncPreset::Fast, None),
        &probe(LocalKind::Directory),
    )
    .expect("pull plan")
}

#[test]
fn readme_push_directory_into_base_directory() {
    let plan = push("/Users/alice/project", "/srv/www/", LocalKind::Directory);
    assert_eq!(plan.resolved_remote_path, "/srv/www/project");
    assert_eq!(plan.source_arg, "/Users/alice/project/");
    assert_eq!(plan.destination_arg, "alice@example.com:/srv/www/project");
    assert_eq!(plan.remote_mkdir_path.as_deref(), Some("/srv/www/project"));
    assert_eq!(plan.source_kind, SourceKind::LocalDirectory);
}

#[test]
fn readme_push_directory_with_trailing_slash() {
    let plain = push("/Users/alice/project", "/srv/www/", LocalKind::Directory);
    let slashed = push("/Users/alice/project/", "/srv/www/", LocalKind::Directory);
    assert_eq!(slashed.resolved_remote_path, "/srv/www/project");
    assert_eq!(plain.resolved_remote_path, slashed.resolved_remote_path);
    assert_eq!(plain.source_arg, slashed.source_arg);
    assert_eq!(plain.destination_arg, slashed.destination_arg);
    assert_eq!(plain.path_mode, slashed.path_mode);
}

#[test]
fn readme_push_directory_exact_target() {
    let plan = push("/Users/alice/project", "/srv/www/project", LocalKind::Directory);
    assert_eq!(plan.resolved_remote_path, "/srv/www/project");
    assert_eq!(plan.path_mode, PathMode::DirectoryContents);
}

#[test]
fn readme_push_file_into_base_directory() {
    let plan = push("/Users/alice/app.tar.gz", "/srv/releases/", LocalKind::File);
    assert_eq!(plan.resolved_remote_path, "/srv/releases/app.tar.gz");
    assert_eq!(plan.source_arg, "/Users/alice/app.tar.gz");
    assert_eq!(plan.path_mode, PathMode::ExactPath);
    assert_eq!(plan.source_kind, SourceKind::LocalFile);
    assert_eq!(plan.remote_mkdir_path.as_deref(), Some("/srv/releases"));
}

#[test]
fn readme_push_file_exact_target() {
    let plan = push("/Users/alice/app.tar.gz", "/srv/releases/latest.tar.gz", LocalKind::File);
    assert_eq!(plan.resolved_remote_path, "/srv/releases/latest.tar.gz");
    assert_eq!(plan.remote_mkdir_path.as_deref(), Some("/srv/releases"));
}

#[test]
fn push_into_backslash_base_directory_adds_slash() {
    let plan = push("/data/set", "/srv/in\\", LocalKind::Directory);
    assert_eq!(plan.resolved_remote_path, "/srv/in\\/set");
}

#[test]
fn readme_pull_directory_contents() {
    let plan = pull("/srv/www/project/", "/Users/alice/workspace");
    assert_eq!(plan.resolved_remote_path, "/srv/www/project/");
    assert_eq!(plan.source_arg, "alice@example.com:/srv/www/project/");
    assert_eq!(plan.destination_arg, "/Users/alice/workspace");
    assert_eq!(plan.path_mode, PathMode::DirectoryContents);
    assert_eq!(plan.remote_mkdir_path, None);
    assert_eq!(plan.source_kind, SourceKind::RemotePath);
}

#[test]
fn readme_pull_directory_itself() {
    let plan = pull("/srv/www/project", "/Users/alice/workspace");
    assert_eq!(plan.resolved_remote_path, "/srv/www/project");
    assert_eq!(plan.path_mode, PathMode::ExactPath);
}

#[test]
fn readme_pull_file() {
    let plan = pull("/srv/releases/latest.tar.gz", "/Users/alice/downloads");
    assert_eq!(plan.source_arg, "alice@example.com:/srv/releases/latest.tar.gz");
    assert_eq!(plan.destination_arg, "/Users/alice/downloads");
}

#[test]
fn pull_into_missing_directory_is_planned() {
    let plan = build_sync_plan(
        &test_server(),
        TransferMode::Pull,
        2200,
        &settings("/new/dir", "/srv/x", SyncPreset::Strict, None),
        &probe(LocalKind::Missing),
    )
    .expect("pull plan");
    assert_eq!(plan.port, 2200);
}

#[test]
fn presets_map_to_policies() {
    let fast = build_sync_plan(&test_server(), TransferMode::Push, 22,
        &settings("/a/b", "/c", SyncPreset::Fast, None), &probe(LocalKind::Directory)).unwrap();
    assert_eq!(fast.policy.compare_mode, CompareMode::Quick);
    assert_eq!(fast.policy.delete_mode, DeleteMode::KeepExtra);
    let strict = build_sync_plan(&test_server(), TransferMode::Push, 22,
        &settings("/a/b", "/c", SyncPreset::Strict, None), &probe(LocalKind::Directory)).unwrap();
    assert_eq!(strict.policy.compare_mode, CompareMode::Checksum);
    assert_eq!(strict.policy.delete_mode, DeleteMode::KeepExtra);
    let mirror = build_sync_plan(&test_server(), TransferMode::Push, 22,
        &settings("/a/b", "/c", SyncPreset::Mirror, None), &probe(LocalKind::Directory)).unwrap();
    assert_eq!(mirror.policy.compare_mode, CompareMode::Checksum);
    assert_eq!(mirror.policy.delete_mode, DeleteMode::DeleteExtra);
    assert_eq!(mirror.filter_mode, FilterMode::ExcludeGitDir);
}

#[test]
fn missing_local_source_is_reported_with_its_path() {
    let error = build_sync_plan(&test_server(), TransferMode::Push, 22,
        &settings("/nowhere", "/srv/", SyncPreset::Strict, None), &probe(LocalKind::Missing)).unwrap_err();
    assert!(matches!(error, PlanError::LocalSourceNotFound(_)));
    assert_eq!(error.message(), "Local source not found: /nowhere");
}

#[test]
fn special_local_source_is_refused() {
    let error = build_sync_plan(&test_server(), TransferMode::Push, 22,
        &settings("/dev/null", "/srv/", SyncPreset::Strict, None), &probe(LocalKind::Other)).unwrap_err();
    assert_eq!(error.message(), "Local source must be a regular file or directory");
}

#[test]
fn pull_into_file_is_refused() {
    let error = build_sync_plan(&test_server(), TransferMode::Pull, 22,
        &settings("/tmp/file.txt", "/srv/", SyncPreset::Strict, None), &probe(LocalKind::File)).unwrap_err();
    assert_eq!(error.message(), "Local destination must be a directory for pull mode");
}

#[test]
fn base_directory_needs_a_local_name() {
    let error = build_sync_plan(&test_server(), TransferMode::Push, 22,
        &settings("/", "/srv/", SyncPreset::Strict, None), &probe(LocalKind::Directory)).unwrap_err();
    assert_eq!(error.message(), "Failed to resolve local path tail component");
    let error = build_sync_plan(&test_server(), TransferMode::Push, 22,
        &settings("/srv/..", "/srv/", SyncPreset::Strict, None), &probe(LocalKind::Directory)).unwrap_err();
    assert!(matches!(error, PlanError::TailComponentUnresolved));
}

#[test]
fn gitignore_filter_needs_a_gitignore() {
    let error = build_sync_plan(&test_server(), TransferMode::Push, 22,
        &settings("/a/b", "/srv/", SyncPreset::Strict, Some(FilterMode::LocalGitignore)),
        &probe(LocalKind::Directory)).unwrap_err();
    assert_eq!(error.message(), "Local .gitignore not found for the selected local path");
    let plan = build_sync_plan(&test_server(), TransferMode::Push, 22,
        &settings("/a/b", "/srv/", SyncPreset::Strict, Some(FilterMode::LocalGitignoreAndGitDir)),
        &LocalProbe { kind: LocalKind::Directory, gitignore: Some("/a/.gitignore".to_string()), style: PathStyle::Unix }).unwrap();
    assert_eq!(plan.local_filter_file.as_deref(), Some("/a/.gitignore"));
    let plan = build_sync_plan(&test_server(), TransferMode::Push, 22,
        &settings("/a/b", "/srv/", SyncPreset::Strict, Some(FilterMode::NoFilter)),
        &LocalProbe { kind: LocalKind::Directory, gitignore: Some("/a/.gitignore".to_string()), style: PathStyle::Unix }).unwrap();
    assert_eq!(plan.local_filter_file, None);
}

#[test]
fn mirror_error_message_for_pull() {
    assert_eq!(PlanError::MirrorPushOnly.message(), "Mirror strategy is only supported in push mode");
    assert_eq!(
        PlanError::MirrorRequiresDirectory.message(),
        "Mirror strategy requires a directory source in push mode"
    );
}

#[test]
fn labels_name_each_value() {
    assert_eq!(transfer_mode_label(TransferMode::Push), "push");
    assert_eq!(transfer_mode_label(TransferMode::Pull), "pull");
    assert_eq!(sync_preset_label(SyncPreset::Mirror), "Mirror");
    assert_eq!(sync_preset_description(SyncPreset::Fast), "size + mtime comparison, keep extra files");
    assert_eq!(filter_mode_label(FilterMode::NoFilter), "none");
    assert_eq!(filter_mode_label(FilterMode::LocalGitignoreAndGitDir), "local .gitignore as rsync excludes + exclude .git/");
    assert_eq!(compare_mode_label(CompareMode::Checksum), "checksum");
    assert_eq!(delete_mode_label(DeleteMode::DeleteExtra), "delete extra files");
    assert_eq!(path_mode_label(PathMode::DirectoryItself), "directory itself");
    assert_eq!(source_kind_label(SourceKind::RemotePath), "remote path");
}

#[test]
fn route_goes_from_source_to_destination() {
    assert_eq!(preview_route(TransferMode::Push, "/l", "/r"), "/l -> /r");
    assert_eq!(preview_route(TransferMode::Pull, "/l", "/r"), "/r -> /l");
}

#[test]
fn windows_local_directory_into_base_directory() {
    let plan = build_sync_plan(
        &test_server(),
        TransferMode::Push,
        22,
        &settings("C:\\work\\proj", "/srv/", SyncPreset::Strict, None),
        &LocalProbe { kind: LocalKind::Directory, gitignore: None, style: PathStyle::Windows },
    )
    .unwrap();
    assert_eq!(plan.resolved_remote_path, "/srv/proj");
    assert_eq!(plan.source_arg, "C:\\work\\proj/");
    let unix = push("C:\\work\\proj", "/srv/", LocalKind::Directory);
    assert_eq!(unix.resolved_remote_path, "/srv/C:\\work\\proj");
}
