use sync_helper::executor::{build_rsync_args, remote_mkdir_args, shell_single_quote};
use sync_helper::models::{FilterMode, ServerProfile, SyncPreset, TransferMode};
use sync_helper::planner::{CompareMode, DeleteMode, PathMode, SourceKind, SyncPlan, SyncPolicy};

fn sample_plan() -> SyncPlan {
    SyncPlan {
        mode: TransferMode::Push,
        port: 2222,
        local_path: "/tmp/src".to_string(),
        remote_input: "/srv/app".to_string(),
        resolved_remote_path: "/srv/app".to_string(),
        source_arg: "/tmp/src/".to_string(),
        destination_arg: "alice@example.com:/srv/app".to_string(),
        source_kind: SourceKind::LocalDirectory,
        path_mode: PathMode::DirectoryContents,
        filter_mode: FilterMode::ExcludeGitDir,
        local_filter_file: None,
        policy: SyncPolicy {
            preset: SyncPreset::Mirror,
            compare_mode: CompareMode::Checksum,
            delete_mode: DeleteMode::DeleteExtra,
            dry_run: true,
        },
        remote_mkdir_path: Some("/srv/app".to_string()),
    }
}

#[test]
fn mirror_plan_builds_strict_args() {
    let args = build_rsync_args(&sample_plan());

    assert!(args.iter().any(|arg| arg == "--checksum"));
    assert!(args.iter().any(|arg| arg == "--delete-delay"));
    assert!(args.iter().any(|arg| arg == "--dry-run"));
    assert!(args.iter().any(|arg| arg == "--exclude=.git/"));
}

#[test]
fn rsync_args_follow_the_documented_shape() {
    let args = build_rsync_args(&sample_plan());
    assert_eq!(
        args,
        vec![
            "-azP", "--itemize-changes", "--stats", "-e", "ssh -p 2222", "--checksum",
            "--delete-delay", "--dry-run", "--exclude=.git/", "/tmp/src/",
            "alice@example.com:/srv/app",
        ]
    );
}

#[test]
fn fast_plan_with_gitignore_args() {
    let mut plan = sample_plan();
    plan.port = 22;
    plan.policy = SyncPolicy {
        preset: SyncPreset::Fast,
        compare_mode: CompareMode::Quick,
        delete_mode: DeleteMode::KeepExtra,
        dry_run: false,
    };
    plan.filter_mode = FilterMode::LocalGitignore;
    plan.local_filter_file = Some("/tmp/.gitignore".to_string());
    let args = build_rsync_args(&plan);
    assert_eq!(
        args,
        vec![
            "-azP", "--itemize-changes", "--stats", "-e", "ssh -p 22", "--exclude-from",
            "/tmp/.gitignore", "/tmp/src/", "alice@example.com:/srv/app",
        ]
    );
}

#[test]
fn shell_quote_escapes_single_quotes() {
    assert_eq!(shell_single_quote("/srv/app"), "'/srv/app'");
    assert_eq!(shell_single_quote(""), "''");
    assert_eq!(shell_single_quote("it's"), "'it'\"'\"'s'");
    assert_eq!(shell_single_quote("a b$c"), "'a b$c'");
}

#[test]
fn mkdir_args_quote_the_path() {
    let server = ServerProfile {
        user: "bob".to_string(),
        host: "10.0.0.2".to_string(),
        port: 22,
        push_defaults: None,
        pull_defaults: None,
        shared_paths: None,
        push_paths: None,
        pull_paths: None,
    };
    assert_eq!(
        remote_mkdir_args(&server, 65535, "/srv/o'neil"),
        vec!["-p", "65535", "bob@10.0.0.2", "mkdir -p '/srv/o'\"'\"'neil'"]
    );
    assert_eq!(remote_mkdir_args(&server, 0, "/x")[1], "0");
}
