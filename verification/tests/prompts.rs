use sync_helper::models::{FilterMode, ServerProfile, SyncPreset, TransferMode, TransferPaths};
use sync_helper::paths::PathStyle;
use sync_helper::planner::{build_sync_plan, LocalKind, LocalProbe};
use sync_helper::prompts::{
    bool_label, edited_server, filter_mode_choices, filter_mode_default_index, last_settings_lines,
    local_path_prompt, manage_menu_target, new_server_profile, non_empty_input, path_input,
    remote_path_prompt, sanitize_path, server_action, server_label, server_menu_action,
    start_transfer_warnings, sync_preset_choices, sync_preset_default_index,
    transfer_input_defaults, transfer_inputs, transfer_mode_from_selection, transfer_mode_index,
    transfer_summary_lines, manage_step, ManageStep, ServerAction, ServerMenuAction,
};

fn server() -> ServerProfile {
    new_server_profile("alice".to_string(), "example.com".to_string())
}

#[test]
fn new_profile_has_defaults() {
    let s = server();
    assert_eq!(s.port, 22);
    assert_eq!(server_label(&s), "alice@example.com");
    assert!(s.push_defaults.is_none() && s.pull_defaults.is_none());
}

#[test]
fn editing_keeps_port_and_settings() {
    let mut s = server();
    s.port = 2022;
    let e = edited_server(&s, "bob".to_string(), "h2".to_string());
    assert_eq!(server_label(&e), "bob@h2");
    assert_eq!(e.port, 2022);
}

#[test]
fn sanitize_strips_whitespace_and_quotes() {
    assert_eq!(sanitize_path("  '/Users/alice/My Files'  "), "/Users/alice/My Files");
    assert_eq!(sanitize_path("\"/tmp/x\""), "/tmp/x");
    assert_eq!(sanitize_path("'/tmp/x\""), "'/tmp/x\"");
    assert_eq!(sanitize_path("'"), "'");
    assert_eq!(sanitize_path("''"), "");
    assert_eq!(sanitize_path(" /plain "), "/plain");
    assert_eq!(sanitize_path("' padded '"), " padded ");
}

#[test]
fn empty_answers_are_asked_again() {
    assert_eq!(non_empty_input("   "), None);
    assert_eq!(non_empty_input("  host "), Some("host".to_string()));
    assert_eq!(path_input(" '' "), None);
    assert_eq!(path_input("'/a b'"), Some("/a b".to_string()));
}

#[test]
fn prompts_depend_on_direction() {
    assert_eq!(local_path_prompt(TransferMode::Push), "Enter local source path (or drag it here)");
    assert_eq!(local_path_prompt(TransferMode::Pull), "Enter local destination directory");
    assert_eq!(remote_path_prompt(TransferMode::Push), "Remote target path");
    assert_eq!(remote_path_prompt(TransferMode::Pull), "Remote source path");
    assert_eq!(bool_label(true), "yes");
    assert_eq!(bool_label(false), "no");
}

#[test]
fn mirror_is_offered_for_pushes_only() {
    assert_eq!(sync_preset_choices(TransferMode::Push), vec![SyncPreset::Fast, SyncPreset::Strict, SyncPreset::Mirror]);
    assert_eq!(sync_preset_choices(TransferMode::Pull), vec![SyncPreset::Fast, SyncPreset::Strict]);
    assert_eq!(sync_preset_default_index(TransferMode::Push, SyncPreset::Mirror), 2);
    assert_eq!(sync_preset_default_index(TransferMode::Pull, SyncPreset::Mirror), 1);
    assert_eq!(sync_preset_default_index(TransferMode::Pull, SyncPreset::Fast), 0);
}

#[test]
fn filter_menu_order() {
    let choices = filter_mode_choices();
    assert_eq!(choices, vec![FilterMode::NoFilter, FilterMode::ExcludeGitDir, FilterMode::LocalGitignore, FilterMode::LocalGitignoreAndGitDir]);
    for (i, m) in choices.iter().enumerate() {
        assert_eq!(filter_mode_default_index(*m), i);
    }
}

#[test]
fn menu_selections() {
    assert_eq!(server_menu_action(2, 0), ServerMenuAction::Server(0));
    assert_eq!(server_menu_action(2, 2), ServerMenuAction::AddServer);
    assert_eq!(server_menu_action(2, 3), ServerMenuAction::ManageServers);
    assert_eq!(server_menu_action(0, 0), ServerMenuAction::AddServer);
    assert_eq!(manage_menu_target(3, 3), None);
    assert_eq!(manage_menu_target(3, 1), Some(1));
    assert_eq!(server_action(0), ServerAction::Edit);
    assert_eq!(server_action(1), ServerAction::Delete);
    assert_eq!(server_action(2), ServerAction::Back);
    assert_eq!(transfer_mode_index(TransferMode::Pull), 1);
    assert_eq!(transfer_mode_from_selection(0), TransferMode::Push);
    assert_eq!(transfer_mode_from_selection(1), TransferMode::Pull);
}

#[test]
fn input_defaults_follow_saved_settings() {
    let none = transfer_input_defaults(None);
    assert_eq!(none.sync_preset, SyncPreset::Strict);
    assert_eq!(none.filter_mode, FilterMode::ExcludeGitDir);
    assert!(!none.dry_run && none.local_path.is_none() && none.remote_dir.is_none());
    let (port, saved) = transfer_inputs(2200, "/l".to_string(), "/r/".to_string(), SyncPreset::Fast, FilterMode::NoFilter, true);
    assert_eq!(port, 2200);
    assert_eq!(saved.filter_mode, Some(FilterMode::NoFilter));
    assert!(!saved.use_gitignore && saved.ignore_git_dir);
    let some = transfer_input_defaults(Some(&saved));
    assert_eq!(some.local_path.as_deref(), Some("/l"));
    assert_eq!(some.remote_dir.as_deref(), Some("/r/"));
    assert_eq!(some.sync_preset, SyncPreset::Fast);
    assert_eq!(some.filter_mode, FilterMode::NoFilter);
    assert!(some.dry_run);
}

fn line(label: &str, value: &str) -> (String, String) {
    (label.to_string(), value.to_string())
}

#[test]
fn summary_lists_the_plan() {
    let settings = TransferPaths {
        local_path: "/src/app".to_string(),
        remote_dir: "/srv/".to_string(),
        sync_preset: SyncPreset::Mirror,
        filter_mode: Some(FilterMode::LocalGitignoreAndGitDir),
        dry_run: true,
        use_gitignore: false,
        ignore_git_dir: true,
    };
    let probe = LocalProbe { kind: LocalKind::Directory, gitignore: Some("/src/.gitignore".to_string()), style: PathStyle::Unix };
    let plan = build_sync_plan(&server(), TransferMode::Push, 2222, &settings, &probe).unwrap();
    let lines = transfer_summary_lines(&server(), &plan);
    assert_eq!(lines, vec![
        line("Server", "alice@example.com"),
        line("Mode", "push"),
        line("Port", "2222"),
        line("Local", "/src/app"),
        line("Remote input", "/srv/"),
        line("Resolved remote", "/srv/app"),
        line("Route", "/src/app -> /srv/app"),
        line("Source kind", "local directory"),
        line("Path mode", "directory itself"),
        line("Strategy", "Mirror"),
        line("Policy", "checksum comparison, delete extra remote files"),
        line("Compare", "checksum"),
        line("Delete extra", "delete extra files"),
        line("Filter", "local .gitignore as rsync excludes + exclude .git/"),
        line("Dry run", "yes"),
        line("Remote mkdir", "/srv/app"),
        line("Exclude file", "/src/.gitignore"),
    ]);
    assert_eq!(start_transfer_warnings(&plan), vec![
        "Mirror mode will delete extra files under /srv/app.".to_string(),
        "Dry run is enabled. No files will be modified.".to_string(),
    ]);
    let last = last_settings_lines(TransferMode::Pull, &server(), &settings);
    assert_eq!(last, vec![
        line("Server", "alice@example.com"),
        line("Mode", "pull"),
        line("Port", "22"),
        line("Route", "/srv/ -> /src/app"),
        line("Strategy", "Mirror"),
        line("Filter", "local .gitignore as rsync excludes + exclude .git/"),
        line("Dry run", "yes"),
    ]);
}

#[test]
fn management_steps() {
    assert_eq!(manage_step(2, 2, ServerAction::Edit, false), ManageStep::Leave);
    assert_eq!(manage_step(2, 1, ServerAction::Edit, false), ManageStep::Edit(1));
    assert_eq!(manage_step(2, 0, ServerAction::Delete, false), ManageStep::Stay);
    assert_eq!(manage_step(2, 0, ServerAction::Delete, true), ManageStep::Delete { index: 0, create_new: false });
    assert_eq!(manage_step(1, 0, ServerAction::Delete, true), ManageStep::Delete { index: 0, create_new: true });
    assert_eq!(manage_step(1, 0, ServerAction::Back, true), ManageStep::Stay);
    assert_eq!(manage_step(0, 0, ServerAction::Delete, true), ManageStep::Leave);
}
