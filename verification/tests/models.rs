use sync_helper::config::{migrate_legacy_paths, remember_transfer, remove_server};
use sync_helper::models::{
    default_filter_mode, default_ignore_git_dir, default_ssh_port, default_sync_preset, AppConfig,
    FilterMode, ServerProfile, SyncPreset, TransferMode, TransferPaths,
};

fn paths(local: &str) -> TransferPaths {
    TransferPaths {
        local_path: local.to_string(),
        remote_dir: "/srv/".to_string(),
        sync_preset: SyncPreset::Fast,
        filter_mode: None,
        dry_run: true,
        use_gitignore: false,
        ignore_git_dir: true,
    }
}

fn server() -> ServerProfile {
    ServerProfile {
        user: "u".to_string(),
        host: "h".to_string(),
        port: 22,
        push_defaults: None,
        pull_defaults: None,
        shared_paths: None,
        push_paths: None,
        pull_paths: None,
    }
}

#[test]
fn defaults_have_documented_values() {
    assert_eq!(default_ssh_port(), 22);
    assert!(default_ignore_git_dir());
    assert_eq!(default_sync_preset(), SyncPreset::Strict);
    assert_eq!(default_filter_mode(), FilterMode::ExcludeGitDir);
}

#[test]
fn effective_filter_mode_falls_back_to_default() {
    let mut p = paths("/a");
    assert_eq!(p.effective_filter_mode(), FilterMode::ExcludeGitDir);
    p.filter_mode = Some(FilterMode::NoFilter);
    assert_eq!(p.effective_filter_mode(), FilterMode::NoFilter);
}

#[test]
fn defaults_read_after_write_per_mode() {
    let mut s = server();
    assert!(s.defaults_for_mode(TransferMode::Push).is_none());
    s.set_defaults_for_mode(TransferMode::Push, paths("/push"));
    assert_eq!(s.defaults_for_mode(TransferMode::Push).unwrap().local_path, "/push");
    assert!(s.defaults_for_mode(TransferMode::Pull).is_none());
    s.set_defaults_for_mode(TransferMode::Pull, paths("/pull"));
    assert_eq!(s.defaults_for_mode(TransferMode::Pull).unwrap().local_path, "/pull");
    assert_eq!(s.defaults_for_mode(TransferMode::Push).unwrap().local_path, "/push");
    s.set_defaults_for_mode(TransferMode::Push, paths("/again"));
    assert_eq!(s.defaults_for_mode(TransferMode::Push).unwrap().local_path, "/again");
    assert_eq!(s.defaults_for_mode(TransferMode::Pull).unwrap().local_path, "/pull");
}

#[test]
fn migration_fills_shared_paths_from_legacy_ones() {
    let mut a = server();
    a.push_paths = Some(paths("/push"));
    a.pull_paths = Some(paths("/pull"));
    let mut b = server();
    b.pull_paths = Some(paths("/pull-only"));
    let mut c = server();
    c.shared_paths = Some(paths("/kept"));
    c.push_paths = Some(paths("/ignored"));
    let d = server();
    let mut config = AppConfig { servers: vec![a, b, c, d] };
    migrate_legacy_paths(&mut config);
    assert_eq!(config.servers.len(), 4);
    assert_eq!(config.servers[0].shared_paths.as_ref().unwrap().local_path, "/push");
    assert_eq!(config.servers[1].shared_paths.as_ref().unwrap().local_path, "/pull-only");
    assert_eq!(config.servers[2].shared_paths.as_ref().unwrap().local_path, "/kept");
    assert!(config.servers[3].shared_paths.is_none());
    migrate_legacy_paths(&mut config);
    assert_eq!(config.servers[0].shared_paths.as_ref().unwrap().local_path, "/push");
    assert_eq!(config.servers[1].shared_paths.as_ref().unwrap().local_path, "/pull-only");
}

#[test]
fn default_config_has_no_servers() {
    let config = AppConfig::default();
    assert!(config.servers.is_empty());
}

#[test]
fn deleting_the_last_profile_asks_for_a_new_one() {
    let mut config = AppConfig { servers: vec![server(), server()] };
    config.servers[1].host = "second".to_string();
    assert!(!remove_server(&mut config, 0));
    assert_eq!(config.servers.len(), 1);
    assert_eq!(config.servers[0].host, "second");
    assert!(remove_server(&mut config, 0));
    assert!(config.servers.is_empty());
}

#[test]
fn remembered_transfer_is_offered_next_time() {
    let mut config = AppConfig { servers: vec![server(), server()] };
    let updated = remember_transfer(&mut config, 1, TransferMode::Pull, 2200, paths("/dest"));
    assert_eq!(updated.port, 2200);
    assert_eq!(config.servers[1].port, 2200);
    assert_eq!(config.servers[1].defaults_for_mode(TransferMode::Pull).unwrap().local_path, "/dest");
    assert!(config.servers[1].defaults_for_mode(TransferMode::Push).is_none());
    assert_eq!(config.servers[0].port, 22);
    assert!(config.servers[0].pull_defaults.is_none());
}
