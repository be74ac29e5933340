//! Saved server profiles and per-direction transfer settings.

use vstd::prelude::*;

verus! {

/// Direction of a transfer.
#[derive(Debug, Clone, Copy, PartialEq, Eq, Structural)]
pub enum TransferMode {
    /// Local machine to remote host.
    Push,
    /// Remote host to local machine.
    Pull,
}

/// Named synchronisation strategy.
#[derive(Debug, Clone, Copy, PartialEq, Eq, Structural)]
pub enum SyncPreset {
    /// Compare by size and modification time, keep extra files.
    Fast,
    /// Compare by checksum, keep extra files.
    Strict,
    /// Compare by checksum, delete extra files on the destination.
    Mirror,
}

/// Which exclusion rules accompany a transfer.
#[derive(Debug, Clone, Copy, PartialEq, Eq, Structural)]
pub enum FilterMode {
    /// No extra filtering.
    NoFilter,
    LocalGitignore,
    ExcludeGitDir,
    LocalGitignoreAndGitDir,
}

/// Settings of one transfer, remembered per server and direction.
#[derive(Debug, Clone)]
pub struct TransferPaths {
    pub local_path: String,
    pub remote_dir: String,
    pub sync_preset: SyncPreset,
    pub filter_mode: Option<FilterMode>,
    pub dry_run: bool,
    pub use_gitignore: bool,
    pub ignore_git_dir: bool,
}

/// A remote host the user synchronises with.
#[derive(Debug, Clone)]
pub struct ServerProfile {
    pub user: String,
    pub host: String,
    pub port: u16,
    pub push_defaults: Option<TransferPaths>,
    pub pull_defaults: Option<TransferPaths>,
    pub shared_paths: Option<TransferPaths>,
    pub push_paths: Option<TransferPaths>,
    pub pull_paths: Option<TransferPaths>,
}

/// The whole configuration file.
#[derive(Debug, Clone)]
pub struct AppConfig {
    pub servers: Vec<ServerProfile>,
}

impl Default for AppConfig {
    /// A configuration with no profiles, used when there is no file yet.
    fn default() -> (config: AppConfig)
        ensures
            config.servers@.len() == 0,
    {
        AppConfig { servers: Vec::new() }
    }
}

/// The filter mode used when a saved setting names none.
pub open spec fn spec_default_filter_mode() -> FilterMode {
    FilterMode::ExcludeGitDir
}

/// The filter mode that a setting stands for.
pub open spec fn spec_effective_filter_mode(filter_mode: Option<FilterMode>) -> FilterMode {
    match filter_mode {
        Some(mode) => mode,
        None => spec_default_filter_mode(),
    }
}

/// The saved settings of a profile for one direction.
pub open spec fn spec_defaults_for_mode(server: ServerProfile, mode: TransferMode) -> Option<
    TransferPaths,
> {
    match mode {
        TransferMode::Push => server.push_defaults,
        TransferMode::Pull => server.pull_defaults,
    }
}

/// A profile whose saved settings for one direction are replaced.
pub open spec fn spec_set_defaults_for_mode(
    server: ServerProfile,
    mode: TransferMode,
    defaults: TransferPaths,
) -> ServerProfile {
    match mode {
        TransferMode::Push => ServerProfile { push_defaults: Some(defaults), ..server },
        TransferMode::Pull => ServerProfile { pull_defaults: Some(defaults), ..server },
    }
}

/// The ssh port of a new profile.
pub fn default_ssh_port() -> (port: u16)
    ensures
        port == 22,
{
    22
}

/// Whether `.git/` is excluded when a saved setting does not say.
pub fn default_ignore_git_dir() -> (ignore: bool)
    ensures
        ignore,
{
    true
}

/// The strategy of a setting that names none.
pub fn default_sync_preset() -> (preset: SyncPreset)
    ensures
        preset == SyncPreset::Strict,
{
    SyncPreset::Strict
}

/// The filter mode of a setting that names none.
pub fn default_filter_mode() -> (mode: FilterMode)
    ensures
        mode == spec_default_filter_mode(),
{
    FilterMode::ExcludeGitDir
}

impl TransferPaths {
    /// The filter mode this setting stands for: the one it names, else the default.
    pub fn effective_filter_mode(&self) -> (mode: FilterMode)
        ensures
            mode == spec_effective_filter_mode(self.filter_mode),
    {
        match self.filter_mode {
            Some(mode) => mode,
            None => default_filter_mode(),
        }
    }

    /// A copy of this setting, equal to it.
    pub fn duplicate(&self) -> (copy: TransferPaths)
        ensures
            copy == *self,
    {
        TransferPaths {
            local_path: self.local_path.clone(),
            remote_dir: self.remote_dir.clone(),
            sync_preset: self.sync_preset,
            filter_mode: self.filter_mode,
            dry_run: self.dry_run,
            use_gitignore: self.use_gitignore,
            ignore_git_dir: self.ignore_git_dir,
        }
    }
}

/// A copy of an optional setting, equal to it.
pub fn duplicate_paths(paths: &Option<TransferPaths>) -> (copy: Option<TransferPaths>)
    ensures
        copy == *paths,
{
    match paths {
        Some(p) => Some(p.duplicate()),
        None => None,
    }
}

impl ServerProfile {
    /// The settings saved for `mode`, if any.
    pub fn defaults_for_mode(&self, mode: TransferMode) -> (defaults: Option<&TransferPaths>)
        ensures
            defaults is Some <==> spec_defaults_for_mode(*self, mode) is Some,
            defaults is Some ==> *defaults.unwrap() == spec_defaults_for_mode(*self, mode).unwrap(),
    {
        match mode {
            TransferMode::Push => self.push_defaults.as_ref(),
            TransferMode::Pull => self.pull_defaults.as_ref(),
        }
    }

    /// Remembers `defaults` for `mode`; nothing else of the profile changes.
    pub fn set_defaults_for_mode(&mut self, mode: TransferMode, defaults: TransferPaths)
        ensures
            *final(self) == spec_set_defaults_for_mode(*old(self), mode, defaults),
    {
        match mode {
            TransferMode::Push => self.push_defaults = Some(defaults),
            TransferMode::Pull => self.pull_defaults = Some(defaults),
        }
    }

    /// A copy of this profile, equal to it.
    pub fn duplicate(&self) -> (copy: ServerProfile)
        ensures
            copy == *self,
    {
        ServerProfile {
            user: self.user.clone(),
            host: self.host.clone(),
            port: self.port,
            push_defaults: duplicate_paths(&self.push_defaults),
            pull_defaults: duplicate_paths(&self.pull_defaults),
            shared_paths: duplicate_paths(&self.shared_paths),
            push_paths: duplicate_paths(&self.push_paths),
            pull_paths: duplicate_paths(&self.pull_paths),
        }
    }
}

/// Reading the saved settings of a direction gives back what was last saved
/// for it, and saving for one direction leaves the other direction's settings
/// as they were.
pub proof fn lemma_defaults_read_after_write(
    server: ServerProfile,
    mode: TransferMode,
    other: TransferMode,
    defaults: TransferPaths,
)
    ensures
        spec_defaults_for_mode(spec_set_defaults_for_mode(server, mode, defaults), mode) == Some(
            defaults,
        ),
        other != mode ==> spec_defaults_for_mode(
            spec_set_defaults_for_mode(server, mode, defaults),
            other,
        ) == spec_defaults_for_mode(server, other),
{
}

} // verus!
