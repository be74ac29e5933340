//! Turning a transfer request into an explicit synchronisation plan.

use vstd::prelude::*;
use crate::models::{
    spec_effective_filter_mode, FilterMode, ServerProfile, SyncPreset, TransferMode,
    TransferPaths,
};
use crate::paths::{
    ensure_trailing_separator, has_trailing_sep, has_trailing_separator, path_tail_component,
    remote_parent, remote_parent_dir, tail_component, trim_trailing_seps, with_trailing_sep,
    PathStyle,
};
use crate::text::opt_view;

verus! {

/// How rsync decides that a file changed.
#[derive(Debug, Clone, Copy, PartialEq, Eq, Structural)]
pub enum CompareMode {
    /// Size and modification time.
    Quick,
    /// File checksums.
    Checksum,
}

/// What happens to destination files that the source lacks.
#[derive(Debug, Clone, Copy, PartialEq, Eq, Structural)]
pub enum DeleteMode {
    KeepExtra,
    DeleteExtra,
}

/// How the source path maps onto the destination.
#[derive(Debug, Clone, Copy, PartialEq, Eq, Structural)]
pub enum PathMode {
    ExactPath,
    DirectoryContents,
    DirectoryItself,
}

/// What the transfer reads from.
#[derive(Debug, Clone, Copy, PartialEq, Eq, Structural)]
pub enum SourceKind {
    LocalFile,
    LocalDirectory,
    RemotePath,
}

/// The rsync behaviour that a strategy stands for.
#[derive(Debug, Clone, Copy, PartialEq, Eq, Structural)]
pub struct SyncPolicy {
    pub preset: SyncPreset,
    pub compare_mode: CompareMode,
    pub delete_mode: DeleteMode,
    pub dry_run: bool,
}

/// What the file system says of the local path of a transfer.
#[derive(Debug, Clone, Copy, PartialEq, Eq, Structural)]
pub enum LocalKind {
    /// Its metadata cannot be read (it does not exist).
    Missing,
    /// A regular file.
    File,
    /// A directory.
    Directory,
    /// Something else, such as a device.
    Other,
}

/// What the caller found on the machine for a transfer request: the kind of
/// the local path, the nearest `.gitignore` at or above it, if one was found,
/// and the path rules of the platform.
#[derive(Debug, Clone)]
pub struct LocalProbe {
    pub kind: LocalKind,
    pub gitignore: Option<String>,
    pub style: PathStyle,
}

/// The content of a `LocalProbe`.
pub struct LocalProbeView {
    pub kind: LocalKind,
    pub gitignore: Option<Seq<char>>,
    pub style: PathStyle,
}

impl View for LocalProbe {
    type V = LocalProbeView;

    open spec fn view(&self) -> LocalProbeView {
        LocalProbeView { kind: self.kind, gitignore: opt_view(self.gitignore), style: self.style }
    }
}

/// An explicit, checked description of one rsync run.
#[derive(Debug, Clone)]
pub struct SyncPlan {
    pub mode: TransferMode,
    pub port: u16,
    pub local_path: String,
    pub remote_input: String,
    pub resolved_remote_path: String,
    pub source_arg: String,
    pub destination_arg: String,
    pub source_kind: SourceKind,
    pub path_mode: PathMode,
    pub filter_mode: FilterMode,
    pub local_filter_file: Option<String>,
    pub policy: SyncPolicy,
    pub remote_mkdir_path: Option<String>,
}

/// The content of a `SyncPlan`.
pub struct SyncPlanView {
    pub mode: TransferMode,
    pub port: u16,
    pub local_path: Seq<char>,
    pub remote_input: Seq<char>,
    pub resolved_remote_path: Seq<char>,
    pub source_arg: Seq<char>,
    pub destination_arg: Seq<char>,
    pub source_kind: SourceKind,
    pub path_mode: PathMode,
    pub filter_mode: FilterMode,
    pub local_filter_file: Option<Seq<char>>,
    pub policy: SyncPolicy,
    pub remote_mkdir_path: Option<Seq<char>>,
}

impl View for SyncPlan {
    type V = SyncPlanView;

    open spec fn view(&self) -> SyncPlanView {
        SyncPlanView {
            mode: self.mode,
            port: self.port,
            local_path: self.local_path@,
            remote_input: self.remote_input@,
            resolved_remote_path: self.resolved_remote_path@,
            source_arg: self.source_arg@,
            destination_arg: self.destination_arg@,
            source_kind: self.source_kind,
            path_mode: self.path_mode,
            filter_mode: self.filter_mode,
            local_filter_file: opt_view(self.local_filter_file),
            policy: self.policy,
            remote_mkdir_path: opt_view(self.remote_mkdir_path),
        }
    }
}

/// Why a transfer request cannot be planned.
#[derive(Debug, Clone)]
pub enum PlanError {
    /// The local source of a push cannot be read; holds its path.
    LocalSourceNotFound(String),
    /// The local source of a push is neither a regular file nor a directory.
    LocalSourceNotFileOrDirectory,
    /// Mirror was asked for with a local file as the source of a push.
    MirrorRequiresDirectory,
    /// Mirror was asked for in pull mode.
    MirrorPushOnly,
    /// The local destination of a pull exists and is not a directory.
    LocalDestinationNotDirectory,
    /// The local source has no last component to name the remote target after.
    TailComponentUnresolved,
    /// A `.gitignore` filter was asked for and none was found.
    GitignoreNotFound,
}

/// The content of a `PlanError`.
pub enum PlanErrorView {
    LocalSourceNotFound(Seq<char>),
    LocalSourceNotFileOrDirectory,
    MirrorRequiresDirectory,
    MirrorPushOnly,
    LocalDestinationNotDirectory,
    TailComponentUnresolved,
    GitignoreNotFound,
}

impl View for PlanError {
    type V = PlanErrorView;

    open spec fn view(&self) -> PlanErrorView {
        match self {
            PlanError::LocalSourceNotFound(path) => PlanErrorView::LocalSourceNotFound(path@),
            PlanError::LocalSourceNotFileOrDirectory => PlanErrorView::LocalSourceNotFileOrDirectory,
            PlanError::MirrorRequiresDirectory => PlanErrorView::MirrorRequiresDirectory,
            PlanError::MirrorPushOnly => PlanErrorView::MirrorPushOnly,
            PlanError::LocalDestinationNotDirectory => PlanErrorView::LocalDestinationNotDirectory,
            PlanError::TailComponentUnresolved => PlanErrorView::TailComponentUnresolved,
            PlanError::GitignoreNotFound => PlanErrorView::GitignoreNotFound,
        }
    }
}

/// The text that describes an error to the user.
pub open spec fn spec_plan_error_message(e: PlanErrorView) -> Seq<char> {
    match e {
        PlanErrorView::LocalSourceNotFound(path) => "Local source not found: "@ + path,
        PlanErrorView::LocalSourceNotFileOrDirectory => "Local source must be a regular file or directory"@,
        PlanErrorView::MirrorRequiresDirectory => "Mirror strategy requires a directory source in push mode"@,
        PlanErrorView::MirrorPushOnly => "Mirror strategy is only supported in push mode"@,
        PlanErrorView::LocalDestinationNotDirectory => "Local destination must be a directory for pull mode"@,
        PlanErrorView::TailComponentUnresolved => "Failed to resolve local path tail component"@,
        PlanErrorView::GitignoreNotFound => "Local .gitignore not found for the selected local path"@,
    }
}

impl PlanError {
    /// The text that describes this error to the user.
    pub fn message(&self) -> (m: String)
        ensures
            m@ == spec_plan_error_message(self@),
    {
        match self {
            PlanError::LocalSourceNotFound(path) => {
                let mut m = String::from_str("Local source not found: ");
                m.append(path.as_str());
                m
            },
            PlanError::LocalSourceNotFileOrDirectory => String::from_str(
                "Local source must be a regular file or directory",
            ),
            PlanError::MirrorRequiresDirectory => String::from_str(
                "Mirror strategy requires a directory source in push mode",
            ),
            PlanError::MirrorPushOnly => String::from_str(
                "Mirror strategy is only supported in push mode",
            ),
            PlanError::LocalDestinationNotDirectory => String::from_str(
                "Local destination must be a directory for pull mode",
            ),
            PlanError::TailComponentUnresolved => String::from_str(
                "Failed to resolve local path tail component",
            ),
            PlanError::GitignoreNotFound => String::from_str(
                "Local .gitignore not found for the selected local path",
            ),
        }
    }
}

/// The rsync behaviour of a strategy in a direction: Fast compares size and
/// time and keeps extra files, Strict compares checksums and keeps extra
/// files, Mirror compares checksums and deletes extra files; Mirror is refused
/// in pull mode.
pub open spec fn spec_resolve_policy(mode: TransferMode, preset: SyncPreset, dry_run: bool) -> Result<
    SyncPolicy,
    PlanErrorView,
> {
    if mode == TransferMode::Pull && preset == SyncPreset::Mirror {
        Err(PlanErrorView::MirrorPushOnly)
    } else {
        Ok(
            SyncPolicy {
                preset,
                compare_mode: match preset {
                    SyncPreset::Fast => CompareMode::Quick,
                    _ => CompareMode::Checksum,
                },
                delete_mode: match preset {
                    SyncPreset::Mirror => DeleteMode::DeleteExtra,
                    _ => DeleteMode::KeepExtra,
                },
                dry_run,
            },
        )
    }
}

/// The filter modes that pass a local `.gitignore` to rsync.
pub open spec fn spec_uses_gitignore(filter_mode: FilterMode) -> bool {
    filter_mode == FilterMode::LocalGitignore || filter_mode == FilterMode::LocalGitignoreAndGitDir
}

/// The filter modes that exclude `.git/`.
pub open spec fn spec_excludes_git_dir(filter_mode: FilterMode) -> bool {
    filter_mode == FilterMode::ExcludeGitDir || filter_mode == FilterMode::LocalGitignoreAndGitDir
}

/// The exclude file of a plan: the `.gitignore` found, when the filter mode
/// asks for one; an error when it asks and none was found.
pub open spec fn spec_filter_file(filter_mode: FilterMode, gitignore: Option<Seq<char>>) -> Result<
    Option<Seq<char>>,
    PlanErrorView,
> {
    if spec_uses_gitignore(filter_mode) {
        match gitignore {
            Some(path) => Ok(Some(path)),
            None => Err(PlanErrorView::GitignoreNotFound),
        }
    } else {
        Ok(None)
    }
}

/// The remote path of a push: a target without a trailing separator is used
/// as it is; one with a trailing separator is a base directory, to which the
/// name of the local file or directory is added.
pub open spec fn spec_push_remote_path(local: Seq<char>, remote: Seq<char>, style: PathStyle) -> Option<
    Seq<char>,
> {
    if !has_trailing_sep(remote) {
        Some(remote)
    } else {
        match tail_component(style, local) {
            None => None,
            Some(tail) => if remote.last() == '/' {
                Some(remote + tail)
            } else {
                Some(remote.push('/') + tail)
            },
        }
    }
}

/// The rsync notation `user@host:path` of a remote path.
pub open spec fn spec_remote_target(server: ServerProfile, path: Seq<char>) -> Seq<char> {
    server.user@ + "@"@ + server.host@ + ":"@ + path
}

/// The plan of a push whose policy is settled.
pub open spec fn spec_push_plan(
    server: ServerProfile,
    port: u16,
    settings: TransferPaths,
    probe: LocalProbeView,
    filter_mode: FilterMode,
    policy: SyncPolicy,
) -> Result<SyncPlanView, PlanErrorView> {
    let local = settings.local_path@;
    let remote = settings.remote_dir@;
    match probe.kind {
        LocalKind::Missing => Err(PlanErrorView::LocalSourceNotFound(local)),
        LocalKind::Other => Err(PlanErrorView::LocalSourceNotFileOrDirectory),
        _ => match spec_push_remote_path(local, remote, probe.style) {
            None => Err(PlanErrorView::TailComponentUnresolved),
            Some(resolved) => {
                let is_dir = probe.kind == LocalKind::Directory;
                if policy.delete_mode == DeleteMode::DeleteExtra && !is_dir {
                    Err(PlanErrorView::MirrorRequiresDirectory)
                } else {
                    match spec_filter_file(filter_mode, probe.gitignore) {
                        Err(e) => Err(e),
                        Ok(filter_file) => Ok(
                            SyncPlanView {
                                mode: TransferMode::Push,
                                port,
                                local_path: local,
                                remote_input: remote,
                                resolved_remote_path: resolved,
                                source_arg: if is_dir {
                                    with_trailing_sep(local)
                                } else {
                                    local
                                },
                                destination_arg: spec_remote_target(server, resolved),
                                source_kind: if is_dir {
                                    SourceKind::LocalDirectory
                                } else {
                                    SourceKind::LocalFile
                                },
                                path_mode: if !is_dir {
                                    PathMode::ExactPath
                                } else if has_trailing_sep(remote) {
                                    PathMode::DirectoryItself
                                } else {
                                    PathMode::DirectoryContents
                                },
                                filter_mode,
                                local_filter_file: filter_file,
                                policy,
                                remote_mkdir_path: Some(
                                    if is_dir {
                                        resolved
                                    } else {
                                        remote_parent(resolved)
                                    },
                                ),
                            },
                        ),
                    }
                }
            },
        },
    }
}

/// The plan of a pull whose policy is settled: the remote source is used as
/// it was typed, and the local destination must be a directory if it exists.
pub open spec fn spec_pull_plan(
    server: ServerProfile,
    port: u16,
    settings: TransferPaths,
    probe: LocalProbeView,
    filter_mode: FilterMode,
    policy: SyncPolicy,
) -> Result<SyncPlanView, PlanErrorView> {
    let local = settings.local_path@;
    let remote = settings.remote_dir@;
    if policy.delete_mode == DeleteMode::DeleteExtra {
        Err(PlanErrorView::MirrorPushOnly)
    } else if probe.kind == LocalKind::File || probe.kind == LocalKind::Other {
        Err(PlanErrorView::LocalDestinationNotDirectory)
    } else {
        match spec_filter_file(filter_mode, probe.gitignore) {
            Err(e) => Err(e),
            Ok(filter_file) => Ok(
                SyncPlanView {
                    mode: TransferMode::Pull,
                    port,
                    local_path: local,
                    remote_input: remote,
                    resolved_remote_path: remote,
                    source_arg: spec_remote_target(server, remote),
                    destination_arg: local,
                    source_kind: SourceKind::RemotePath,
                    path_mode: if has_trailing_sep(remote) {
                        PathMode::DirectoryContents
                    } else {
                        PathMode::ExactPath
                    },
                    filter_mode,
                    local_filter_file: filter_file,
                    policy,
                    remote_mkdir_path: None,
                },
            ),
        }
    }
}

/// The plan of a transfer request, or the first reason it is refused.
pub open spec fn spec_build_sync_plan(
    server: ServerProfile,
    mode: TransferMode,
    port: u16,
    settings: TransferPaths,
    probe: LocalProbeView,
) -> Result<SyncPlanView, PlanErrorView> {
    let filter_mode = spec_effective_filter_mode(settings.filter_mode);
    match spec_resolve_policy(mode, settings.sync_preset, settings.dry_run) {
        Err(e) => Err(e),
        Ok(policy) => match mode {
            TransferMode::Push => spec_push_plan(server, port, settings, probe, filter_mode, policy),
            TransferMode::Pull => spec_pull_plan(server, port, settings, probe, filter_mode, policy),
        },
    }
}

/// The content of a planning result.
pub open spec fn plan_result_view(r: Result<SyncPlan, PlanError>) -> Result<SyncPlanView, PlanErrorView> {
    match r {
        Ok(plan) => Ok(plan@),
        Err(e) => Err(e@),
    }
}

/// Plans a transfer of `settings` with `server` in direction `mode` over ssh
/// port `port`, given what the caller found on disk for the local path.
pub fn build_sync_plan(
    server: &ServerProfile,
    mode: TransferMode,
    port: u16,
    settings: &TransferPaths,
    probe: &LocalProbe,
) -> (r: Result<SyncPlan, PlanError>)
    ensures
        plan_result_view(r) == spec_build_sync_plan(*server, mode, port, *settings, probe@),
{
    let filter_mode = settings.effective_filter_mode();
    let policy = match resolve_policy(mode, settings.sync_preset, settings.dry_run) {
        Ok(policy) => policy,
        Err(e) => return Err(e),
    };
    match mode {
        TransferMode::Push => build_push_plan(server, port, settings, probe, filter_mode, policy),
        TransferMode::Pull => build_pull_plan(server, port, settings, probe, filter_mode, policy),
    }
}

/// Adding a trailing separator to a path that has none changes neither its
/// last component nor the result of adding a separator again.
pub proof fn lemma_trailing_separator_keeps_tail(local: Seq<char>)
    ensures
        forall|style: PathStyle|
            tail_component(style, with_trailing_sep(local)) == #[trigger] tail_component(style, local),
        with_trailing_sep(with_trailing_sep(local)) == with_trailing_sep(local),
{
    if !has_trailing_sep(local) {
        let pushed = local.push('/');
        assert(pushed.drop_last() =~= local);
        assert(has_trailing_sep(pushed));
        assert(trim_trailing_seps(pushed) == trim_trailing_seps(local));
    }
}

/// The plan of a push of a local directory is the same whether its path is
/// written with or without a trailing `/`, whatever the policy and filter
/// mode: the same remote path, arguments and path mode come out, or the same
/// error.
pub proof fn lemma_push_plan_local_trailing_separator_irrelevant(
    server: ServerProfile,
    port: u16,
    plain: TransferPaths,
    slashed: TransferPaths,
    probe: LocalProbeView,
    filter_mode: FilterMode,
    policy: SyncPolicy,
)
    requires
        slashed.local_path@ == with_trailing_sep(plain.local_path@),
        slashed.remote_dir@ == plain.remote_dir@,
        probe.kind == LocalKind::Directory,
    ensures
        match (
            spec_push_plan(server, port, plain, probe, filter_mode, policy),
            spec_push_plan(server, port, slashed, probe, filter_mode, policy),
        ) {
            (Ok(p1), Ok(p2)) => {
                &&& p1.resolved_remote_path == p2.resolved_remote_path
                &&& p1.source_arg == p2.source_arg
                &&& p1.destination_arg == p2.destination_arg
                &&& p1.source_kind == p2.source_kind
                &&& p1.path_mode == p2.path_mode
                &&& p1.remote_mkdir_path == p2.remote_mkdir_path
                &&& p1.policy == p2.policy
            },
            (Err(e1), Err(e2)) => e1 == e2,
            _ => false,
        },
{
    lemma_trailing_separator_keeps_tail(plain.local_path@);
}

/// For a local directory, writing its path with or without a trailing `/`
/// makes no difference to the plan: the same remote path, arguments and
/// path mode come out, or the same error.
pub proof fn lemma_local_trailing_separator_irrelevant(
    server: ServerProfile,
    port: u16,
    plain: TransferPaths,
    slashed: TransferPaths,
    probe: LocalProbeView,
)
    requires
        slashed.local_path@ == with_trailing_sep(plain.local_path@),
        slashed.remote_dir@ == plain.remote_dir@,
        slashed.sync_preset == plain.sync_preset,
        slashed.filter_mode == plain.filter_mode,
        slashed.dry_run == plain.dry_run,
        probe.kind == LocalKind::Directory,
    ensures
        match (
            spec_build_sync_plan(server, TransferMode::Push, port, plain, probe),
            spec_build_sync_plan(server, TransferMode::Push, port, slashed, probe),
        ) {
            (Ok(p1), Ok(p2)) => {
                &&& p1.resolved_remote_path == p2.resolved_remote_path
                &&& p1.source_arg == p2.source_arg
                &&& p1.destination_arg == p2.destination_arg
                &&& p1.source_kind == p2.source_kind
                &&& p1.path_mode == p2.path_mode
                &&& p1.remote_mkdir_path == p2.remote_mkdir_path
                &&& p1.policy == p2.policy
            },
            (Err(e1), Err(e2)) => e1 == e2,
            _ => false,
        },
{
    let filter_mode = spec_effective_filter_mode(plain.filter_mode);
    match spec_resolve_policy(TransferMode::Push, plain.sync_preset, plain.dry_run) {
        Ok(policy) => {
            lemma_push_plan_local_trailing_separator_irrelevant(
                server,
                port,
                plain,
                slashed,
                probe,
                filter_mode,
                policy,
            );
        },
        Err(_) => {},
    }
}

/// A `.gitignore` that was found is used: planning never reports a missing
/// `.gitignore` when one was found; with one found, a request can be planned
/// with a `.gitignore` filter mode exactly when it can be planned with no
/// filter at all; and a plan's exclude file is the `.gitignore` found for
/// the two modes that use one, and none for the others.
pub proof fn lemma_found_gitignore_is_used(
    server: ServerProfile,
    mode: TransferMode,
    port: u16,
    settings: TransferPaths,
    probe: LocalProbeView,
)
    ensures
        spec_build_sync_plan(server, mode, port, settings, probe) == Err::<
            SyncPlanView,
            PlanErrorView,
        >(PlanErrorView::GitignoreNotFound) ==> probe.gitignore is None,
        probe.gitignore is Some ==> (spec_build_sync_plan(server, mode, port, settings, probe) is Ok
            <==> spec_build_sync_plan(
            server,
            mode,
            port,
            TransferPaths { filter_mode: Some(FilterMode::NoFilter), ..settings },
            probe,
        ) is Ok),
        match spec_build_sync_plan(server, mode, port, settings, probe) {
            Ok(plan) => {
                &&& plan.filter_mode == match settings.filter_mode {
                    Some(m) => m,
                    None => FilterMode::ExcludeGitDir,
                }
                &&& plan.local_filter_file == if plan.filter_mode == FilterMode::LocalGitignore
                    || plan.filter_mode == FilterMode::LocalGitignoreAndGitDir {
                    probe.gitignore
                } else {
                    None
                }
            },
            Err(_) => true,
        },
{
}

/// Mirror, which deletes files, is only ever planned for a push of a local
/// directory; asked for in pull mode or with a local file, it is refused.
pub proof fn lemma_mirror_only_for_pushed_directories(
    server: ServerProfile,
    mode: TransferMode,
    port: u16,
    settings: TransferPaths,
    probe: LocalProbeView,
)
    ensures
        match spec_build_sync_plan(server, mode, port, settings, probe) {
            Ok(plan) => (plan.policy.delete_mode == DeleteMode::DeleteExtra
                <==> plan.policy.preset == SyncPreset::Mirror) && (plan.policy.preset
                == SyncPreset::Mirror ==> mode == TransferMode::Push && probe.kind
                == LocalKind::Directory && plan.source_kind == SourceKind::LocalDirectory),
            Err(_) => true,
        },
        settings.sync_preset == SyncPreset::Mirror && (mode == TransferMode::Pull || probe.kind
            != LocalKind::Directory) ==> spec_build_sync_plan(
            server,
            mode,
            port,
            settings,
            probe,
        ) is Err,
{
}

/// A plan keeps the strategy and dry-run choice it was asked for; Fast alone
/// compares by size and time, Mirror alone deletes.
pub proof fn lemma_plan_policy_follows_preset(
    server: ServerProfile,
    mode: TransferMode,
    port: u16,
    settings: TransferPaths,
    probe: LocalProbeView,
)
    ensures
        match spec_build_sync_plan(server, mode, port, settings, probe) {
            Ok(plan) => {
                &&& plan.policy.preset == settings.sync_preset
                &&& plan.policy.dry_run == settings.dry_run
                &&& (plan.policy.compare_mode == CompareMode::Quick <==> settings.sync_preset
                    == SyncPreset::Fast)
                &&& (plan.policy.delete_mode == DeleteMode::DeleteExtra <==> settings.sync_preset
                    == SyncPreset::Mirror)
                &&& plan.filter_mode == spec_effective_filter_mode(settings.filter_mode)
                &&& (plan.local_filter_file is Some <==> spec_uses_gitignore(plan.filter_mode))
            },
            Err(_) => true,
        },
{
}

/// A pull reads the remote source exactly as it was typed, creates nothing
/// remotely, and writes into the local directory as typed.
pub proof fn lemma_pull_uses_remote_path_as_typed(
    server: ServerProfile,
    port: u16,
    settings: TransferPaths,
    probe: LocalProbeView,
)
    ensures
        match spec_build_sync_plan(server, TransferMode::Pull, port, settings, probe) {
            Ok(plan) => {
                &&& plan.resolved_remote_path == settings.remote_dir@
                &&& plan.source_arg == spec_remote_target(server, settings.remote_dir@)
                &&& plan.destination_arg == settings.local_path@
                &&& plan.remote_mkdir_path is None
            },
            Err(_) => true,
        },
{
}

/// A push targets the remote path as typed when it has no trailing `/`, and
/// the base directory plus the local name when it has one; before the
/// transfer it creates the remote directory, or for a file the directory
/// that will hold it.
pub proof fn lemma_push_remote_target(
    server: ServerProfile,
    port: u16,
    settings: TransferPaths,
    probe: LocalProbeView,
)
    ensures
        match spec_build_sync_plan(server, TransferMode::Push, port, settings, probe) {
            Ok(plan) => {
                &&& !has_trailing_sep(settings.remote_dir@) ==> plan.resolved_remote_path
                    == settings.remote_dir@
                &&& settings.remote_dir@.len() > 0 && settings.remote_dir@.last() == '/'
                    ==> tail_component(probe.style, settings.local_path@) is Some
                    && plan.resolved_remote_path == settings.remote_dir@ + tail_component(
                    probe.style,
                    settings.local_path@,
                ).unwrap()
                &&& plan.destination_arg == spec_remote_target(server, plan.resolved_remote_path)
                &&& plan.remote_mkdir_path == Some(
                    if plan.source_kind == SourceKind::LocalDirectory {
                        plan.resolved_remote_path
                    } else {
                        remote_parent(plan.resolved_remote_path)
                    },
                )
            },
            Err(_) => true,
        },
{
}

/// The name of a direction.
pub open spec fn spec_transfer_mode_label(mode: TransferMode) -> Seq<char> {
    match mode {
        TransferMode::Push => "push"@,
        TransferMode::Pull => "pull"@,
    }
}

/// The name of a direction.
pub fn transfer_mode_label(mode: TransferMode) -> (label: &'static str)
    ensures
        label@ == spec_transfer_mode_label(mode),
{
    match mode {
        TransferMode::Push => "push",
        TransferMode::Pull => "pull",
    }
}

/// The name of a strategy.
pub open spec fn spec_sync_preset_label(preset: SyncPreset) -> Seq<char> {
    match preset {
        SyncPreset::Fast => "Fast"@,
        SyncPreset::Strict => "Strict"@,
        SyncPreset::Mirror => "Mirror"@,
    }
}

/// The name of a strategy.
pub fn sync_preset_label(preset: SyncPreset) -> (label: &'static str)
    ensures
        label@ == spec_sync_preset_label(preset),
{
    match preset {
        SyncPreset::Fast => "Fast",
        SyncPreset::Strict => "Strict",
        SyncPreset::Mirror => "Mirror",
    }
}

/// What a strategy does, in a few words.
pub open spec fn spec_sync_preset_description(preset: SyncPreset) -> Seq<char> {
    match preset {
        SyncPreset::Fast => "size + mtime comparison, keep extra files"@,
        SyncPreset::Strict => "checksum comparison, keep extra files"@,
        SyncPreset::Mirror => "checksum comparison, delete extra remote files"@,
    }
}

/// What a strategy does, in a few words.
pub fn sync_preset_description(preset: SyncPreset) -> (description: &'static str)
    ensures
        description@ == spec_sync_preset_description(preset),
{
    match preset {
        SyncPreset::Fast => "size + mtime comparison, keep extra files",
        SyncPreset::Strict => "checksum comparison, keep extra files",
        SyncPreset::Mirror => "checksum comparison, delete extra remote files",
    }
}

/// The name of a filter mode.
pub open spec fn spec_filter_mode_label(mode: FilterMode) -> Seq<char> {
    match mode {
        FilterMode::NoFilter => "none"@,
        FilterMode::LocalGitignore => "local .gitignore as rsync excludes"@,
        FilterMode::ExcludeGitDir => "exclude .git/"@,
        FilterMode::LocalGitignoreAndGitDir => "local .gitignore as rsync excludes + exclude .git/"@,
    }
}

/// The name of a filter mode.
pub fn filter_mode_label(mode: FilterMode) -> (label: &'static str)
    ensures
        label@ == spec_filter_mode_label(mode),
{
    match mode {
        FilterMode::NoFilter => "none",
        FilterMode::LocalGitignore => "local .gitignore as rsync excludes",
        FilterMode::ExcludeGitDir => "exclude .git/",
        FilterMode::LocalGitignoreAndGitDir => "local .gitignore as rsync excludes + exclude .git/",
    }
}

/// The name of a comparison mode.
pub open spec fn spec_compare_mode_label(mode: CompareMode) -> Seq<char> {
    match mode {
        CompareMode::Quick => "size + mtime"@,
        CompareMode::Checksum => "checksum"@,
    }
}

/// The name of a comparison mode.
pub fn compare_mode_label(mode: CompareMode) -> (label: &'static str)
    ensures
        label@ == spec_compare_mode_label(mode),
{
    match mode {
        CompareMode::Quick => "size + mtime",
        CompareMode::Checksum => "checksum",
    }
}

/// The name of a deletion mode.
pub open spec fn spec_delete_mode_label(mode: DeleteMode) -> Seq<char> {
    match mode {
        DeleteMode::KeepExtra => "keep extra files"@,
        DeleteMode::DeleteExtra => "delete extra files"@,
    }
}

/// The name of a deletion mode.
pub fn delete_mode_label(mode: DeleteMode) -> (label: &'static str)
    ensures
        label@ == spec_delete_mode_label(mode),
{
    match mode {
        DeleteMode::KeepExtra => "keep extra files",
        DeleteMode::DeleteExtra => "delete extra files",
    }
}

/// The name of a path mode.
pub open spec fn spec_path_mode_label(mode: PathMode) -> Seq<char> {
    match mode {
        PathMode::ExactPath => "exact path"@,
        PathMode::DirectoryContents => "directory contents"@,
        PathMode::DirectoryItself => "directory itself"@,
    }
}

/// The name of a path mode.
pub fn path_mode_label(mode: PathMode) -> (label: &'static str)
    ensures
        label@ == spec_path_mode_label(mode),
{
    match mode {
        PathMode::ExactPath => "exact path",
        PathMode::DirectoryContents => "directory contents",
        PathMode::DirectoryItself => "directory itself",
    }
}

/// The name of a source kind.
pub open spec fn spec_source_kind_label(kind: SourceKind) -> Seq<char> {
    match kind {
        SourceKind::LocalFile => "local file"@,
        SourceKind::LocalDirectory => "local directory"@,
        SourceKind::RemotePath => "remote path"@,
    }
}

/// The name of a source kind.
pub fn source_kind_label(kind: SourceKind) -> (label: &'static str)
    ensures
        label@ == spec_source_kind_label(kind),
{
    match kind {
        SourceKind::LocalFile => "local file",
        SourceKind::LocalDirectory => "local directory",
        SourceKind::RemotePath => "remote path",
    }
}

/// The route of a transfer, from source to destination.
pub open spec fn spec_preview_route(mode: TransferMode, local: Seq<char>, remote: Seq<char>) -> Seq<
    char,
> {
    match mode {
        TransferMode::Push => local + " -> "@ + remote,
        TransferMode::Pull => remote + " -> "@ + local,
    }
}

/// The route of a transfer, `source -> destination`.
pub fn preview_route(mode: TransferMode, local_path: &str, remote_path: &str) -> (route: String)
    ensures
        route@ == spec_preview_route(mode, local_path@, remote_path@),
{
    let (first, second) = match mode {
        TransferMode::Push => (local_path, remote_path),
        TransferMode::Pull => (remote_path, local_path),
    };
    let mut route = String::from_str(first);
    route.append(" -> ");
    route.append(second);
    route
}

/// The rsync notation `user@host:path` of a remote path.
pub fn remote_target(server: &ServerProfile, path: &str) -> (target: String)
    ensures
        target@ == spec_remote_target(*server, path@),
{
    let mut target = String::from_str(server.user.as_str());
    target.append("@");
    target.append(server.host.as_str());
    target.append(":");
    target.append(path);
    target
}

fn build_push_plan(
    server: &ServerProfile,
    port: u16,
    settings: &TransferPaths,
    probe: &LocalProbe,
    filter_mode: FilterMode,
    policy: SyncPolicy,
) -> (r: Result<SyncPlan, PlanError>)
    ensures
        plan_result_view(r) == spec_push_plan(*server, port, *settings, probe@, filter_mode, policy),
{
    let is_dir = match probe.kind {
        LocalKind::Missing => {
            return Err(PlanError::LocalSourceNotFound(settings.local_path.clone()));
        },
        LocalKind::Other => {
            return Err(PlanError::LocalSourceNotFileOrDirectory);
        },
        LocalKind::Directory => true,
        LocalKind::File => false,
    };
    let resolved_remote_path = match resolve_push_remote_path(
        settings.local_path.as_str(),
        settings.remote_dir.as_str(),
        probe.style,
    ) {
        Some(path) => path,
        None => {
            return Err(PlanError::TailComponentUnresolved);
        },
    };
    if policy.delete_mode == DeleteMode::DeleteExtra && !is_dir {
        return Err(PlanError::MirrorRequiresDirectory);
    }
    let local_filter_file = match resolve_local_filter_file(filter_mode, &probe.gitignore) {
        Ok(file) => file,
        Err(e) => {
            return Err(e);
        },
    };
    let (source_kind, path_mode, source_arg, remote_mkdir_path) = if is_dir {
        let path_mode = if has_trailing_separator(settings.remote_dir.as_str()) {
            PathMode::DirectoryItself
        } else {
            PathMode::DirectoryContents
        };
        (
            SourceKind::LocalDirectory,
            path_mode,
            ensure_trailing_separator(settings.local_path.as_str()),
            resolved_remote_path.clone(),
        )
    } else {
        (
            SourceKind::LocalFile,
            PathMode::ExactPath,
            settings.local_path.clone(),
            remote_parent_dir(resolved_remote_path.as_str()),
        )
    };
    let destination_arg = remote_target(server, resolved_remote_path.as_str());
    Ok(
        SyncPlan {
            mode: TransferMode::Push,
            port,
            local_path: settings.local_path.clone(),
            remote_input: settings.remote_dir.clone(),
            resolved_remote_path,
            source_arg,
            destination_arg,
            source_kind,
            path_mode,
            filter_mode,
            local_filter_file,
            policy,
            remote_mkdir_path: Some(remote_mkdir_path),
        },
    )
}

fn build_pull_plan(
    server: &ServerProfile,
    port: u16,
    settings: &TransferPaths,
    probe: &LocalProbe,
    filter_mode: FilterMode,
    policy: SyncPolicy,
) -> (r: Result<SyncPlan, PlanError>)
    ensures
        plan_result_view(r) == spec_pull_plan(*server, port, *settings, probe@, filter_mode, policy),
{
    if policy.delete_mode == DeleteMode::DeleteExtra {
        return Err(PlanError::MirrorPushOnly);
    }
    if probe.kind == LocalKind::File || probe.kind == LocalKind::Other {
        return Err(PlanError::LocalDestinationNotDirectory);
    }
    let remote_is_dir = has_trailing_separator(settings.remote_dir.as_str());
    let resolved_remote_path = if remote_is_dir {
        ensure_trailing_separator(settings.remote_dir.as_str())
    } else {
        settings.remote_dir.clone()
    };
    let source_arg = remote_target(server, resolved_remote_path.as_str());
    let local_filter_file = match resolve_local_filter_file(filter_mode, &probe.gitignore) {
        Ok(file) => file,
        Err(e) => {
            return Err(e);
        },
    };
    let path_mode = if remote_is_dir {
        PathMode::DirectoryContents
    } else {
        PathMode::ExactPath
    };
    Ok(
        SyncPlan {
            mode: TransferMode::Pull,
            port,
            local_path: settings.local_path.clone(),
            remote_input: settings.remote_dir.clone(),
            resolved_remote_path,
            source_arg,
            destination_arg: settings.local_path.clone(),
            source_kind: SourceKind::RemotePath,
            path_mode,
            filter_mode,
            local_filter_file,
            policy,
            remote_mkdir_path: None,
        },
    )
}

/// The rsync behaviour of a strategy in a direction.
pub fn resolve_policy(mode: TransferMode, preset: SyncPreset, dry_run: bool) -> (r: Result<
    SyncPolicy,
    PlanError,
>)
    ensures
        match r {
            Ok(policy) => spec_resolve_policy(mode, preset, dry_run) == Ok::<
                SyncPolicy,
                PlanErrorView,
            >(policy),
            Err(e) => spec_resolve_policy(mode, preset, dry_run) == Err::<SyncPolicy, PlanErrorView>(
                e@,
            ),
        },
{
    if mode == TransferMode::Pull && preset == SyncPreset::Mirror {
        return Err(PlanError::MirrorPushOnly);
    }
    let (compare_mode, delete_mode) = match preset {
        SyncPreset::Fast => (CompareMode::Quick, DeleteMode::KeepExtra),
        SyncPreset::Strict => (CompareMode::Checksum, DeleteMode::KeepExtra),
        SyncPreset::Mirror => (CompareMode::Checksum, DeleteMode::DeleteExtra),
    };
    Ok(SyncPolicy { preset, compare_mode, delete_mode, dry_run })
}

/// The remote path of a push, as `spec_push_remote_path` describes it.
pub fn resolve_push_remote_path(local_path: &str, remote_input: &str, style: PathStyle) -> (r:
    Option<String>)
    ensures
        opt_view(r) == spec_push_remote_path(local_path@, remote_input@, style),
{
    if !has_trailing_separator(remote_input) {
        return Some(String::from_str(remote_input));
    }
    let tail = match path_tail_component(local_path, style) {
        Some(tail) => tail,
        None => {
            return None;
        },
    };
    let mut resolved = String::from_str(remote_input);
    let n = remote_input.unicode_len();
    if remote_input.get_char(n - 1) != '/' {
        crate::text::push_char(&mut resolved, '/');
    }
    resolved.append(tail.as_str());
    Some(resolved)
}

/// Whether a filter mode passes a local `.gitignore` to rsync.
pub fn uses_gitignore(filter_mode: FilterMode) -> (b: bool)
    ensures
        b == spec_uses_gitignore(filter_mode),
{
    filter_mode == FilterMode::LocalGitignore || filter_mode == FilterMode::LocalGitignoreAndGitDir
}

/// Whether a filter mode excludes `.git/`.
pub fn excludes_git_dir(filter_mode: FilterMode) -> (b: bool)
    ensures
        b == spec_excludes_git_dir(filter_mode),
{
    filter_mode == FilterMode::ExcludeGitDir || filter_mode == FilterMode::LocalGitignoreAndGitDir
}

/// The exclude file of a plan, given the `.gitignore` the caller found.
pub fn resolve_local_filter_file(filter_mode: FilterMode, gitignore: &Option<String>) -> (r: Result<
    Option<String>,
    PlanError,
>)
    ensures
        match r {
            Ok(file) => spec_filter_file(filter_mode, opt_view(*gitignore)) == Ok::<
                Option<Seq<char>>,
                PlanErrorView,
            >(opt_view(file)),
            Err(e) => spec_filter_file(filter_mode, opt_view(*gitignore)) == Err::<
                Option<Seq<char>>,
                PlanErrorView,
            >(e@),
        },
{
    if !uses_gitignore(filter_mode) {
        return Ok(None);
    }
    match gitignore {
        Some(path) => Ok(Some(path.clone())),
        None => Err(PlanError::GitignoreNotFound),
    }
}

} // verus!
