//! The direct transfer path, which runs rsync from the raw settings without a plan.

use vstd::prelude::*;
use crate::executor::{remote_mkdir_args, spec_remote_mkdir_args, spec_ssh_command, arg_if};
use crate::models::{ServerProfile, TransferMode};
use crate::paths::{
    ensure_trailing_separator, remote_parent, remote_parent_dir, with_trailing_sep, PathStyle,
};
use crate::planner::{
    remote_target, resolve_push_remote_path, spec_preview_route, spec_push_remote_path,
    spec_remote_target, PlanError, PlanErrorView,
};
use crate::text::{push_decimal, push_str, push_string, strings_view};

verus! {

/// The name of a direction.
pub fn transfer_mode_label(mode: TransferMode) -> (label: &'static str)
    ensures
        label@ == crate::planner::spec_transfer_mode_label(mode),
{
    match mode {
        TransferMode::Push => "push",
        TransferMode::Pull => "pull",
    }
}

/// The remote path a transfer works on: the target as typed, or, when it ends
/// with a separator, the target with the local name added (the target as
/// typed when the local path has no name).
pub open spec fn spec_remote_sync_path(local: Seq<char>, remote: Seq<char>, style: PathStyle) -> Seq<
    char,
> {
    match spec_push_remote_path(local, remote, style) {
        Some(path) => path,
        None => remote,
    }
}

/// The remote path a transfer works on, as `spec_remote_sync_path` describes it.
pub fn resolve_remote_sync_path(local_path: &str, remote_dir: &str, style: PathStyle) -> (path:
    String)
    ensures
        path@ == spec_remote_sync_path(local_path@, remote_dir@, style),
{
    match resolve_push_remote_path(local_path, remote_dir, style) {
        Some(path) => path,
        None => String::from_str(remote_dir),
    }
}

/// The route of a transfer, `source -> destination`: a push shows the
/// resolved remote path, a pull the remote source as typed.
pub fn transfer_route_preview(
    mode: TransferMode,
    local_path: &str,
    remote_dir: &str,
    style: PathStyle,
) -> (route: String)
    ensures
        route@ == spec_preview_route(
            mode,
            local_path@,
            match mode {
                TransferMode::Push => spec_remote_sync_path(local_path@, remote_dir@, style),
                TransferMode::Pull => remote_dir@,
            },
        ),
{
    match mode {
        TransferMode::Push => {
            let remote_sync_path = resolve_remote_sync_path(local_path, remote_dir, style);
            crate::planner::preview_route(mode, local_path, remote_sync_path.as_str())
        },
        TransferMode::Pull => crate::planner::preview_route(mode, local_path, remote_dir),
    }
}

/// The name of a filter setting given as two switches.
pub open spec fn spec_switch_filter_label(use_gitignore: bool, ignore_git_dir: bool) -> Seq<char> {
    if use_gitignore && ignore_git_dir {
        ".gitignore + exclude .git/"@
    } else if use_gitignore {
        ".gitignore only"@
    } else if ignore_git_dir {
        "exclude .git/ only"@
    } else {
        "none"@
    }
}

/// The name of a filter setting given as two switches; the direction does not matter.
pub fn filter_mode_label(_mode: TransferMode, use_gitignore: bool, ignore_git_dir: bool) -> (label:
    &'static str)
    ensures
        label@ == spec_switch_filter_label(use_gitignore, ignore_git_dir),
{
    match (use_gitignore, ignore_git_dir) {
        (false, false) => "none",
        (true, false) => ".gitignore only",
        (false, true) => "exclude .git/ only",
        (true, true) => ".gitignore + exclude .git/",
    }
}

/// The remote directory to create before a push: the remote path itself for a
/// directory source, else the directory that holds it.
pub open spec fn spec_remote_dir_to_create(remote_sync_path: Seq<char>, source_is_dir: bool) -> Seq<
    char,
> {
    if source_is_dir {
        remote_sync_path
    } else {
        remote_parent(remote_sync_path)
    }
}

/// The remote directory to create before a push.
pub fn remote_dir_to_create(remote_sync_path: &str, push_source_is_dir: bool) -> (dir: String)
    ensures
        dir@ == spec_remote_dir_to_create(remote_sync_path@, push_source_is_dir),
{
    if push_source_is_dir {
        String::from_str(remote_sync_path)
    } else {
        remote_parent_dir(remote_sync_path)
    }
}

/// The commands of a direct transfer: the ssh arguments that create the remote
/// directory first (pushes only), and the rsync arguments.
#[derive(Debug, Clone)]
pub struct RsyncTransfer {
    pub mkdir_args: Option<Vec<String>>,
    pub rsync_args: Vec<String>,
}

/// The content of an `RsyncTransfer`.
pub struct RsyncTransferView {
    pub mkdir_args: Option<Seq<Seq<char>>>,
    pub rsync_args: Seq<Seq<char>>,
}

impl View for RsyncTransfer {
    type V = RsyncTransferView;

    open spec fn view(&self) -> RsyncTransferView {
        RsyncTransferView {
            mkdir_args: match self.mkdir_args {
                Some(args) => Some(strings_view(args@)),
                None => None,
            },
            rsync_args: strings_view(self.rsync_args@),
        }
    }
}

/// The source and destination arguments of a direct transfer. A push sends a
/// local directory's contents into the resolved remote path; a pull reads the
/// remote source exactly as it was typed into the local directory, so a
/// source with a trailing `/` brings its contents and one without brings the
/// directory itself.
pub open spec fn spec_transfer_endpoints(
    server: ServerProfile,
    mode: TransferMode,
    local: Seq<char>,
    remote: Seq<char>,
    source_is_dir: bool,
    style: PathStyle,
) -> (Seq<char>, Seq<char>) {
    let remote_sync_path = spec_remote_sync_path(local, remote, style);
    match mode {
        TransferMode::Push => (
            if source_is_dir {
                with_trailing_sep(local)
            } else {
                local
            },
            spec_remote_target(server, remote_sync_path),
        ),
        TransferMode::Pull => (spec_remote_target(server, remote), local),
    }
}

/// The commands of a direct transfer, or the error when a `.gitignore` filter
/// is asked for and none was found.
pub open spec fn spec_rsync_transfer(
    server: ServerProfile,
    mode: TransferMode,
    port: u16,
    local: Seq<char>,
    remote: Seq<char>,
    source_is_dir: bool,
    gitignore: Option<Seq<char>>,
    use_gitignore: bool,
    ignore_git_dir: bool,
    style: PathStyle,
) -> Result<RsyncTransferView, PlanErrorView> {
    if use_gitignore && gitignore is None {
        Err(PlanErrorView::GitignoreNotFound)
    } else {
        let (source, destination) = spec_transfer_endpoints(
            server,
            mode,
            local,
            remote,
            source_is_dir,
            style,
        );
        let exclude_from = if use_gitignore {
            seq!["--exclude-from"@, gitignore.unwrap()]
        } else {
            seq![]
        };
        Ok(
            RsyncTransferView {
                mkdir_args: match mode {
                    TransferMode::Push => Some(
                        spec_remote_mkdir_args(
                            server,
                            port,
                            spec_remote_dir_to_create(
                                spec_remote_sync_path(local, remote, style),
                                source_is_dir,
                            ),
                        ),
                    ),
                    TransferMode::Pull => None,
                },
                rsync_args: seq!["-avzP"@, "-e"@, spec_ssh_command(port)] + exclude_from + arg_if(
                    ignore_git_dir,
                    "--exclude=.git/"@,
                ) + seq![source, destination],
            },
        )
    }
}

/// The content of a direct transfer result.
pub open spec fn transfer_result_view(r: Result<RsyncTransfer, PlanError>) -> Result<
    RsyncTransferView,
    PlanErrorView,
> {
    match r {
        Ok(t) => Ok(t@),
        Err(e) => Err(e@),
    }
}

/// The commands of a direct transfer of `local_path` and `remote_dir`, given
/// whether the local path is a directory and the `.gitignore` the caller found.
pub fn rsync_transfer(
    server: &ServerProfile,
    mode: TransferMode,
    port: u16,
    local_path: &str,
    remote_dir: &str,
    push_source_is_dir: bool,
    local_gitignore: &Option<String>,
    use_gitignore: bool,
    ignore_git_dir: bool,
    style: PathStyle,
) -> (r: Result<RsyncTransfer, PlanError>)
    ensures
        transfer_result_view(r) == spec_rsync_transfer(
            *server,
            mode,
            port,
            local_path@,
            remote_dir@,
            push_source_is_dir,
            crate::text::opt_view(*local_gitignore),
            use_gitignore,
            ignore_git_dir,
            style,
        ),
{
    if use_gitignore && local_gitignore.is_none() {
        return Err(PlanError::GitignoreNotFound);
    }
    let remote_sync_path = resolve_remote_sync_path(local_path, remote_dir, style);
    let (source, destination) = match mode {
        TransferMode::Push => {
            let destination = remote_target(server, remote_sync_path.as_str());
            let source = if push_source_is_dir {
                ensure_trailing_separator(local_path)
            } else {
                String::from_str(local_path)
            };
            (source, destination)
        },
        TransferMode::Pull => (remote_target(server, remote_dir), String::from_str(local_path)),
    };
    let ghost endpoints = spec_transfer_endpoints(
        *server,
        mode,
        local_path@,
        remote_dir@,
        push_source_is_dir,
        style,
    );
    assert(source@ == endpoints.0 && destination@ == endpoints.1);
    let mkdir_args = match mode {
        TransferMode::Push => {
            let target_dir = remote_dir_to_create(remote_sync_path.as_str(), push_source_is_dir);
            Some(remote_mkdir_args(server, port, target_dir.as_str()))
        },
        TransferMode::Pull => None,
    };
    let mut args: Vec<String> = Vec::new();
    push_str(&mut args, "-avzP");
    push_str(&mut args, "-e");
    let mut ssh = String::from_str("ssh -p ");
    push_decimal(&mut ssh, port);
    push_string(&mut args, ssh);
    let ghost base = strings_view(args@);
    assert(base =~= seq!["-avzP"@, "-e"@, spec_ssh_command(port)]);
    match local_gitignore {
        Some(path) => {
            if use_gitignore {
                push_str(&mut args, "--exclude-from");
                push_str(&mut args, path.as_str());
            }
        },
        None => {},
    }
    let ghost a1 = base + if use_gitignore {
        seq!["--exclude-from"@, crate::text::opt_view(*local_gitignore).unwrap()]
    } else {
        seq![]
    };
    assert(strings_view(args@) =~= a1);
    if ignore_git_dir {
        push_str(&mut args, "--exclude=.git/");
    }
    let ghost a2 = a1 + arg_if(ignore_git_dir, "--exclude=.git/"@);
    assert(strings_view(args@) =~= a2);
    push_string(&mut args, source);
    push_string(&mut args, destination);
    assert(strings_view(args@) =~= a2 + seq![endpoints.0, endpoints.1]);
    Ok(RsyncTransfer { mkdir_args, rsync_args: args })
}

} // verus!
