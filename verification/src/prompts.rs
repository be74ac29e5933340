//! What the interactive prompts show, and what the user's answers stand for.

use vstd::prelude::*;
use crate::models::{
    spec_default_filter_mode, spec_effective_filter_mode, FilterMode, ServerProfile, SyncPreset,
    TransferMode, TransferPaths,
};
use crate::planner::{
    compare_mode_label, delete_mode_label, filter_mode_label, path_mode_label, preview_route,
    source_kind_label, spec_compare_mode_label, spec_delete_mode_label, spec_filter_mode_label,
    spec_path_mode_label, spec_preview_route, spec_source_kind_label, spec_sync_preset_description,
    spec_sync_preset_label, spec_transfer_mode_label, sync_preset_description, sync_preset_label,
    transfer_mode_label, SyncPlan, SyncPlanView,
};
use crate::text::{decimal, decimal_string, is_white_space, push_string, skip_white_space,
    skip_white_space_back, strings_view, trim_str, trim_white_space};

verus! {

/// How a profile is shown: `user@host`.
pub open spec fn spec_server_label(server: ServerProfile) -> Seq<char> {
    server.user@ + "@"@ + server.host@
}

/// How a profile is shown: `user@host`.
pub fn server_label(server: &ServerProfile) -> (label: String)
    ensures
        label@ == spec_server_label(*server),
{
    let mut label = String::from_str(server.user.as_str());
    label.append("@");
    label.append(server.host.as_str());
    label
}

/// How a yes/no setting is shown.
pub open spec fn spec_bool_label(value: bool) -> Seq<char> {
    if value {
        "yes"@
    } else {
        "no"@
    }
}

/// How a yes/no setting is shown.
pub fn bool_label(value: bool) -> (label: &'static str)
    ensures
        label@ == spec_bool_label(value),
{
    if value {
        "yes"
    } else {
        "no"
    }
}

/// A typed or dropped path: surrounding whitespace removed, then one pair of
/// matching single or double quotes around it removed.
pub open spec fn spec_sanitize_path(input: Seq<char>) -> Seq<char> {
    let t = trim_white_space(input);
    if t.len() >= 2 && ((t[0] == '\'' && t.last() == '\'') || (t[0] == '"' && t.last() == '"')) {
        t.subrange(1, t.len() - 1)
    } else {
        t
    }
}

/// A typed or dropped path: surrounding whitespace removed, then one pair of
/// matching single or double quotes around it removed.
pub fn sanitize_path(input: &str) -> (path: String)
    ensures
        path@ == spec_sanitize_path(input@),
{
    let trimmed = trim_str(input);
    let n = trimmed.unicode_len();
    if n >= 2 {
        let first = trimmed.get_char(0);
        let last = trimmed.get_char(n - 1);
        if (first == '\'' && last == '\'') || (first == '"' && last == '"') {
            return String::from_str(trimmed.substring_char(1, n - 1));
        }
    }
    String::from_str(trimmed)
}

/// A path wrapped in a pair of quotes, as a terminal gives a dropped path,
/// comes out as it was before it was wrapped.
pub proof fn lemma_sanitize_unwraps_quotes(path: Seq<char>, quote: char)
    requires
        quote == '\'' || quote == '"',
    ensures
        spec_sanitize_path(seq![quote] + path + seq![quote]) == path,
{
    let s = seq![quote] + path + seq![quote];
    assert(!is_white_space(s[0]));
    assert(skip_white_space(s, 0) == 0);
    assert(!is_white_space(s[s.len() - 1]));
    assert(skip_white_space_back(s, 0, s.len() as int) == s.len());
    assert(trim_white_space(s) =~= s);
    assert(s.subrange(1, s.len() - 1) =~= path);
}

/// A typed answer once surrounding whitespace is removed; none when nothing is left.
pub open spec fn spec_non_empty_input(raw: Seq<char>) -> Option<Seq<char>> {
    let t = trim_white_space(raw);
    if t.len() == 0 {
        None
    } else {
        Some(t)
    }
}

/// A typed answer once surrounding whitespace is removed; none when nothing
/// is left, and the question is asked again.
pub fn non_empty_input(raw: &str) -> (value: Option<String>)
    ensures
        crate::text::opt_view(value) == spec_non_empty_input(raw@),
{
    let trimmed = trim_str(raw);
    if trimmed.unicode_len() == 0 {
        None
    } else {
        Some(String::from_str(trimmed))
    }
}

/// A typed path once sanitized; none when nothing is left, and the question
/// is asked again.
pub fn path_input(raw: &str) -> (value: Option<String>)
    ensures
        value is None <==> spec_sanitize_path(raw@).len() == 0,
        value is Some ==> value.unwrap()@ == spec_sanitize_path(raw@),
{
    let cleaned = sanitize_path(raw);
    if cleaned.unicode_len() == 0 {
        None
    } else {
        Some(cleaned)
    }
}

/// A new profile for `user` at `host`: ssh port 22, nothing saved yet.
pub fn new_server_profile(user: String, host: String) -> (server: ServerProfile)
    ensures
        server == (ServerProfile {
            user,
            host,
            port: 22,
            push_defaults: None,
            pull_defaults: None,
            shared_paths: None,
            push_paths: None,
            pull_paths: None,
        }),
{
    ServerProfile {
        user,
        host,
        port: crate::models::default_ssh_port(),
        push_defaults: None,
        pull_defaults: None,
        shared_paths: None,
        push_paths: None,
        pull_paths: None,
    }
}

/// A profile with a new user and host; its port and saved settings are kept.
pub fn edited_server(existing: &ServerProfile, user: String, host: String) -> (server:
    ServerProfile)
    ensures
        server == (ServerProfile { user, host, ..*existing }),
{
    let mut updated = existing.duplicate();
    updated.user = user;
    updated.host = host;
    updated
}

/// The question that asks for the local path.
pub open spec fn spec_local_path_prompt(mode: TransferMode) -> Seq<char> {
    match mode {
        TransferMode::Push => "Enter local source path (or drag it here)"@,
        TransferMode::Pull => "Enter local destination directory"@,
    }
}

/// The question that asks for the local path.
pub fn local_path_prompt(mode: TransferMode) -> (prompt: &'static str)
    ensures
        prompt@ == spec_local_path_prompt(mode),
{
    match mode {
        TransferMode::Push => "Enter local source path (or drag it here)",
        TransferMode::Pull => "Enter local destination directory",
    }
}

/// The question that asks for the remote path.
pub open spec fn spec_remote_path_prompt(mode: TransferMode) -> Seq<char> {
    match mode {
        TransferMode::Push => "Remote target path"@,
        TransferMode::Pull => "Remote source path"@,
    }
}

/// The question that asks for the remote path.
pub fn remote_path_prompt(mode: TransferMode) -> (prompt: &'static str)
    ensures
        prompt@ == spec_remote_path_prompt(mode),
{
    match mode {
        TransferMode::Push => "Remote target path",
        TransferMode::Pull => "Remote source path",
    }
}

/// The answers proposed when the transfer questions are asked.
#[derive(Debug, Clone)]
pub struct TransferInputDefaults {
    pub remote_dir: Option<String>,
    pub local_path: Option<String>,
    pub sync_preset: SyncPreset,
    pub filter_mode: FilterMode,
    pub dry_run: bool,
}

/// The answers proposed for the transfer questions: the saved settings where
/// there are some; else no paths, Strict, exclude `.git/`, and no dry run.
pub fn transfer_input_defaults(defaults: Option<&TransferPaths>) -> (proposed:
    TransferInputDefaults)
    ensures
        match defaults {
            Some(d) => {
                &&& proposed.remote_dir == Some(d.remote_dir)
                &&& proposed.local_path == Some(d.local_path)
                &&& proposed.sync_preset == d.sync_preset
                &&& proposed.filter_mode == spec_effective_filter_mode(d.filter_mode)
                &&& proposed.dry_run == d.dry_run
            },
            None => {
                &&& proposed.remote_dir is None
                &&& proposed.local_path is None
                &&& proposed.sync_preset == SyncPreset::Strict
                &&& proposed.filter_mode == spec_default_filter_mode()
                &&& !proposed.dry_run
            },
        },
{
    match defaults {
        Some(d) => TransferInputDefaults {
            remote_dir: Some(d.remote_dir.clone()),
            local_path: Some(d.local_path.clone()),
            sync_preset: d.sync_preset,
            filter_mode: d.effective_filter_mode(),
            dry_run: d.dry_run,
        },
        None => TransferInputDefaults {
            remote_dir: None,
            local_path: None,
            sync_preset: crate::models::default_sync_preset(),
            filter_mode: crate::models::default_filter_mode(),
            dry_run: false,
        },
    }
}

/// The settings made of the answers to the transfer questions; the filter
/// mode is recorded explicitly, the old switches get their neutral values.
pub fn transfer_inputs(
    port: u16,
    local_path: String,
    remote_dir: String,
    sync_preset: SyncPreset,
    filter_mode: FilterMode,
    dry_run: bool,
) -> (inputs: (u16, TransferPaths))
    ensures
        inputs == (
            port,
            TransferPaths {
                local_path,
                remote_dir,
                sync_preset,
                filter_mode: Some(filter_mode),
                dry_run,
                use_gitignore: false,
                ignore_git_dir: true,
            },
        ),
{
    (
        port,
        TransferPaths {
            local_path,
            remote_dir,
            sync_preset,
            filter_mode: Some(filter_mode),
            dry_run,
            use_gitignore: false,
            ignore_git_dir: true,
        },
    )
}

/// The menu position of a direction: push first, pull second.
pub open spec fn spec_transfer_mode_index(mode: TransferMode) -> usize {
    match mode {
        TransferMode::Push => 0,
        TransferMode::Pull => 1,
    }
}

/// The direction chosen at a menu position: push first, pull otherwise.
pub open spec fn spec_transfer_mode_from_selection(selection: usize) -> TransferMode {
    if selection == 0 {
        TransferMode::Push
    } else {
        TransferMode::Pull
    }
}

/// The menu position of a direction: push first, pull second.
pub fn transfer_mode_index(mode: TransferMode) -> (index: usize)
    ensures
        index == spec_transfer_mode_index(mode),
{
    match mode {
        TransferMode::Push => 0,
        TransferMode::Pull => 1,
    }
}

/// The direction chosen at a menu position: push first, pull otherwise.
pub fn transfer_mode_from_selection(selection: usize) -> (mode: TransferMode)
    ensures
        mode == spec_transfer_mode_from_selection(selection),
{
    if selection == 0 {
        TransferMode::Push
    } else {
        TransferMode::Pull
    }
}

/// Accepting the proposed position of the direction menu chooses the
/// proposed direction.
pub proof fn lemma_transfer_mode_menu_round_trip(mode: TransferMode)
    ensures
        spec_transfer_mode_from_selection(spec_transfer_mode_index(mode)) == mode,
{
}

/// The strategies offered in a direction: Mirror only for pushes.
pub open spec fn spec_sync_preset_choices(mode: TransferMode) -> Seq<SyncPreset> {
    match mode {
        TransferMode::Push => seq![SyncPreset::Fast, SyncPreset::Strict, SyncPreset::Mirror],
        TransferMode::Pull => seq![SyncPreset::Fast, SyncPreset::Strict],
    }
}

/// The strategies offered in a direction: Mirror only for pushes.
pub fn sync_preset_choices(mode: TransferMode) -> (choices: Vec<SyncPreset>)
    ensures
        choices@ == spec_sync_preset_choices(mode),
{
    let mut choices = Vec::new();
    choices.push(SyncPreset::Fast);
    choices.push(SyncPreset::Strict);
    if mode == TransferMode::Push {
        choices.push(SyncPreset::Mirror);
    }
    assert(choices@ =~= spec_sync_preset_choices(mode));
    choices
}

/// The strategy proposed in a direction: the saved one, except that a saved
/// Mirror becomes Strict where Mirror is not offered.
pub open spec fn spec_proposed_preset(mode: TransferMode, saved: SyncPreset) -> SyncPreset {
    if mode == TransferMode::Push || saved != SyncPreset::Mirror {
        saved
    } else {
        SyncPreset::Strict
    }
}

/// The position of the proposed strategy among those offered.
pub fn sync_preset_default_index(mode: TransferMode, saved: SyncPreset) -> (index: usize)
    ensures
        index < spec_sync_preset_choices(mode).len(),
        spec_sync_preset_choices(mode)[index as int] == spec_proposed_preset(mode, saved),
{
    let fallback = if mode == TransferMode::Push || saved != SyncPreset::Mirror {
        saved
    } else {
        SyncPreset::Strict
    };
    match fallback {
        SyncPreset::Fast => 0,
        SyncPreset::Strict => 1,
        SyncPreset::Mirror => 2,
    }
}

/// The filter modes offered, in menu order.
pub open spec fn spec_filter_mode_choices() -> Seq<FilterMode> {
    seq![
        FilterMode::NoFilter,
        FilterMode::ExcludeGitDir,
        FilterMode::LocalGitignore,
        FilterMode::LocalGitignoreAndGitDir,
    ]
}

/// The filter modes offered, in menu order.
pub fn filter_mode_choices() -> (choices: Vec<FilterMode>)
    ensures
        choices@ == spec_filter_mode_choices(),
{
    let mut choices = Vec::new();
    choices.push(FilterMode::NoFilter);
    choices.push(FilterMode::ExcludeGitDir);
    choices.push(FilterMode::LocalGitignore);
    choices.push(FilterMode::LocalGitignoreAndGitDir);
    assert(choices@ =~= spec_filter_mode_choices());
    choices
}

/// The menu position of a filter mode.
pub fn filter_mode_default_index(mode: FilterMode) -> (index: usize)
    ensures
        index < spec_filter_mode_choices().len(),
        spec_filter_mode_choices()[index as int] == mode,
{
    match mode {
        FilterMode::NoFilter => 0,
        FilterMode::ExcludeGitDir => 1,
        FilterMode::LocalGitignore => 2,
        FilterMode::LocalGitignoreAndGitDir => 3,
    }
}

/// What a choice in the server menu stands for. The menu lists the profiles,
/// then "add a server", then "manage servers".
#[derive(Debug, Clone, Copy, PartialEq, Eq, Structural)]
pub enum ServerMenuAction {
    /// Use the profile at this position.
    Server(usize),
    /// Create a new profile.
    AddServer,
    /// Edit or delete profiles.
    ManageServers,
}

/// What the choice at `selection` stands for, with `n_servers` profiles listed.
pub fn server_menu_action(n_servers: usize, selection: usize) -> (action: ServerMenuAction)
    ensures
        action == (if selection == n_servers {
            ServerMenuAction::AddServer
        } else if selection as int == n_servers + 1 {
            ServerMenuAction::ManageServers
        } else {
            ServerMenuAction::Server(selection)
        }),
{
    if selection == n_servers {
        ServerMenuAction::AddServer
    } else if selection > n_servers && selection - n_servers == 1 {
        ServerMenuAction::ManageServers
    } else {
        ServerMenuAction::Server(selection)
    }
}

/// The profile chosen in the management menu, which lists the profiles and
/// then "back"; none for "back".
pub fn manage_menu_target(n_servers: usize, selection: usize) -> (target: Option<usize>)
    ensures
        target == (if selection == n_servers {
            None
        } else {
            Some(selection)
        }),
{
    if selection == n_servers {
        None
    } else {
        Some(selection)
    }
}

/// What can be done with a chosen profile.
#[derive(Debug, Clone, Copy, PartialEq, Eq, Structural)]
pub enum ServerAction {
    Edit,
    Delete,
    Back,
}

/// The action at a position of the profile menu: edit, delete, back.
pub fn server_action(selection: usize) -> (action: ServerAction)
    ensures
        action == (if selection == 0 {
            ServerAction::Edit
        } else if selection == 1 {
            ServerAction::Delete
        } else {
            ServerAction::Back
        }),
{
    if selection == 0 {
        ServerAction::Edit
    } else if selection == 1 {
        ServerAction::Delete
    } else {
        ServerAction::Back
    }
}

/// What the management menu does next.
#[derive(Debug, Clone, Copy, PartialEq, Eq, Structural)]
pub enum ManageStep {
    /// Leave the menu.
    Leave,
    /// Ask for a new user and host for the profile at this position.
    Edit(usize),
    /// Delete the profile at `index`; when it was the last one, create a new
    /// profile and leave the menu.
    Delete { index: usize, create_new: bool },
    /// Show the menu again.
    Stay,
}

/// The next step of the management menu with `n_servers` profiles listed,
/// given the chosen position, the chosen action, and whether a deletion was
/// confirmed.
pub open spec fn spec_manage_step(
    n_servers: usize,
    selection: usize,
    action: ServerAction,
    confirmed: bool,
) -> ManageStep {
    if selection == n_servers {
        ManageStep::Leave
    } else {
        match action {
            ServerAction::Edit => ManageStep::Edit(selection),
            ServerAction::Delete => if confirmed {
                ManageStep::Delete { index: selection, create_new: n_servers == 1 }
            } else {
                ManageStep::Stay
            },
            ServerAction::Back => ManageStep::Stay,
        }
    }
}

/// The next step of the management menu, as `spec_manage_step` describes it.
pub fn manage_step(n_servers: usize, selection: usize, action: ServerAction, confirmed: bool) -> (step:
    ManageStep)
    requires
        selection <= n_servers,
    ensures
        step == spec_manage_step(n_servers, selection, action, confirmed),
{
    match manage_menu_target(n_servers, selection) {
        None => ManageStep::Leave,
        Some(index) => match action {
            ServerAction::Edit => ManageStep::Edit(index),
            ServerAction::Delete => {
                if confirmed {
                    ManageStep::Delete { index, create_new: n_servers == 1 }
                } else {
                    ManageStep::Stay
                }
            },
            ServerAction::Back => ManageStep::Stay,
        },
    }
}

/// How many profiles there are once a step of the management menu is done.
pub open spec fn spec_profiles_after(n_servers: nat, step: ManageStep) -> int {
    match step {
        ManageStep::Delete { create_new, .. } => n_servers - 1 + if create_new {
            1int
        } else {
            0int
        },
        _ => n_servers as int,
    }
}

/// The management menu never leaves the list of profiles empty, and it only
/// edits or deletes a profile that is listed.
pub proof fn lemma_management_keeps_a_profile(
    n_servers: usize,
    selection: usize,
    action: ServerAction,
    confirmed: bool,
)
    requires
        n_servers >= 1,
        selection <= n_servers,
    ensures
        spec_profiles_after(n_servers as nat, spec_manage_step(n_servers, selection, action, confirmed))
            >= 1,
        match spec_manage_step(n_servers, selection, action, confirmed) {
            ManageStep::Edit(index) => index < n_servers,
            ManageStep::Delete { index, .. } => index < n_servers,
            _ => true,
        },
{
}

/// The content of a list of labelled values.
pub open spec fn lines_view(lines: Seq<(String, String)>) -> Seq<(Seq<char>, Seq<char>)> {
    lines.map_values(|line: (String, String)| (line.0@, line.1@))
}

/// Adds a labelled value.
fn push_line(lines: &mut Vec<(String, String)>, label: &str, value: String)
    ensures
        lines_view(final(lines)@) == lines_view(old(lines)@).push((label@, value@)),
{
    let ghost v = value@;
    lines.push((String::from_str(label), value));
    assert(lines_view(lines@) =~= lines_view(old(lines)@).push((label@, v)));
}

/// The lines that describe a plan before it is carried out.
pub open spec fn spec_transfer_summary_lines(server: ServerProfile, plan: SyncPlanView) -> Seq<
    (Seq<char>, Seq<char>),
> {
    seq![
        ("Server"@, spec_server_label(server)),
        ("Mode"@, spec_transfer_mode_label(plan.mode)),
        ("Port"@, decimal(plan.port as nat)),
        ("Local"@, plan.local_path),
        ("Remote input"@, plan.remote_input),
        ("Resolved remote"@, plan.resolved_remote_path),
        ("Route"@, spec_preview_route(plan.mode, plan.local_path, plan.resolved_remote_path)),
        ("Source kind"@, spec_source_kind_label(plan.source_kind)),
        ("Path mode"@, spec_path_mode_label(plan.path_mode)),
        ("Strategy"@, spec_sync_preset_label(plan.policy.preset)),
        ("Policy"@, spec_sync_preset_description(plan.policy.preset)),
        ("Compare"@, spec_compare_mode_label(plan.policy.compare_mode)),
        ("Delete extra"@, spec_delete_mode_label(plan.policy.delete_mode)),
        ("Filter"@, spec_filter_mode_label(plan.filter_mode)),
        ("Dry run"@, spec_bool_label(plan.policy.dry_run)),
    ] + match plan.remote_mkdir_path {
        Some(path) => seq![("Remote mkdir"@, path)],
        None => seq![],
    } + match plan.local_filter_file {
        Some(path) => seq![("Exclude file"@, path)],
        None => seq![],
    }
}

/// The summary's route runs from the plan's source to its destination: a
/// push from the local path to the resolved remote path, a pull from the
/// resolved remote path to the local path. It is the seventh line, after
/// server, mode, port, local path, remote input and resolved remote path.
pub proof fn lemma_summary_route_follows_direction(server: ServerProfile, plan: SyncPlanView)
    ensures
        spec_transfer_summary_lines(server, plan).len() >= 15,
        spec_transfer_summary_lines(server, plan)[6] == (
            "Route"@,
            match plan.mode {
                TransferMode::Push => plan.local_path + " -> "@ + plan.resolved_remote_path,
                TransferMode::Pull => plan.resolved_remote_path + " -> "@ + plan.local_path,
            },
        ),
        spec_transfer_summary_lines(server, plan)[3] == ("Local"@, plan.local_path),
        spec_transfer_summary_lines(server, plan)[5] == ("Resolved remote"@, plan.resolved_remote_path),
        spec_transfer_summary_lines(server, plan)[1] == ("Mode"@, match plan.mode {
            TransferMode::Push => "push"@,
            TransferMode::Pull => "pull"@,
        }),
{
}

/// The lines that describe a plan before it is carried out.
pub fn transfer_summary_lines(server: &ServerProfile, plan: &SyncPlan) -> (lines: Vec<
    (String, String),
>)
    ensures
        lines_view(lines@) == spec_transfer_summary_lines(*server, plan@),
{
    let mut lines: Vec<(String, String)> = Vec::new();
    push_line(&mut lines, "Server", server_label(server));
    push_line(&mut lines, "Mode", String::from_str(transfer_mode_label(plan.mode)));
    push_line(&mut lines, "Port", decimal_string(plan.port));
    push_line(&mut lines, "Local", plan.local_path.clone());
    push_line(&mut lines, "Remote input", plan.remote_input.clone());
    push_line(&mut lines, "Resolved remote", plan.resolved_remote_path.clone());
    push_line(
        &mut lines,
        "Route",
        preview_route(plan.mode, plan.local_path.as_str(), plan.resolved_remote_path.as_str()),
    );
    push_line(&mut lines, "Source kind", String::from_str(source_kind_label(plan.source_kind)));
    push_line(&mut lines, "Path mode", String::from_str(path_mode_label(plan.path_mode)));
    push_line(&mut lines, "Strategy", String::from_str(sync_preset_label(plan.policy.preset)));
    push_line(
        &mut lines,
        "Policy",
        String::from_str(sync_preset_description(plan.policy.preset)),
    );
    push_line(
        &mut lines,
        "Compare",
        String::from_str(compare_mode_label(plan.policy.compare_mode)),
    );
    push_line(
        &mut lines,
        "Delete extra",
        String::from_str(delete_mode_label(plan.policy.delete_mode)),
    );
    push_line(&mut lines, "Filter", String::from_str(filter_mode_label(plan.filter_mode)));
    push_line(&mut lines, "Dry run", String::from_str(bool_label(plan.policy.dry_run)));
    let ghost fixed = lines_view(lines@);
    match &plan.remote_mkdir_path {
        Some(path) => push_line(&mut lines, "Remote mkdir", path.clone()),
        None => {},
    }
    let ghost with_mkdir = fixed + match plan@.remote_mkdir_path {
        Some(path) => seq![("Remote mkdir"@, path)],
        None => seq![],
    };
    assert(lines_view(lines@) =~= with_mkdir);
    match &plan.local_filter_file {
        Some(path) => push_line(&mut lines, "Exclude file", path.clone()),
        None => {},
    }
    assert(lines_view(lines@) =~= spec_transfer_summary_lines(*server, plan@));
    lines
}

/// The lines that show the saved settings of a direction before they are reused.
pub open spec fn spec_last_settings_lines(
    mode: TransferMode,
    server: ServerProfile,
    last: TransferPaths,
) -> Seq<(Seq<char>, Seq<char>)> {
    seq![
        ("Server"@, spec_server_label(server)),
        ("Mode"@, spec_transfer_mode_label(mode)),
        ("Port"@, decimal(server.port as nat)),
        ("Route"@, spec_preview_route(mode, last.local_path@, last.remote_dir@)),
        ("Strategy"@, spec_sync_preset_label(last.sync_preset)),
        ("Filter"@, spec_filter_mode_label(spec_effective_filter_mode(last.filter_mode))),
        ("Dry run"@, spec_bool_label(last.dry_run)),
    ]
}

/// The lines that show the saved settings of a direction before they are reused.
pub fn last_settings_lines(mode: TransferMode, server: &ServerProfile, last: &TransferPaths) -> (lines:
    Vec<(String, String)>)
    ensures
        lines_view(lines@) == spec_last_settings_lines(mode, *server, *last),
{
    let mut lines: Vec<(String, String)> = Vec::new();
    push_line(&mut lines, "Server", server_label(server));
    push_line(&mut lines, "Mode", String::from_str(transfer_mode_label(mode)));
    push_line(&mut lines, "Port", decimal_string(server.port));
    push_line(
        &mut lines,
        "Route",
        preview_route(mode, last.local_path.as_str(), last.remote_dir.as_str()),
    );
    push_line(&mut lines, "Strategy", String::from_str(sync_preset_label(last.sync_preset)));
    push_line(
        &mut lines,
        "Filter",
        String::from_str(filter_mode_label(last.effective_filter_mode())),
    );
    push_line(&mut lines, "Dry run", String::from_str(bool_label(last.dry_run)));
    assert(lines_view(lines@) =~= spec_last_settings_lines(mode, *server, *last));
    lines
}

/// The warnings shown before a plan is confirmed: Mirror deletes files under
/// the remote path, and a dry run modifies nothing.
pub open spec fn spec_start_transfer_warnings(plan: SyncPlanView) -> Seq<Seq<char>> {
    (if plan.policy.preset == SyncPreset::Mirror {
        seq!["Mirror mode will delete extra files under "@ + plan.resolved_remote_path + "."@]
    } else {
        seq![]
    }) + if plan.policy.dry_run {
        seq!["Dry run is enabled. No files will be modified."@]
    } else {
        seq![]
    }
}

/// The warnings shown before a plan is confirmed.
pub fn start_transfer_warnings(plan: &SyncPlan) -> (warnings: Vec<String>)
    ensures
        strings_view(warnings@) == spec_start_transfer_warnings(plan@),
{
    let mut warnings: Vec<String> = Vec::new();
    if plan.policy.preset == SyncPreset::Mirror {
        let mut w = String::from_str("Mirror mode will delete extra files under ");
        w.append(plan.resolved_remote_path.as_str());
        w.append(".");
        push_string(&mut warnings, w);
    }
    let ghost first = strings_view(warnings@);
    if plan.policy.dry_run {
        push_string(&mut warnings, String::from_str("Dry run is enabled. No files will be modified."));
    }
    assert(strings_view(warnings@) =~= spec_start_transfer_warnings(plan@));
    warnings
}

} // verus!
