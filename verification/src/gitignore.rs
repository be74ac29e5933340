//! Finding the `.gitignore` whose rules a transfer passes to rsync: the first
//! one met when walking up from the local path.
//!
//! The caller does the file-system work (whether a path is a directory or a
//! regular file, making a path canonical); the library decides where the walk
//! starts, which file is looked at, and what comes next.

use vstd::prelude::*;
use crate::models::TransferMode;
use crate::paths::{
    lemma_parent_shorter, path_join, path_parent, spec_join, spec_parent, PathStyle,
};
use crate::text::opt_view;

verus! {

/// What the walk does after one directory has been looked at.
#[derive(Debug, Clone, PartialEq, Eq)]
pub enum GitignoreStep {
    /// The `.gitignore` at this path is the one to use.
    Found(String),
    /// Go on with this directory.
    Up(String),
    /// There is no `.gitignore` at or above the start.
    NotFound,
}

/// The content of a `GitignoreStep`.
pub enum GitignoreStepView {
    Found(Seq<char>),
    Up(Seq<char>),
    NotFound,
}

impl View for GitignoreStep {
    type V = GitignoreStepView;

    open spec fn view(&self) -> GitignoreStepView {
        match self {
            GitignoreStep::Found(path) => GitignoreStepView::Found(path@),
            GitignoreStep::Up(dir) => GitignoreStepView::Up(dir@),
            GitignoreStep::NotFound => GitignoreStepView::NotFound,
        }
    }
}

/// Where the walk starts: the local path itself for a pull or a local
/// directory; otherwise the directory that holds the local file, or `.` when
/// the path has no parent.
pub open spec fn spec_search_start(
    mode: TransferMode,
    local: Seq<char>,
    local_is_dir: bool,
    style: PathStyle,
) -> Seq<char> {
    if mode == TransferMode::Pull || local_is_dir {
        local
    } else {
        match spec_parent(style, local) {
            Some(parent) => parent,
            None => "."@,
        }
    }
}

/// Where the walk starts, as `spec_search_start` describes it.
pub fn gitignore_search_start(
    mode: TransferMode,
    local_path: &str,
    local_is_dir: bool,
    style: PathStyle,
) -> (start: String)
    ensures
        start@ == spec_search_start(mode, local_path@, local_is_dir, style),
{
    if mode == TransferMode::Pull || local_is_dir {
        String::from_str(local_path)
    } else {
        match path_parent(local_path, style) {
            Some(parent) => parent,
            None => String::from_str("."),
        }
    }
}

/// The walk of a pull starts at the local path itself, whether or not it is
/// an existing directory; a local directory is its own start in either
/// direction; a local file of a push starts the walk at the directory that
/// holds it, or at `.` when its path has no parent.
pub proof fn lemma_search_start_law(
    mode: TransferMode,
    local: Seq<char>,
    local_is_dir: bool,
    style: PathStyle,
)
    ensures
        spec_search_start(TransferMode::Pull, local, local_is_dir, style) == local,
        spec_search_start(mode, local, true, style) == local,
        spec_parent(style, local) matches Some(q) ==> spec_search_start(
            TransferMode::Push,
            local,
            false,
            style,
        ) == q,
        spec_parent(style, local) is None ==> spec_search_start(
            TransferMode::Push,
            local,
            false,
            style,
        ) == "."@,
{
}

/// The file looked at in a directory.
pub open spec fn spec_candidate(style: PathStyle, dir: Seq<char>) -> Seq<char> {
    spec_join(style, dir, ".gitignore"@)
}

/// The file looked at in `dir`: `dir` joined with `.gitignore`.
pub fn gitignore_candidate(dir: &str, style: PathStyle) -> (candidate: String)
    ensures
        candidate@ == spec_candidate(style, dir@),
{
    path_join(dir, ".gitignore", style)
}

/// What comes after looking at `dir`: its `.gitignore` when that is a
/// regular file, else its parent, else the end of the walk.
pub open spec fn spec_search_step(style: PathStyle, dir: Seq<char>, candidate_is_file: bool) -> GitignoreStepView {
    if candidate_is_file {
        GitignoreStepView::Found(spec_candidate(style, dir))
    } else {
        match spec_parent(style, dir) {
            Some(parent) => GitignoreStepView::Up(parent),
            None => GitignoreStepView::NotFound,
        }
    }
}

/// What comes after looking at `dir`, given whether its `.gitignore` is a
/// regular file.
pub fn gitignore_search_step(dir: &str, style: PathStyle, candidate_is_file: bool) -> (step:
    GitignoreStep)
    ensures
        step@ == spec_search_step(style, dir@, candidate_is_file),
{
    if candidate_is_file {
        GitignoreStep::Found(gitignore_candidate(dir, style))
    } else {
        match path_parent(dir, style) {
            Some(parent) => GitignoreStep::Up(parent),
            None => GitignoreStep::NotFound,
        }
    }
}

/// The `.gitignore` of the nearest directory, `dir` included, whose
/// `.gitignore` is a regular file (as `is_file` says), walking up parent by parent.
pub open spec fn nearest_gitignore(
    style: PathStyle,
    dir: Seq<char>,
    is_file: spec_fn(Seq<char>) -> bool,
) -> Option<Seq<char>>
    decreases dir.len(),
{
    let candidate = spec_candidate(style, dir);
    if is_file(candidate) {
        Some(candidate)
    } else {
        match spec_parent(style, dir) {
            Some(parent) => {
                proof {
                    lemma_parent_shorter(style, dir);
                }
                nearest_gitignore(style, parent, is_file)
            },
            None => None,
        }
    }
}

/// The directory `n` levels above `dir` (`dir` itself for 0), if there is one.
pub open spec fn ancestor(style: PathStyle, dir: Seq<char>, n: nat) -> Option<Seq<char>>
    decreases n,
{
    if n == 0 {
        Some(dir)
    } else {
        match spec_parent(style, dir) {
            Some(parent) => ancestor(style, parent, (n - 1) as nat),
            None => None,
        }
    }
}

/// Each step of the walk keeps to the nearest `.gitignore`, and the walk
/// ends: a step that finds a file finds the nearest one, a step up leads to
/// a shorter path with the same nearest `.gitignore`, and a step that ends
/// the walk means there is none.
pub proof fn lemma_search_step_follows_nearest(
    style: PathStyle,
    dir: Seq<char>,
    is_file: spec_fn(Seq<char>) -> bool,
)
    ensures
        match spec_search_step(style, dir, is_file(spec_candidate(style, dir))) {
            GitignoreStepView::Found(path) => nearest_gitignore(style, dir, is_file) == Some(path),
            GitignoreStepView::Up(parent) => parent.len() < dir.len() && nearest_gitignore(
                style,
                parent,
                is_file,
            ) == nearest_gitignore(style, dir, is_file),
            GitignoreStepView::NotFound => nearest_gitignore(style, dir, is_file) is None,
        },
{
    lemma_parent_shorter(style, dir);
}

proof fn lemma_nearest_found_at(
    style: PathStyle,
    dir: Seq<char>,
    is_file: spec_fn(Seq<char>) -> bool,
) -> (n: nat)
    requires
        nearest_gitignore(style, dir, is_file) is Some,
    ensures
        ancestor(style, dir, n) is Some,
        nearest_gitignore(style, dir, is_file) == Some(
            spec_candidate(style, ancestor(style, dir, n).unwrap()),
        ),
        is_file(spec_candidate(style, ancestor(style, dir, n).unwrap())),
        forall|m: nat|
            m < n ==> (#[trigger] ancestor(style, dir, m)) is Some && !is_file(
                spec_candidate(style, ancestor(style, dir, m).unwrap()),
            ),
    decreases dir.len(),
{
    lemma_parent_shorter(style, dir);
    if is_file(spec_candidate(style, dir)) {
        0
    } else {
        let parent = spec_parent(style, dir).unwrap();
        let k = lemma_nearest_found_at(style, parent, is_file);
        assert forall|m: nat| m < k + 1 implies (#[trigger] ancestor(style, dir, m)) is Some
            && !is_file(spec_candidate(style, ancestor(style, dir, m).unwrap())) by {
            if m > 0 {
                assert(ancestor(style, dir, m) == ancestor(style, parent, (m - 1) as nat));
            }
        }
        assert(ancestor(style, dir, k + 1) == ancestor(style, parent, k));
        k + 1
    }
}

proof fn lemma_nearest_none(
    style: PathStyle,
    dir: Seq<char>,
    is_file: spec_fn(Seq<char>) -> bool,
    n: nat,
)
    requires
        nearest_gitignore(style, dir, is_file) is None,
    ensures
        ancestor(style, dir, n) is Some ==> !is_file(
            spec_candidate(style, ancestor(style, dir, n).unwrap()),
        ),
    decreases dir.len(),
{
    lemma_parent_shorter(style, dir);
    if n > 0 {
        match spec_parent(style, dir) {
            Some(parent) => {
                lemma_nearest_none(style, parent, is_file, (n - 1) as nat);
            },
            None => {},
        }
    }
}

/// The walk finds the nearest `.gitignore`: when it finds one, that file
/// belongs to some ancestor of the start (the start included), is a regular
/// file, and no closer ancestor has one; when it finds none, no ancestor has one.
pub proof fn lemma_nearest_gitignore_is_nearest(
    style: PathStyle,
    dir: Seq<char>,
    is_file: spec_fn(Seq<char>) -> bool,
)
    ensures
        match nearest_gitignore(style, dir, is_file) {
            Some(path) => exists|n: nat|
                {
                    &&& #[trigger] ancestor(style, dir, n) is Some
                    &&& path == spec_candidate(style, ancestor(style, dir, n).unwrap())
                    &&& is_file(path)
                    &&& forall|m: nat|
                        m < n ==> (#[trigger] ancestor(style, dir, m)) is Some && !is_file(
                            spec_candidate(style, ancestor(style, dir, m).unwrap()),
                        )
                },
            None => forall|n: nat|
                (#[trigger] ancestor(style, dir, n)) is Some ==> !is_file(
                    spec_candidate(style, ancestor(style, dir, n).unwrap()),
                ),
        },
{
    match nearest_gitignore(style, dir, is_file) {
        Some(path) => {
            let n = lemma_nearest_found_at(style, dir, is_file);
            assert(ancestor(style, dir, n) is Some);
        },
        None => {
            assert forall|n: nat| (#[trigger] ancestor(style, dir, n)) is Some implies !is_file(
                spec_candidate(style, ancestor(style, dir, n).unwrap()),
            ) by {
                lemma_nearest_none(style, dir, is_file, n);
            }
        },
    }
}

} // verus!
