//! Provisioning a workspace from a local repository, as a state machine.
//!
//! The original operation interleaves decisions with external work: git
//! probes, directory checks and the worktree creation itself. All the
//! decisions live here, verified; the driver performs each requested
//! `ProvisionAction` (a git invocation or a filesystem touch), feeds the
//! outcome back as a `ProvisionEvent`, and repeats until `Done`.

use vstd::prelude::*;

verus! {

use crate::errors::WorkspaceError;
use crate::model::{derive_workspace_branch_name, slugify_name, spec_branch_name, spec_slugify,
    PreparedWorkspace};
use crate::strings::{is_blank, join_path, spec_blank, spec_join_path, str_concat, str_eq};

/// The caller-supplied inputs of one provisioning run.
#[derive(Debug)]
pub struct ProvisionRequest {
    pub repo_path: String,
    pub workspace_name: String,
    pub branch_name: Option<String>,
    pub base_ref: Option<String>,
    pub suffix: String,
    pub workspaces_root: String,
}

/// External work the driver must perform next. Every action is either a
/// git invocation in/against the named directory or a filesystem touch.
#[derive(Debug)]
pub enum ProvisionAction {
    /// Does this path exist on disk?
    CheckPathExists(String),
    /// Canonicalize this path.
    CanonicalizePath(String),
    /// `git -C <dir> rev-parse --is-inside-work-tree`
    CheckInsideWorkTree(String),
    /// `git -C <dir> show-ref --verify --quiet refs/heads/<branch>`
    ProbeBranchRef(String, String),
    /// `git -C <dir> symbolic-ref --short refs/remotes/origin/HEAD`
    ProbeRemoteHead(String),
    /// `git -C <dir> branch --show-current`
    ProbeCurrentBranch(String),
    /// Create this directory and its parents.
    MakeDirAll(String),
    /// `git -C <repo> worktree add <path> -b <branch> <base_ref>`
    AddWorktree { repo: String, path: String, branch: String, base_ref: String },
}

/// The outcome of a branch-ref probe: the ref exists, is missing, or the
/// probe itself failed (carrying captured stderr).
#[derive(Debug)]
pub enum BranchProbeResult {
    Exists,
    Missing,
    Failed(String),
}

/// The driver's report of one performed action. `Err` carries the
/// diagnostic text: captured stderr for git work (already phrased by the
/// command runner), the I/O error text for filesystem work.
#[derive(Debug)]
pub enum ProvisionEvent {
    PathChecked(bool),
    Canonicalized(Result<String, String>),
    GitRan(Result<String, String>),
    BranchProbed(BranchProbeResult),
    DirMade(Result<(), String>),
}

/// Where a provisioning run stands, named for the event it awaits.
#[derive(Debug)]
pub enum ProvisionState {
    RepoExists { req: ProvisionRequest },
    RepoCanonical { req: ProvisionRequest },
    RepoVerified { req: ProvisionRequest, repo_root: String },
    BranchProbe { req: ProvisionRequest, repo_root: String, branch: String },
    RemoteHead { req: ProvisionRequest, repo_root: String, branch: String },
    CurrentBranch { req: ProvisionRequest, repo_root: String, branch: String },
    WorktreeChecked {
        req: ProvisionRequest,
        repo_root: String,
        branch: String,
        base_ref: String,
        worktree_path: String,
    },
    DirReady {
        req: ProvisionRequest,
        repo_root: String,
        branch: String,
        base_ref: String,
        worktree_path: String,
    },
    WorktreeAdded { repo_root: String, branch: String, base_ref: String, worktree_path: String },
    WorktreeCanonical { repo_root: String, branch: String, base_ref: String },
}

/// One turn of the machine: more external work, or the final outcome.
#[derive(Debug)]
pub enum ProvisionStep {
    Continue(ProvisionState, ProvisionAction),
    Done(Result<PreparedWorkspace, WorkspaceError>),
}

/// The branch a run settles on: the caller's branch if given and not
/// blank, else `workspace/<slug(name)>-<suffix>`.
pub open spec fn resolved_branch(req: ProvisionRequest) -> Seq<char> {
    match req.branch_name {
        Some(b) => if !spec_blank(b@) {
            b@
        } else {
            spec_branch_name(req.workspace_name@, req.suffix@)
        },
        None => spec_branch_name(req.workspace_name@, req.suffix@),
    }
}

/// The caller's base ref, if given and not blank.
pub open spec fn supplied_base(req: ProvisionRequest) -> Option<Seq<char>> {
    match req.base_ref {
        Some(b) => if !spec_blank(b@) {
            Some(b@)
        } else {
            None
        },
        None => None,
    }
}

/// The worktree directory of a run: `<root>/<slug(name)>-<suffix>`.
pub open spec fn spec_worktree_path(req: ProvisionRequest) -> Seq<char> {
    spec_join_path(req.workspaces_root@, spec_slugify(req.workspace_name@) + "-"@ + req.suffix@)
}

/// The step failed the run with `InvalidInput` carrying exactly `msg`.
pub open spec fn done_invalid(r: ProvisionStep, msg: Seq<char>) -> bool {
    &&& r matches ProvisionStep::Done(res)
    &&& res matches Err(e)
    &&& e matches WorkspaceError::InvalidInput(m)
    &&& m@ == msg
}

/// The step failed the run with `GitFailed` carrying exactly `msg`.
pub open spec fn done_git_failed(r: ProvisionStep, msg: Seq<char>) -> bool {
    &&& r matches ProvisionStep::Done(res)
    &&& res matches Err(e)
    &&& e matches WorkspaceError::GitFailed(m)
    &&& m@ == msg
}

/// The step failed the run with `Io` carrying exactly `msg`.
pub open spec fn done_io(r: ProvisionStep, msg: Seq<char>) -> bool {
    &&& r matches ProvisionStep::Done(res)
    &&& res matches Err(e)
    &&& e matches WorkspaceError::Io(m)
    &&& m@ == msg
}

/// The step moved on to checking whether the worktree directory already
/// exists, with everything resolved so far carried along.
pub open spec fn to_worktree_phase(
    req: ProvisionRequest,
    repo_root: String,
    branch: String,
    base: Seq<char>,
    r: ProvisionStep,
) -> bool {
    &&& r matches ProvisionStep::Continue(s, a)
    &&& s matches ProvisionState::WorktreeChecked {
        req: q,
        repo_root: rr,
        branch: b,
        base_ref: br,
        worktree_path: wp,
    }
    &&& q == req
    &&& rr == repo_root
    &&& b == branch
    &&& br@ == base
    &&& wp@ == spec_worktree_path(req)
    &&& a matches ProvisionAction::CheckPathExists(p)
    &&& p@ == spec_worktree_path(req)
}

/// Which event each state awaits.
pub open spec fn expects(state: ProvisionState, event: ProvisionEvent) -> bool {
    match state {
        ProvisionState::RepoExists { .. } => event matches ProvisionEvent::PathChecked(_),
        ProvisionState::RepoCanonical { .. } => event matches ProvisionEvent::Canonicalized(_),
        ProvisionState::RepoVerified { .. } => event matches ProvisionEvent::GitRan(_),
        ProvisionState::BranchProbe { .. } => event matches ProvisionEvent::BranchProbed(_),
        ProvisionState::RemoteHead { .. } => event matches ProvisionEvent::GitRan(_),
        ProvisionState::CurrentBranch { .. } => event matches ProvisionEvent::GitRan(_),
        ProvisionState::WorktreeChecked { .. } => event matches ProvisionEvent::PathChecked(_),
        ProvisionState::DirReady { .. } => event matches ProvisionEvent::DirMade(_),
        ProvisionState::WorktreeAdded { .. } => event matches ProvisionEvent::GitRan(_),
        ProvisionState::WorktreeCanonical { .. } => event matches ProvisionEvent::Canonicalized(_),
    }
}

/// What `start_provision` returns for a given request.
pub open spec fn start_post(req: ProvisionRequest, r: ProvisionStep) -> bool {
    if spec_blank(req.workspace_name@) {
        done_invalid(r, "Workspace name must not be empty"@)
    } else {
        {
            &&& r matches ProvisionStep::Continue(s, a)
            &&& s matches ProvisionState::RepoExists { req: q }
            &&& q == req
            &&& a matches ProvisionAction::CheckPathExists(p)
            &&& p@ == req.repo_path@
        }
    }
}

/// What `provision_step` returns for a given state and event.
pub open spec fn step_post(state: ProvisionState, event: ProvisionEvent, r: ProvisionStep) -> bool {
    match state {
        ProvisionState::RepoExists { req } => match event {
            ProvisionEvent::PathChecked(b) => if !b {
                done_invalid(r, "Repository path does not exist: "@ + req.repo_path@)
            } else {
                {
                    &&& r matches ProvisionStep::Continue(s, a)
                    &&& s matches ProvisionState::RepoCanonical { req: q }
                    &&& q == req
                    &&& a matches ProvisionAction::CanonicalizePath(p)
                    &&& p@ == req.repo_path@
                }
            },
            _ => true,
        },
        ProvisionState::RepoCanonical { req } => match event {
            ProvisionEvent::Canonicalized(res) => match res {
                Err(m) => done_io(r, m@),
                Ok(root) => {
                    &&& r matches ProvisionStep::Continue(s, a)
                    &&& s matches ProvisionState::RepoVerified { req: q, repo_root: rr }
                    &&& q == req
                    &&& rr == root
                    &&& a matches ProvisionAction::CheckInsideWorkTree(p)
                    &&& p@ == req.repo_path@
                },
            },
            _ => true,
        },
        ProvisionState::RepoVerified { req, repo_root } => match event {
            ProvisionEvent::GitRan(res) => match res {
                Err(m) => done_git_failed(r, m@),
                Ok(out) => if resolved_branch(req) == "main"@ || resolved_branch(req)
                    == "master"@ {
                    done_invalid(r, "Workspace branch cannot be main/master"@)
                } else {
                    {
                        &&& r matches ProvisionStep::Continue(s, a)
                        &&& s matches ProvisionState::BranchProbe { req: q, repo_root: rr, branch: b }
                        &&& q == req
                        &&& rr == repo_root
                        &&& b@ == resolved_branch(req)
                        &&& a matches ProvisionAction::ProbeBranchRef(p, pb)
                        &&& p@ == req.repo_path@
                        &&& pb@ == resolved_branch(req)
                    }
                },
            },
            _ => true,
        },
        ProvisionState::BranchProbe { req, repo_root, branch } => match event {
            ProvisionEvent::BranchProbed(probe) => match probe {
                BranchProbeResult::Exists => done_invalid(r, "Branch already exists: "@ + branch@),
                BranchProbeResult::Failed(stderr) => done_git_failed(
                    r,
                    "Failed to check branch existence: "@ + stderr@,
                ),
                BranchProbeResult::Missing => match supplied_base(req) {
                    Some(base) => to_worktree_phase(req, repo_root, branch, base, r),
                    None => {
                        &&& r matches ProvisionStep::Continue(s, a)
                        &&& s matches ProvisionState::RemoteHead { req: q, repo_root: rr, branch: b }
                        &&& q == req
                        &&& rr == repo_root
                        &&& b == branch
                        &&& a matches ProvisionAction::ProbeRemoteHead(p)
                        &&& p@ == req.repo_path@
                    },
                },
            },
            _ => true,
        },
        ProvisionState::RemoteHead { req, repo_root, branch } => match event {
            ProvisionEvent::GitRan(res) => match res {
                Ok(head) => if !spec_blank(head@) {
                    to_worktree_phase(req, repo_root, branch, head@, r)
                } else {
                    {
                        &&& r matches ProvisionStep::Continue(s, a)
                        &&& s matches ProvisionState::CurrentBranch {
                            req: q,
                            repo_root: rr,
                            branch: b,
                        }
                        &&& q == req
                        &&& rr == repo_root
                        &&& b == branch
                        &&& a matches ProvisionAction::ProbeCurrentBranch(p)
                        &&& p@ == req.repo_path@
                    }
                },
                Err(m) => {
                    &&& r matches ProvisionStep::Continue(s, a)
                    &&& s matches ProvisionState::CurrentBranch { req: q, repo_root: rr, branch: b }
                    &&& q == req
                    &&& rr == repo_root
                    &&& b == branch
                    &&& a matches ProvisionAction::ProbeCurrentBranch(p)
                    &&& p@ == req.repo_path@
                },
            },
            _ => true,
        },
        ProvisionState::CurrentBranch { req, repo_root, branch } => match event {
            ProvisionEvent::GitRan(res) => match res {
                Ok(head) => if !spec_blank(head@) {
                    to_worktree_phase(req, repo_root, branch, head@, r)
                } else {
                    to_worktree_phase(req, repo_root, branch, "HEAD"@, r)
                },
                Err(m) => to_worktree_phase(req, repo_root, branch, "HEAD"@, r),
            },
            _ => true,
        },
        ProvisionState::WorktreeChecked { req, repo_root, branch, base_ref, worktree_path } => match event {
            ProvisionEvent::PathChecked(b) => if b {
                done_invalid(r, "Worktree path already exists: "@ + worktree_path@)
            } else {
                {
                    &&& r matches ProvisionStep::Continue(s, a)
                    &&& s matches ProvisionState::DirReady {
                        req: q,
                        repo_root: rr,
                        branch: b2,
                        base_ref: br,
                        worktree_path: wp,
                    }
                    &&& q == req
                    &&& rr == repo_root
                    &&& b2 == branch
                    &&& br == base_ref
                    &&& wp == worktree_path
                    &&& a matches ProvisionAction::MakeDirAll(p)
                    &&& p@ == req.workspaces_root@
                }
            },
            _ => true,
        },
        ProvisionState::DirReady { req, repo_root, branch, base_ref, worktree_path } => match event {
            ProvisionEvent::DirMade(res) => match res {
                Err(m) => done_io(r, m@),
                Ok(u) => {
                    &&& r matches ProvisionStep::Continue(s, a)
                    &&& s matches ProvisionState::WorktreeAdded {
                        repo_root: rr,
                        branch: b,
                        base_ref: br,
                        worktree_path: wp,
                    }
                    &&& rr == repo_root
                    &&& b == branch
                    &&& br == base_ref
                    &&& wp == worktree_path
                    &&& a matches ProvisionAction::AddWorktree {
                        repo,
                        path,
                        branch: ab,
                        base_ref: abr,
                    }
                    &&& repo@ == req.repo_path@
                    &&& path@ == worktree_path@
                    &&& ab@ == branch@
                    &&& abr@ == base_ref@
                },
            },
            _ => true,
        },
        ProvisionState::WorktreeAdded { repo_root, branch, base_ref, worktree_path } => match event {
            ProvisionEvent::GitRan(res) => match res {
                Err(m) => done_git_failed(r, m@),
                Ok(out) => {
                    &&& r matches ProvisionStep::Continue(s, a)
                    &&& s matches ProvisionState::WorktreeCanonical {
                        repo_root: rr,
                        branch: b,
                        base_ref: br,
                    }
                    &&& rr == repo_root
                    &&& b == branch
                    &&& br == base_ref
                    &&& a matches ProvisionAction::CanonicalizePath(p)
                    &&& p@ == worktree_path@
                },
            },
            _ => true,
        },
        ProvisionState::WorktreeCanonical { repo_root, branch, base_ref } => match event {
            ProvisionEvent::Canonicalized(res) => match res {
                Err(m) => done_io(r, m@),
                Ok(wt) => {
                    &&& r matches ProvisionStep::Done(out)
                    &&& out matches Ok(p)
                    &&& p == (PreparedWorkspace {
                        repo_root_path: repo_root,
                        worktree_path: wt,
                        branch: branch,
                        base_ref: base_ref,
                    })
                },
            },
            _ => true,
        },
    }
}

/// Begin provisioning: validate the workspace name, then ask the driver
/// whether the repository path exists. No external tool is invoked before
/// that first filesystem check.
pub fn start_provision(req: ProvisionRequest) -> (r: ProvisionStep)
    ensures
        start_post(req, r),
{
    if is_blank(req.workspace_name.as_str()) {
        return ProvisionStep::Done(
            Err(
                WorkspaceError::InvalidInput(
                    String::from_str("Workspace name must not be empty"),
                ),
            ),
        );
    }
    let path = req.repo_path.clone();
    ProvisionStep::Continue(
        ProvisionState::RepoExists { req },
        ProvisionAction::CheckPathExists(path),
    )
}

/// Advance the machine by one performed action.
pub fn provision_step(state: ProvisionState, event: ProvisionEvent) -> (r: ProvisionStep)
    requires
        expects(state, event),
    ensures
        step_post(state, event, r),
{
    match (state, event) {
        (ProvisionState::RepoExists { req }, ProvisionEvent::PathChecked(b)) => {
            if !b {
                ProvisionStep::Done(
                    Err(
                        WorkspaceError::InvalidInput(
                            str_concat(
                                "Repository path does not exist: ",
                                req.repo_path.as_str(),
                            ),
                        ),
                    ),
                )
            } else {
                let path = req.repo_path.clone();
                ProvisionStep::Continue(
                    ProvisionState::RepoCanonical { req },
                    ProvisionAction::CanonicalizePath(path),
                )
            }
        },
        (ProvisionState::RepoCanonical { req }, ProvisionEvent::Canonicalized(res)) => {
            match res {
                Err(m) => ProvisionStep::Done(Err(WorkspaceError::Io(m))),
                Ok(root) => {
                    let path = req.repo_path.clone();
                    ProvisionStep::Continue(
                        ProvisionState::RepoVerified { req, repo_root: root },
                        ProvisionAction::CheckInsideWorkTree(path),
                    )
                },
            }
        },
        (ProvisionState::RepoVerified { req, repo_root }, ProvisionEvent::GitRan(res)) => {
            match res {
                Err(m) => ProvisionStep::Done(Err(WorkspaceError::GitFailed(m))),
                Ok(_out) => {
                    let branch: String = match &req.branch_name {
                        Some(b) => {
                            if !is_blank(b.as_str()) {
                                b.clone()
                            } else {
                                derive_workspace_branch_name(
                                    req.workspace_name.as_str(),
                                    req.suffix.as_str(),
                                )
                            }
                        },
                        None => derive_workspace_branch_name(
                            req.workspace_name.as_str(),
                            req.suffix.as_str(),
                        ),
                    };
                    if str_eq(branch.as_str(), "main") || str_eq(branch.as_str(), "master") {
                        ProvisionStep::Done(
                            Err(
                                WorkspaceError::InvalidInput(
                                    String::from_str("Workspace branch cannot be main/master"),
                                ),
                            ),
                        )
                    } else {
                        let path = req.repo_path.clone();
                        let probe_branch = branch.clone();
                        ProvisionStep::Continue(
                            ProvisionState::BranchProbe { req, repo_root, branch },
                            ProvisionAction::ProbeBranchRef(path, probe_branch),
                        )
                    }
                },
            }
        },
        (ProvisionState::BranchProbe { req, repo_root, branch }, ProvisionEvent::BranchProbed(
            probe,
        )) => {
            match probe {
                BranchProbeResult::Exists => ProvisionStep::Done(
                    Err(
                        WorkspaceError::InvalidInput(
                            str_concat("Branch already exists: ", branch.as_str()),
                        ),
                    ),
                ),
                BranchProbeResult::Failed(stderr) => ProvisionStep::Done(
                    Err(
                        WorkspaceError::GitFailed(
                            str_concat("Failed to check branch existence: ", stderr.as_str()),
                        ),
                    ),
                ),
                BranchProbeResult::Missing => {
                    let supplied: Option<String> = match &req.base_ref {
                        Some(b) => {
                            if !is_blank(b.as_str()) {
                                Some(b.clone())
                            } else {
                                None
                            }
                        },
                        None => None,
                    };
                    match supplied {
                        Some(base) => enter_worktree_phase(req, repo_root, branch, base),
                        None => {
                            let path = req.repo_path.clone();
                            ProvisionStep::Continue(
                                ProvisionState::RemoteHead { req, repo_root, branch },
                                ProvisionAction::ProbeRemoteHead(path),
                            )
                        },
                    }
                },
            }
        },
        (ProvisionState::RemoteHead { req, repo_root, branch }, ProvisionEvent::GitRan(res)) => {
            match res {
                Ok(head) => {
                    if !is_blank(head.as_str()) {
                        enter_worktree_phase(req, repo_root, branch, head)
                    } else {
                        let path = req.repo_path.clone();
                        ProvisionStep::Continue(
                            ProvisionState::CurrentBranch { req, repo_root, branch },
                            ProvisionAction::ProbeCurrentBranch(path),
                        )
                    }
                },
                Err(_m) => {
                    let path = req.repo_path.clone();
                    ProvisionStep::Continue(
                        ProvisionState::CurrentBranch { req, repo_root, branch },
                        ProvisionAction::ProbeCurrentBranch(path),
                    )
                },
            }
        },
        (ProvisionState::CurrentBranch { req, repo_root, branch }, ProvisionEvent::GitRan(res)) => {
            match res {
                Ok(head) => {
                    if !is_blank(head.as_str()) {
                        enter_worktree_phase(req, repo_root, branch, head)
                    } else {
                        enter_worktree_phase(req, repo_root, branch, String::from_str("HEAD"))
                    }
                },
                Err(_m) => enter_worktree_phase(req, repo_root, branch, String::from_str("HEAD")),
            }
        },
        (
            ProvisionState::WorktreeChecked { req, repo_root, branch, base_ref, worktree_path },
            ProvisionEvent::PathChecked(b),
        ) => {
            if b {
                ProvisionStep::Done(
                    Err(
                        WorkspaceError::InvalidInput(
                            str_concat("Worktree path already exists: ", worktree_path.as_str()),
                        ),
                    ),
                )
            } else {
                let root = req.workspaces_root.clone();
                ProvisionStep::Continue(
                    ProvisionState::DirReady { req, repo_root, branch, base_ref, worktree_path },
                    ProvisionAction::MakeDirAll(root),
                )
            }
        },
        (
            ProvisionState::DirReady { req, repo_root, branch, base_ref, worktree_path },
            ProvisionEvent::DirMade(res),
        ) => {
            match res {
                Err(m) => ProvisionStep::Done(Err(WorkspaceError::Io(m))),
                Ok(_u) => {
                    let repo = req.repo_path.clone();
                    let path = worktree_path.clone();
                    let ab = branch.clone();
                    let abr = base_ref.clone();
                    ProvisionStep::Continue(
                        ProvisionState::WorktreeAdded { repo_root, branch, base_ref, worktree_path },
                        ProvisionAction::AddWorktree { repo, path, branch: ab, base_ref: abr },
                    )
                },
            }
        },
        (
            ProvisionState::WorktreeAdded { repo_root, branch, base_ref, worktree_path },
            ProvisionEvent::GitRan(res),
        ) => {
            match res {
                Err(m) => ProvisionStep::Done(Err(WorkspaceError::GitFailed(m))),
                Ok(_out) => ProvisionStep::Continue(
                    ProvisionState::WorktreeCanonical { repo_root, branch, base_ref },
                    ProvisionAction::CanonicalizePath(worktree_path),
                ),
            }
        },
        (
            ProvisionState::WorktreeCanonical { repo_root, branch, base_ref },
            ProvisionEvent::Canonicalized(res),
        ) => {
            match res {
                Err(m) => ProvisionStep::Done(Err(WorkspaceError::Io(m))),
                Ok(wt) => ProvisionStep::Done(
                    Ok(
                        PreparedWorkspace {
                            repo_root_path: repo_root,
                            worktree_path: wt,
                            branch,
                            base_ref,
                        },
                    ),
                ),
            }
        },
        (s, e) => {
            proof {
                assert(!expects(s, e));
                assert(false);
            }
            ProvisionStep::Done(Err(WorkspaceError::GitFailed(String::new())))
        },
    }
}

/// Compute the worktree directory and move on to checking it, carrying
/// the resolved base ref.
fn enter_worktree_phase(
    req: ProvisionRequest,
    repo_root: String,
    branch: String,
    base_ref: String,
) -> (r: ProvisionStep)
    ensures
        to_worktree_phase(req, repo_root, branch, base_ref@, r),
{
    let slug = slugify_name(req.workspace_name.as_str());
    let mut dir_name: String = slug;
    dir_name.append("-");
    dir_name.append(req.suffix.as_str());
    let worktree_path = join_path(req.workspaces_root.as_str(), dir_name.as_str());
    let check = worktree_path.clone();
    ProvisionStep::Continue(
        ProvisionState::WorktreeChecked { req, repo_root, branch, base_ref, worktree_path },
        ProvisionAction::CheckPathExists(check),
    )
}

/// Once a run has settled its branch, that branch is not the literal
/// `main` or `master`; earlier states have not settled one yet.
pub open spec fn branch_legal(state: ProvisionState) -> bool {
    match state {
        ProvisionState::RepoExists { .. } => true,
        ProvisionState::RepoCanonical { .. } => true,
        ProvisionState::RepoVerified { .. } => true,
        ProvisionState::BranchProbe { branch, .. } => branch@ != "main"@ && branch@ != "master"@,
        ProvisionState::RemoteHead { branch, .. } => branch@ != "main"@ && branch@ != "master"@,
        ProvisionState::CurrentBranch { branch, .. } => branch@ != "main"@ && branch@
            != "master"@,
        ProvisionState::WorktreeChecked { branch, .. } => branch@ != "main"@ && branch@
            != "master"@,
        ProvisionState::DirReady { branch, .. } => branch@ != "main"@ && branch@ != "master"@,
        ProvisionState::WorktreeAdded { branch, .. } => branch@ != "main"@ && branch@
            != "master"@,
        ProvisionState::WorktreeCanonical { branch, .. } => branch@ != "main"@ && branch@
            != "master"@,
    }
}

/// Stepping preserves branch legality, and a run that finishes
/// successfully never hands back a workspace on `main` or `master`:
/// the machine refused that branch before ever probing or creating one.
pub proof fn lemma_branch_stays_legal(state: ProvisionState, event: ProvisionEvent, r: ProvisionStep)
    requires
        branch_legal(state),
        expects(state, event),
        step_post(state, event, r),
    ensures
        (match r {
            ProvisionStep::Continue(s, a) => branch_legal(s),
            ProvisionStep::Done(res) => match res {
                Ok(p) => p.branch@ != "main"@ && p.branch@ != "master"@,
                Err(e) => true,
            },
        }),
{
    match state {
        ProvisionState::RepoVerified { req, repo_root } => {
            match event {
                ProvisionEvent::GitRan(res) => {
                    match res {
                        Ok(out) => {
                            if resolved_branch(req) == "main"@ || resolved_branch(req)
                                == "master"@ {
                            } else {
                                assert(r matches ProvisionStep::Continue(s, a) ==> branch_legal(
                                    s,
                                ));
                            }
                        },
                        Err(m) => {},
                    }
                },
                _ => {},
            }
        },
        ProvisionState::WorktreeCanonical { repo_root, branch, base_ref } => {
            match event {
                ProvisionEvent::Canonicalized(res) => {
                    match res {
                        Ok(wt) => {
                            assert(branch@ != "main"@ && branch@ != "master"@);
                            match r {
                                ProvisionStep::Done(out) => {
                                    match out {
                                        Ok(p) => {
                                            assert(p.branch == branch);
                                        },
                                        Err(e) => {},
                                    }
                                },
                                _ => {},
                            }
                        },
                        Err(m) => {},
                    }
                },
                _ => {},
            }
        },
        ProvisionState::RepoExists { req } => {},
        ProvisionState::RepoCanonical { req } => {},
        ProvisionState::BranchProbe { req, repo_root, branch } => {
            match event {
                ProvisionEvent::BranchProbed(probe) => {
                    match probe {
                        BranchProbeResult::Missing => {
                            match supplied_base(req) {
                                Some(base) => {},
                                None => {},
                            }
                        },
                        _ => {},
                    }
                },
                _ => {},
            }
        },
        ProvisionState::RemoteHead { req, repo_root, branch } => {},
        ProvisionState::CurrentBranch { req, repo_root, branch } => {},
        ProvisionState::WorktreeChecked { req, repo_root, branch, base_ref, worktree_path } => {},
        ProvisionState::DirReady { req, repo_root, branch, base_ref, worktree_path } => {},
        ProvisionState::WorktreeAdded { repo_root, branch, base_ref, worktree_path } => {},
    }
}

/// A provisioning run on a repository path the driver reports as absent
/// fails with `InvalidInput` naming the path, before any git action was
/// ever requested: the one action taken so far was the existence check
/// itself.
pub proof fn lemma_missing_path_rejected_without_git(
    req: ProvisionRequest,
    first: ProvisionStep,
    second: ProvisionStep,
)
    requires
        !spec_blank(req.workspace_name@),
        start_post(req, first),
        first matches ProvisionStep::Continue(s, a) && step_post(
            s,
            ProvisionEvent::PathChecked(false),
            second,
        ),
    ensures
        ({
            &&& first matches ProvisionStep::Continue(s, a)
            &&& a matches ProvisionAction::CheckPathExists(p)
        }),
        done_invalid(second, "Repository path does not exist: "@ + req.repo_path@),
{
}

/// A run whose caller named the branch `main` or `master` fails with
/// `InvalidInput` mentioning `main/master` as soon as the repository
/// check comes back, before any branch was probed or created.
pub proof fn lemma_main_master_rejected(
    req: ProvisionRequest,
    repo_root: String,
    out: String,
    r: ProvisionStep,
)
    requires
        req.branch_name matches Some(b) && (b@ == "main"@ || b@ == "master"@),
        step_post(
            ProvisionState::RepoVerified { req, repo_root },
            ProvisionEvent::GitRan(Ok(out)),
            r,
        ),
    ensures
        done_invalid(r, "Workspace branch cannot be main/master"@),
{
    assert(!spec_blank("main"@) && !spec_blank("master"@)) by {
        reveal_strlit("main");
        reveal_strlit("master");
        assert("main"@[0] == 'm' && "master"@[0] == 'm');
        assert(!crate::strings::is_space_char('m'));
    }
}

/// A run whose resolved branch already exists in the repository fails
/// with `InvalidInput` naming that branch.
pub proof fn lemma_existing_branch_rejected(
    req: ProvisionRequest,
    repo_root: String,
    branch: String,
    r: ProvisionStep,
)
    requires
        step_post(
            ProvisionState::BranchProbe { req, repo_root, branch },
            ProvisionEvent::BranchProbed(BranchProbeResult::Exists),
            r,
        ),
    ensures
        done_invalid(r, "Branch already exists: "@ + branch@),
{
}

} // verus!
