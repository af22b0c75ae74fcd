//! The lifecycle layer: fresh workspace ids and their derived suffixes,
//! assembly of a `Workspace` record from a provisioning result, the
//! commit of a new record into the registry, and the cleanup decisions
//! taken when a workspace's files are removed.

use vstd::prelude::*;

verus! {

use crate::errors::WorkspaceError;
use crate::model::{now_iso8601, PreparedWorkspace, Workspace, WorkspaceSourceType,
    WorkspaceStatus};
use crate::store::{find_ws, has_ws, lemma_find_ws, stamped_active, WorkspaceStore};
use crate::strings::{chars_to_string, chars_vec};
use vstd::string::StrSliceExecFns;
use vstd::string::StringExecFns;

/// Lower-case hexadecimal digits.
pub open spec fn is_hex_lower(c: char) -> bool {
    ('0' <= c && c <= '9') || ('a' <= c && c <= 'f')
}

/// Relies on `uuid::Uuid::new_v4` and its simple formatting: a fresh
/// random v4 UUID rendered as 32 lower-case hexadecimal digits. The
/// value is random, so nothing more is promised of it.
#[verifier::external_body]
fn fresh_uuid_simple() -> (r: String)
    ensures
        r@.len() == 32,
        forall|i: int| 0 <= i < r@.len() ==> is_hex_lower(#[trigger] r@[i]),
{
    uuid::Uuid::new_v4().simple().to_string()
}

/// A fresh workspace id: `ws_` followed by 32 lower-case hexadecimal
/// digits of a random UUID.
pub fn next_workspace_id() -> (r: String)
    ensures
        r@.len() == 35,
        r@.take(3) == "ws_"@,
        forall|i: int| 3 <= i < r@.len() ==> is_hex_lower(#[trigger] r@[i]),
{
    let u = fresh_uuid_simple();
    let mut s: String = String::from_str("ws_");
    s.append(u.as_str());
    proof {
        reveal_strlit("ws_");
        assert(s@.take(3) =~= "ws_"@);
    }
    s
}

/// The short suffix derived from a workspace id: the first four
/// characters after the fixed `ws_` prefix (fewer if the id is shorter),
/// or the literal `ws` when the prefix is absent.
pub open spec fn spec_suffix(id: Seq<char>) -> Seq<char> {
    if id.len() >= 3 && id.take(3) == "ws_"@ {
        let rest = id.skip(3);
        rest.take(
            if rest.len() < 4 {
                rest.len() as int
            } else {
                4int
            },
        )
    } else {
        "ws"@
    }
}

/// Derive the short disambiguating suffix from a workspace id. A pure
/// function of the id's text, documented as part of id generation so
/// that branch and directory names can be reproduced from the id alone.
pub fn workspace_suffix(workspace_id: &str) -> (r: String)
    ensures
        r@ == spec_suffix(workspace_id@),
{
    let cs = chars_vec(workspace_id);
    let n: usize = cs.len();
    proof {
        reveal_strlit("ws_");
        assert("ws_"@ =~= seq!['w', 's', '_']);
    }
    if n >= 3 && cs[0] == 'w' && cs[1] == 's' && cs[2] == '_' {
        proof {
            assert(workspace_id@.take(3) =~= "ws_"@);
        }
        let end: usize = if n - 3 < 4 {
            n
        } else {
            7
        };
        let mut out: Vec<char> = Vec::new();
        let mut i: usize = 3;
        while i < end
            invariant
                3 <= i <= end,
                end <= cs@.len(),
                cs@ == workspace_id@,
                out@ == cs@.subrange(3, i as int),
            decreases end - i,
        {
            out.push(cs[i]);
            i = i + 1;
            proof {
                assert(out@ =~= cs@.subrange(3, i as int));
            }
        }
        proof {
            let rest = workspace_id@.skip(3);
            let take_len: int = if rest.len() < 4 {
                rest.len() as int
            } else {
                4int
            };
            assert(out@ =~= rest.take(take_len));
        }
        chars_to_string(&out)
    } else {
        proof {
            if workspace_id@.len() >= 3 {
                let t = workspace_id@.take(3);
                if t == "ws_"@ {
                    assert(t[0] == 'w' && t[1] == 's' && t[2] == '_');
                    assert(false);
                }
            }
        }
        String::from_str("ws")
    }
}

/// `w` is the record assembled for a creation that finished at time
/// `now`: the provisioning result merged with a fresh id and name,
/// status `Ready`, and matching creation/update timestamps.
pub open spec fn built_workspace(
    id: String,
    name: String,
    source_type: WorkspaceSourceType,
    source: String,
    prepared: PreparedWorkspace,
    now: Seq<char>,
    w: Workspace,
) -> bool {
    &&& w.id == id
    &&& w.name == name
    &&& w.source_type == source_type
    &&& w.source == source
    &&& w.repo_root_path == prepared.repo_root_path
    &&& w.worktree_path == prepared.worktree_path
    &&& w.branch == prepared.branch
    &&& w.base_ref matches Some(b) && b == prepared.base_ref
    &&& w.status == WorkspaceStatus::Ready
    &&& w.created_at@ == now
    &&& w.updated_at@ == now
    &&& w.last_opened_at is None
}

/// Assemble the persisted record for a freshly provisioned workspace,
/// stamped with the given creation time.
pub fn build_workspace_at(
    id: String,
    name: String,
    source_type: WorkspaceSourceType,
    source: String,
    prepared: PreparedWorkspace,
    now: &str,
) -> (w: Workspace)
    ensures
        built_workspace(id, name, source_type, source, prepared, now@, w),
{
    Workspace {
        id,
        name,
        source_type,
        source,
        repo_root_path: prepared.repo_root_path,
        worktree_path: prepared.worktree_path,
        branch: prepared.branch,
        base_ref: Some(prepared.base_ref),
        status: WorkspaceStatus::Ready,
        created_at: String::from_str(now),
        updated_at: String::from_str(now),
        last_opened_at: None,
    }
}

/// Assemble the persisted record for a freshly provisioned workspace,
/// stamped with the current time.
pub fn build_workspace(
    id: String,
    name: String,
    source_type: WorkspaceSourceType,
    source: String,
    prepared: PreparedWorkspace,
) -> (w: Workspace)
    ensures
        exists|t: Seq<char>| built_workspace(id, name, source_type, source, prepared, t, w),
{
    let timestamp = now_iso8601();
    let w = build_workspace_at(id, name, source_type, source, prepared, timestamp.as_str());
    proof {
        assert(built_workspace(id, name, source_type, source, prepared, timestamp@, w));
    }
    w
}

/// Commit a freshly built record: append it to the registry and mark it
/// active, in one mutation. The caller guarantees what the registry
/// invariants demand of a new record; the record handed back is the
/// caller's copy, untouched by the activation stamp.
pub fn persist_workspace(store: &mut WorkspaceStore, workspace: Workspace) -> (r: Result<
    Workspace,
    WorkspaceError,
>)
    requires
        old(store).wf(),
        !has_ws(old(store).records(), workspace.id@),
        workspace.worktree_path@ != workspace.repo_root_path@,
        workspace.branch@ != "main"@,
        workspace.branch@ != "master"@,
    ensures
        final(store).wf(),
        final(store).data_dir() == old(store).data_dir(),
        final(store).records().len() == old(store).records().len() + 1,
        forall|j: int|
            0 <= j < old(store).records().len() ==> final(store).records()[j] == old(
                store,
            ).records()[j],
        exists|t: Seq<char>|
            stamped_active(
                workspace,
                #[trigger] final(store).records()[old(store).records().len() as int],
                t,
            ),
        final(store).active_id() == Some(workspace.id@),
        r matches Ok(w) && w == workspace,
{
    store.insert(workspace.clone());
    proof {
        let s = store.records();
        lemma_find_ws(s, workspace.id@);
        assert(s[s.len() - 1].id@ == workspace.id@);
        assert(has_ws(s, workspace.id@));
        let f = find_ws(s, workspace.id@);
        assert(f != -1);
        if f < s.len() - 1 {
            assert(old(store).records()[f].id@ == workspace.id@);
            assert(has_ws(old(store).records(), workspace.id@));
            assert(false);
        }
    }
    match store.set_active(workspace.id.as_str()) {
        Ok(_u) => Ok(workspace),
        Err(e) => {
            proof {
                assert(false);
            }
            Err(e)
        },
    }
}

/// External work for worktree cleanup.
#[derive(Debug)]
pub enum CleanupAction {
    /// Does this path exist on disk?
    CheckPathExists(String),
    /// `git worktree remove --force <path>`; report whether it succeeded.
    GitWorktreeRemove(String),
    /// Delete this directory tree.
    RemoveDirAll(String),
}

/// The driver's report of one performed cleanup action.
#[derive(Debug)]
pub enum CleanupEvent {
    PathChecked(bool),
    GitRemoveTried(bool),
    DirRemoved(Result<(), String>),
}

/// Where a cleanup run stands, named for the event it awaits.
#[derive(Debug)]
pub enum CleanupState {
    PathKnown { path: String },
    GitTried { path: String },
    DirGone { path: String },
}

/// One turn of cleanup: more external work, or the final outcome.
#[derive(Debug)]
pub enum CleanupStep {
    Continue(CleanupState, CleanupAction),
    Done(Result<(), WorkspaceError>),
}

/// Which event each cleanup state awaits.
pub open spec fn cleanup_expects(state: CleanupState, event: CleanupEvent) -> bool {
    match state {
        CleanupState::PathKnown { .. } => event matches CleanupEvent::PathChecked(_),
        CleanupState::GitTried { .. } => event matches CleanupEvent::GitRemoveTried(_),
        CleanupState::DirGone { .. } => event matches CleanupEvent::DirRemoved(_),
    }
}

/// What `start_cleanup` returns: the path's existence is checked first.
pub open spec fn cleanup_start_post(path: String, r: CleanupStep) -> bool {
    &&& r matches CleanupStep::Continue(s, a)
    &&& s matches CleanupState::PathKnown { path: p }
    &&& p == path
    &&& a matches CleanupAction::CheckPathExists(cp)
    &&& cp@ == path@
}

/// What `cleanup_step` returns: an absent path is a no-op success; a
/// successful git worktree removal finishes; a failed one falls back to
/// an unconditional directory delete, whose failure is the only error.
pub open spec fn cleanup_step_post(state: CleanupState, event: CleanupEvent, r: CleanupStep) -> bool {
    match state {
        CleanupState::PathKnown { path } => match event {
            CleanupEvent::PathChecked(b) => if !b {
                r matches CleanupStep::Done(res) && res matches Ok(u)
            } else {
                {
                    &&& r matches CleanupStep::Continue(s, a)
                    &&& s matches CleanupState::GitTried { path: p }
                    &&& p == path
                    &&& a matches CleanupAction::GitWorktreeRemove(gp)
                    &&& gp@ == path@
                }
            },
            _ => true,
        },
        CleanupState::GitTried { path } => match event {
            CleanupEvent::GitRemoveTried(ok) => if ok {
                r matches CleanupStep::Done(res) && res matches Ok(u)
            } else {
                {
                    &&& r matches CleanupStep::Continue(s, a)
                    &&& s matches CleanupState::DirGone { path: p }
                    &&& p == path
                    &&& a matches CleanupAction::RemoveDirAll(dp)
                    &&& dp@ == path@
                }
            },
            _ => true,
        },
        CleanupState::DirGone { path } => match event {
            CleanupEvent::DirRemoved(res) => match res {
                Ok(u) => r matches CleanupStep::Done(res2) && res2 matches Ok(u2),
                Err(m) => {
                    &&& r matches CleanupStep::Done(res2)
                    &&& res2 matches Err(e)
                    &&& e matches WorkspaceError::Io(em)
                    &&& em@ == m@
                },
            },
            _ => true,
        },
    }
}

/// Begin removing a workspace's worktree files: first ask whether the
/// path exists at all.
pub fn start_cleanup(worktree_path: String) -> (r: CleanupStep)
    ensures
        cleanup_start_post(worktree_path, r),
{
    let check = worktree_path.clone();
    CleanupStep::Continue(
        CleanupState::PathKnown { path: worktree_path },
        CleanupAction::CheckPathExists(check),
    )
}

/// Advance cleanup by one performed action.
pub fn cleanup_step(state: CleanupState, event: CleanupEvent) -> (r: CleanupStep)
    requires
        cleanup_expects(state, event),
    ensures
        cleanup_step_post(state, event, r),
{
    match (state, event) {
        (CleanupState::PathKnown { path }, CleanupEvent::PathChecked(b)) => {
            if !b {
                CleanupStep::Done(Ok(()))
            } else {
                let gp = path.clone();
                CleanupStep::Continue(
                    CleanupState::GitTried { path },
                    CleanupAction::GitWorktreeRemove(gp),
                )
            }
        },
        (CleanupState::GitTried { path }, CleanupEvent::GitRemoveTried(ok)) => {
            if ok {
                CleanupStep::Done(Ok(()))
            } else {
                let dp = path.clone();
                CleanupStep::Continue(
                    CleanupState::DirGone { path },
                    CleanupAction::RemoveDirAll(dp),
                )
            }
        },
        (CleanupState::DirGone { path }, CleanupEvent::DirRemoved(res)) => {
            match res {
                Ok(_u) => CleanupStep::Done(Ok(())),
                Err(m) => CleanupStep::Done(Err(WorkspaceError::Io(m))),
            }
        },
        (s, e) => {
            proof {
                assert(!cleanup_expects(s, e));
                assert(false);
            }
            CleanupStep::Done(Ok(()))
        },
    }
}

} // verus!
