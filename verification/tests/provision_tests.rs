use workspace_engine::errors::WorkspaceError;
use workspace_engine::model::PreparedWorkspace;
use workspace_engine::provision::{
    provision_step, start_provision, BranchProbeResult, ProvisionAction, ProvisionEvent,
    ProvisionRequest, ProvisionState, ProvisionStep,
};

fn request(branch_name: Option<&str>, base_ref: Option<&str>) -> ProvisionRequest {
    ProvisionRequest {
        repo_path: "/tmp/fixture/repo".to_string(),
        workspace_name: "KAT-154".to_string(),
        branch_name: branch_name.map(|s| s.to_string()),
        base_ref: base_ref.map(|s| s.to_string()),
        suffix: "ab12".to_string(),
        workspaces_root: "/tmp/fixture/repo/workspaces".to_string(),
    }
}

fn advance(step: ProvisionStep, event: ProvisionEvent) -> ProvisionStep {
    match step {
        ProvisionStep::Continue(state, _) => provision_step(state, event),
        ProvisionStep::Done(r) => panic!("machine finished early: {:?}", r),
    }
}

fn finish(step: ProvisionStep) -> Result<PreparedWorkspace, WorkspaceError> {
    match step {
        ProvisionStep::Done(r) => r,
        ProvisionStep::Continue(state, action) => {
            panic!("machine still running at {:?} wanting {:?}", state, action)
        }
    }
}

#[test]
fn creates_local_workspace_in_separate_worktree_path() {
    let mut step = start_provision(request(None, None));
    step = advance(step, ProvisionEvent::PathChecked(true));
    step = advance(
        step,
        ProvisionEvent::Canonicalized(Ok("/tmp/fixture/repo".to_string())),
    );
    step = advance(step, ProvisionEvent::GitRan(Ok("true".to_string())));
    step = advance(step, ProvisionEvent::BranchProbed(BranchProbeResult::Missing));
    step = advance(step, ProvisionEvent::GitRan(Ok("main".to_string())));
    step = advance(step, ProvisionEvent::PathChecked(false));
    step = advance(step, ProvisionEvent::DirMade(Ok(())));
    step = advance(step, ProvisionEvent::GitRan(Ok(String::new())));
    step = advance(
        step,
        ProvisionEvent::Canonicalized(Ok(
            "/tmp/fixture/repo/workspaces/kat-154-ab12".to_string()
        )),
    );
    let created = finish(step).unwrap();

    assert!(created.worktree_path.contains("workspaces"));
    assert_ne!(created.worktree_path, created.repo_root_path);
    assert_eq!(created.branch, "workspace/kat-154-ab12");
    assert_eq!(created.base_ref, "main");
}

#[test]
fn rejects_main_or_master_branch_creation() {
    let mut step = start_provision(request(Some("main"), None));
    step = advance(step, ProvisionEvent::PathChecked(true));
    step = advance(
        step,
        ProvisionEvent::Canonicalized(Ok("/tmp/fixture/repo".to_string())),
    );
    step = advance(step, ProvisionEvent::GitRan(Ok("true".to_string())));
    let err = finish(step).unwrap_err();

    assert!(err.message().contains("main/master"));
}

#[test]
fn rejects_blank_workspace_name_before_any_action() {
    let mut req = request(None, None);
    req.workspace_name = "   ".to_string();
    match start_provision(req) {
        ProvisionStep::Done(Err(WorkspaceError::InvalidInput(m))) => {
            assert_eq!(m, "Workspace name must not be empty");
        }
        other => panic!("expected immediate rejection, got {:?}", other),
    }
}

#[test]
fn rejects_missing_repository_path_before_any_git_action() {
    let step = start_provision(request(None, None));
    match &step {
        ProvisionStep::Continue(_, ProvisionAction::CheckPathExists(p)) => {
            assert_eq!(p, "/tmp/fixture/repo");
        }
        other => panic!("expected a path check first, got {:?}", other),
    }
    let err = finish(advance(step, ProvisionEvent::PathChecked(false))).unwrap_err();
    match err {
        WorkspaceError::InvalidInput(m) => {
            assert_eq!(m, "Repository path does not exist: /tmp/fixture/repo");
        }
        other => panic!("expected InvalidInput, got {:?}", other),
    }
}

#[test]
fn rejects_branch_that_already_exists() {
    let mut step = start_provision(request(Some("feature/x"), None));
    step = advance(step, ProvisionEvent::PathChecked(true));
    step = advance(
        step,
        ProvisionEvent::Canonicalized(Ok("/tmp/fixture/repo".to_string())),
    );
    step = advance(step, ProvisionEvent::GitRan(Ok("true".to_string())));
    match &step {
        ProvisionStep::Continue(_, ProvisionAction::ProbeBranchRef(_, b)) => {
            assert_eq!(b, "feature/x");
        }
        other => panic!("expected a branch probe, got {:?}", other),
    }
    let err = finish(advance(
        step,
        ProvisionEvent::BranchProbed(BranchProbeResult::Exists),
    ))
    .unwrap_err();
    match err {
        WorkspaceError::InvalidInput(m) => assert_eq!(m, "Branch already exists: feature/x"),
        other => panic!("expected InvalidInput, got {:?}", other),
    }
}

#[test]
fn failed_branch_probe_is_a_git_failure_naming_the_probe() {
    let mut step = start_provision(request(Some("feature/x"), None));
    step = advance(step, ProvisionEvent::PathChecked(true));
    step = advance(
        step,
        ProvisionEvent::Canonicalized(Ok("/tmp/fixture/repo".to_string())),
    );
    step = advance(step, ProvisionEvent::GitRan(Ok("true".to_string())));
    let err = finish(advance(
        step,
        ProvisionEvent::BranchProbed(BranchProbeResult::Failed("boom".to_string())),
    ))
    .unwrap_err();
    match err {
        WorkspaceError::GitFailed(m) => {
            assert_eq!(m, "Failed to check branch existence: boom");
        }
        other => panic!("expected GitFailed, got {:?}", other),
    }
}

#[test]
fn base_ref_falls_back_to_head_when_probes_fail() {
    let mut step = start_provision(request(Some("feature/x"), None));
    step = advance(step, ProvisionEvent::PathChecked(true));
    step = advance(
        step,
        ProvisionEvent::Canonicalized(Ok("/tmp/fixture/repo".to_string())),
    );
    step = advance(step, ProvisionEvent::GitRan(Ok("true".to_string())));
    step = advance(step, ProvisionEvent::BranchProbed(BranchProbeResult::Missing));
    step = advance(step, ProvisionEvent::GitRan(Err("no remote".to_string())));
    step = advance(step, ProvisionEvent::GitRan(Ok(String::new())));
    match &step {
        ProvisionStep::Continue(
            ProvisionState::WorktreeChecked { base_ref, .. },
            ProvisionAction::CheckPathExists(_),
        ) => {
            assert_eq!(base_ref, "HEAD");
        }
        other => panic!("expected the worktree check, got {:?}", other),
    }
}

#[test]
fn supplied_base_ref_skips_the_probes() {
    let mut step = start_provision(request(Some("feature/x"), Some("v1.0")));
    step = advance(step, ProvisionEvent::PathChecked(true));
    step = advance(
        step,
        ProvisionEvent::Canonicalized(Ok("/tmp/fixture/repo".to_string())),
    );
    step = advance(step, ProvisionEvent::GitRan(Ok("true".to_string())));
    step = advance(step, ProvisionEvent::BranchProbed(BranchProbeResult::Missing));
    match &step {
        ProvisionStep::Continue(
            ProvisionState::WorktreeChecked { base_ref, .. },
            ProvisionAction::CheckPathExists(p),
        ) => {
            assert_eq!(base_ref, "v1.0");
            assert_eq!(p, "/tmp/fixture/repo/workspaces/kat-154-ab12");
        }
        other => panic!("expected the worktree check, got {:?}", other),
    }
}

#[test]
fn rejects_existing_worktree_path() {
    let mut step = start_provision(request(Some("feature/x"), Some("v1.0")));
    step = advance(step, ProvisionEvent::PathChecked(true));
    step = advance(
        step,
        ProvisionEvent::Canonicalized(Ok("/tmp/fixture/repo".to_string())),
    );
    step = advance(step, ProvisionEvent::GitRan(Ok("true".to_string())));
    step = advance(step, ProvisionEvent::BranchProbed(BranchProbeResult::Missing));
    let err = finish(advance(step, ProvisionEvent::PathChecked(true))).unwrap_err();
    match err {
        WorkspaceError::InvalidInput(m) => {
            assert_eq!(
                m,
                "Worktree path already exists: /tmp/fixture/repo/workspaces/kat-154-ab12"
            );
        }
        other => panic!("expected InvalidInput, got {:?}", other),
    }
}

#[test]
fn worktree_add_failure_surfaces_the_git_diagnostic() {
    let mut step = start_provision(request(Some("feature/x"), Some("v1.0")));
    step = advance(step, ProvisionEvent::PathChecked(true));
    step = advance(
        step,
        ProvisionEvent::Canonicalized(Ok("/tmp/fixture/repo".to_string())),
    );
    step = advance(step, ProvisionEvent::GitRan(Ok("true".to_string())));
    step = advance(step, ProvisionEvent::BranchProbed(BranchProbeResult::Missing));
    step = advance(step, ProvisionEvent::PathChecked(false));
    step = advance(step, ProvisionEvent::DirMade(Ok(())));
    let err = finish(advance(
        step,
        ProvisionEvent::GitRan(Err("git worktree add failed: fatal".to_string())),
    ))
    .unwrap_err();
    match err {
        WorkspaceError::GitFailed(m) => assert_eq!(m, "git worktree add failed: fatal"),
        other => panic!("expected GitFailed, got {:?}", other),
    }
}
