use workspace_engine::errors::WorkspaceError;
use workspace_engine::lifecycle::{
    build_workspace, cleanup_step, next_workspace_id, persist_workspace, start_cleanup,
    workspace_suffix, CleanupAction, CleanupEvent, CleanupStep,
};
use workspace_engine::model::{PreparedWorkspace, WorkspaceSourceType, WorkspaceStatus};
use workspace_engine::store::WorkspaceStore;

fn prepared() -> PreparedWorkspace {
    PreparedWorkspace {
        repo_root_path: "/tmp/fixture/repo".to_string(),
        worktree_path: "/tmp/fixture/repo/workspaces/kat-154-ab12".to_string(),
        branch: "workspace/kat-154-ab12".to_string(),
        base_ref: "main".to_string(),
    }
}

#[test]
fn built_workspace_merges_provisioning_result_with_fresh_identity() {
    let id = next_workspace_id();
    let w = build_workspace(
        id.clone(),
        "KAT-154".to_string(),
        WorkspaceSourceType::Local,
        "/tmp/fixture/repo".to_string(),
        prepared(),
    );
    assert_eq!(w.id, id);
    assert_eq!(w.name, "KAT-154");
    assert_eq!(w.source_type, WorkspaceSourceType::Local);
    assert_eq!(w.source, "/tmp/fixture/repo");
    assert_eq!(w.repo_root_path, "/tmp/fixture/repo");
    assert_eq!(w.worktree_path, "/tmp/fixture/repo/workspaces/kat-154-ab12");
    assert_eq!(w.branch, "workspace/kat-154-ab12");
    assert_eq!(w.base_ref.as_deref(), Some("main"));
    assert_eq!(w.status, WorkspaceStatus::Ready);
    assert_eq!(w.created_at, w.updated_at);
    assert!(w.last_opened_at.is_none());
    assert_eq!(workspace_suffix(&w.id).len(), 4);
}

#[test]
fn persist_workspace_inserts_and_activates_in_one_step() {
    let mut store = WorkspaceStore::new("/tmp/appdata");
    let w = build_workspace(
        next_workspace_id(),
        "KAT-154".to_string(),
        WorkspaceSourceType::Local,
        "/tmp/fixture/repo".to_string(),
        prepared(),
    );
    let id = w.id.clone();
    let returned = persist_workspace(&mut store, w).unwrap();
    assert_eq!(returned.id, id);
    assert_eq!(store.active_workspace_id(), Some(id.clone()));
    let listed = store.list();
    assert_eq!(listed.len(), 1);
    assert_eq!(listed[0].id, id);
    assert!(listed[0].last_opened_at.is_some());
}

#[test]
fn cleanup_of_absent_path_is_a_no_op_success() {
    let step = start_cleanup("/tmp/gone".to_string());
    let (state, action) = match step {
        CleanupStep::Continue(s, a) => (s, a),
        other => panic!("expected a path check, got {:?}", other),
    };
    match &action {
        CleanupAction::CheckPathExists(p) => assert_eq!(p, "/tmp/gone"),
        other => panic!("expected a path check, got {:?}", other),
    }
    match cleanup_step(state, CleanupEvent::PathChecked(false)) {
        CleanupStep::Done(Ok(())) => {}
        other => panic!("expected a no-op success, got {:?}", other),
    }
}

#[test]
fn cleanup_prefers_git_and_falls_back_to_directory_removal() {
    let step = start_cleanup("/tmp/wt".to_string());
    let (state, _) = match step {
        CleanupStep::Continue(s, a) => (s, a),
        other => panic!("expected a path check, got {:?}", other),
    };
    let step = cleanup_step(state, CleanupEvent::PathChecked(true));
    let (state, action) = match step {
        CleanupStep::Continue(s, a) => (s, a),
        other => panic!("expected a git removal, got {:?}", other),
    };
    match &action {
        CleanupAction::GitWorktreeRemove(p) => assert_eq!(p, "/tmp/wt"),
        other => panic!("expected a git removal, got {:?}", other),
    }
    let step = cleanup_step(state, CleanupEvent::GitRemoveTried(false));
    let (state, action) = match step {
        CleanupStep::Continue(s, a) => (s, a),
        other => panic!("expected a directory removal, got {:?}", other),
    };
    match &action {
        CleanupAction::RemoveDirAll(p) => assert_eq!(p, "/tmp/wt"),
        other => panic!("expected a directory removal, got {:?}", other),
    }
    match cleanup_step(state, CleanupEvent::DirRemoved(Err("denied".to_string()))) {
        CleanupStep::Done(Err(WorkspaceError::Io(m))) => assert_eq!(m, "denied"),
        other => panic!("expected an I/O failure, got {:?}", other),
    }
}

#[test]
fn cleanup_stops_after_successful_git_removal() {
    let step = start_cleanup("/tmp/wt".to_string());
    let (state, _) = match step {
        CleanupStep::Continue(s, a) => (s, a),
        other => panic!("expected a path check, got {:?}", other),
    };
    let step = cleanup_step(state, CleanupEvent::PathChecked(true));
    let (state, _) = match step {
        CleanupStep::Continue(s, a) => (s, a),
        other => panic!("expected a git removal, got {:?}", other),
    };
    match cleanup_step(state, CleanupEvent::GitRemoveTried(true)) {
        CleanupStep::Done(Ok(())) => {}
        other => panic!("expected success, got {:?}", other),
    }
}
