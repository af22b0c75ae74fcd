use workspace_engine::errors::WorkspaceError;
use workspace_engine::model::{now_iso8601, Workspace, WorkspaceSourceType, WorkspaceStatus};
use workspace_engine::store::WorkspaceStore;

fn sample_workspace(id: &str) -> Workspace {
    Workspace {
        id: id.to_string(),
        name: "KAT-154".to_string(),
        source_type: WorkspaceSourceType::Local,
        source: "/tmp/repo".to_string(),
        repo_root_path: "/tmp/repo".to_string(),
        worktree_path: "/tmp/repo.worktrees/kat-154".to_string(),
        branch: "workspace/kat-154-ws1".to_string(),
        base_ref: Some("main".to_string()),
        status: WorkspaceStatus::Ready,
        created_at: now_iso8601(),
        updated_at: now_iso8601(),
        last_opened_at: None,
    }
}

#[test]
fn saves_and_loads_workspace_registry() {
    let mut store = WorkspaceStore::new("/tmp/appdata");
    store.insert(sample_workspace("ws_1"));
    let serialized = store.to_json();

    let loaded = WorkspaceStore::from_json("/tmp/appdata", &serialized).unwrap();
    assert_eq!(loaded.list().len(), 1);
}

#[test]
fn sets_active_workspace_id() {
    let mut store = WorkspaceStore::new("/tmp/appdata");
    store.insert(sample_workspace("ws_1"));
    store.set_active("ws_1").unwrap();
    assert_eq!(store.active_workspace_id(), Some("ws_1".to_string()));
}

#[test]
fn set_active_returns_not_found_for_missing_id() {
    let store = &mut WorkspaceStore::new("/tmp/appdata");
    let err = store.set_active("ws_missing").unwrap_err();
    assert!(err.message().contains("not found"));
}

#[test]
fn archive_sets_status_and_clears_active_when_archiving_active_workspace() {
    let mut store = WorkspaceStore::new("/tmp/appdata");
    store.insert(sample_workspace("ws_1"));
    store.set_active("ws_1").unwrap();
    assert_eq!(store.active_workspace_id(), Some("ws_1".to_string()));

    store.archive("ws_1").unwrap();

    let workspace = store.list().into_iter().find(|ws| ws.id == "ws_1").unwrap();
    assert_eq!(workspace.status, WorkspaceStatus::Archived);
    assert_eq!(store.active_workspace_id(), None);
}

#[test]
fn archive_preserves_active_when_archiving_non_active_workspace() {
    let mut store = WorkspaceStore::new("/tmp/appdata");
    store.insert(sample_workspace("ws_1"));
    store.insert(sample_workspace("ws_2"));
    store.set_active("ws_2").unwrap();

    store.archive("ws_1").unwrap();

    assert_eq!(store.active_workspace_id(), Some("ws_2".to_string()));
}

#[test]
fn archive_returns_not_found_for_missing_id() {
    let store = &mut WorkspaceStore::new("/tmp/appdata");
    let err = store.archive("ws_missing").unwrap_err();
    assert!(err.message().contains("not found"));
}

#[test]
fn remove_returns_workspace_and_clears_active() {
    let mut store = WorkspaceStore::new("/tmp/appdata");
    store.insert(sample_workspace("ws_1"));
    store.set_active("ws_1").unwrap();

    let removed = store.remove("ws_1").unwrap();
    assert_eq!(removed.id, "ws_1");
    assert_eq!(store.active_workspace_id(), None);
    assert!(store.list().is_empty());
}

#[test]
fn remove_preserves_active_when_removing_non_active_workspace() {
    let mut store = WorkspaceStore::new("/tmp/appdata");
    store.insert(sample_workspace("ws_1"));
    store.insert(sample_workspace("ws_2"));
    store.set_active("ws_2").unwrap();

    store.remove("ws_1").unwrap();

    assert_eq!(store.active_workspace_id(), Some("ws_2".to_string()));
    assert_eq!(store.list().len(), 1);
}

#[test]
fn remove_returns_not_found_for_missing_id() {
    let store = &mut WorkspaceStore::new("/tmp/appdata");
    let err = store.remove("ws_missing").unwrap_err();
    assert!(err.message().contains("not found"));
}

#[test]
fn set_active_stamps_target_and_leaves_others_alone() {
    let mut store = WorkspaceStore::new("/tmp/appdata");
    let mut first = sample_workspace("ws_1");
    first.updated_at = "2020-01-01T00:00:00.000Z".to_string();
    let mut second = sample_workspace("ws_2");
    second.updated_at = "2020-01-01T00:00:00.000Z".to_string();
    store.insert(first);
    store.insert(second);

    store.set_active("ws_2").unwrap();

    let listed = store.list();
    assert_eq!(listed[0].updated_at, "2020-01-01T00:00:00.000Z");
    assert!(listed[0].last_opened_at.is_none());
    assert_ne!(listed[1].updated_at, "2020-01-01T00:00:00.000Z");
    assert_eq!(
        listed[1].last_opened_at.as_deref(),
        Some(listed[1].updated_at.as_str())
    );
}

#[test]
fn registry_path_is_fixed_under_data_dir() {
    let store = WorkspaceStore::new("/srv/data");
    assert_eq!(store.registry_path(), "/srv/data/workspaces/workspaces.json");
}

#[test]
fn error_messages_carry_their_prefixes() {
    assert_eq!(
        WorkspaceError::Io("disk gone".to_string()).message(),
        "IO error: disk gone"
    );
    assert_eq!(
        WorkspaceError::Serde("bad json".to_string()).message(),
        "Serialization error: bad json"
    );
    assert_eq!(
        WorkspaceError::InvalidInput("nope".to_string()).message(),
        "nope"
    );
    assert_eq!(
        WorkspaceError::GitFailed("git broke".to_string()).message(),
        "git broke"
    );
}
