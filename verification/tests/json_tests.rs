use workspace_engine::model::{Workspace, WorkspaceSourceType, WorkspaceStatus};
use workspace_engine::store::WorkspaceStore;

fn record(id: &str, name: &str) -> Workspace {
    Workspace {
        id: id.to_string(),
        name: name.to_string(),
        source_type: WorkspaceSourceType::Github,
        source: "https://github.com/acme/widgets".to_string(),
        repo_root_path: "/data/repo-cache/github/acme__widgets".to_string(),
        worktree_path: format!("/data/workspaces/{id}"),
        branch: format!("workspace/{id}-ab12"),
        base_ref: Some("origin/main".to_string()),
        status: WorkspaceStatus::Ready,
        created_at: "2024-05-01T10:20:30.400Z".to_string(),
        updated_at: "2024-05-02T10:20:30.400Z".to_string(),
        last_opened_at: None,
    }
}

#[test]
fn registry_round_trip_preserves_records_and_order() {
    let mut store = WorkspaceStore::new("/data");
    store.insert(record("ws_a", "First"));
    store.insert(record("ws_b", "Second"));
    store.insert(record("ws_c", "Third"));
    store.set_active("ws_b").unwrap();

    let text = store.to_json();
    let reloaded = WorkspaceStore::from_json("/data", &text).unwrap();

    let before = store.list();
    let after = reloaded.list();
    assert_eq!(after.len(), 3);
    for i in 0..3 {
        assert_eq!(after[i].id, before[i].id);
        assert_eq!(after[i].name, before[i].name);
        assert_eq!(after[i].source, before[i].source);
        assert_eq!(after[i].repo_root_path, before[i].repo_root_path);
        assert_eq!(after[i].worktree_path, before[i].worktree_path);
        assert_eq!(after[i].branch, before[i].branch);
        assert_eq!(after[i].base_ref, before[i].base_ref);
        assert_eq!(after[i].status, before[i].status);
        assert_eq!(after[i].created_at, before[i].created_at);
        assert_eq!(after[i].updated_at, before[i].updated_at);
        assert_eq!(after[i].last_opened_at, before[i].last_opened_at);
    }
    assert_eq!(reloaded.active_workspace_id(), Some("ws_b".to_string()));
}

#[test]
fn registry_round_trip_keeps_quotes_backslashes_and_null_fields() {
    let mut odd = record("ws_q", "quote\" and back\\slash");
    odd.base_ref = None;
    odd.last_opened_at = Some("2024-06-01T00:00:00.000Z".to_string());
    odd.status = WorkspaceStatus::Archived;
    let mut store = WorkspaceStore::new("/data");
    store.insert(odd);

    let text = store.to_json();
    let reloaded = WorkspaceStore::from_json("/data", &text).unwrap();
    let after = reloaded.list();
    assert_eq!(after[0].name, "quote\" and back\\slash");
    assert_eq!(after[0].base_ref, None);
    assert_eq!(
        after[0].last_opened_at.as_deref(),
        Some("2024-06-01T00:00:00.000Z")
    );
    assert_eq!(after[0].status, WorkspaceStatus::Archived);
    assert_eq!(reloaded.active_workspace_id(), None);
}

#[test]
fn registry_text_is_plain_json_with_camel_case_keys() {
    let mut store = WorkspaceStore::new("/data");
    store.insert(record("ws_a", "First"));
    store.set_active("ws_a").unwrap();

    let text = store.to_json();
    let stamped = &store.list()[0];
    let value: serde_json::Value = serde_json::from_str(&text).unwrap();
    assert_eq!(value["activeWorkspaceId"], "ws_a");
    let items = value["workspaces"].as_array().unwrap();
    assert_eq!(items.len(), 1);
    assert_eq!(items[0]["id"], "ws_a");
    assert_eq!(items[0]["name"], "First");
    assert_eq!(items[0]["sourceType"], "github");
    assert_eq!(items[0]["source"], "https://github.com/acme/widgets");
    assert_eq!(items[0]["repoRootPath"], "/data/repo-cache/github/acme__widgets");
    assert_eq!(items[0]["worktreePath"], "/data/workspaces/ws_a");
    assert_eq!(items[0]["branch"], "workspace/ws_a-ab12");
    assert_eq!(items[0]["baseRef"], "origin/main");
    assert_eq!(items[0]["status"], "ready");
    assert_eq!(items[0]["createdAt"], "2024-05-01T10:20:30.400Z");
    assert_eq!(items[0]["updatedAt"], stamped.updated_at.as_str());
    assert_eq!(
        items[0]["lastOpenedAt"],
        stamped.last_opened_at.clone().unwrap().as_str()
    );
}

#[test]
fn empty_registry_round_trips() {
    let store = WorkspaceStore::new("/data");
    let text = store.to_json();
    assert_eq!(text, "{\"workspaces\":[],\"activeWorkspaceId\":null}");
    let reloaded = WorkspaceStore::from_json("/data", &text).unwrap();
    assert!(reloaded.list().is_empty());
    assert_eq!(reloaded.active_workspace_id(), None);
}

#[test]
fn malformed_registry_text_is_rejected_as_serialization_error() {
    let err = WorkspaceStore::from_json("/data", "not json at all").unwrap_err();
    assert!(err.message().contains("Serialization error"));

    let err = WorkspaceStore::from_json("/data", "{\"workspaces\":[").unwrap_err();
    assert!(err.message().contains("Serialization error"));
}

#[test]
fn registry_with_duplicate_ids_is_rejected() {
    let mut store = WorkspaceStore::new("/data");
    store.insert(record("ws_a", "First"));
    let text = store.to_json();
    let twice = text.replace(
        "],\"activeWorkspaceId\"",
        &format!(
            ",{}],\"activeWorkspaceId\"",
            &text["{\"workspaces\":[".len()..text.find("],\"activeWorkspaceId\"").unwrap()]
        ),
    );
    let err = WorkspaceStore::from_json("/data", &twice).unwrap_err();
    assert!(err.message().contains("invariants"));
}

#[test]
fn registry_with_unknown_active_id_is_rejected() {
    let text = "{\"workspaces\":[],\"activeWorkspaceId\":\"ws_ghost\"}";
    let err = WorkspaceStore::from_json("/data", text).unwrap_err();
    assert!(err.message().contains("invariants"));
}
