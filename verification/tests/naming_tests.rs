use workspace_engine::lifecycle::{next_workspace_id, workspace_suffix};
use workspace_engine::model::{derive_workspace_branch_name, slugify_name};

#[test]
fn slugify_lowercases_and_collapses_symbol_runs() {
    assert_eq!(slugify_name("KAT 154!!"), "kat-154");
}

#[test]
fn slugify_trims_edges_and_collapses_inner_runs() {
    assert_eq!(slugify_name("  --Big  Project!! v2--  "), "big-project-v2");
    assert_eq!(slugify_name("a"), "a");
    assert_eq!(slugify_name("A-B"), "a-b");
}

#[test]
fn slugify_falls_back_to_workspace_for_empty_or_symbol_input() {
    assert_eq!(slugify_name(""), "workspace");
    assert_eq!(slugify_name("!!! ??? ***"), "workspace");
}

#[test]
fn slugify_is_idempotent_on_sample_inputs() {
    for input in ["KAT 154!!", "", "---", "Mixed CASE names 42", "déjà vu"] {
        let once = slugify_name(input);
        let twice = slugify_name(&once);
        assert_eq!(once, twice);
    }
}

#[test]
fn branch_name_is_workspace_slash_slug_dash_suffix() {
    assert_eq!(
        derive_workspace_branch_name("KAT 154!!", "ab12"),
        "workspace/kat-154-ab12"
    );
    assert_eq!(
        derive_workspace_branch_name("", "zz99"),
        "workspace/workspace-zz99"
    );
}

#[test]
fn workspace_suffix_takes_four_characters_after_prefix() {
    assert_eq!(workspace_suffix("ws_abcd1234"), "abcd");
    assert_eq!(workspace_suffix("ws_ab"), "ab");
    assert_eq!(workspace_suffix("nope"), "ws");
    assert_eq!(workspace_suffix(""), "ws");
}

#[test]
fn fresh_workspace_ids_have_the_documented_shape() {
    let id = next_workspace_id();
    assert_eq!(id.len(), 35);
    assert!(id.starts_with("ws_"));
    assert!(id[3..].chars().all(|c| c.is_ascii_hexdigit() && !c.is_ascii_uppercase()));
    let other = next_workspace_id();
    assert_ne!(id, other);
    assert_eq!(workspace_suffix(&id).len(), 4);
}
