use workspace_engine::errors::WorkspaceError;
use workspace_engine::github::{
    github_step, new_github_step, parse_github_repo_url, split_repository_name, start_github,
    start_new_github, GithubAction, GithubEvent, GithubRequest, GithubStep, NewGithubAction,
    NewGithubEvent, NewGithubRequest, NewGithubStep,
};

fn github_request(repo_url: &str, clone_root: Option<&str>) -> GithubRequest {
    GithubRequest {
        repo_url: repo_url.to_string(),
        workspace_name: "KAT-154".to_string(),
        clone_root_path: clone_root.map(|s| s.to_string()),
        branch_name: None,
        base_ref: None,
        suffix: "ab12".to_string(),
        app_data_dir: "/tmp/appdata".to_string(),
    }
}

fn new_github_request(repository_name: &str) -> NewGithubRequest {
    NewGithubRequest {
        repository_name: repository_name.to_string(),
        workspace_name: "KAT-154".to_string(),
        clone_root_path: None,
        branch_name: None,
        base_ref: None,
        suffix: "ab12".to_string(),
        app_data_dir: "/tmp/appdata".to_string(),
    }
}

#[test]
fn rejects_non_github_remote_urls() {
    let err = match start_github(github_request("https://gitlab.com/org/repo", None)) {
        GithubStep::Fail(e) => e,
        other => panic!("expected a failure, got {:?}", other),
    };
    assert!(err.message().contains("github.com"));
}

#[test]
fn parses_repository_name_with_optional_owner() {
    let without_owner = split_repository_name("kat-154-created").unwrap();
    assert_eq!(without_owner.0, None);
    assert_eq!(without_owner.1, "kat-154-created".to_string());

    let with_owner = split_repository_name("kata-sh/kat-154-created.git").unwrap();
    assert_eq!(with_owner.0, Some("kata-sh".to_string()));
    assert_eq!(with_owner.1, "kat-154-created".to_string());
}

#[test]
fn rejects_invalid_repository_name_shapes() {
    let err = split_repository_name("owner/repo/extra").unwrap_err();
    assert!(err.message().contains("<owner>/<name>"));
}

#[test]
fn strips_every_trailing_git_suffix_from_repository_names() {
    let split = split_repository_name("widgets.git.git").unwrap();
    assert_eq!(split.0, None);
    assert_eq!(split.1, "widgets".to_string());
}

#[test]
fn rejects_empty_repository_name() {
    let err = split_repository_name("   .git").unwrap_err();
    assert!(err.message().contains("required"));
}

#[test]
fn url_parsing_accepts_plain_and_git_suffixed_repositories_identically() {
    let plain = parse_github_repo_url("https://github.com/acme/widgets").unwrap();
    let suffixed = parse_github_repo_url("https://github.com/acme/widgets.git").unwrap();
    assert_eq!(plain, ("acme".to_string(), "widgets".to_string()));
    assert_eq!(suffixed, plain);
}

#[test]
fn url_parsing_rejects_wrong_host_naming_the_expected_one() {
    let err = parse_github_repo_url("https://gitlab.com/acme/widgets").unwrap_err();
    assert!(err.message().contains("github.com"));
}

#[test]
fn url_parsing_rejects_single_segment_and_non_https_urls() {
    let err = parse_github_repo_url("https://github.com/acme").unwrap_err();
    assert!(err.message().contains("Invalid github repository URL"));

    let err = parse_github_repo_url("http://github.com/acme/widgets").unwrap_err();
    assert!(err.message().contains("github.com"));

    let err = parse_github_repo_url("not a url").unwrap_err();
    assert!(err.message().contains("https://github.com/<owner>/<repo>"));
}

#[test]
fn existing_cache_clone_is_refreshed_then_handed_to_provisioning() {
    let step = start_github(github_request("https://github.com/acme/widgets", None));
    let (state, action) = match step {
        GithubStep::Continue(s, a) => (s, a),
        other => panic!("expected a cache check, got {:?}", other),
    };
    match &action {
        GithubAction::CheckPathExists(p) => {
            assert_eq!(p, "/tmp/appdata/repo-cache/github/acme__widgets");
        }
        other => panic!("expected a path check, got {:?}", other),
    }
    let step = github_step(state, GithubEvent::PathChecked(true));
    let (state, action) = match step {
        GithubStep::Continue(s, a) => (s, a),
        other => panic!("expected a fetch, got {:?}", other),
    };
    match &action {
        GithubAction::FetchAll(p) => {
            assert_eq!(p, "/tmp/appdata/repo-cache/github/acme__widgets");
        }
        other => panic!("expected a fetch, got {:?}", other),
    }
    let step = github_step(state, GithubEvent::GitRan(Ok(String::new())));
    match step {
        GithubStep::Provision(req) => {
            assert_eq!(req.repo_path, "/tmp/appdata/repo-cache/github/acme__widgets");
            assert_eq!(req.workspaces_root, "/tmp/appdata/workspaces");
            assert_eq!(req.workspace_name, "KAT-154");
        }
        other => panic!("expected a provisioning handoff, got {:?}", other),
    }
}

#[test]
fn missing_cache_clone_is_cloned_under_the_supplied_root() {
    let step = start_github(github_request(
        "https://github.com/acme/widgets.git",
        Some("/custom/cache"),
    ));
    let (state, _) = match step {
        GithubStep::Continue(s, a) => (s, a),
        other => panic!("expected a cache check, got {:?}", other),
    };
    let step = github_step(state, GithubEvent::PathChecked(false));
    let (state, action) = match step {
        GithubStep::Continue(s, a) => (s, a),
        other => panic!("expected a parent mkdir, got {:?}", other),
    };
    match &action {
        GithubAction::MakeDirAll(p) => assert_eq!(p, "/custom/cache"),
        other => panic!("expected a mkdir, got {:?}", other),
    }
    let step = github_step(state, GithubEvent::DirMade(Ok(())));
    let (state, action) = match step {
        GithubStep::Continue(s, a) => (s, a),
        other => panic!("expected a clone, got {:?}", other),
    };
    match &action {
        GithubAction::CloneRepo { cwd, url, dest } => {
            assert_eq!(cwd, "/tmp/appdata");
            assert_eq!(url, "https://github.com/acme/widgets.git");
            assert_eq!(dest, "/custom/cache/acme__widgets");
        }
        other => panic!("expected a clone, got {:?}", other),
    }
    let step = github_step(state, GithubEvent::GitRan(Err("clone failed".to_string())));
    match step {
        GithubStep::Fail(WorkspaceError::GitFailed(m)) => assert_eq!(m, "clone failed"),
        other => panic!("expected a git failure, got {:?}", other),
    }
}

#[test]
fn new_repository_with_explicit_owner_skips_the_identity_query() {
    let step = start_new_github(new_github_request("kata-sh/kat-154-created"));
    let (state, action) = match step {
        NewGithubStep::Continue(s, a) => (s, a),
        other => panic!("expected a mkdir, got {:?}", other),
    };
    match &action {
        NewGithubAction::MakeDirAll(p) => {
            assert_eq!(p, "/tmp/appdata/repo-cache/github-created");
        }
        other => panic!("expected a mkdir, got {:?}", other),
    }
    let step = new_github_step(state, NewGithubEvent::DirMade(Ok(())));
    let (state, action) = match step {
        NewGithubStep::Continue(s, a) => (s, a),
        other => panic!("expected a destination check, got {:?}", other),
    };
    match &action {
        NewGithubAction::CheckPathExists(p) => {
            assert_eq!(p, "/tmp/appdata/repo-cache/github-created/kat-154-created");
        }
        other => panic!("expected a destination check, got {:?}", other),
    }
    let step = new_github_step(state, NewGithubEvent::PathChecked(false));
    let (state, action) = match step {
        NewGithubStep::Continue(s, a) => (s, a),
        other => panic!("expected a repo creation, got {:?}", other),
    };
    match &action {
        NewGithubAction::CreateRepo { cwd, identifier } => {
            assert_eq!(cwd, "/tmp/appdata/repo-cache/github-created");
            assert_eq!(identifier, "kata-sh/kat-154-created");
        }
        other => panic!("expected a repo creation, got {:?}", other),
    }
    let step = new_github_step(state, NewGithubEvent::GhRan(Ok(String::new())));
    match step {
        NewGithubStep::Provision(req, repo_url) => {
            assert_eq!(repo_url, "https://github.com/kata-sh/kat-154-created");
            assert_eq!(
                req.repo_path,
                "/tmp/appdata/repo-cache/github-created/kat-154-created"
            );
            assert_eq!(req.workspaces_root, "/tmp/appdata/workspaces");
        }
        other => panic!("expected a provisioning handoff, got {:?}", other),
    }
}

#[test]
fn new_repository_without_owner_queries_the_authenticated_identity() {
    let step = start_new_github(new_github_request("widgets"));
    let (state, _) = match step {
        NewGithubStep::Continue(s, a) => (s, a),
        other => panic!("expected a mkdir, got {:?}", other),
    };
    let step = new_github_step(state, NewGithubEvent::DirMade(Ok(())));
    let (state, action) = match step {
        NewGithubStep::Continue(s, a) => (s, a),
        other => panic!("expected an identity query, got {:?}", other),
    };
    match &action {
        NewGithubAction::QueryAuthenticatedOwner(p) => {
            assert_eq!(p, "/tmp/appdata/repo-cache/github-created");
        }
        other => panic!("expected an identity query, got {:?}", other),
    }
    let step = new_github_step(state, NewGithubEvent::GhRan(Ok("  acme \n".to_string())));
    match step {
        NewGithubStep::Continue(_, NewGithubAction::CheckPathExists(p)) => {
            assert_eq!(p, "/tmp/appdata/repo-cache/github-created/widgets");
        }
        other => panic!("expected a destination check, got {:?}", other),
    }
}

#[test]
fn blank_authenticated_identity_asks_the_caller_to_authenticate() {
    let step = start_new_github(new_github_request("widgets"));
    let (state, _) = match step {
        NewGithubStep::Continue(s, a) => (s, a),
        other => panic!("expected a mkdir, got {:?}", other),
    };
    let step = new_github_step(state, NewGithubEvent::DirMade(Ok(())));
    let (state, _) = match step {
        NewGithubStep::Continue(s, a) => (s, a),
        other => panic!("expected an identity query, got {:?}", other),
    };
    let step = new_github_step(state, NewGithubEvent::GhRan(Ok("   ".to_string())));
    match step {
        NewGithubStep::Fail(WorkspaceError::InvalidInput(m)) => {
            assert!(m.contains("gh auth login"));
        }
        other => panic!("expected an authentication error, got {:?}", other),
    }
}

#[test]
fn existing_clone_destination_is_rejected() {
    let step = start_new_github(new_github_request("kata-sh/widgets"));
    let (state, _) = match step {
        NewGithubStep::Continue(s, a) => (s, a),
        other => panic!("expected a mkdir, got {:?}", other),
    };
    let step = new_github_step(state, NewGithubEvent::DirMade(Ok(())));
    let (state, _) = match step {
        NewGithubStep::Continue(s, a) => (s, a),
        other => panic!("expected a destination check, got {:?}", other),
    };
    let step = new_github_step(state, NewGithubEvent::PathChecked(true));
    match step {
        NewGithubStep::Fail(WorkspaceError::InvalidInput(m)) => {
            assert_eq!(
                m,
                "Clone destination already exists: /tmp/appdata/repo-cache/github-created/widgets"
            );
        }
        other => panic!("expected InvalidInput, got {:?}", other),
    }
}
