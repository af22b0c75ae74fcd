use workspace_engine::ranking::{
    normalize_search_tokens, rank_repositories, repo_match_score, GitHubRepoOption,
};

fn candidate(name: &str, url: &str, updated_at: &str) -> GitHubRepoOption {
    GitHubRepoOption {
        name_with_owner: name.to_string(),
        url: url.to_string(),
        is_private: false,
        updated_at: updated_at.to_string(),
    }
}

#[test]
fn empty_query_scores_every_candidate_at_baseline_one() {
    let tokens = normalize_search_tokens("");
    assert!(tokens.is_empty());
    let a = candidate("acme/widgets", "https://github.com/acme/widgets", "2024-01-01");
    let b = candidate("other/tools", "https://github.com/other/tools", "2023-01-01");
    assert_eq!(repo_match_score(&a, &tokens), 1);
    assert_eq!(repo_match_score(&b, &tokens), 1);
    let ranked = rank_repositories(vec![a, b], "");
    assert_eq!(ranked.len(), 2);
}

#[test]
fn tokens_are_lowercased_and_split_on_whitespace() {
    let tokens = normalize_search_tokens("  Acme \t WIDgets \n");
    assert_eq!(tokens, vec!["acme".to_string(), "widgets".to_string()]);
}

#[test]
fn candidates_missing_a_token_score_zero() {
    let tokens = normalize_search_tokens("acme");
    let miss = candidate("other/tools", "https://github.com/other/tools", "2024-01-01");
    assert_eq!(repo_match_score(&miss, &tokens), 0);
}

#[test]
fn matching_is_case_insensitive_on_both_sides() {
    let tokens = normalize_search_tokens("ACME");
    let hit = candidate("Acme/Widgets", "https://github.com/Acme/Widgets", "2024-01-01");
    assert!(repo_match_score(&hit, &tokens) > 0);
}

#[test]
fn exact_name_match_outscores_prefix_and_substring_matches() {
    let tokens = normalize_search_tokens("acme/widgets");
    let exact = candidate("acme/widgets", "https://github.com/acme/widgets", "2024-01-01");
    let prefix = candidate(
        "acme/widgets-extra",
        "https://github.com/acme/widgets-extra",
        "2024-01-01",
    );
    let substring = candidate(
        "team/old-acme/widgets-fork",
        "https://github.com/team/forks",
        "2024-01-01",
    );
    let exact_score = repo_match_score(&exact, &tokens);
    let prefix_score = repo_match_score(&prefix, &tokens);
    assert_eq!(exact_score, 160);
    assert_eq!(prefix_score, 90);
    assert!(exact_score > prefix_score);
    assert!(prefix_score > repo_match_score(&substring, &tokens));
}

#[test]
fn query_excludes_non_matching_and_ranks_exact_match_first() {
    let exact = candidate("acme", "https://github.com/acme/acme", "2020-01-01");
    let substring = candidate(
        "team/acme-widgets",
        "https://github.com/team/acme-widgets",
        "2024-01-01",
    );
    let unrelated = candidate("other/tools", "https://github.com/other/tools", "2024-01-01");
    let ranked = rank_repositories(vec![substring, unrelated, exact], "acme");
    let names: Vec<&str> = ranked.iter().map(|r| r.name_with_owner.as_str()).collect();
    assert_eq!(names, vec!["acme", "team/acme-widgets"]);
}

#[test]
fn ties_break_by_recency_then_name() {
    let older = candidate("acme/alpha", "https://github.com/acme/alpha", "2023-01-01");
    let newer = candidate("acme/zeta", "https://github.com/acme/zeta", "2024-01-01");
    let ranked = rank_repositories(vec![older, newer], "");
    let names: Vec<&str> = ranked.iter().map(|r| r.name_with_owner.as_str()).collect();
    assert_eq!(names, vec!["acme/zeta", "acme/alpha"]);

    let left = candidate("acme/alpha", "https://github.com/acme/alpha", "2024-01-01");
    let right = candidate("acme/beta", "https://github.com/acme/beta", "2024-01-01");
    let ranked = rank_repositories(vec![right, left], "");
    let names: Vec<&str> = ranked.iter().map(|r| r.name_with_owner.as_str()).collect();
    assert_eq!(names, vec!["acme/alpha", "acme/beta"]);
}

#[test]
fn results_are_capped_at_twenty() {
    let mut many = Vec::new();
    for i in 0..25 {
        many.push(candidate(
            &format!("acme/repo-{i:02}"),
            &format!("https://github.com/acme/repo-{i:02}"),
            "2024-01-01",
        ));
    }
    let ranked = rank_repositories(many, "acme");
    assert_eq!(ranked.len(), 20);
    assert_eq!(ranked[0].name_with_owner, "acme/repo-00");
}
