use tsdl::git::{clone, clone_fast, resolve_git_ref, GitAction, RepoObservation};

#[test]
fn resolve_prepends_v_to_version_shorthand() {
    assert_eq!(resolve_git_ref("0.22.0").0, "v0.22.0");
    assert_eq!(resolve_git_ref("1.0").0, "v1.0");
    assert_eq!(resolve_git_ref("7").0, "v7");
}

#[test]
fn resolve_keeps_v_prefixed_version() {
    assert_eq!(resolve_git_ref("v0.22.0").0, "v0.22.0");
}

#[test]
fn resolve_keeps_branch_names() {
    assert_eq!(resolve_git_ref("master").0, "master");
    assert_eq!(resolve_git_ref("HEAD").0, "HEAD");
    assert_eq!(resolve_git_ref("1.2.x").0, "1.2.x");
    assert_eq!(resolve_git_ref("").0, "");
}

#[test]
fn resolve_rejects_components_that_overflow() {
    assert_eq!(resolve_git_ref("4294967296").0, "4294967296");
    assert_eq!(resolve_git_ref("4294967295").0, "v4294967295");
}

#[test]
fn resolve_keeps_commit_ids_and_truncates_display() {
    let sha = "6a469068cacb5e3955bb16ad8dfff0dd792883c9";
    let r = resolve_git_ref(sha);
    assert_eq!(r.0, sha);
    assert_eq!(r.display_string(), "6a46906");
}

#[test]
fn display_keeps_short_refs_whole() {
    let r = resolve_git_ref("master");
    assert_eq!(r.display_string(), "master");
}

fn up_to_date(repo: &str, head: &str) -> RepoObservation {
    RepoObservation {
        remote_url: format!("{repo}\n"),
        valid_git: true,
        head: format!("{head}\n"),
    }
}

#[test]
fn update_is_idempotent_once_at_the_ref() {
    let repo = "https://github.com/tree-sitter/tree-sitter-rust";
    let sha = "6a469068cacb5e3955bb16ad8dfff0dd792883c9";
    let obs = up_to_date(repo, sha);
    let plan = clone_fast(&obs, repo, sha);
    assert!(plan.is_empty());
}

#[test]
fn update_resets_and_fetches_when_head_differs() {
    let repo = "https://example.com/r";
    let obs = up_to_date(repo, "0000000000000000000000000000000000000000");
    let plan = clone_fast(&obs, repo, "v1.0.0");
    assert_eq!(plan.len(), 3);
    assert!(matches!(plan[0], GitAction::ResetHard));
    assert!(matches!(&plan[1], GitAction::Fetch { git_ref } if git_ref == "v1.0.0"));
    assert!(matches!(plan[2], GitAction::ResetFetchHead));
}

#[test]
fn update_wipes_and_reinitializes_on_remote_mismatch() {
    let obs = up_to_date("https://example.com/old", "abc");
    let plan = clone_fast(&obs, "https://example.com/new", "v1");
    assert_eq!(plan.len(), 7);
    assert!(matches!(plan[0], GitAction::RemovePath));
    assert!(matches!(plan[1], GitAction::RemovePath));
    assert!(matches!(plan[2], GitAction::CreateDir));
    assert!(matches!(plan[3], GitAction::Init));
    assert!(matches!(&plan[4], GitAction::AddOrigin { repo } if repo == "https://example.com/new"));
    assert!(matches!(&plan[5], GitAction::Fetch { git_ref } if git_ref == "v1"));
    assert!(matches!(plan[6], GitAction::ResetFetchHead));
}

#[test]
fn update_initializes_an_invalid_directory() {
    let obs = RepoObservation {
        remote_url: "https://example.com/r\n".to_string(),
        valid_git: false,
        head: String::new(),
    };
    let plan = clone_fast(&obs, "https://example.com/r", "v1");
    assert_eq!(plan.len(), 6);
    assert!(matches!(plan[0], GitAction::RemovePath));
    assert!(matches!(plan[1], GitAction::CreateDir));
    assert!(matches!(plan[2], GitAction::Init));
}

#[test]
fn clone_pulls_when_the_directory_exists() {
    let plan = clone(true, "https://example.com/r");
    assert_eq!(plan.len(), 1);
    assert!(matches!(plan[0], GitAction::Pull));
    let plan = clone(false, "https://example.com/r");
    assert_eq!(plan.len(), 1);
    assert!(matches!(&plan[0], GitAction::CloneRepo { repo } if repo == "https://example.com/r"));
}
