use tsdl::config::{ParserConfig, ParserTable};
use tsdl::consts::TSDL_FROM;
use tsdl::languages::{collect_languages, default_repo, final_languages, get_language_coords};

fn table(entries: &[(&str, ParserConfig)]) -> ParserTable {
    let mut t = ParserTable::new();
    for (name, cfg) in entries {
        t.push(name.to_string(), cfg.clone());
    }
    t
}

#[test]
fn default_repo_derives_from_the_base_url() {
    let url = default_repo("rust").expect("a valid URL");
    assert_eq!(url, format!("{TSDL_FROM}rust"));
}

#[test]
fn coords_of_an_unconfigured_language() {
    let (script, git_ref, repo) = get_language_coords("rust", None);
    assert!(script.is_none());
    assert_eq!(git_ref.0, "HEAD");
    assert_eq!(repo.expect("derived URL"), format!("{TSDL_FROM}rust"));
}

#[test]
fn coords_resolve_a_bare_ref() {
    let t = table(&[("json", ParserConfig::Ref("0.21.0".to_string()))]);
    let (script, git_ref, repo) = get_language_coords("json", Some(&t));
    assert!(script.is_none());
    assert_eq!(git_ref.0, "v0.21.0");
    assert_eq!(repo.expect("derived URL"), format!("{TSDL_FROM}json"));
}

#[test]
fn coords_take_the_override_and_script() {
    let t = table(&[(
        "cobol",
        ParserConfig::Full {
            build_script: Some("make".to_string()),
            git_ref: "master".to_string(),
            from: Some("https://example.com/tree-sitter-cobol".to_string()),
        },
    )]);
    let (script, git_ref, repo) = get_language_coords("cobol", Some(&t));
    assert_eq!(script.as_deref(), Some("make"));
    assert_eq!(git_ref.0, "master");
    assert_eq!(repo.expect("override URL"), "https://example.com/tree-sitter-cobol");
}

#[test]
fn url_parsing_normalizes_the_override() {
    let t = table(&[(
        "x",
        ParserConfig::Full {
            build_script: None,
            git_ref: "HEAD".to_string(),
            from: Some("https://example.com".to_string()),
        },
    )]);
    let (_, _, repo) = get_language_coords("x", Some(&t));
    assert_eq!(repo.expect("parsed URL"), "https://example.com/");
}

#[test]
fn requested_languages_win_and_are_deduplicated() {
    let t = table(&[
        ("json", ParserConfig::Ref("1".to_string())),
        ("rust", ParserConfig::Ref("1".to_string())),
    ]);
    let req = vec!["php".to_string(), "rust".to_string(), "php".to_string()];
    let langs = final_languages(Some(&req), Some(&t));
    assert_eq!(langs, vec!["php".to_string(), "rust".to_string()]);
}

#[test]
fn empty_request_falls_back_to_configured_parsers() {
    let t = table(&[
        ("json", ParserConfig::Ref("1".to_string())),
        ("rust", ParserConfig::Ref("1".to_string())),
    ]);
    let req: Vec<String> = vec![];
    let langs = final_languages(Some(&req), Some(&t));
    assert_eq!(langs, vec!["json".to_string(), "rust".to_string()]);
    assert!(final_languages(None, None).is_empty());
}

#[test]
fn collect_languages_builds_one_task_per_language() {
    let t = table(&[("json", ParserConfig::Ref("0.21.0".to_string()))]);
    let req = vec!["json".to_string()];
    let tasks = collect_languages(
        Some(&req),
        Some(&t),
        "/tmp/tsdl",
        "/out",
        "libtree-sitter-",
        true,
        false,
        "so",
        "/tmp/tsdl/tree-sitter-linux-x64",
    )
    .expect("one valid language");
    assert_eq!(tasks.len(), 1);
    let task = &tasks[0];
    assert_eq!(task.name, "json");
    assert_eq!(task.build_dir, "/tmp/tsdl/tree-sitter-json");
    assert_eq!(task.git_ref.0, "v0.21.0");
    assert_eq!(task.repo, format!("{TSDL_FROM}json"));
    assert_eq!(task.out_dir, "/out");
    assert!(task.native);
    assert!(!task.wasm);
}

fn bad(from: &str) -> ParserConfig {
    ParserConfig::Full {
        build_script: None,
        git_ref: "HEAD".to_string(),
        from: Some(from.to_string()),
    }
}

#[test]
fn two_unresolvable_languages_are_both_reported() {
    let t = table(&[("alpha", bad("::not a url::")), ("beta", bad("also bad"))]);
    let req = vec!["alpha".to_string(), "beta".to_string()];
    let err = collect_languages(
        Some(&req),
        Some(&t),
        "/tmp/tsdl",
        "/out",
        "libtree-sitter-",
        true,
        false,
        "so",
        "/cli",
    )
    .expect_err("both URLs are invalid");
    assert_eq!(err.related.len(), 2);
    let message = err.message();
    assert!(message.starts_with("Could not figure out all languages:"));
    assert!(message.contains("alpha"));
    assert!(message.contains("beta"));
}

#[test]
fn one_bad_language_does_not_hide_the_good_one() {
    let t = table(&[("alpha", bad("::not a url::"))]);
    let req = vec!["alpha".to_string(), "beta".to_string()];
    let err = collect_languages(
        Some(&req),
        Some(&t),
        "/tmp/tsdl",
        "/out",
        "libtree-sitter-",
        true,
        false,
        "so",
        "/cli",
    )
    .expect_err("alpha's URL is invalid");
    assert_eq!(err.related.len(), 1);
    assert_eq!(err.related[0].name, "alpha");
}
