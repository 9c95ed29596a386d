use tsdl::git::Tag;
use tsdl::tree_sitter::{cli_path, download_plan, find_tag, parse_refs, toolchain_repo_dir, Refs};

#[test]
fn test_parse_refs_empty() {
    let stdout = "";
    let refs = parse_refs(stdout);
    assert!(refs.is_empty());
}

#[test]
fn test_parse_refs() {
    let stdout = "abc123\trefs/tags/v1.0.0\nuwu456\trefs/tags/release\nxyz789\trefs/tags/v2.0.0";
    let refs = parse_refs(stdout);
    assert_eq!(refs.get("v1.0.0"), Some(&"abc123".to_string()));
    assert_eq!(refs.get("release"), Some(&"uwu456".to_string()));
    assert_eq!(refs.get("v2.0.0"), Some(&"xyz789".to_string()));
}

#[test]
fn test_find_tag_exact() {
    let mut refs = Refs::new();
    refs.insert("v1.0.0".to_string(), "abc123".to_string());
    let tag = find_tag(&refs, "1.0.0");
    match tag {
        Tag::Exact { sha1, label } => {
            assert_eq!(sha1.display_string(), "abc123");
            assert_eq!(label, "v1.0.0");
        }
        Tag::Ref(_) => panic!("Expected Tag::Exact"),
    }
}

#[test]
fn test_find_tag_ref() {
    let refs = Refs::new();
    let tag = find_tag(&refs, "1.0.0");
    match tag {
        Tag::Ref(git_ref) => {
            assert_eq!(git_ref.display_string(), "1.0.0");
        }
        Tag::Exact { .. } => panic!("Expected Tag::Ref"),
    }
}

#[test]
fn find_tag_prefers_v_prefixed_label() {
    let mut refs = Refs::new();
    refs.insert("1.0.0".to_string(), "plain".to_string());
    refs.insert("v1.0.0".to_string(), "prefixed".to_string());
    match find_tag(&refs, "1.0.0") {
        Tag::Exact { sha1, label } => {
            assert_eq!(label, "v1.0.0");
            assert_eq!(sha1.display_string(), "prefixed");
        }
        Tag::Ref(_) => panic!("Expected Tag::Exact"),
    }
}

#[test]
fn find_tag_falls_back_to_plain_label() {
    let mut refs = Refs::new();
    refs.insert("release".to_string(), "cafe01".to_string());
    match find_tag(&refs, "release") {
        Tag::Exact { sha1, label } => {
            assert_eq!(label, "release");
            assert_eq!(sha1.display_string(), "cafe01");
        }
        Tag::Ref(_) => panic!("Expected Tag::Exact"),
    }
}

#[test]
fn parse_refs_handles_crlf_and_trailing_newline() {
    let stdout = "aaa\trefs/tags/v1.0.0\r\nbbb\trefs/tags/v2.0.0\n";
    let refs = parse_refs(stdout);
    assert_eq!(refs.get("v1.0.0"), Some(&"aaa".to_string()));
    assert_eq!(refs.get("v2.0.0"), Some(&"bbb".to_string()));
}

#[test]
fn parse_refs_later_line_wins() {
    let stdout = "old\trefs/tags/v1.0.0\nnew\trefs/tags/v1.0.0";
    let refs = parse_refs(stdout);
    assert_eq!(refs.get("v1.0.0"), Some(&"new".to_string()));
}

#[test]
fn insert_replaces_earlier_value() {
    let mut refs = Refs::new();
    refs.insert("v1".to_string(), "a".to_string());
    refs.insert("v1".to_string(), "b".to_string());
    assert_eq!(refs.get("v1"), Some(&"b".to_string()));
    assert_eq!(refs.get("v2"), None);
}

#[test]
fn download_plan_names_the_release_asset() {
    let plan = download_plan(
        "/tmp/tsdl",
        "linux-x64",
        "https://github.com/tree-sitter/tree-sitter",
        "v0.22.6",
    );
    assert_eq!(plan.bin, "/tmp/tsdl/tree-sitter-linux-x64");
    assert_eq!(plan.gz, "/tmp/tsdl/tree-sitter-linux-x64.gz");
    assert_eq!(
        plan.url,
        "https://github.com/tree-sitter/tree-sitter/releases/download/v0.22.6/tree-sitter-linux-x64.gz"
    );
}

#[test]
fn toolchain_paths() {
    assert_eq!(cli_path("/b", "macos-arm64"), "/b/tree-sitter-macos-arm64");
    assert_eq!(toolchain_repo_dir("/b"), "/b/tree-sitter");
}
