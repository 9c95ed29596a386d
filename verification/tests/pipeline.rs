use tsdl::error::{Cause, ParserOp};
use tsdl::git::Ref;
use tsdl::parser::{
    build_languages, collect_grammars, dir_base_name, effective_name, BuildPhase, DirEntry,
    FileEntry, Language, LanguageOutcome,
};

fn entry(path: &[&str], is_file: bool) -> FileEntry {
    FileEntry {
        path: path.iter().map(|s| s.to_string()).collect(),
        is_file,
    }
}

fn sample_language(build_script: Option<String>, native: bool, wasm: bool) -> Language {
    Language::new(
        "/tmp/tsdl/tree-sitter-php".to_string(),
        build_script,
        Ref::new("v1.0.0".to_string()),
        "php".to_string(),
        "/out".to_string(),
        "libtree-sitter-".to_string(),
        "https://github.com/tree-sitter/tree-sitter-php".to_string(),
        native,
        wasm,
        "so".to_string(),
        "/tmp/tsdl/tree-sitter-linux-x64".to_string(),
    )
}

#[test]
fn collects_every_grammar_root() {
    let entries = vec![
        entry(&["php"], false),
        entry(&["php", "grammar.js"], true),
        entry(&["php_only", "grammar.js"], true),
        entry(&["php", "README.md"], true),
        entry(&["bindings", "grammar.js"], true),
        entry(&["queries", "grammar.js"], true),
        entry(&["src", "grammar.js"], false),
    ];
    let roots = collect_grammars(&entries);
    assert_eq!(roots, vec![vec!["php".to_string()], vec!["php_only".to_string()]]);
}

#[test]
fn root_level_grammar_is_found() {
    let entries = vec![entry(&["grammar.js"], true)];
    let roots = collect_grammars(&entries);
    assert_eq!(roots, vec![Vec::<String>::new()]);
}

#[test]
fn no_grammar_yields_no_roots() {
    let entries = vec![entry(&["src", "parser.c"], true)];
    assert!(collect_grammars(&entries).is_empty());
}

#[test]
fn two_roots_give_two_distinct_artifacts() {
    let entries = vec![
        entry(&["php", "grammar.js"], true),
        entry(&["php_only", "grammar.js"], true),
    ];
    let roots = collect_grammars(&entries);
    assert_eq!(roots.len(), 2);
    let lang = sample_language(None, true, false);
    let names: Vec<String> = roots
        .iter()
        .map(|root| lang.parser_name_and_ext(root.last().unwrap(), "so"))
        .collect();
    assert_eq!(names, vec!["libtree-sitter-php.so", "libtree-sitter-php_only.so"]);
    assert_ne!(names[0], names[1]);
}

#[test]
fn effective_name_strips_the_conventional_prefix() {
    assert_eq!(effective_name("tree-sitter-rust"), "rust");
    assert_eq!(effective_name("php_only"), "php_only");
    assert_eq!(dir_base_name("/tmp/tsdl/tree-sitter-rust"), "tree-sitter-rust");
}

fn file(name: &str) -> DirEntry {
    DirEntry { name: name.to_string(), is_file: true }
}

#[test]
fn exact_artifact_name_wins() {
    let lang = sample_language(None, true, false);
    let listing = vec![file("other.so"), file("libtree-sitter-php.so"), file("extra.so")];
    let found = lang
        .find_dll_files("/tmp/tsdl/tree-sitter-php", "tree-sitter-php", &listing, "so")
        .expect("exact match");
    assert_eq!(found, "/tmp/tsdl/tree-sitter-php/libtree-sitter-php.so");
}

#[test]
fn single_extension_match_is_accepted() {
    let lang = sample_language(Some("make".to_string()), true, false);
    let listing = vec![file("whatever.so"), file("notes.txt")];
    let found = lang
        .find_dll_files("/tmp/tsdl/tree-sitter-php", "tree-sitter-php", &listing, "so")
        .expect("single match");
    assert_eq!(found, "/tmp/tsdl/tree-sitter-php/whatever.so");
}

#[test]
fn two_matches_without_exact_name_fail_the_copy_phase() {
    let lang = sample_language(Some("make".to_string()), true, false);
    let listing = vec![file("a.so"), file("b.so")];
    let err = lang
        .find_dll_files("/tmp/tsdl/tree-sitter-php", "tree-sitter-php", &listing, "so")
        .expect_err("ambiguous artifacts");
    assert_eq!(err.name, "php");
    assert!(matches!(&err.kind, ParserOp::Copy { src, dst }
        if src == "/out" && dst == "/tmp/tsdl/tree-sitter-php"));
    assert!(matches!(&err.source, Cause::Message(m) if m == "Found many so files."));
}

#[test]
fn zero_matches_fail_the_copy_phase() {
    let lang = sample_language(Some("make".to_string()), true, false);
    let listing = vec![file("notes.txt")];
    let err = lang
        .find_dll_files("/tmp/tsdl/tree-sitter-php", "tree-sitter-php", &listing, "so")
        .expect_err("no artifact");
    assert!(matches!(&err.source, Cause::Message(m) if m == "Couldn't find any so file"));
}

#[test]
fn directories_never_count_as_artifacts() {
    let lang = sample_language(Some("make".to_string()), true, false);
    let listing = vec![
        DirEntry { name: "sub.so".to_string(), is_file: false },
        file("real.so"),
    ];
    let found = lang
        .find_dll_files("/tmp/tsdl/tree-sitter-php", "tree-sitter-php", &listing, "so")
        .expect("the directory is skipped");
    assert_eq!(found, "/tmp/tsdl/tree-sitter-php/real.so");
}

#[test]
fn copy_plan_targets_the_output_directory() {
    let lang = sample_language(None, true, false);
    let listing = vec![file("libtree-sitter-php.so")];
    let job = lang
        .copy_plan("/tmp/tsdl/tree-sitter-php", "tree-sitter-php", &listing, "so")
        .expect("artifact located");
    assert_eq!(job.src, "/tmp/tsdl/tree-sitter-php/libtree-sitter-php.so");
    assert_eq!(job.dst, "/out/libtree-sitter-php.so");
}

#[test]
fn phases_follow_the_configuration() {
    let lang = sample_language(None, true, true);
    let phases = lang.phases();
    assert_eq!(phases.len(), 5);
    assert!(matches!(phases[0], BuildPhase::Generate));
    assert!(matches!(&phases[1], BuildPhase::Compile { ext } if ext == "so"));
    assert!(matches!(&phases[2], BuildPhase::Compile { ext } if ext == "wasm"));
    assert!(matches!(&phases[3], BuildPhase::CopyArtifact { ext } if ext == "so"));
    assert!(matches!(&phases[4], BuildPhase::CopyArtifact { ext } if ext == "wasm"));

    let scripted = sample_language(Some("make".to_string()), true, false);
    let phases = scripted.phases();
    assert_eq!(phases.len(), 2);
    assert!(matches!(&phases[0], BuildPhase::Compile { ext } if ext == "so"));
    assert!(matches!(&phases[1], BuildPhase::CopyArtifact { ext } if ext == "so"));
}

#[test]
fn build_invocation_uses_the_toolchain() {
    let lang = sample_language(None, true, true);
    let inv = lang.build_invocation("/dir", "tree-sitter-php", "so", "sh");
    assert_eq!(inv.program, "/tmp/tsdl/tree-sitter-linux-x64");
    assert_eq!(inv.args, vec!["build", "--output", "libtree-sitter-php.so"]);
    assert_eq!(inv.cwd.as_deref(), Some("/dir"));
    let inv = lang.build_invocation("/dir", "tree-sitter-php", "wasm", "sh");
    assert_eq!(inv.args, vec!["build", "--wasm", "--output", "libtree-sitter-php.wasm"]);
}

#[test]
fn build_invocation_runs_a_custom_script_through_the_shell() {
    let lang = sample_language(Some("make all".to_string()), true, false);
    let inv = lang.build_invocation("/dir", "tree-sitter-php", "so", "bash");
    assert_eq!(inv.program, "bash");
    assert_eq!(inv.args, vec!["-c", "make all"]);
}

#[test]
fn generate_invocation_runs_in_the_grammar_root() {
    let lang = sample_language(None, true, false);
    let inv = lang.generate_invocation("/dir/php");
    assert_eq!(inv.program, "/tmp/tsdl/tree-sitter-linux-x64");
    assert_eq!(inv.args, vec!["generate"]);
    assert_eq!(inv.cwd.as_deref(), Some("/dir/php"));
}

fn failed(name: &str) -> LanguageOutcome {
    LanguageOutcome::Failed(
        sample_language(None, true, false).clone_error(Cause::Message(format!("{name} broke"))),
    )
}

#[test]
fn all_successes_aggregate_to_ok() {
    let outcomes = vec![LanguageOutcome::Done, LanguageOutcome::Done];
    assert!(build_languages(outcomes).is_ok());
}

#[test]
fn failures_are_collected_not_short_circuited() {
    let outcomes = vec![
        failed("php"),
        LanguageOutcome::Done,
        failed("rust"),
    ];
    let err = build_languages(outcomes).expect_err("two failures");
    assert_eq!(err.related.len(), 2);
    let message = err.message();
    assert!(message.starts_with("Could not build all parsers."));
    assert!(message.contains("php broke"));
    assert!(message.contains("rust broke"));
}
