use tsdl::config::{
    clone_build_command, current, BuildCommand, ParserConfig, ParserTable, PartialBuildCommand,
    TreeSitter,
};
use tsdl::consts::{
    TREE_SITTER_PLATFORM, TREE_SITTER_REPO, TREE_SITTER_VERSION, TSDL_BUILD_DIR, TSDL_FRESH,
    TSDL_OUT_DIR, TSDL_PREFIX, TSDL_SHOW_CONFIG,
};

#[test]
fn default_carries_the_built_in_values() {
    let def = BuildCommand::default();
    assert!(def.languages.is_none());
    assert!(def.parsers.is_none());
    assert_eq!(def.build_dir, TSDL_BUILD_DIR);
    assert_eq!(def.fresh, TSDL_FRESH);
    assert!(def.ncpus >= 1);
    assert_eq!(def.out_dir, TSDL_OUT_DIR);
    assert_eq!(def.prefix, TSDL_PREFIX);
    assert_eq!(def.show_config, TSDL_SHOW_CONFIG);
    assert_eq!(def.tree_sitter.version, TREE_SITTER_VERSION);
    assert_eq!(def.tree_sitter.repo, TREE_SITTER_REPO);
    assert_eq!(def.tree_sitter.platform, TREE_SITTER_PLATFORM);
}

#[test]
fn file_value_survives_without_a_flag() {
    let def = BuildCommand::default();
    let mut file = PartialBuildCommand::empty();
    file.build_dir = Some("/tmp/x".to_string());
    let effective = current(&def, Some(&file), None);
    assert_eq!(effective.build_dir, "/tmp/x");
    assert_eq!(effective.out_dir, TSDL_OUT_DIR);
}

#[test]
fn explicit_flag_wins_over_the_file() {
    let def = BuildCommand::default();
    let mut file = PartialBuildCommand::empty();
    file.build_dir = Some("/tmp/x".to_string());
    let mut cli = clone_build_command(&def);
    cli.build_dir = "/tmp/y".to_string();
    let effective = current(&def, Some(&file), Some(&cli));
    assert_eq!(effective.build_dir, "/tmp/y");
}

#[test]
fn unpassed_flag_leaves_the_file_value() {
    let def = BuildCommand::default();
    let mut file = PartialBuildCommand::empty();
    file.build_dir = Some("/tmp/x".to_string());
    let cli = clone_build_command(&def);
    let effective = current(&def, Some(&file), Some(&cli));
    assert_eq!(effective.build_dir, "/tmp/x");
}

#[test]
fn current_from_empty_file_is_the_default() {
    let def = BuildCommand::default();
    let file = PartialBuildCommand::empty();
    let effective = current(&def, Some(&file), None);
    assert_eq!(effective.build_dir, def.build_dir);
    assert_eq!(effective.ncpus, def.ncpus);
    assert_eq!(effective.fresh, def.fresh);
    assert_eq!(effective.out_dir, def.out_dir);
    assert_eq!(effective.prefix, def.prefix);
    assert_eq!(effective.show_config, def.show_config);
    assert_eq!(effective.tree_sitter.version, def.tree_sitter.version);
}

#[test]
fn current_preserve_languages() {
    let def = BuildCommand::default();
    let mut cli = clone_build_command(&def);
    cli.languages = Some(vec![]);
    let effective = current(&def, None, Some(&cli));
    assert_eq!(effective.languages, Some(vec![]));
    cli.languages = Some(vec!["rust".to_string()]);
    let effective = current(&def, None, Some(&cli));
    assert_eq!(effective.languages, Some(vec!["rust".to_string()]));
    cli.languages = Some(vec!["rust".to_string(), "ruby".to_string()]);
    let effective = current(&def, None, Some(&cli));
    assert_eq!(
        effective.languages,
        Some(vec!["rust".to_string(), "ruby".to_string()])
    );
}

#[test]
fn file_overrides_every_field_it_sets() {
    let def = BuildCommand::default();
    let file = PartialBuildCommand {
        parsers: None,
        build_dir: Some("/root".to_string()),
        ncpus: Some(3),
        fresh: Some(true),
        out_dir: Some("tree-sitter-parsers".to_string()),
        prefix: Some("lib".to_string()),
        show_config: Some(true),
        tree_sitter_version: Some("1.0.0".to_string()),
        tree_sitter_repo: Some("https://gitlab.com/tree-sitter/tree-sitter".to_string()),
        tree_sitter_platform: Some("linux-arm64".to_string()),
    };
    let effective = current(&def, Some(&file), None);
    assert_eq!(effective.build_dir, "/root");
    assert_eq!(effective.ncpus, 3);
    assert!(effective.fresh);
    assert_eq!(effective.out_dir, "tree-sitter-parsers");
    assert_eq!(effective.prefix, "lib");
    assert!(effective.show_config);
    assert_eq!(effective.tree_sitter.version, "1.0.0");
    assert_eq!(
        effective.tree_sitter.repo,
        "https://gitlab.com/tree-sitter/tree-sitter"
    );
    assert_eq!(effective.tree_sitter.platform, "linux-arm64");
}

#[test]
fn file_parsers_survive_a_cli_without_parsers() {
    let def = BuildCommand::default();
    let mut table = ParserTable::new();
    table.push(
        "java".to_string(),
        ParserConfig::Ref("v0.21.0".to_string()),
    );
    let mut file = PartialBuildCommand::empty();
    file.parsers = Some(table);
    let cli = clone_build_command(&def);
    let effective = current(&def, Some(&file), Some(&cli));
    let parsers = effective.parsers.expect("parsers from the file");
    let cfg = parsers.get("java").expect("java is configured");
    assert!(matches!(cfg, ParserConfig::Ref(r) if r == "v0.21.0"));
    assert!(parsers.get("rust").is_none());
}

#[test]
fn tree_sitter_default_matches_consts() {
    let ts = TreeSitter::default();
    assert_eq!(ts.version, TREE_SITTER_VERSION);
    assert_eq!(ts.repo, TREE_SITTER_REPO);
    assert_eq!(ts.platform, TREE_SITTER_PLATFORM);
}
