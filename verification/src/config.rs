//! The effective build configuration and its three-layer merge.
//!
//! A configuration comes from three layers: built-in defaults, an optional
//! configuration file, and an optional explicitly-constructed command-line
//! configuration.  The file layer is partial: only the fields it sets
//! override the defaults.  The command-line layer always carries a value
//! for every field, so a field counts as explicitly passed exactly when it
//! differs from the default; only those fields win over the file.

use vstd::prelude::*;
use crate::consts::{TSDL_BUILD_DIR, TSDL_FRESH, TSDL_OUT_DIR, TSDL_PREFIX, TSDL_SHOW_CONFIG,
    TREE_SITTER_PLATFORM, TREE_SITTER_REPO, TREE_SITTER_VERSION};
use crate::strings::{clone_vec_string, lines_of, spec_lines, string_eq};

verus! {


/// The text printed when a configuration is shown indented: every line of
/// the rendered configuration, each prefixed with the indent and ended
/// with a newline.
pub open spec fn spec_indent_lines(s: Seq<char>, indent: Seq<char>) -> Seq<char> {
    spec_lines(s).map_values(|l: Seq<char>| indent + l + "\n"@).flatten_alt()
}

/// Prefixes every line of `s` with `indent`, one line per output line.
pub fn indent_lines(s: &str, indent: &str) -> (r: String)
    ensures
        r@ == spec_indent_lines(s@, indent@),
{
    let all_lines = lines_of(s);
    let ghost ls = all_lines.deep_view();
    let mut r = String::new();
    let n = all_lines.len();
    let mut i: usize = 0;
    while i < n
        invariant
            i <= n,
            n == all_lines.len(),
            ls == all_lines.deep_view(),
            ls == spec_lines(s@),
            r@ == ls.take(i as int).map_values(|l: Seq<char>| indent@ + l + "\n"@).flatten_alt(),
        decreases n - i,
    {
        proof {
            let mapped = ls.take(i + 1).map_values(|l: Seq<char>| indent@ + l + "\n"@);
            assert(mapped.drop_last() =~~= ls.take(i as int).map_values(
                |l: Seq<char>| indent@ + l + "\n"@,
            ));
            assert(mapped.last() == indent@ + ls[i as int] + "\n"@);
        }
        r.append(indent);
        r.append(all_lines[i].as_str());
        r.append("\n");
        i += 1;
    }
    proof {
        assert(ls.take(n as int) =~= ls);
    }
    r
}

// ---------------------------------------------------------------------------
// Parser specifications
// ---------------------------------------------------------------------------

/// How one language's parser is built: either a bare ref string, or a full
/// record with a ref, an optional source-repository override, and an
/// optional custom build command.
#[derive(Clone, Debug)]
pub enum ParserConfig {
    Full { build_script: Option<String>, git_ref: String, from: Option<String> },
    Ref(String),
}

/// The view of a parser specification.
pub enum ParserConfigView {
    Full { build_script: Option<Seq<char>>, git_ref: Seq<char>, from: Option<Seq<char>> },
    Ref(Seq<char>),
}

impl View for ParserConfig {
    type V = ParserConfigView;

    open spec fn view(&self) -> ParserConfigView {
        match self {
            ParserConfig::Full { build_script, git_ref, from } => ParserConfigView::Full {
                build_script: build_script.deep_view(),
                git_ref: git_ref@,
                from: from.deep_view(),
            },
            ParserConfig::Ref(r) => ParserConfigView::Ref(r@),
        }
    }
}

/// The configured parsers: language name to parser specification, in
/// insertion order.  Names are expected to be unique, as the keys of the
/// configuration table they come from are.
#[derive(Clone, Debug)]
pub struct ParserTable {
    pub entries: Vec<(String, ParserConfig)>,
}

impl View for ParserTable {
    type V = Seq<(Seq<char>, ParserConfigView)>;

    open spec fn view(&self) -> Seq<(Seq<char>, ParserConfigView)> {
        self.entries@.map_values(|e: (String, ParserConfig)| (e.0@, e.1@))
    }
}

/// The first specification stored under `k`, if any.
pub open spec fn table_lookup(s: Seq<(Seq<char>, ParserConfigView)>, k: Seq<char>) -> Option<
    ParserConfigView,
>
    decreases s.len(),
{
    if s.len() == 0 {
        None
    } else if s[0].0 == k {
        Some(s[0].1)
    } else {
        table_lookup(s.drop_first(), k)
    }
}

impl ParserTable {
    pub fn new() -> (r: ParserTable)
        ensures
            r@ =~= Seq::<(Seq<char>, ParserConfigView)>::empty(),
    {
        ParserTable { entries: Vec::new() }
    }

    /// Appends a language's specification.
    pub fn push(&mut self, name: String, config: ParserConfig)
        ensures
            final(self)@ =~= old(self)@.push((name@, config@)),
    {
        self.entries.push((name, config));
        proof {
            assert(final(self)@ =~= old(self)@.push((name@, config@)));
        }
    }

    pub fn len(&self) -> (r: usize)
        ensures
            r == self@.len(),
    {
        self.entries.len()
    }

    /// The name of the entry at `i`.
    pub fn name_at(&self, i: usize) -> (r: &String)
        requires
            i < self@.len(),
        ensures
            r@ == self@[i as int].0,
    {
        &self.entries[i].0
    }

    /// The specification stored for `language`, if any.
    pub fn get(&self, language: &str) -> (r: Option<&ParserConfig>)
        ensures
            match r {
                Some(c) => table_lookup(self@, language@) == Some(c@),
                None => table_lookup(self@, language@) is None,
            },
    {
        let n = self.entries.len();
        proof {
            assert(self@.subrange(0, n as int) =~= self@);
        }
        let mut i: usize = 0;
        while i < n
            invariant
                i <= n,
                n == self.entries.len(),
                forall|j: int| 0 <= j < i ==> self@[j].0 != language@,
                table_lookup(self@, language@) == table_lookup(
                    self@.subrange(i as int, n as int),
                    language@,
                ),
            decreases n - i,
        {
            proof {
                assert(self@.subrange(i as int, n as int)[0] == self@[i as int]);
                assert(self@.subrange(i as int, n as int).drop_first() =~= self@.subrange(
                    i as int + 1,
                    n as int,
                ));
            }
            if string_eq(&self.entries[i].0, language) {
                return Some(&self.entries[i].1);
            }
            i += 1;
        }
        proof {
            assert(self@.subrange(n as int, n as int) =~= Seq::<(
                Seq<char>,
                ParserConfigView,
            )>::empty());
        }
        None
    }
}

// ---------------------------------------------------------------------------
// The configuration record
// ---------------------------------------------------------------------------

/// The toolchain coordinates: version, repository URL, and platform
/// identifier of the build tool.
#[derive(Clone, Debug)]
pub struct TreeSitter {
    pub version: String,
    pub repo: String,
    pub platform: String,
}

/// The view of the toolchain coordinates.
#[verifier::ext_equal]
pub struct TreeSitterView {
    pub version: Seq<char>,
    pub repo: Seq<char>,
    pub platform: Seq<char>,
}

impl View for TreeSitter {
    type V = TreeSitterView;

    open spec fn view(&self) -> TreeSitterView {
        TreeSitterView { version: self.version@, repo: self.repo@, platform: self.platform@ }
    }
}

impl Default for TreeSitter {
    /// The built-in toolchain coordinates.
    fn default() -> (r: Self)
        ensures
            r@ == spec_default_tree_sitter(),
    {
        TreeSitter {
            version: String::from_str(TREE_SITTER_VERSION),
            repo: String::from_str(TREE_SITTER_REPO),
            platform: String::from_str(TREE_SITTER_PLATFORM),
        }
    }
}

/// The built-in toolchain coordinates.
pub open spec fn spec_default_tree_sitter() -> TreeSitterView {
    TreeSitterView {
        version: TREE_SITTER_VERSION@,
        repo: TREE_SITTER_REPO@,
        platform: TREE_SITTER_PLATFORM@,
    }
}

/// One full build configuration: every field carries a value.
#[derive(Clone, Debug)]
pub struct BuildCommand {
    /// Languages requested on the command line; `None` or empty means all
    /// configured parsers.
    pub languages: Option<Vec<String>>,
    /// Configured parsers.
    pub parsers: Option<ParserTable>,
    /// Build directory.
    pub build_dir: String,
    /// Worker count; defaults to the available hardware parallelism.
    pub ncpus: usize,
    /// Clears the build directory first.
    pub fresh: bool,
    /// Output directory.
    pub out_dir: String,
    /// Prefix for artifact names.
    pub prefix: String,
    /// Print the effective configuration before building.
    pub show_config: bool,
    /// Toolchain coordinates.
    pub tree_sitter: TreeSitter,
}

/// The view of a full build configuration.
#[verifier::ext_equal]
pub struct BuildCommandView {
    pub languages: Option<Seq<Seq<char>>>,
    pub parsers: Option<Seq<(Seq<char>, ParserConfigView)>>,
    pub build_dir: Seq<char>,
    pub ncpus: int,
    pub fresh: bool,
    pub out_dir: Seq<char>,
    pub prefix: Seq<char>,
    pub show_config: bool,
    pub tree_sitter: TreeSitterView,
}

impl View for BuildCommand {
    type V = BuildCommandView;

    open spec fn view(&self) -> BuildCommandView {
        BuildCommandView {
            languages: self.languages.deep_view(),
            parsers: match self.parsers {
                Some(t) => Some(t@),
                None => None,
            },
            build_dir: self.build_dir@,
            ncpus: self.ncpus as int,
            fresh: self.fresh,
            out_dir: self.out_dir@,
            prefix: self.prefix@,
            show_config: self.show_config,
            tree_sitter: self.tree_sitter@,
        }
    }
}

/// Relies on num_cpus::get for the available hardware parallelism; by its
/// documentation it always returns at least 1.
#[verifier::external_body]
fn available_cpus() -> (r: usize)
    ensures
        r >= 1,
{
    num_cpus::get()
}

/// The built-in default configuration, except for the worker count, which
/// follows the machine.
pub open spec fn is_default_config(v: BuildCommandView) -> bool {
    &&& v.languages is None
    &&& v.parsers is None
    &&& v.build_dir == TSDL_BUILD_DIR@
    &&& v.ncpus >= 1
    &&& v.fresh == TSDL_FRESH
    &&& v.out_dir == TSDL_OUT_DIR@
    &&& v.prefix == TSDL_PREFIX@
    &&& v.show_config == TSDL_SHOW_CONFIG
    &&& v.tree_sitter == spec_default_tree_sitter()
}

impl Default for BuildCommand {
    /// The built-in defaults; the worker count is the machine's available
    /// parallelism.
    fn default() -> (r: Self)
        ensures
            is_default_config(r@),
    {
        BuildCommand {
            languages: None,
            parsers: None,
            build_dir: String::from_str(TSDL_BUILD_DIR),
            ncpus: available_cpus(),
            fresh: TSDL_FRESH,
            out_dir: String::from_str(TSDL_OUT_DIR),
            prefix: String::from_str(TSDL_PREFIX),
            show_config: TSDL_SHOW_CONFIG,
            tree_sitter: TreeSitter::default(),
        }
    }
}

// ---------------------------------------------------------------------------
// The file layer
// ---------------------------------------------------------------------------

/// What a configuration file sets: every field optional, an unset field
/// leaves the default standing.  Languages cannot be set from a file.
#[derive(Clone, Debug)]
pub struct PartialBuildCommand {
    pub parsers: Option<ParserTable>,
    pub build_dir: Option<String>,
    pub ncpus: Option<usize>,
    pub fresh: Option<bool>,
    pub out_dir: Option<String>,
    pub prefix: Option<String>,
    pub show_config: Option<bool>,
    pub tree_sitter_version: Option<String>,
    pub tree_sitter_repo: Option<String>,
    pub tree_sitter_platform: Option<String>,
}

/// The view of a file layer.
#[verifier::ext_equal]
pub struct PartialBuildCommandView {
    pub parsers: Option<Seq<(Seq<char>, ParserConfigView)>>,
    pub build_dir: Option<Seq<char>>,
    pub ncpus: Option<int>,
    pub fresh: Option<bool>,
    pub out_dir: Option<Seq<char>>,
    pub prefix: Option<Seq<char>>,
    pub show_config: Option<bool>,
    pub tree_sitter_version: Option<Seq<char>>,
    pub tree_sitter_repo: Option<Seq<char>>,
    pub tree_sitter_platform: Option<Seq<char>>,
}

impl View for PartialBuildCommand {
    type V = PartialBuildCommandView;

    open spec fn view(&self) -> PartialBuildCommandView {
        PartialBuildCommandView {
            parsers: match self.parsers {
                Some(t) => Some(t@),
                None => None,
            },
            build_dir: self.build_dir.deep_view(),
            ncpus: match self.ncpus {
                Some(n) => Some(n as int),
                None => None,
            },
            fresh: self.fresh,
            out_dir: self.out_dir.deep_view(),
            prefix: self.prefix.deep_view(),
            show_config: self.show_config,
            tree_sitter_version: self.tree_sitter_version.deep_view(),
            tree_sitter_repo: self.tree_sitter_repo.deep_view(),
            tree_sitter_platform: self.tree_sitter_platform.deep_view(),
        }
    }
}

impl PartialBuildCommand {
    /// A file layer that sets nothing.
    pub fn empty() -> (r: Self)
        ensures
            r@.parsers is None,
            r@.build_dir is None,
            r@.ncpus is None,
            r@.fresh is None,
            r@.out_dir is None,
            r@.prefix is None,
            r@.show_config is None,
            r@.tree_sitter_version is None,
            r@.tree_sitter_repo is None,
            r@.tree_sitter_platform is None,
    {
        PartialBuildCommand {
            parsers: None,
            build_dir: None,
            ncpus: None,
            fresh: None,
            out_dir: None,
            prefix: None,
            show_config: None,
            tree_sitter_version: None,
            tree_sitter_repo: None,
            tree_sitter_platform: None,
        }
    }
}

// ---------------------------------------------------------------------------
// The merge
// ---------------------------------------------------------------------------

/// One layer of one field: the file value where the file sets it, the
/// default otherwise.
pub open spec fn from_file<T>(dft: T, file: Option<T>) -> T {
    match file {
        Some(v) => v,
        None => dft,
    }
}

/// The command-line layer of one field: the command-line value wins exactly
/// when it differs from the default (that is how an explicitly passed flag
/// is recognized); otherwise the file-merged value stands.
pub open spec fn from_cli<T>(dft: T, merged: T, cli: T) -> T {
    if cli != dft {
        cli
    } else {
        merged
    }
}

/// The defaults overlaid with what the file sets.
pub open spec fn spec_overlay(dft: BuildCommandView, file: PartialBuildCommandView)
    -> BuildCommandView {
    BuildCommandView {
        languages: dft.languages,
        parsers: from_file(dft.parsers, match file.parsers {
            Some(p) => Some(Some(p)),
            None => None,
        }),
        build_dir: from_file(dft.build_dir, file.build_dir),
        ncpus: from_file(dft.ncpus, file.ncpus),
        fresh: from_file(dft.fresh, file.fresh),
        out_dir: from_file(dft.out_dir, file.out_dir),
        prefix: from_file(dft.prefix, file.prefix),
        show_config: from_file(dft.show_config, file.show_config),
        tree_sitter: TreeSitterView {
            version: from_file(dft.tree_sitter.version, file.tree_sitter_version),
            repo: from_file(dft.tree_sitter.repo, file.tree_sitter_repo),
            platform: from_file(dft.tree_sitter.platform, file.tree_sitter_platform),
        },
    }
}

/// The file-merged configuration overlaid with the explicitly passed
/// command-line fields (those that differ from the default).
pub open spec fn spec_apply_cli(
    dft: BuildCommandView,
    merged: BuildCommandView,
    cli: BuildCommandView,
) -> BuildCommandView {
    BuildCommandView {
        languages: from_cli(dft.languages, merged.languages, cli.languages),
        parsers: from_cli(dft.parsers, merged.parsers, cli.parsers),
        build_dir: from_cli(dft.build_dir, merged.build_dir, cli.build_dir),
        ncpus: from_cli(dft.ncpus, merged.ncpus, cli.ncpus),
        fresh: from_cli(dft.fresh, merged.fresh, cli.fresh),
        out_dir: from_cli(dft.out_dir, merged.out_dir, cli.out_dir),
        prefix: from_cli(dft.prefix, merged.prefix, cli.prefix),
        show_config: from_cli(dft.show_config, merged.show_config, cli.show_config),
        tree_sitter: TreeSitterView {
            version: from_cli(
                dft.tree_sitter.version,
                merged.tree_sitter.version,
                cli.tree_sitter.version,
            ),
            repo: from_cli(dft.tree_sitter.repo, merged.tree_sitter.repo, cli.tree_sitter.repo),
            platform: from_cli(
                dft.tree_sitter.platform,
                merged.tree_sitter.platform,
                cli.tree_sitter.platform,
            ),
        },
    }
}

/// The whole three-layer merge: defaults, then the file, then the
/// explicitly passed command-line fields.
pub open spec fn spec_current(
    dft: BuildCommandView,
    file: Option<PartialBuildCommandView>,
    cli: Option<BuildCommandView>,
) -> BuildCommandView {
    let merged = match file {
        Some(f) => spec_overlay(dft, f),
        None => dft,
    };
    match cli {
        Some(c) => spec_apply_cli(dft, merged, c),
        None => merged,
    }
}


/// The precedence of the three layers, stated for the build directory: a
/// file value survives when the flag was not explicitly passed (the
/// command-line value equals the default), and an explicitly passed flag
/// (one that differs from the default) wins over the file; without either,
/// the default stands.  Every other field merges the same way.
pub proof fn lemma_build_dir_precedence(
    dft: BuildCommandView,
    file: PartialBuildCommandView,
    cli: BuildCommandView,
)
    ensures
        file.build_dir is Some ==> spec_current(dft, Some(file), None).build_dir
            == file.build_dir->0,
        file.build_dir is None ==> spec_current(dft, Some(file), None).build_dir == dft.build_dir,
        cli.build_dir != dft.build_dir ==> spec_current(dft, Some(file), Some(cli)).build_dir
            == cli.build_dir,
        cli.build_dir == dft.build_dir && file.build_dir is Some ==> spec_current(
            dft,
            Some(file),
            Some(cli),
        ).build_dir == file.build_dir->0,
{
}

// Equality helpers for the command-line diff.

fn opt_string_eq(a: &Option<String>, b: &Option<String>) -> (r: bool)
    ensures
        r == (a.deep_view() == b.deep_view()),
{
    match (a, b) {
        (None, None) => true,
        (Some(x), Some(y)) => string_eq(x, y.as_str()),
        _ => false,
    }
}

fn vec_string_eq(a: &Vec<String>, b: &Vec<String>) -> (r: bool)
    ensures
        r == (a.deep_view() == b.deep_view()),
{
    let n = a.len();
    if n != b.len() {
        proof {
            assert(a.deep_view().len() != b.deep_view().len());
        }
        return false;
    }
    let mut i: usize = 0;
    while i < n
        invariant
            i <= n,
            n == a.len(),
            n == b.len(),
            forall|j: int| 0 <= j < i ==> a.deep_view()[j] == b.deep_view()[j],
        decreases n - i,
    {
        if !string_eq(&a[i], b[i].as_str()) {
            proof {
                assert(a.deep_view()[i as int] != b.deep_view()[i as int]);
            }
            return false;
        }
        i += 1;
    }
    proof {
        assert(a.deep_view() =~= b.deep_view());
    }
    true
}

fn opt_vec_string_eq(a: &Option<Vec<String>>, b: &Option<Vec<String>>) -> (r: bool)
    ensures
        r == (a.deep_view() == b.deep_view()),
{
    match (a, b) {
        (None, None) => true,
        (Some(x), Some(y)) => vec_string_eq(x, y),
        _ => false,
    }
}

fn opt_usize_eq(a: &Option<usize>, b: usize) -> (r: bool)
    ensures
        r == (match a {
            Some(x) => x == &b,
            None => false,
        }),
{
    match a {
        Some(x) => *x == b,
        None => false,
    }
}

fn parser_config_eq(a: &ParserConfig, b: &ParserConfig) -> (r: bool)
    ensures
        r == (a@ == b@),
{
    match (a, b) {
        (ParserConfig::Ref(x), ParserConfig::Ref(y)) => string_eq(x, y.as_str()),
        (
            ParserConfig::Full { build_script: s1, git_ref: r1, from: f1 },
            ParserConfig::Full { build_script: s2, git_ref: r2, from: f2 },
        ) => opt_string_eq(s1, s2) && string_eq(r1, r2.as_str()) && opt_string_eq(f1, f2),
        _ => false,
    }
}

fn parser_table_eq(a: &ParserTable, b: &ParserTable) -> (r: bool)
    ensures
        r == (a@ == b@),
{
    let n = a.entries.len();
    if n != b.entries.len() {
        proof {
            assert(a@.len() != b@.len());
        }
        return false;
    }
    let mut i: usize = 0;
    while i < n
        invariant
            i <= n,
            n == a.entries.len(),
            n == b.entries.len(),
            forall|j: int| 0 <= j < i ==> a@[j] == b@[j],
        decreases n - i,
    {
        if !string_eq(&a.entries[i].0, b.entries[i].0.as_str()) || !parser_config_eq(
            &a.entries[i].1,
            &b.entries[i].1,
        ) {
            proof {
                assert(a@[i as int] != b@[i as int]);
            }
            return false;
        }
        i += 1;
    }
    proof {
        assert(a@ =~= b@);
    }
    true
}

fn opt_parser_table_eq(a: &Option<ParserTable>, b: &Option<ParserTable>) -> (r: bool)
    ensures
        r == ((match a {
            Some(t) => Some(t@),
            None => None,
        }) == (match b {
            Some(t) => Some(t@),
            None => None,
        })),
{
    match (a, b) {
        (None, None) => true,
        (Some(x), Some(y)) => parser_table_eq(x, y),
        _ => false,
    }
}


fn clone_opt_vec_string(v: &Option<Vec<String>>) -> (r: Option<Vec<String>>)
    ensures
        r.deep_view() == v.deep_view(),
{
    match v {
        Some(x) => Some(clone_vec_string(x)),
        None => None,
    }
}

fn clone_opt_string(v: &Option<String>) -> (r: Option<String>)
    ensures
        r.deep_view() == v.deep_view(),
{
    match v {
        Some(x) => Some(x.clone()),
        None => None,
    }
}

fn clone_parser_config(c: &ParserConfig) -> (r: ParserConfig)
    ensures
        r@ == c@,
{
    match c {
        ParserConfig::Ref(x) => ParserConfig::Ref(x.clone()),
        ParserConfig::Full { build_script, git_ref, from } => ParserConfig::Full {
            build_script: clone_opt_string(build_script),
            git_ref: git_ref.clone(),
            from: clone_opt_string(from),
        },
    }
}

fn clone_parser_table(t: &ParserTable) -> (r: ParserTable)
    ensures
        r@ == t@,
{
    let mut entries: Vec<(String, ParserConfig)> = Vec::new();
    let n = t.entries.len();
    let mut i: usize = 0;
    while i < n
        invariant
            i <= n,
            n == t.entries.len(),
            entries@.map_values(|e: (String, ParserConfig)| (e.0@, e.1@)) =~= t@.take(i as int),
        decreases n - i,
    {
        let ghost pre = entries@.map_values(|e: (String, ParserConfig)| (e.0@, e.1@));
        entries.push((t.entries[i].0.clone(), clone_parser_config(&t.entries[i].1)));
        proof {
            assert(entries@.map_values(|e: (String, ParserConfig)| (e.0@, e.1@)) =~= pre.push(
                t@[i as int],
            ));
            assert(t@.take(i + 1) =~= pre.push(t@[i as int]));
        }
        i += 1;
    }
    proof {
        assert(t@.take(n as int) =~= t@);
    }
    ParserTable { entries }
}

fn clone_opt_parser_table(t: &Option<ParserTable>) -> (r: Option<ParserTable>)
    ensures
        (match r {
            Some(x) => Some(x@),
            None => None,
        }) == (match t {
            Some(x) => Some(x@),
            None => None,
        }),
{
    match t {
        Some(x) => Some(clone_parser_table(x)),
        None => None,
    }
}

/// A field-exact copy of a configuration.
pub fn clone_build_command(c: &BuildCommand) -> (r: BuildCommand)
    ensures
        r@ == c@,
{
    let r = BuildCommand {
        languages: clone_opt_vec_string(&c.languages),
        parsers: clone_opt_parser_table(&c.parsers),
        build_dir: c.build_dir.clone(),
        ncpus: c.ncpus,
        fresh: c.fresh,
        out_dir: c.out_dir.clone(),
        prefix: c.prefix.clone(),
        show_config: c.show_config,
        tree_sitter: TreeSitter {
            version: c.tree_sitter.version.clone(),
            repo: c.tree_sitter.repo.clone(),
            platform: c.tree_sitter.platform.clone(),
        },
    };
    proof {
        assert(r@ =~~= c@);
    }
    r
}

fn pick_string(dft: &String, file: &Option<String>) -> (r: String)
    ensures
        r@ == from_file(dft@, file.deep_view()),
{
    match file {
        Some(v) => v.clone(),
        None => dft.clone(),
    }
}

fn pick_string_cli(dft: &String, merged: &String, cli: &String) -> (r: String)
    ensures
        r@ == from_cli(dft@, merged@, cli@),
{
    if !string_eq(cli, dft.as_str()) {
        cli.clone()
    } else {
        merged.clone()
    }
}

/// Merges built-in defaults, an optional configuration-file layer, and an
/// optional explicitly-constructed command-line configuration into one
/// effective configuration.  A file value survives when the flag was not
/// explicitly passed; an explicitly passed flag (one that differs from the
/// default) wins over the file.
pub fn current(
    defaults: &BuildCommand,
    file: Option<&PartialBuildCommand>,
    command: Option<&BuildCommand>,
) -> (r: BuildCommand)
    ensures
        r@ == spec_current(
            defaults@,
            match file {
                Some(f) => Some(f@),
                None => None,
            },
            match command {
                Some(c) => Some(c@),
                None => None,
            },
        ),
{
    let merged: BuildCommand = match file {
        Some(f) => {
            let m = BuildCommand {
                languages: clone_opt_vec_string(&defaults.languages),
                parsers: match &f.parsers {
                    Some(p) => Some(clone_parser_table(p)),
                    None => clone_opt_parser_table(&defaults.parsers),
                },
                build_dir: pick_string(&defaults.build_dir, &f.build_dir),
                ncpus: match f.ncpus {
                    Some(n) => n,
                    None => defaults.ncpus,
                },
                fresh: match f.fresh {
                    Some(b) => b,
                    None => defaults.fresh,
                },
                out_dir: pick_string(&defaults.out_dir, &f.out_dir),
                prefix: pick_string(&defaults.prefix, &f.prefix),
                show_config: match f.show_config {
                    Some(b) => b,
                    None => defaults.show_config,
                },
                tree_sitter: TreeSitter {
                    version: pick_string(&defaults.tree_sitter.version, &f.tree_sitter_version),
                    repo: pick_string(&defaults.tree_sitter.repo, &f.tree_sitter_repo),
                    platform: pick_string(&defaults.tree_sitter.platform, &f.tree_sitter_platform),
                },
            };
            proof {
                assert(m@ =~~= spec_overlay(defaults@, f@));
            }
            m
        },
        None => clone_build_command(defaults),
    };
    let r: BuildCommand = match command {
        Some(c) => {
            let out = BuildCommand {
                languages: if !opt_vec_string_eq(&c.languages, &defaults.languages) {
                    clone_opt_vec_string(&c.languages)
                } else {
                    clone_opt_vec_string(&merged.languages)
                },
                parsers: if !opt_parser_table_eq(&c.parsers, &defaults.parsers) {
                    clone_opt_parser_table(&c.parsers)
                } else {
                    clone_opt_parser_table(&merged.parsers)
                },
                build_dir: pick_string_cli(&defaults.build_dir, &merged.build_dir, &c.build_dir),
                ncpus: if c.ncpus != defaults.ncpus {
                    c.ncpus
                } else {
                    merged.ncpus
                },
                fresh: if c.fresh != defaults.fresh {
                    c.fresh
                } else {
                    merged.fresh
                },
                out_dir: pick_string_cli(&defaults.out_dir, &merged.out_dir, &c.out_dir),
                prefix: pick_string_cli(&defaults.prefix, &merged.prefix, &c.prefix),
                show_config: if c.show_config != defaults.show_config {
                    c.show_config
                } else {
                    merged.show_config
                },
                tree_sitter: TreeSitter {
                    version: pick_string_cli(
                        &defaults.tree_sitter.version,
                        &merged.tree_sitter.version,
                        &c.tree_sitter.version,
                    ),
                    repo: pick_string_cli(
                        &defaults.tree_sitter.repo,
                        &merged.tree_sitter.repo,
                        &c.tree_sitter.repo,
                    ),
                    platform: pick_string_cli(
                        &defaults.tree_sitter.platform,
                        &merged.tree_sitter.platform,
                        &c.tree_sitter.platform,
                    ),
                },
            };
            out
        },
        None => merged,
    };
    proof {
        assert(r@ =~~= spec_current(
            defaults@,
            match file {
                Some(f) => Some(f@),
                None => None,
            },
            match command {
                Some(c) => Some(c@),
                None => None,
            },
        ));
    }
    r
}

} // verus!
