//! The per-grammar build pipeline: discovering grammar roots inside a
//! fetched repository, naming the output artifact, locating the produced
//! artifact, and the phase plan of one grammar's build.
//!
//! Walking directories and running the generator and compiler are I/O done
//! by the caller; what is verified here is every decision: which
//! directories count as grammar roots, what each phase runs, which file is
//! the artifact, and what each failure is recorded as.

use vstd::prelude::*;
use crate::error::{Cause, CauseView, ParserOp, ParserOpView, Parser, Step, StepView};
use crate::sh::{shell_invocation, Invocation};
use crate::git::Ref;
use crate::strings::{clone_string, clone_vec_string, concat_str, concat3, split_on,
    split_on_char, str_eq, str_ends_with, str_starts_with, string_eq};

verus! {

/// Progress steps one language reports: clone, generate, build.
pub const NUM_STEPS: usize = 3;

/// The alternate (portable bytecode) target's file extension.
pub const WASM_EXTENSION: &'static str = "wasm";

// ---------------------------------------------------------------------------
// Grammar discovery
// ---------------------------------------------------------------------------

/// One entry of a repository walk: the path components below the
/// repository root, and whether the entry is a plain file.
#[derive(Clone, Debug)]
pub struct FileEntry {
    pub path: Vec<String>,
    pub is_file: bool,
}

/// The view of a walk entry.
#[verifier::ext_equal]
pub struct FileEntryView {
    pub path: Seq<Seq<char>>,
    pub is_file: bool,
}

impl View for FileEntry {
    type V = FileEntryView;

    open spec fn view(&self) -> FileEntryView {
        FileEntryView { path: self.path.deep_view(), is_file: self.is_file }
    }
}

impl DeepView for FileEntry {
    type V = FileEntryView;

    open spec fn deep_view(&self) -> FileEntryView {
        self@
    }
}

/// Directory names that never hold a grammar of their own.
pub open spec fn is_excluded_component(c: Seq<char>) -> bool {
    ||| c == ".github"@
    ||| c == "bindings"@
    ||| c == "doc"@
    ||| c == "docs"@
    ||| c == "examples"@
    ||| c == "queries"@
    ||| c == "script"@
    ||| c == "scripts"@
    ||| c == "test"@
    ||| c == "tests"@
}

/// Is this component one of the excluded directory names?
pub fn excluded_component(c: &str) -> (r: bool)
    ensures
        r == is_excluded_component(c@),
{
    str_eq(c, ".github") || str_eq(c, "bindings") || str_eq(c, "doc") || str_eq(c, "docs")
        || str_eq(c, "examples") || str_eq(c, "queries") || str_eq(c, "script") || str_eq(
        c,
        "scripts",
    ) || str_eq(c, "test") || str_eq(c, "tests")
}

/// A walk entry marks a grammar root when it is a generator-definition
/// file (`grammar.js`) not under an excluded top-level directory; the root
/// is the directory that directly contains it.
pub open spec fn is_grammar_marker(e: FileEntryView) -> bool {
    &&& e.is_file
    &&& e.path.len() >= 1
    &&& e.path.last() == "grammar.js"@
    &&& (e.path.len() == 1 || !is_excluded_component(e.path[0]))
}

/// The grammar roots among the walk entries, in walk order: the parent
/// path of every grammar marker.
pub open spec fn spec_collect_grammars(s: Seq<FileEntryView>) -> Seq<Seq<Seq<char>>>
    decreases s.len(),
{
    if s.len() == 0 {
        Seq::<Seq<Seq<char>>>::empty()
    } else {
        spec_collect_grammars(s.drop_last()) + if is_grammar_marker(s.last()) {
            seq![s.last().path.drop_last()]
        } else {
            Seq::<Seq<Seq<char>>>::empty()
        }
    }
}

/// Finds every grammar root among the walk entries: a directory qualifies
/// when it directly contains a `grammar.js` file and does not sit under an
/// excluded top-level directory.  A repository declaring several grammars
/// yields several roots.
pub fn collect_grammars(entries: &Vec<FileEntry>) -> (roots: Vec<Vec<String>>)
    ensures
        roots.deep_view() == spec_collect_grammars(entries.deep_view()),
{
    let mut roots: Vec<Vec<String>> = Vec::new();
    let n = entries.len();
    let ghost es = entries.deep_view();
    let mut i: usize = 0;
    while i < n
        invariant
            i <= n,
            n == entries.len(),
            es == entries.deep_view(),
            roots.deep_view() =~~= spec_collect_grammars(es.take(i as int)),
        decreases n - i,
    {
        let e = &entries[i];
        proof {
            assert(e@ == es[i as int]);
            assert(es.take(i + 1).drop_last() =~= es.take(i as int));
            assert(es.take(i + 1).last() == es[i as int]);
        }
        let pn = e.path.len();
        let mut marker: bool = false;
        if e.is_file && pn >= 1 {
            if string_eq(&e.path[pn - 1], "grammar.js") {
                proof {
                    assert(e@.path.last() == e.path@[pn - 1]@);
                }
                if pn == 1 {
                    marker = true;
                } else {
                    marker = !excluded_component(e.path[0].as_str());
                }
            }
        }
        proof {
            assert(marker == is_grammar_marker(es[i as int]));
        }
        if marker {
            let mut parent = clone_vec_string(&e.path);
            parent.pop();
            let ghost pre = roots.deep_view();
            proof {
                assert(parent.deep_view() =~~= es[i as int].path.drop_last());
            }
            roots.push(parent);
            proof {
                assert(roots.deep_view() =~~= pre.push(es[i as int].path.drop_last()));
                assert(roots.deep_view() =~~= spec_collect_grammars(es.take(i + 1)));
            }
        } else {
            proof {
                assert(roots.deep_view() =~~= spec_collect_grammars(es.take(i + 1)));
            }
        }
        i += 1;
    }
    proof {
        assert(es.take(n as int) =~= es);
    }
    roots
}

// ---------------------------------------------------------------------------
// Artifact names
// ---------------------------------------------------------------------------

/// A grammar root's effective name: its directory name, without a leading
/// `tree-sitter-` when there is one.
pub open spec fn spec_effective_name(base: Seq<char>) -> Seq<char> {
    if "tree-sitter-"@.is_prefix_of(base) {
        base.skip("tree-sitter-"@.len() as int)
    } else {
        base
    }
}

/// The deterministic artifact file name: `{prefix}{effective-name}.{ext}`.
pub open spec fn spec_parser_file_name(prefix: Seq<char>, base: Seq<char>, ext: Seq<char>) -> Seq<
    char,
> {
    prefix + spec_effective_name(base) + "."@ + ext
}

/// The effective name of a grammar root directory.
pub fn effective_name(base: &str) -> (r: String)
    ensures
        r@ == spec_effective_name(base@),
{
    if str_starts_with(base, "tree-sitter-") {
        let n = base.unicode_len();
        let p = "tree-sitter-".unicode_len();
        let tail = base.substring_char(p, n);
        proof {
            assert(tail@ =~= base@.skip("tree-sitter-"@.len() as int));
        }
        String::from_str(tail)
    } else {
        String::from_str(base)
    }
}

/// The base name of a path: its last `/`-separated segment.
pub fn dir_base_name(path: &str) -> (r: String)
    ensures
        r@ == split_on(path@, '/').last(),
{
    let segs = split_on_char(path, '/');
    let r = segs[segs.len() - 1].clone();
    proof {
        assert(segs.deep_view().last() == segs@[segs@.len() - 1]@);
    }
    r
}

proof fn lemma_concat_middle_injective(p: Seq<char>, x: Seq<char>, y: Seq<char>, s: Seq<char>)
    requires
        p + x + s == p + y + s,
    ensures
        x == y,
{
    assert((p + x + s).len() == p.len() + x.len() + s.len());
    assert((p + y + s).len() == p.len() + y.len() + s.len());
    assert(x.len() == y.len());
    assert forall|i: int| 0 <= i < x.len() implies x[i] == y[i] by {
        assert((p + x + s)[p.len() + i] == x[i]);
        assert((p + y + s)[p.len() + i] == y[i]);
    }
    assert(x =~= y);
}

/// Distinct effective root names give distinct artifact names: the
/// deterministic naming never collides two different grammars.
pub proof fn lemma_artifact_names_injective(
    prefix: Seq<char>,
    a: Seq<char>,
    b: Seq<char>,
    ext: Seq<char>,
)
    requires
        spec_effective_name(a) != spec_effective_name(b),
    ensures
        spec_parser_file_name(prefix, a, ext) != spec_parser_file_name(prefix, b, ext),
{
    if spec_parser_file_name(prefix, a, ext) == spec_parser_file_name(prefix, b, ext) {
        assert(prefix + spec_effective_name(a) + ("."@ + ext) =~= spec_parser_file_name(
            prefix,
            a,
            ext,
        ));
        assert(prefix + spec_effective_name(b) + ("."@ + ext) =~= spec_parser_file_name(
            prefix,
            b,
            ext,
        ));
        lemma_concat_middle_injective(
            prefix,
            spec_effective_name(a),
            spec_effective_name(b),
            "."@ + ext,
        );
    }
}

/// A repository with several grammar roots yields one distinct artifact
/// name per root, provided the roots' effective names are distinct.
pub proof fn lemma_artifacts_distinct(prefix: Seq<char>, bases: Seq<Seq<char>>, ext: Seq<char>)
    requires
        forall|i: int, j: int|
            0 <= i < j < bases.len() ==> spec_effective_name(bases[i]) != spec_effective_name(
                bases[j],
            ),
    ensures
        bases.map_values(|b: Seq<char>| spec_parser_file_name(prefix, b, ext)).no_duplicates(),
{
    let names = bases.map_values(|b: Seq<char>| spec_parser_file_name(prefix, b, ext));
    assert forall|i: int, j: int| 0 <= i < j < names.len() implies names[i] != names[j] by {
        lemma_artifact_names_injective(prefix, bases[i], bases[j], ext);
    }
}

// ---------------------------------------------------------------------------
// Artifact location
// ---------------------------------------------------------------------------

/// One entry of a flat directory listing.
#[derive(Clone, Debug)]
pub struct DirEntry {
    pub name: String,
    pub is_file: bool,
}

/// The view of a directory listing entry.
#[verifier::ext_equal]
pub struct DirEntryView {
    pub name: Seq<char>,
    pub is_file: bool,
}

impl View for DirEntry {
    type V = DirEntryView;

    open spec fn view(&self) -> DirEntryView {
        DirEntryView { name: self.name@, is_file: self.is_file }
    }
}

impl DeepView for DirEntry {
    type V = DirEntryView;

    open spec fn deep_view(&self) -> DirEntryView {
        self@
    }
}

/// Does the listing hold a plain file with exactly the expected name?
pub open spec fn has_exact_artifact(s: Seq<DirEntryView>, expected: Seq<char>) -> bool {
    exists|i: int| 0 <= i < s.len() && s[i].is_file && s[i].name == expected
}

/// The plain files whose names end with the extension (dot included).
pub open spec fn ext_matches(s: Seq<DirEntryView>, dot_ext: Seq<char>) -> Seq<DirEntryView> {
    s.filter(|e: DirEntryView| e.is_file && dot_ext.is_suffix_of(e.name))
}


// ---------------------------------------------------------------------------
// The per-language pipeline
// ---------------------------------------------------------------------------

/// The unit of work for one requested grammar: where it builds, what ref
/// it is at, where artifacts go, and which targets are compiled.  The
/// toolchain binary path is shared read-only by every language.
#[derive(Clone, Debug)]
pub struct Language {
    /// This language's clone directory.
    pub build_dir: String,
    /// A custom build command, replacing generation and compilation.
    pub build_script: Option<String>,
    /// The resolved ref to check out.
    pub git_ref: Ref,
    /// The display name.
    pub name: String,
    /// Where artifacts are copied.
    pub out_dir: String,
    /// The artifact name prefix.
    pub prefix: String,
    /// The source repository URL.
    pub repo: String,
    /// Compile the native shared library.
    pub native: bool,
    /// Compile the alternate (portable bytecode) target.
    pub wasm: bool,
    /// The native shared library's file extension on this platform.
    pub dll_ext: String,
    /// The provisioned toolchain binary.
    pub ts_cli: String,
}

/// The view of a language task.
#[verifier::ext_equal]
pub struct LanguageView {
    pub build_dir: Seq<char>,
    pub build_script: Option<Seq<char>>,
    pub git_ref: Seq<char>,
    pub name: Seq<char>,
    pub out_dir: Seq<char>,
    pub prefix: Seq<char>,
    pub repo: Seq<char>,
    pub native: bool,
    pub wasm: bool,
    pub dll_ext: Seq<char>,
    pub ts_cli: Seq<char>,
}

impl View for Language {
    type V = LanguageView;

    open spec fn view(&self) -> LanguageView {
        LanguageView {
            build_dir: self.build_dir@,
            build_script: self.build_script.deep_view(),
            git_ref: self.git_ref@,
            name: self.name@,
            out_dir: self.out_dir@,
            prefix: self.prefix@,
            repo: self.repo@,
            native: self.native,
            wasm: self.wasm,
            dll_ext: self.dll_ext@,
            ts_cli: self.ts_cli@,
        }
    }
}


impl DeepView for Language {
    type V = LanguageView;

    open spec fn deep_view(&self) -> LanguageView {
        self@
    }
}

/// One phase of a grammar root's build, in the order they run: generate
/// parser sources, compile a target, copy a target's artifact out.
#[derive(Clone, Debug)]
pub enum BuildPhase {
    Generate,
    Compile { ext: String },
    CopyArtifact { ext: String },
}

/// The view of a phase.
pub enum BuildPhaseView {
    Generate,
    Compile { ext: Seq<char> },
    CopyArtifact { ext: Seq<char> },
}

impl View for BuildPhase {
    type V = BuildPhaseView;

    open spec fn view(&self) -> BuildPhaseView {
        match self {
            BuildPhase::Generate => BuildPhaseView::Generate,
            BuildPhase::Compile { ext } => BuildPhaseView::Compile { ext: ext@ },
            BuildPhase::CopyArtifact { ext } => BuildPhaseView::CopyArtifact { ext: ext@ },
        }
    }
}

/// The views of a phase list.
pub open spec fn phase_views(v: Seq<BuildPhase>) -> Seq<BuildPhaseView> {
    v.map_values(|p: BuildPhase| p@)
}

/// The phase plan of one grammar root: generation (unless a custom build
/// command takes over), compilation of each configured target, then a copy
/// of each target's artifact.
pub open spec fn spec_phases(l: LanguageView) -> Seq<BuildPhaseView> {
    (if l.build_script is None {
        seq![BuildPhaseView::Generate]
    } else {
        Seq::<BuildPhaseView>::empty()
    }) + (if l.native {
        seq![BuildPhaseView::Compile { ext: l.dll_ext }]
    } else {
        Seq::<BuildPhaseView>::empty()
    }) + (if l.wasm {
        seq![BuildPhaseView::Compile { ext: WASM_EXTENSION@ }]
    } else {
        Seq::<BuildPhaseView>::empty()
    }) + (if l.native {
        seq![BuildPhaseView::CopyArtifact { ext: l.dll_ext }]
    } else {
        Seq::<BuildPhaseView>::empty()
    }) + (if l.wasm {
        seq![BuildPhaseView::CopyArtifact { ext: WASM_EXTENSION@ }]
    } else {
        Seq::<BuildPhaseView>::empty()
    })
}

impl Language {
    #[allow(clippy::too_many_arguments)]
    pub fn new(
        build_dir: String,
        build_script: Option<String>,
        git_ref: Ref,
        name: String,
        out_dir: String,
        prefix: String,
        repo: String,
        native: bool,
        wasm: bool,
        dll_ext: String,
        ts_cli: String,
    ) -> (r: Language)
        ensures
            r@ == (LanguageView {
                build_dir: build_dir@,
                build_script: build_script.deep_view(),
                git_ref: git_ref@,
                name: name@,
                out_dir: out_dir@,
                prefix: prefix@,
                repo: repo@,
                native: native,
                wasm: wasm,
                dll_ext: dll_ext@,
                ts_cli: ts_cli@,
            }),
    {
        let r = Language {
            build_dir,
            build_script,
            git_ref,
            name,
            out_dir,
            prefix,
            repo,
            native,
            wasm,
            dll_ext,
            ts_cli,
        };
        proof {
            assert(r@ =~~= (LanguageView {
                build_dir: r.build_dir@,
                build_script: r.build_script.deep_view(),
                git_ref: r.git_ref@,
                name: r.name@,
                out_dir: r.out_dir@,
                prefix: r.prefix@,
                repo: r.repo@,
                native: r.native,
                wasm: r.wasm,
                dll_ext: r.dll_ext@,
                ts_cli: r.ts_cli@,
            }));
        }
        r
    }

    /// The phases this language runs for each of its grammar roots.
    pub fn phases(&self) -> (r: Vec<BuildPhase>)
        ensures
            phase_views(r@) == spec_phases(self@),
    {
        let mut r: Vec<BuildPhase> = Vec::new();
        if self.build_script.is_none() {
            r.push(BuildPhase::Generate);
        }
        if self.native {
            r.push(BuildPhase::Compile { ext: self.dll_ext.clone() });
        }
        if self.wasm {
            r.push(BuildPhase::Compile { ext: String::from_str(WASM_EXTENSION) });
        }
        if self.native {
            r.push(BuildPhase::CopyArtifact { ext: self.dll_ext.clone() });
        }
        if self.wasm {
            r.push(BuildPhase::CopyArtifact { ext: String::from_str(WASM_EXTENSION) });
        }
        proof {
            assert(phase_views(r@) =~~= spec_phases(self@));
        }
        r
    }

    /// The deterministic artifact file name for a root directory name.
    pub fn parser_name_and_ext(&self, dir_name: &str, ext: &str) -> (r: String)
        ensures
            r@ == spec_parser_file_name(self@.prefix, dir_name@, ext@),
    {
        let name = effective_name(dir_name);
        let mut r = String::from_str(self.prefix.as_str());
        r.append(name.as_str());
        r.append(".");
        r.append(ext);
        r
    }

    /// The generator invocation for a grammar root.
    pub fn generate_invocation(&self, dir: &str) -> (r: Invocation)
        ensures
            r@.program == self@.ts_cli,
            r@.args =~~= seq!["generate"@],
            r@.cwd == Some(dir@),
    {
        let mut args: Vec<String> = Vec::new();
        args.push(String::from_str("generate"));
        Invocation::new(
            String::from_str(self.ts_cli.as_str()),
            args,
            Some(String::from_str(dir)),
        )
    }

    /// The compile invocation for one target in a grammar root: the build
    /// tool writing the deterministically named output (with the alternate
    /// target's flag when compiling it), unless a custom build command is
    /// configured, which then runs through the shell instead.
    pub fn build_invocation(&self, dir: &str, dir_name: &str, ext: &str, shell: &str) -> (r:
        Invocation)
        ensures
            r@.cwd == Some(dir@),
            match self@.build_script {
                Some(script) => r@.program == shell@ && r@.args =~~= seq!["-c"@, script],
                None => r@.program == self@.ts_cli && r@.args =~~= (if ext@ =~= WASM_EXTENSION@ {
                    seq![
                        "build"@,
                        "--wasm"@,
                        "--output"@,
                        spec_parser_file_name(self@.prefix, dir_name@, ext@),
                    ]
                } else {
                    seq![
                        "build"@,
                        "--output"@,
                        spec_parser_file_name(self@.prefix, dir_name@, ext@),
                    ]
                }),
            },
    {
        match &self.build_script {
            Some(script) => shell_invocation(shell, script.as_str(), Some(String::from_str(dir))),
            None => {
                let effective = self.parser_name_and_ext(dir_name, ext);
                let mut args: Vec<String> = Vec::new();
                args.push(String::from_str("build"));
                if str_eq(ext, WASM_EXTENSION) {
                    args.push(String::from_str("--wasm"));
                }
                args.push(String::from_str("--output"));
                args.push(effective);
                Invocation::new(
                    String::from_str(self.ts_cli.as_str()),
                    args,
                    Some(String::from_str(dir)),
                )
            },
        }
    }

    /// The phase error for a failed clone of this language's repository.
    pub fn clone_error(&self, source: Cause) -> (r: Step)
        ensures
            r@.name == self@.name,
            r@.kind == (ParserOpView::Clone { dir: self@.build_dir }),
            r@.source == source@,
    {
        Step {
            name: clone_string(&self.name),
            kind: ParserOp::Clone { dir: clone_string(&self.build_dir) },
            source,
        }
    }

    /// The phase error for a failed generation.
    pub fn generate_error(&self, source: Cause) -> (r: Step)
        ensures
            r@.name == self@.name,
            r@.kind == (ParserOpView::Generate { dir: self@.build_dir }),
            r@.source == source@,
    {
        Step {
            name: clone_string(&self.name),
            kind: ParserOp::Generate { dir: clone_string(&self.build_dir) },
            source,
        }
    }

    /// The phase error for a failed compilation.
    pub fn build_error(&self, source: Cause) -> (r: Step)
        ensures
            r@.name == self@.name,
            r@.kind == (ParserOpView::Build { dir: self@.build_dir }),
            r@.source == source@,
    {
        Step {
            name: clone_string(&self.name),
            kind: ParserOp::Build { dir: clone_string(&self.build_dir) },
            source,
        }
    }

    /// The phase error for a missing, ambiguous, or uncopyable artifact.
    pub fn create_copy_error(&self, dir: &str, message: String) -> (r: Step)
        ensures
            r@.name == self@.name,
            r@.kind == (ParserOpView::Copy { src: self@.out_dir, dst: dir@ }),
            r@.source == CauseView::Message(message@),
    {
        Step {
            name: clone_string(&self.name),
            kind: ParserOp::Copy {
                src: clone_string(&self.out_dir),
                dst: String::from_str(dir),
            },
            source: Cause::Message(message),
        }
    }

    /// Locates the artifact of one target in a grammar root's listing.  An
    /// exact match on the deterministic expected file name wins; otherwise
    /// exactly one file with the target extension is accepted, and zero or
    /// several candidates is a copy-phase error.
    pub fn find_dll_files(&self, dir: &str, dir_name: &str, entries: &Vec<DirEntry>, ext: &str)
        -> (r: Result<String, Step>)
        ensures
            ({
                let es = entries.deep_view();
                let expected = spec_parser_file_name(self@.prefix, dir_name@, ext@);
                let ms = ext_matches(es, "."@ + ext@);
                match r {
                    Ok(path) => {
                        &&& (has_exact_artifact(es, expected) || ms.len() == 1)
                        &&& (has_exact_artifact(es, expected) ==> path@ == dir@ + "/"@ + expected)
                        &&& (!has_exact_artifact(es, expected) ==> ms.len() == 1 && path@ == dir@
                            + "/"@ + ms[0].name)
                    },
                    Err(e) => {
                        &&& !has_exact_artifact(es, expected)
                        &&& (ms.len() == 0 || ms.len() > 1)
                        &&& e@.name == self@.name
                        &&& e@.kind == (ParserOpView::Copy { src: self@.out_dir, dst: dir@ })
                        &&& (ms.len() == 0 ==> e@.source == CauseView::Message(
                            "Couldn't find any "@ + ext@ + " file"@,
                        ))
                        &&& (ms.len() > 1 ==> e@.source == CauseView::Message(
                            "Found many "@ + ext@ + " files."@,
                        ))
                    },
                }
            }),
    {
        let expected = self.parser_name_and_ext(dir_name, ext);
        let dot_ext = concat_str(".", ext);
        let ghost es = entries.deep_view();
        let ghost pred = |e: DirEntryView| e.is_file && ("."@ + ext@).is_suffix_of(e.name);
        let mut all: Vec<String> = Vec::new();
        let n = entries.len();
        let mut i: usize = 0;
        while i < n
            invariant
                i <= n,
                n == entries.len(),
                es == entries.deep_view(),
                expected@ == spec_parser_file_name(self@.prefix, dir_name@, ext@),
                dot_ext@ == "."@ + ext@,
                pred == (|e: DirEntryView| e.is_file && ("."@ + ext@).is_suffix_of(e.name)),
                forall|j: int|
                    0 <= j < i ==> !((#[trigger] es[j]).is_file && es[j].name == expected@),
                all.deep_view() =~~= es.take(i as int).filter(pred).map_values(
                    |e: DirEntryView| e.name,
                ),
            decreases n - i,
        {
            let e = &entries[i];
            proof {
                assert(e@ == es[i as int]);
                assert(es.take(i + 1).drop_last() =~= es.take(i as int));
                assert(es.take(i + 1).last() == es[i as int]);
                reveal_with_fuel(Seq::filter, 2);
            }
            if e.is_file {
                if string_eq(&e.name, expected.as_str()) {
                    proof {
                        assert(has_exact_artifact(es, expected@));
                    }
                    return Ok(concat3(dir, "/", e.name.as_str()));
                }
                if str_ends_with(e.name.as_str(), dot_ext.as_str()) {
                    let ghost pre = all.deep_view();
                    all.push(clone_string(&e.name));
                    proof {
                        assert(all.deep_view() =~~= pre.push(es[i as int].name));
                        assert(es.take(i + 1).filter(pred) =~= es.take(i as int).filter(
                            pred,
                        ).push(es[i as int]));
                        assert(all.deep_view() =~~= es.take(i + 1).filter(pred).map_values(
                            |e: DirEntryView| e.name,
                        ));
                    }
                } else {
                    proof {
                        assert(es.take(i + 1).filter(pred) =~= es.take(i as int).filter(pred));
                    }
                }
            } else {
                proof {
                    assert(es.take(i + 1).filter(pred) =~= es.take(i as int).filter(pred));
                }
            }
            i += 1;
        }
        proof {
            assert(es.take(n as int) =~= es);
            assert(!has_exact_artifact(es, expected@));
            assert(ext_matches(es, "."@ + ext@) == es.filter(pred));
            assert(all.deep_view().len() == ext_matches(es, "."@ + ext@).len());
        }
        if all.len() == 0 {
            let mut msg = String::from_str("Couldn't find any ");
            msg.append(ext);
            msg.append(" file");
            Err(self.create_copy_error(dir, msg))
        } else if all.len() == 1 {
            proof {
                assert(all.deep_view()[0] == ext_matches(es, "."@ + ext@)[0].name);
            }
            let found = &all[0];
            Ok(concat3(dir, "/", found.as_str()))
        } else {
            let mut msg = String::from_str("Found many ");
            msg.append(ext);
            msg.append(" files.");
            Err(self.create_copy_error(dir, msg))
        }
    }

    /// Where one target's artifact is copied to: the output directory under
    /// the deterministic artifact name.
    pub fn copy_destination(&self, dir_name: &str, ext: &str) -> (r: String)
        ensures
            r@ == self@.out_dir + "/"@ + spec_parser_file_name(self@.prefix, dir_name@, ext@),
    {
        let name = self.parser_name_and_ext(dir_name, ext);
        concat3(self.out_dir.as_str(), "/", name.as_str())
    }

    /// The copy job for one target in a grammar root: the located artifact
    /// as the source, the deterministic output path as the destination; a
    /// missing or ambiguous artifact is the copy-phase error instead.
    pub fn copy_plan(&self, dir: &str, dir_name: &str, entries: &Vec<DirEntry>, ext: &str) -> (r:
        Result<CopyJob, Step>)
        ensures
            ({
                let es = entries.deep_view();
                let expected = spec_parser_file_name(self@.prefix, dir_name@, ext@);
                let ms = ext_matches(es, "."@ + ext@);
                match r {
                    Ok(job) => {
                        &&& (has_exact_artifact(es, expected) || ms.len() == 1)
                        &&& job@.dst == self@.out_dir + "/"@ + expected
                        &&& (has_exact_artifact(es, expected) ==> job@.src == dir@ + "/"@
                            + expected)
                        &&& (!has_exact_artifact(es, expected) ==> job@.src == dir@ + "/"@
                            + ms[0].name)
                    },
                    Err(e) => {
                        &&& !has_exact_artifact(es, expected)
                        &&& (ms.len() == 0 || ms.len() > 1)
                        &&& e@.name == self@.name
                        &&& e@.kind == (ParserOpView::Copy { src: self@.out_dir, dst: dir@ })
                    },
                }
            }),
    {
        match self.find_dll_files(dir, dir_name, entries, ext) {
            Ok(src) => {
                let dst = self.copy_destination(dir_name, ext);
                Ok(CopyJob { src, dst })
            },
            Err(e) => Err(e),
        }
    }
}

/// One artifact copy: from the located artifact to the output directory.
#[derive(Clone, Debug)]
pub struct CopyJob {
    pub src: String,
    pub dst: String,
}

/// The view of a copy job.
#[verifier::ext_equal]
pub struct CopyJobView {
    pub src: Seq<char>,
    pub dst: Seq<char>,
}

impl View for CopyJob {
    type V = CopyJobView;

    open spec fn view(&self) -> CopyJobView {
        CopyJobView { src: self.src@, dst: self.dst@ }
    }
}

// ---------------------------------------------------------------------------
// Fan-in of every language's outcome
// ---------------------------------------------------------------------------

/// How one language's pipeline ended.
#[derive(Debug)]
pub enum LanguageOutcome {
    Done,
    Failed(Step),
}

impl View for LanguageOutcome {
    type V = Option<StepView>;

    open spec fn view(&self) -> Option<StepView> {
        match self {
            LanguageOutcome::Done => None,
            LanguageOutcome::Failed(s) => Some(s@),
        }
    }
}

impl DeepView for LanguageOutcome {
    type V = Option<StepView>;

    open spec fn deep_view(&self) -> Option<StepView> {
        self@
    }
}

/// The failures among the outcomes, in order.
pub open spec fn spec_failures(s: Seq<Option<StepView>>) -> Seq<StepView>
    decreases s.len(),
{
    if s.len() == 0 {
        Seq::<StepView>::empty()
    } else {
        spec_failures(s.drop_last()) + (match s.last() {
            Some(e) => seq![e],
            None => Seq::<StepView>::empty(),
        })
    }
}

/// Collects every language's terminal outcome, never short-circuiting:
/// success only when every language succeeded, otherwise the aggregate
/// error enumerating every failure in order.
pub fn build_languages(outcomes: Vec<LanguageOutcome>) -> (r: Result<(), Parser>)
    ensures
        match r {
            Ok(()) => spec_failures(outcomes.deep_view()) =~= Seq::<StepView>::empty(),
            Err(p) => {
                &&& spec_failures(outcomes.deep_view()).len() > 0
                &&& p.related.deep_view() == spec_failures(outcomes.deep_view())
            },
        },
{
    let mut errs: Vec<Step> = Vec::new();
    let n = outcomes.len();
    let ghost ovs = outcomes.deep_view();
    let mut i: usize = 0;
    let mut outcomes = outcomes;
    while i < n
        invariant
            i <= n,
            n == outcomes.len(),
            ovs == outcomes.deep_view(),
            errs.deep_view() =~~= spec_failures(ovs.take(i as int)),
        decreases n - i,
    {
        proof {
            assert(ovs.take(i + 1).drop_last() =~= ovs.take(i as int));
            assert(ovs.take(i + 1).last() == ovs[i as int]);
        }
        let ghost pre = errs.deep_view();
        match &outcomes[i] {
            LanguageOutcome::Done => {
                proof {
                    assert(errs.deep_view() =~~= spec_failures(ovs.take(i + 1)));
                }
            },
            LanguageOutcome::Failed(step) => {
                errs.push(step.duplicate());
                proof {
                    assert(errs.deep_view() =~~= pre.push(ovs[i as int]->0));
                    assert(errs.deep_view() =~~= spec_failures(ovs.take(i + 1)));
                }
            },
        }
        i += 1;
    }
    proof {
        assert(ovs.take(n as int) =~= ovs);
    }
    if errs.len() == 0 {
        proof {
            assert(spec_failures(ovs) =~= Seq::<StepView>::empty());
        }
        Ok(())
    } else {
        Err(Parser { related: errs })
    }
}

} // verus!
