//! The error taxonomy: a process failure, a per-language failure, a failed
//! build phase, and the aggregates collecting them.
//!
//! Errors form a tree: an aggregate owns a list of per-language errors,
//! each of which owns one phase error with a nested cause.  Every error
//! renders itself as text through a `message` method, and the aggregate
//! message provably mentions every failed language.

use vstd::prelude::*;
use crate::strings::{clone_string, join_with, join_strings, concat_str};

verus! {

// ---------------------------------------------------------------------------
// Substring containment
// ---------------------------------------------------------------------------

/// `needle` occurs in `hay` at position `k`.
pub open spec fn contains_at(hay: Seq<char>, needle: Seq<char>, k: int) -> bool {
    0 <= k && k + needle.len() <= hay.len() && hay.subrange(k, k + needle.len() as int) == needle
}

/// `needle` occurs somewhere in `hay`.
pub open spec fn contains_seq(hay: Seq<char>, needle: Seq<char>) -> bool {
    exists|k: int| contains_at(hay, needle, k)
}

proof fn lemma_contains_shift(a: Seq<char>, b: Seq<char>, needle: Seq<char>, k: int)
    requires
        contains_at(b, needle, k),
    ensures
        contains_at(a + b, needle, a.len() + k),
{
    assert((a + b).subrange(a.len() + k, a.len() + k + needle.len() as int) =~= b.subrange(
        k,
        k + needle.len() as int,
    ));
}

proof fn lemma_contains_front(a: Seq<char>, b: Seq<char>)
    ensures
        contains_at(a + b, a, 0),
{
    assert((a + b).subrange(0, a.len() as int) =~= a);
}

/// Every part occurs in the joined string.
proof fn lemma_join_contains(parts: Seq<Seq<char>>, sep: Seq<char>, i: int)
    requires
        0 <= i < parts.len(),
    ensures
        contains_seq(join_with(parts, sep), parts[i]),
    decreases parts.len(),
{
    let joined = join_with(parts, sep);
    if parts.len() == 1 {
        assert(joined == parts[0]);
        assert(joined.subrange(0, parts[0].len() as int) =~= parts[0]);
        assert(contains_at(joined, parts[0], 0));
    } else if i == 0 {
        assert(joined == parts[0] + sep + join_with(parts.drop_first(), sep));
        assert(parts[0] + sep + join_with(parts.drop_first(), sep) =~= parts[0] + (sep + join_with(
            parts.drop_first(),
            sep,
        )));
        lemma_contains_front(parts[0], sep + join_with(parts.drop_first(), sep));
        assert(contains_at(joined, parts[0], 0));
    } else {
        lemma_join_contains(parts.drop_first(), sep, i - 1);
        let k = choose|k: int| contains_at(join_with(parts.drop_first(), sep), parts[i], k);
        assert(joined == parts[0] + sep + join_with(parts.drop_first(), sep));
        assert(parts[0] + sep + join_with(parts.drop_first(), sep) =~= (parts[0] + sep)
            + join_with(parts.drop_first(), sep));
        lemma_contains_shift(parts[0] + sep, join_with(parts.drop_first(), sep), parts[i], k);
        assert(contains_at(joined, parts[i], (parts[0] + sep).len() + k));
    }
}

/// A needle occurring at the front of a part occurs in any string the part
/// occurs in.
proof fn lemma_contains_through(hay: Seq<char>, part: Seq<char>, needle: Seq<char>)
    requires
        contains_seq(hay, part),
        needle.len() <= part.len(),
        part.subrange(0, needle.len() as int) == needle,
    ensures
        contains_seq(hay, needle),
{
    let k = choose|k: int| contains_at(hay, part, k);
    assert(hay.subrange(k, k + needle.len() as int) =~= hay.subrange(
        k,
        k + part.len() as int,
    ).subrange(0, needle.len() as int));
    assert(contains_at(hay, needle, k));
}

// ---------------------------------------------------------------------------
// A failed external process
// ---------------------------------------------------------------------------

/// A failed external process: what went wrong, and the captured output.
#[derive(Debug)]
pub struct Command {
    pub msg: String,
    pub stderr: String,
    pub stdout: String,
}

/// The view of a process failure.
#[verifier::ext_equal]
pub struct CommandView {
    pub msg: Seq<char>,
    pub stderr: Seq<char>,
    pub stdout: Seq<char>,
}

impl View for Command {
    type V = CommandView;

    open spec fn view(&self) -> CommandView {
        CommandView { msg: self.msg@, stderr: self.stderr@, stdout: self.stdout@ }
    }
}

/// The rendered form of a process failure.
pub open spec fn spec_command_message(c: CommandView) -> Seq<char> {
    c.msg + "\nStdOut:\n"@ + c.stdout + "\nStdErr:\n"@ + c.stderr
}

impl Command {
    /// Renders the failure with its captured output.
    pub fn message(&self) -> (r: String)
        ensures
            r@ == spec_command_message(self@),
    {
        let mut r = String::from_str(self.msg.as_str());
        r.append("\nStdOut:\n");
        r.append(self.stdout.as_str());
        r.append("\nStdErr:\n");
        r.append(self.stderr.as_str());
        r
    }
}

// ---------------------------------------------------------------------------
// Causes
// ---------------------------------------------------------------------------

/// The nested cause of a phase failure: a failed external process, or a
/// plain description.
#[derive(Debug)]
pub enum Cause {
    Command(Command),
    Message(String),
}

/// The view of a cause.
pub enum CauseView {
    Command(CommandView),
    Message(Seq<char>),
}

impl View for Cause {
    type V = CauseView;

    open spec fn view(&self) -> CauseView {
        match self {
            Cause::Command(c) => CauseView::Command(c@),
            Cause::Message(m) => CauseView::Message(m@),
        }
    }
}

/// The rendered form of a cause.
pub open spec fn spec_cause_message(c: CauseView) -> Seq<char> {
    match c {
        CauseView::Command(cmd) => spec_command_message(cmd),
        CauseView::Message(m) => m,
    }
}

impl Cause {
    pub fn message(&self) -> (r: String)
        ensures
            r@ == spec_cause_message(self@),
    {
        match self {
            Cause::Command(c) => c.message(),
            Cause::Message(m) => String::from_str(m.as_str()),
        }
    }
}

// ---------------------------------------------------------------------------
// A language that could not be set up
// ---------------------------------------------------------------------------

/// A language that could not be set up (for instance, its repository URL
/// could not be formed), with the cause rendered as text.
#[derive(Debug)]
pub struct Language {
    pub name: String,
    pub source: String,
}

/// The view of a language setup failure.
#[verifier::ext_equal]
pub struct LanguageView {
    pub name: Seq<char>,
    pub source: Seq<char>,
}

impl View for Language {
    type V = LanguageView;

    open spec fn view(&self) -> LanguageView {
        LanguageView { name: self.name@, source: self.source@ }
    }
}

/// The rendered form of a language setup failure: the name, then the cause.
pub open spec fn spec_language_message(l: LanguageView) -> Seq<char> {
    l.name + ".\n"@ + l.source
}

impl Language {
    pub fn message(&self) -> (r: String)
        ensures
            r@ == spec_language_message(self@),
    {
        let mut r = String::from_str(self.name.as_str());
        r.append(".\n");
        r.append(self.source.as_str());
        r
    }
}

/// The rendered list of language setup failures, comma-separated.
pub open spec fn spec_format_languages(ls: Seq<LanguageView>) -> Seq<char> {
    join_with(ls.map_values(|l: LanguageView| spec_language_message(l)), ", "@)
}

/// Renders every language setup failure, comma-separated.
pub fn format_languages(langs: &Vec<Language>) -> (r: String)
    ensures
        r@ == spec_format_languages(langs.deep_view()),
{
    let mut msgs: Vec<String> = Vec::new();
    let n = langs.len();
    let mut i: usize = 0;
    while i < n
        invariant
            i <= n,
            n == langs.len(),
            msgs.deep_view() =~~= langs.deep_view().take(i as int).map_values(
                |l: LanguageView| spec_language_message(l),
            ),
        decreases n - i,
    {
        let ghost pre = msgs.deep_view();
        msgs.push(langs[i].message());
        proof {
            assert(msgs.deep_view() =~~= pre.push(spec_language_message(
                langs.deep_view()[i as int],
            )));
            assert(langs.deep_view().take(i + 1).map_values(
                |l: LanguageView| spec_language_message(l),
            ) =~~= pre.push(spec_language_message(langs.deep_view()[i as int])));
        }
        i += 1;
    }
    proof {
        assert(langs.deep_view().take(n as int) =~~= langs.deep_view());
    }
    join_strings(&msgs, ", ")
}

impl DeepView for Language {
    type V = LanguageView;

    open spec fn deep_view(&self) -> LanguageView {
        self@
    }
}

/// All the languages that could not be set up in one run.
#[derive(Debug)]
pub struct LanguageCollection {
    pub related: Vec<Language>,
}

/// The rendered form of the whole collection failure.
pub open spec fn spec_collection_message(ls: Seq<LanguageView>) -> Seq<char> {
    "Could not figure out all languages:\n"@ + spec_format_languages(ls)
}

impl LanguageCollection {
    /// Renders the failure, naming every language that could not be set up.
    pub fn message(&self) -> (r: String)
        ensures
            r@ == spec_collection_message(self.related.deep_view()),
    {
        let tail = format_languages(&self.related);
        concat_str("Could not figure out all languages:\n", tail.as_str())
    }
}

/// The aggregate message names every language in the collection: for each
/// entry, its name occurs in the rendered text.
pub proof fn lemma_collection_mentions_every_language(ls: Seq<LanguageView>, i: int)
    requires
        0 <= i < ls.len(),
    ensures
        contains_seq(spec_collection_message(ls), ls[i].name),
{
    let parts = ls.map_values(|l: LanguageView| spec_language_message(l));
    lemma_join_contains(parts, ", "@, i);
    assert(parts[i] == spec_language_message(ls[i]));
    assert(parts[i].subrange(0, ls[i].name.len() as int) =~= ls[i].name);
    lemma_contains_through(join_with(parts, ", "@), parts[i], ls[i].name);
    let k = choose|k: int| contains_at(join_with(parts, ", "@), ls[i].name, k);
    lemma_contains_shift("Could not figure out all languages:\n"@, join_with(parts, ", "@),
        ls[i].name, k);
}

// ---------------------------------------------------------------------------
// A failed build phase
// ---------------------------------------------------------------------------

/// Which phase of a grammar's build failed, and where.
#[derive(Debug)]
pub enum ParserOp {
    Build { dir: String },
    Clone { dir: String },
    Copy { src: String, dst: String },
    Generate { dir: String },
}

/// The view of a failed phase.
pub enum ParserOpView {
    Build { dir: Seq<char> },
    Clone { dir: Seq<char> },
    Copy { src: Seq<char>, dst: Seq<char> },
    Generate { dir: Seq<char> },
}

impl View for ParserOp {
    type V = ParserOpView;

    open spec fn view(&self) -> ParserOpView {
        match self {
            ParserOp::Build { dir } => ParserOpView::Build { dir: dir@ },
            ParserOp::Clone { dir } => ParserOpView::Clone { dir: dir@ },
            ParserOp::Copy { src, dst } => ParserOpView::Copy { src: src@, dst: dst@ },
            ParserOp::Generate { dir } => ParserOpView::Generate { dir: dir@ },
        }
    }
}

/// The rendered form of a failed phase.
pub open spec fn spec_op_message(op: ParserOpView) -> Seq<char> {
    match op {
        ParserOpView::Build { dir } => "Could not build in "@ + dir,
        ParserOpView::Clone { dir } => "Could not clone to "@ + dir,
        ParserOpView::Copy { src, dst } => "Could not copy "@ + src + " to "@ + dst,
        ParserOpView::Generate { dir } => "Could not generate in "@ + dir,
    }
}

impl ParserOp {
    pub fn message(&self) -> (r: String)
        ensures
            r@ == spec_op_message(self@),
    {
        match self {
            ParserOp::Build { dir } => concat_str("Could not build in ", dir.as_str()),
            ParserOp::Clone { dir } => concat_str("Could not clone to ", dir.as_str()),
            ParserOp::Copy { src, dst } => {
                let mut r = String::from_str("Could not copy ");
                r.append(src.as_str());
                r.append(" to ");
                r.append(dst.as_str());
                r
            },
            ParserOp::Generate { dir } => concat_str("Could not generate in ", dir.as_str()),
        }
    }
}

/// One failed build phase of one language: the language name, the phase
/// with its directory, and the nested cause.
#[derive(Debug)]
pub struct Step {
    pub name: String,
    pub kind: ParserOp,
    pub source: Cause,
}

/// The view of a phase failure.
#[verifier::ext_equal]
pub struct StepView {
    pub name: Seq<char>,
    pub kind: ParserOpView,
    pub source: CauseView,
}

impl View for Step {
    type V = StepView;

    open spec fn view(&self) -> StepView {
        StepView { name: self.name@, kind: self.kind@, source: self.source@ }
    }
}

impl DeepView for Step {
    type V = StepView;

    open spec fn deep_view(&self) -> StepView {
        self@
    }
}

/// The rendered form of a phase failure: name, phase, then the cause.
pub open spec fn spec_step_message(s: StepView) -> Seq<char> {
    s.name + ": "@ + spec_op_message(s.kind) + ".\n"@ + spec_cause_message(s.source)
}

impl Step {
    pub fn message(&self) -> (r: String)
        ensures
            r@ == spec_step_message(self@),
    {
        let mut r = String::from_str(self.name.as_str());
        r.append(": ");
        let op = self.kind.message();
        r.append(op.as_str());
        r.append(".\n");
        let cause = self.source.message();
        r.append(cause.as_str());
        r
    }
}


impl Command {
    /// A field-exact copy.
    pub fn duplicate(&self) -> (r: Command)
        ensures
            r@ == self@,
    {
        Command {
            msg: clone_string(&self.msg),
            stderr: clone_string(&self.stderr),
            stdout: clone_string(&self.stdout),
        }
    }
}

impl Cause {
    /// A field-exact copy.
    pub fn duplicate(&self) -> (r: Cause)
        ensures
            r@ == self@,
    {
        match self {
            Cause::Command(c) => Cause::Command(c.duplicate()),
            Cause::Message(m) => Cause::Message(clone_string(m)),
        }
    }
}

impl ParserOp {
    /// A field-exact copy.
    pub fn duplicate(&self) -> (r: ParserOp)
        ensures
            r@ == self@,
    {
        match self {
            ParserOp::Build { dir } => ParserOp::Build { dir: clone_string(dir) },
            ParserOp::Clone { dir } => ParserOp::Clone { dir: clone_string(dir) },
            ParserOp::Copy { src, dst } => ParserOp::Copy {
                src: clone_string(src),
                dst: clone_string(dst),
            },
            ParserOp::Generate { dir } => ParserOp::Generate { dir: clone_string(dir) },
        }
    }
}

impl Step {
    /// A field-exact copy.
    pub fn duplicate(&self) -> (r: Step)
        ensures
            r@ == self@,
    {
        Step {
            name: clone_string(&self.name),
            kind: self.kind.duplicate(),
            source: self.source.duplicate(),
        }
    }
}

// ---------------------------------------------------------------------------
// The aggregate of all failed parsers
// ---------------------------------------------------------------------------

/// The rendered list of phase failures, one per line.
pub open spec fn spec_format_errors(errs: Seq<StepView>) -> Seq<char> {
    join_with(errs.map_values(|s: StepView| spec_step_message(s)), "\n"@)
}

/// Renders every phase failure, one per line.
pub fn format_errors(errs: &Vec<Step>) -> (r: String)
    ensures
        r@ == spec_format_errors(errs.deep_view()),
{
    let mut msgs: Vec<String> = Vec::new();
    let n = errs.len();
    let mut i: usize = 0;
    while i < n
        invariant
            i <= n,
            n == errs.len(),
            msgs.deep_view() =~~= errs.deep_view().take(i as int).map_values(
                |s: StepView| spec_step_message(s),
            ),
        decreases n - i,
    {
        let ghost pre = msgs.deep_view();
        msgs.push(errs[i].message());
        proof {
            assert(msgs.deep_view() =~~= pre.push(spec_step_message(errs.deep_view()[i as int])));
            assert(errs.deep_view().take(i + 1).map_values(|s: StepView| spec_step_message(s))
                =~~= pre.push(spec_step_message(errs.deep_view()[i as int])));
        }
        i += 1;
    }
    proof {
        assert(errs.deep_view().take(n as int) =~~= errs.deep_view());
    }
    join_strings(&msgs, "\n")
}

/// Every language whose build failed in one run, aggregated.
#[derive(Debug)]
pub struct Parser {
    pub related: Vec<Step>,
}

/// The rendered form of the aggregate failure.
pub open spec fn spec_parser_message(errs: Seq<StepView>) -> Seq<char> {
    "Could not build all parsers.\n"@ + spec_format_errors(errs)
}

impl Parser {
    /// Renders the failure, naming every language whose build failed.
    pub fn message(&self) -> (r: String)
        ensures
            r@ == spec_parser_message(self.related.deep_view()),
    {
        let tail = format_errors(&self.related);
        concat_str("Could not build all parsers.\n", tail.as_str())
    }
}

/// The aggregate message names every failed language: for each collected
/// phase failure, its language name occurs in the rendered text.
pub proof fn lemma_parser_mentions_every_language(errs: Seq<StepView>, i: int)
    requires
        0 <= i < errs.len(),
    ensures
        contains_seq(spec_parser_message(errs), errs[i].name),
{
    let parts = errs.map_values(|s: StepView| spec_step_message(s));
    lemma_join_contains(parts, "\n"@, i);
    assert(parts[i] == spec_step_message(errs[i]));
    assert(parts[i].subrange(0, errs[i].name.len() as int) =~= errs[i].name);
    lemma_contains_through(join_with(parts, "\n"@), parts[i], errs[i].name);
    let k = choose|k: int| contains_at(join_with(parts, "\n"@), errs[i].name, k);
    lemma_contains_shift("Could not build all parsers.\n"@, join_with(parts, "\n"@),
        errs[i].name, k);
}

} // verus!
