//! Turning the effective configuration into the set of language tasks:
//! which languages run, each one's ref, repository URL and custom build
//! command, and the per-language error when a repository URL cannot be
//! formed.

use vstd::prelude::*;
use crate::config::{ParserConfig, ParserConfigView, ParserTable, table_lookup};
use crate::consts::{TSDL_FROM, TSDL_REF};
use crate::error;
use crate::error::LanguageCollection;
use crate::git::{resolve_git_ref, spec_resolve_ref, Ref};
use crate::parser::{Language, LanguageView};
use crate::strings::{clone_string, concat3, concat_str, string_eq};

verus! {

/// What `url::Url::parse` makes of a string: `None` when it is rejected,
/// otherwise the parsed URL's serialization.
pub uninterp spec fn parsed_url(s: Seq<char>) -> Option<Seq<char>>;

/// Relies on url::Url::parse, whose outcome depends on the input string
/// alone, and url::Url::as_str, the parsed URL's serialization.
#[verifier::external_body]
fn parse_url(s: &str) -> (r: Option<String>)
    ensures
        match r {
            Some(u) => parsed_url(s@) == Some(u@),
            None => parsed_url(s@) is None,
        },
{
    match url::Url::parse(s) {
        Ok(u) => Some(String::from(u.as_str())),
        Err(_) => None,
    }
}

/// The URL a language's repository is derived from when no override is
/// given: the base URL with the language name appended.
pub fn default_repo(language: &str) -> (r: Result<String, String>)
    ensures
        match r {
            Ok(u) => parsed_url(TSDL_FROM@ + language@) == Some(u@),
            Err(m) => {
                &&& parsed_url(TSDL_FROM@ + language@) is None
                &&& m@ == "Creating url "@ + TSDL_FROM@ + language@ + " for "@ + language@
            },
        },
{
    let url = concat_str(TSDL_FROM, language);
    match parse_url(url.as_str()) {
        Some(u) => Ok(u),
        None => {
            let mut m = String::from_str("Creating url ");
            m.append(url.as_str());
            m.append(" for ");
            m.append(language);
            Err(m)
        },
    }
}

/// The configured specification of a language, if any.
pub open spec fn spec_config_of(
    language: Seq<char>,
    parsers: Option<Seq<(Seq<char>, ParserConfigView)>>,
) -> Option<ParserConfigView> {
    match parsers {
        Some(t) => table_lookup(t, language),
        None => None,
    }
}

/// The custom build command a language's coordinates carry.
pub open spec fn spec_script_of(
    language: Seq<char>,
    parsers: Option<Seq<(Seq<char>, ParserConfigView)>>,
) -> Option<Seq<char>> {
    match spec_config_of(language, parsers) {
        Some(ParserConfigView::Full { build_script, .. }) => build_script,
        _ => None,
    }
}

/// The resolved ref of a language: its configured ref run through the ref
/// resolver, or `HEAD` when nothing is configured.
pub open spec fn spec_ref_of(
    language: Seq<char>,
    parsers: Option<Seq<(Seq<char>, ParserConfigView)>>,
) -> Seq<char> {
    match spec_config_of(language, parsers) {
        Some(ParserConfigView::Full { git_ref, .. }) => spec_resolve_ref(git_ref),
        Some(ParserConfigView::Ref(git_ref)) => spec_resolve_ref(git_ref),
        None => TSDL_REF@,
    }
}

/// The repository URL of a language: the configured override when there is
/// one, the derived default otherwise, each as `url::Url::parse` takes it.
pub open spec fn spec_repo_of(
    language: Seq<char>,
    parsers: Option<Seq<(Seq<char>, ParserConfigView)>>,
) -> Option<Seq<char>> {
    match spec_config_of(language, parsers) {
        Some(ParserConfigView::Full { from: Some(f), .. }) => parsed_url(f),
        _ => parsed_url(TSDL_FROM@ + language),
    }
}

/// The error text when a language's repository URL cannot be formed.
pub open spec fn spec_repo_err_of(
    language: Seq<char>,
    parsers: Option<Seq<(Seq<char>, ParserConfigView)>>,
) -> Seq<char> {
    match spec_config_of(language, parsers) {
        Some(ParserConfigView::Full { from: Some(f), .. }) => "Parsing "@ + f + " for "@
            + language,
        _ => "Creating url "@ + TSDL_FROM@ + language + " for "@ + language,
    }
}

/// A language's build coordinates: its custom build command, its resolved
/// ref, and its repository URL (or why that could not be formed).
pub fn get_language_coords(language: &str, parsers: Option<&ParserTable>) -> (r: (
    Option<String>,
    Ref,
    Result<String, String>,
))
    ensures
        ({
            let pv = match parsers {
                Some(t) => Some(t@),
                None => None,
            };
            &&& r.0.deep_view() == spec_script_of(language@, pv)
            &&& r.1@ == spec_ref_of(language@, pv)
            &&& (match r.2 {
                Ok(u) => spec_repo_of(language@, pv) == Some(u@),
                Err(m) => spec_repo_of(language@, pv) is None && m@ == spec_repo_err_of(
                    language@,
                    pv,
                ),
            })
        }),
{
    let config = match parsers {
        Some(t) => t.get(language),
        None => None,
    };
    match config {
        Some(ParserConfig::Ref(git_ref)) => (
            None,
            resolve_git_ref(git_ref.as_str()),
            default_repo(language),
        ),
        Some(ParserConfig::Full { build_script, git_ref, from }) => {
            let script = match build_script {
                Some(s) => Some(clone_string(s)),
                None => None,
            };
            let repo: Result<String, String> = match from {
                Some(f) => match parse_url(f.as_str()) {
                    Some(u) => Ok(u),
                    None => {
                        let mut m = String::from_str("Parsing ");
                        m.append(f.as_str());
                        m.append(" for ");
                        m.append(language);
                        Err(m)
                    },
                },
                None => default_repo(language),
            };
            (script, resolve_git_ref(git_ref.as_str()), repo)
        },
        None => (None, Ref::new(String::from_str(TSDL_REF)), default_repo(language)),
    }
}

// ---------------------------------------------------------------------------
// Which languages run
// ---------------------------------------------------------------------------

/// The requested languages, or every configured parser when none were
/// requested (an empty request counts as none).
pub open spec fn spec_requested(
    requested: Option<Seq<Seq<char>>>,
    parsers: Option<Seq<(Seq<char>, ParserConfigView)>>,
) -> Seq<Seq<char>> {
    match requested {
        Some(l) => if l.len() > 0 {
            l
        } else {
            spec_parser_names(parsers)
        },
        None => spec_parser_names(parsers),
    }
}

/// The configured parser names, in table order.
pub open spec fn spec_parser_names(parsers: Option<Seq<(Seq<char>, ParserConfigView)>>) -> Seq<
    Seq<char>,
> {
    match parsers {
        Some(t) => t.map_values(|e: (Seq<char>, ParserConfigView)| e.0),
        None => Seq::<Seq<char>>::empty(),
    }
}

/// The same names with later repetitions dropped.
pub open spec fn spec_dedup(s: Seq<Seq<char>>) -> Seq<Seq<char>>
    decreases s.len(),
{
    if s.len() == 0 {
        Seq::<Seq<char>>::empty()
    } else {
        let d = spec_dedup(s.drop_last());
        if d.contains(s.last()) {
            d
        } else {
            d.push(s.last())
        }
    }
}

/// Language names are unique after deduplication, and none is lost: the
/// set of names is exactly the set requested.
pub proof fn lemma_dedup_set_semantics(s: Seq<Seq<char>>)
    ensures
        spec_dedup(s).no_duplicates(),
        forall|x: Seq<char>| spec_dedup(s).contains(x) == s.contains(x),
    decreases s.len(),
{
    if s.len() > 0 {
        lemma_dedup_set_semantics(s.drop_last());
        let d = spec_dedup(s.drop_last());
        assert forall|x: Seq<char>| s.contains(x) implies (d.contains(x) || x == s.last()) by {
            let i = choose|i: int| 0 <= i < s.len() && s[i] == x;
            if i < s.len() - 1 {
                assert(s.drop_last()[i] == x);
                assert(s.drop_last().contains(x));
                assert(d.contains(x));
            } else {
                assert(x == s.last());
            }
        }
        assert forall|x: Seq<char>| d.contains(x) implies s.contains(x) by {
            assert(s.drop_last().contains(x));
            let i = choose|i: int| 0 <= i < s.drop_last().len() && s.drop_last()[i] == x;
            assert(s.drop_last()[i] == s[i]);
            assert(s[i] == x);
        }
        if !d.contains(s.last()) {
            let e = d.push(s.last());
            assert forall|i: int, j: int| 0 <= i < j < e.len() implies e[i] != e[j] by {
                if j < e.len() - 1 {
                    assert(e[i] == d[i]);
                    assert(e[j] == d[j]);
                } else {
                    assert(e[i] == d[i]);
                    assert(d.contains(d[i]));
                }
            }
            assert forall|x: Seq<char>| e.contains(x) implies s.contains(x) by {
                let i = choose|i: int| 0 <= i < e.len() && e[i] == x;
                if i < e.len() - 1 {
                    assert(d[i] == x);
                    assert(d.contains(x));
                } else {
                    assert(s.last() == x);
                    assert(s[s.len() - 1] == x);
                }
            }
            assert forall|x: Seq<char>| s.contains(x) implies e.contains(x) by {
                if x == s.last() {
                    assert(e[e.len() - 1] == x);
                } else {
                    assert(d.contains(x));
                    let i = choose|i: int| 0 <= i < d.len() && d[i] == x;
                    assert(e[i] == x);
                }
            }
        } else {
            assert forall|x: Seq<char>| s.contains(x) implies d.contains(x) by {}
        }
    }
}


/// A non-empty list of failing languages names at least one requested
/// language whose repository URL does not parse: the aggregate error never
/// appears out of thin air.
pub proof fn lemma_failing_language_witness(
    langs: Seq<Seq<char>>,
    parsers: Option<Seq<(Seq<char>, ParserConfigView)>>,
)
    requires
        langs.filter(|l: Seq<char>| spec_repo_of(l, parsers) is None).len() > 0,
    ensures
        exists|j: int|
            0 <= j < langs.len() && spec_repo_of(#[trigger] langs[j], parsers) is None,
    decreases langs.len(),
{
    reveal(Seq::filter);
    if langs.len() > 0 {
        if spec_repo_of(langs.last(), parsers) is None {
            assert(spec_repo_of(langs[langs.len() - 1], parsers) is None);
        } else {
            lemma_failing_language_witness(langs.drop_last(), parsers);
            let j = choose|j: int|
                0 <= j < langs.drop_last().len() && spec_repo_of(
                    #[trigger] langs.drop_last()[j],
                    parsers,
                ) is None;
            assert(langs[j] == langs.drop_last()[j]);
        }
    }
}

fn vec_contains_string(v: &Vec<String>, x: &str) -> (r: bool)
    ensures
        r == v.deep_view().contains(x@),
{
    let n = v.len();
    let mut i: usize = 0;
    while i < n
        invariant
            i <= n,
            n == v.len(),
            forall|j: int| 0 <= j < i ==> v.deep_view()[j] != x@,
        decreases n - i,
    {
        if string_eq(&v[i], x) {
            proof {
                assert(v.deep_view()[i as int] == x@);
            }
            return true;
        }
        i += 1;
    }
    false
}

/// The languages one run works on: the requested ones, or every configured
/// parser, with repetitions dropped.
pub fn final_languages(requested: Option<&Vec<String>>, parsers: Option<&ParserTable>) -> (r: Vec<
    String,
>)
    ensures
        ({
            let rv = match requested {
                Some(l) => Some(l.deep_view()),
                None => None,
            };
            let pv = match parsers {
                Some(t) => Some(t@),
                None => None,
            };
            r.deep_view() == spec_dedup(spec_requested(rv, pv))
        }),
{
    let base: Vec<String> = match requested {
        Some(l) => {
            if l.len() > 0 {
                crate::strings::clone_vec_string(l)
            } else {
                parser_names(parsers)
            }
        },
        None => parser_names(parsers),
    };
    let mut out: Vec<String> = Vec::new();
    let n = base.len();
    let ghost bs = base.deep_view();
    let mut i: usize = 0;
    while i < n
        invariant
            i <= n,
            n == base.len(),
            bs == base.deep_view(),
            out.deep_view() =~~= spec_dedup(bs.take(i as int)),
        decreases n - i,
    {
        proof {
            assert(bs.take(i + 1).drop_last() =~= bs.take(i as int));
            assert(bs.take(i + 1).last() == bs[i as int]);
        }
        let ghost pre = out.deep_view();
        if !vec_contains_string(&out, base[i].as_str()) {
            out.push(base[i].clone());
            proof {
                assert(out.deep_view() =~~= pre.push(bs[i as int]));
            }
        }
        proof {
            assert(out.deep_view() =~~= spec_dedup(bs.take(i + 1)));
        }
        i += 1;
    }
    proof {
        assert(bs.take(n as int) =~= bs);
    }
    out
}

fn parser_names(parsers: Option<&ParserTable>) -> (r: Vec<String>)
    ensures
        r.deep_view() == spec_parser_names(
            match parsers {
                Some(t) => Some(t@),
                None => None,
            },
        ),
{
    let mut out: Vec<String> = Vec::new();
    match parsers {
        Some(t) => {
            let n = t.len();
            let mut i: usize = 0;
            while i < n
                invariant
                    i <= n,
                    n == t@.len(),
                    out.deep_view() =~~= t@.take(i as int).map_values(
                        |e: (Seq<char>, ParserConfigView)| e.0,
                    ),
                decreases n - i,
            {
                let ghost pre = out.deep_view();
                out.push(t.name_at(i).clone());
                proof {
                    assert(out.deep_view() =~~= pre.push(t@[i as int].0));
                    assert(t@.take(i + 1).map_values(|e: (Seq<char>, ParserConfigView)| e.0)
                        =~~= pre.push(t@[i as int].0));
                }
                i += 1;
            }
            proof {
                assert(t@.take(n as int) =~= t@);
            }
        },
        None => {
            proof {
                assert(out.deep_view() =~~= Seq::<Seq<char>>::empty());
            }
        },
    }
    out
}

// ---------------------------------------------------------------------------
// The language tasks of one run
// ---------------------------------------------------------------------------

/// The task one language resolves to, when its repository URL parses.
pub open spec fn spec_language_task(
    language: Seq<char>,
    parsers: Option<Seq<(Seq<char>, ParserConfigView)>>,
    build_dir: Seq<char>,
    out_dir: Seq<char>,
    prefix: Seq<char>,
    native: bool,
    wasm: bool,
    dll_ext: Seq<char>,
    ts_cli: Seq<char>,
) -> LanguageView {
    LanguageView {
        build_dir: build_dir + "/tree-sitter-"@ + language,
        build_script: spec_script_of(language, parsers),
        git_ref: spec_ref_of(language, parsers),
        name: language,
        out_dir: out_dir,
        prefix: prefix,
        repo: spec_repo_of(language, parsers)->0,
        native: native,
        wasm: wasm,
        dll_ext: dll_ext,
        ts_cli: ts_cli,
    }
}

/// Resolves every requested language to its task.  Success only when every
/// language's repository URL parses; otherwise the collection error names
/// every language whose URL did not, with its cause, and none is dropped.
#[allow(clippy::too_many_arguments)]
#[verifier::rlimit(50)]
pub fn collect_languages(
    requested: Option<&Vec<String>>,
    parsers: Option<&ParserTable>,
    build_dir: &str,
    out_dir: &str,
    prefix: &str,
    native: bool,
    wasm: bool,
    dll_ext: &str,
    ts_cli: &str,
) -> (r: Result<Vec<Language>, LanguageCollection>)
    ensures
        ({
            let rv = match requested {
                Some(l) => Some(l.deep_view()),
                None => None,
            };
            let pv = match parsers {
                Some(t) => Some(t@),
                None => None,
            };
            let langs = spec_dedup(spec_requested(rv, pv));
            match r {
                Ok(v) => {
                    &&& forall|i: int|
                        0 <= i < langs.len() ==> spec_repo_of(#[trigger] langs[i], pv) is Some
                    &&& v.deep_view().len() == langs.len()
                    &&& forall|i: int|
                        0 <= i < langs.len() ==> #[trigger] v.deep_view()[i]
                            == spec_language_task(
                            langs[i],
                            pv,
                            build_dir@,
                            out_dir@,
                            prefix@,
                            native,
                            wasm,
                            dll_ext@,
                            ts_cli@,
                        )
                },
                Err(c) => {
                    &&& c.related.deep_view().len() > 0
                    &&& c.related.deep_view() =~~= langs.filter(
                        |l: Seq<char>| spec_repo_of(l, pv) is None,
                    ).map_values(
                        |l: Seq<char>|
                            (error::LanguageView { name: l, source: spec_repo_err_of(l, pv) }),
                    )
                },
            }
        }),
{
    let ghost pv = match parsers {
        Some(t) => Some(t@),
        None => None,
    };
    let languages = final_languages(requested, parsers);
    let ghost langs = languages.deep_view();
    let ghost failp = |l: Seq<char>| spec_repo_of(l, pv) is None;
    let mut oks: Vec<Language> = Vec::new();
    let mut errs: Vec<error::Language> = Vec::new();
    let n = languages.len();
    let mut i: usize = 0;
    while i < n
        invariant
            i <= n,
            n == languages.len(),
            langs == languages.deep_view(),
            pv == (match parsers {
                Some(t) => Some(t@),
                None => None,
            }),
            failp == (|l: Seq<char>| spec_repo_of(l, pv) is None),
            errs.deep_view() =~~= langs.take(i as int).filter(failp).map_values(
                |l: Seq<char>|
                    (error::LanguageView { name: l, source: spec_repo_err_of(l, pv) }),
            ),
            errs.len() == 0 ==> (oks.deep_view().len() == i && forall|j: int|
                0 <= j < i ==> (spec_repo_of(#[trigger] langs[j], pv) is Some
                    && oks.deep_view()[j] == spec_language_task(
                    langs[j],
                    pv,
                    build_dir@,
                    out_dir@,
                    prefix@,
                    native,
                    wasm,
                    dll_ext@,
                    ts_cli@,
                ))),
        decreases n - i,
    {
        let language = &languages[i];
        proof {
            assert(language@ == langs[i as int]);
            assert(langs.take(i + 1).drop_last() =~= langs.take(i as int));
            assert(langs.take(i + 1).last() == langs[i as int]);
            reveal_with_fuel(Seq::filter, 2);
        }
        let (script, git_ref, repo) = get_language_coords(language.as_str(), parsers);
        match repo {
            Ok(url) => {
                let lang_dir = concat3(build_dir, "/tree-sitter-", language.as_str());
                let task = Language::new(
                    lang_dir,
                    script,
                    git_ref,
                    clone_string(language),
                    String::from_str(out_dir),
                    String::from_str(prefix),
                    url,
                    native,
                    wasm,
                    String::from_str(dll_ext),
                    String::from_str(ts_cli),
                );
                let ghost pre = oks.deep_view();
                oks.push(task);
                proof {
                    assert(oks.deep_view() =~~= pre.push(spec_language_task(
                        langs[i as int],
                        pv,
                        build_dir@,
                        out_dir@,
                        prefix@,
                        native,
                        wasm,
                        dll_ext@,
                        ts_cli@,
                    )));
                    assert(langs.take(i + 1).filter(failp) =~= langs.take(i as int).filter(
                        failp,
                    ));
                }
            },
            Err(msg) => {
                let ghost pre = errs.deep_view();
                errs.push(error::Language { name: clone_string(language), source: msg });
                proof {
                    assert(errs.deep_view() =~~= pre.push(error::LanguageView {
                        name: langs[i as int],
                        source: spec_repo_err_of(langs[i as int], pv),
                    }));
                    assert(langs.take(i + 1).filter(failp) =~= langs.take(i as int).filter(
                        failp,
                    ).push(langs[i as int]));
                }
            },
        }
        i += 1;
    }
    proof {
        assert(langs.take(n as int) =~= langs);
    }
    if errs.len() == 0 {
        Ok(oks)
    } else {
        Err(LanguageCollection { related: errs })
    }
}

} // verus!
