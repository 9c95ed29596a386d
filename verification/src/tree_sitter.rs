//! Toolchain acquisition: remote-tag parsing, tag lookup, and the paths and
//! URL of the platform build-tool binary.
//!
//! Listing the remote's tags and downloading the release asset are I/O done
//! by the caller; this module turns the captured tag listing into a lookup
//! table, resolves a requested version against it, and computes where the
//! binary and its compressed asset live.

use vstd::prelude::*;
use crate::git::{Ref, Tag};
use crate::strings::{split_on, split_on_char, spec_trim, trim_str, concat_str, concat3,
    string_eq, spec_lines, lines_of};

verus! {

// ---------------------------------------------------------------------------
// A small string-keyed table with map semantics
// ---------------------------------------------------------------------------

/// Unique keys among the stored pairs.
pub open spec fn wf_pairs(s: Seq<(String, String)>) -> bool {
    forall|i: int, j: int| 0 <= i < j < s.len() ==> s[i].0@ != s[j].0@
}

/// The map a pair sequence stands for; a later pair with the same key wins.
pub open spec fn pairs_map(s: Seq<(String, String)>) -> Map<Seq<char>, Seq<char>>
    decreases s.len(),
{
    if s.len() == 0 {
        Map::<Seq<char>, Seq<char>>::empty()
    } else {
        pairs_map(s.drop_last()).insert(s.last().0@, s.last().1@)
    }
}

proof fn lemma_pairs_map_get(s: Seq<(String, String)>, i: int)
    requires
        wf_pairs(s),
        0 <= i < s.len(),
    ensures
        pairs_map(s).contains_key(s[i].0@),
        pairs_map(s)[s[i].0@] == s[i].1@,
    decreases s.len(),
{
    if i < s.len() - 1 {
        assert(wf_pairs(s.drop_last()));
        assert(s.drop_last()[i] == s[i]);
        lemma_pairs_map_get(s.drop_last(), i);
        assert(s[i].0@ != s.last().0@);
    }
}

proof fn lemma_pairs_map_absent(s: Seq<(String, String)>, k: Seq<char>)
    requires
        forall|i: int| 0 <= i < s.len() ==> s[i].0@ != k,
    ensures
        !pairs_map(s).contains_key(k),
    decreases s.len(),
{
    if s.len() > 0 {
        assert(forall|i: int|
            0 <= i < s.drop_last().len() ==> #[trigger] s.drop_last()[i].0@ != k);
        lemma_pairs_map_absent(s.drop_last(), k);
    }
}

/// A lookup table from short tag name to commit id, with map semantics.
#[derive(Debug)]
pub struct Refs {
    pairs: Vec<(String, String)>,
}

impl View for Refs {
    type V = Map<Seq<char>, Seq<char>>;

    closed spec fn view(&self) -> Map<Seq<char>, Seq<char>> {
        pairs_map(self.pairs@)
    }
}

impl Refs {
    pub closed spec fn wf(&self) -> bool {
        wf_pairs(self.pairs@)
    }

    pub fn new() -> (r: Refs)
        ensures
            r.wf(),
            r@ == Map::<Seq<char>, Seq<char>>::empty(),
    {
        Refs { pairs: Vec::new() }
    }

    /// The position of `key` among the pairs, if present.
    fn index_of_key(&self, key: &str) -> (r: Option<usize>)
        ensures
            match r {
                Some(i) => i < self.pairs@.len() && self.pairs@[i as int].0@ == key@,
                None => forall|j: int| 0 <= j < self.pairs@.len() ==> self.pairs@[j].0@ != key@,
            },
    {
        let n = self.pairs.len();
        let mut i: usize = 0;
        while i < n
            invariant
                i <= n,
                n == self.pairs.len(),
                forall|j: int| 0 <= j < i ==> self.pairs@[j].0@ != key@,
            decreases n - i,
        {
            if string_eq(&self.pairs[i].0, key) {
                return Some(i);
            }
            i += 1;
        }
        None
    }

    /// Inserts `key -> value`, replacing any earlier value for the key.
    pub fn insert(&mut self, key: String, value: String)
        requires
            old(self).wf(),
        ensures
            final(self).wf(),
            final(self)@ == old(self)@.insert(key@, value@),
    {
        let ghost oldmap = self@;
        let ghost olds = self.pairs@;
        match self.index_of_key(key.as_str()) {
            Some(i) => {
                self.pairs.remove(i);
                proof {
                    assert(self.pairs@ == olds.remove(i as int));
                    assert forall|a: int, b: int|
                        0 <= a < b < self.pairs@.len() implies self.pairs@[a].0@
                        != self.pairs@[b].0@ by {
                        if b < i {
                            assert(self.pairs@[a] == olds[a]);
                            assert(self.pairs@[b] == olds[b]);
                        } else if a < i {
                            assert(self.pairs@[a] == olds[a]);
                            assert(self.pairs@[b] == olds[b + 1]);
                        } else {
                            assert(self.pairs@[a] == olds[a + 1]);
                            assert(self.pairs@[b] == olds[b + 1]);
                        }
                    }
                    assert forall|j: int| 0 <= j < self.pairs@.len() implies #[trigger] self
                        .pairs@[j].0@ != key@ by {
                        if j < i {
                            assert(self.pairs@[j] == olds[j]);
                            assert(olds[j].0@ != olds[i as int].0@);
                        } else {
                            assert(self.pairs@[j] == olds[j + 1]);
                            assert(olds[i as int].0@ != olds[j + 1].0@);
                        }
                    }
                }
                let ghost pre = self.pairs@;
                proof {
                    lemma_pairs_map_absent(pre, key@);
                }
                self.pairs.push((key, value));
                proof {
                    assert(self.pairs@.drop_last() =~= pre);
                    assert forall|a: int, b: int|
                        0 <= a < b < self.pairs@.len() implies self.pairs@[a].0@
                        != self.pairs@[b].0@ by {
                        assert(self.pairs@[a] == pre[a]);
                        if b < self.pairs@.len() - 1 {
                            assert(self.pairs@[b] == pre[b]);
                        }
                    }
                    assert(self@ == pairs_map(pre).insert(key@, value@));
                    assert forall|k2: Seq<char>|
                        self@.contains_key(k2) == oldmap.insert(
                            key@,
                            value@,
                        ).contains_key(k2) by {
                        if k2 != key@ {
                            lemma_remove_keeps_map(olds, i as int, key@, k2);
                        }
                    }
                    assert forall|k2: Seq<char>|
                        self@.contains_key(k2) && k2 != key@ implies self@[k2]
                        == oldmap[k2] by {
                        lemma_remove_keeps_map(olds, i as int, key@, k2);
                    }
                    assert(self@ =~= oldmap.insert(key@, value@));
                }
            },
            None => {
                let ghost pre = self.pairs@;
                proof {
                    lemma_pairs_map_absent(pre, key@);
                }
                self.pairs.push((key, value));
                proof {
                    assert(self.pairs@.drop_last() =~= pre);
                    assert forall|a: int, b: int|
                        0 <= a < b < self.pairs@.len() implies self.pairs@[a].0@
                        != self.pairs@[b].0@ by {
                        assert(self.pairs@[a] == pre[a]);
                        if b < self.pairs@.len() - 1 {
                            assert(self.pairs@[b] == pre[b]);
                        }
                    }
                    assert(self@ == pairs_map(pre).insert(key@, value@));
                    assert(self@ =~= oldmap.insert(key@, value@));
                }
            },
        }
    }

    /// The commit id stored for `key`, if any.
    pub fn get(&self, key: &str) -> (r: Option<&String>)
        requires
            self.wf(),
        ensures
            match r {
                Some(v) => self@.contains_key(key@) && v@ == self@[key@],
                None => !self@.contains_key(key@),
            },
    {
        let n = self.pairs.len();
        let mut i: usize = 0;
        while i < n
            invariant
                i <= n,
                n == self.pairs.len(),
                self.wf(),
                forall|j: int| 0 <= j < i ==> self.pairs@[j].0@ != key@,
            decreases n - i,
        {
            if string_eq(&self.pairs[i].0, key) {
                proof {
                    lemma_pairs_map_get(self.pairs@, i as int);
                }
                return Some(&self.pairs[i].1);
            }
            i += 1;
        }
        proof {
            lemma_pairs_map_absent(self.pairs@, key@);
        }
        None
    }

    /// The stored key and commit id for `key`, if any.
    pub fn get_key_value(&self, key: &str) -> (r: Option<(&String, &String)>)
        requires
            self.wf(),
        ensures
            match r {
                Some((k, v)) => self@.contains_key(key@) && k@ == key@ && v@ == self@[key@],
                None => !self@.contains_key(key@),
            },
    {
        let n = self.pairs.len();
        let mut i: usize = 0;
        while i < n
            invariant
                i <= n,
                n == self.pairs.len(),
                self.wf(),
                forall|j: int| 0 <= j < i ==> self.pairs@[j].0@ != key@,
            decreases n - i,
        {
            if string_eq(&self.pairs[i].0, key) {
                proof {
                    lemma_pairs_map_get(self.pairs@, i as int);
                }
                return Some((&self.pairs[i].0, &self.pairs[i].1));
            }
            i += 1;
        }
        proof {
            lemma_pairs_map_absent(self.pairs@, key@);
        }
        None
    }

    /// Whether the table holds no tag at all.
    pub fn is_empty(&self) -> (r: bool)
        requires
            self.wf(),
        ensures
            r == (self@ == Map::<Seq<char>, Seq<char>>::empty()),
    {
        let e = self.pairs.len() == 0;
        proof {
            if self.pairs@.len() == 0 {
                assert(self@ =~= Map::<Seq<char>, Seq<char>>::empty());
            } else {
                lemma_pairs_map_get(self.pairs@, self.pairs@.len() - 1);
                assert(self@.contains_key(self.pairs@.last().0@));
            }
        }
        e
    }
}

proof fn lemma_remove_keeps_map(s: Seq<(String, String)>, i: int, k: Seq<char>, k2: Seq<char>)
    requires
        wf_pairs(s),
        0 <= i < s.len(),
        s[i].0@ == k,
        k2 != k,
    ensures
        pairs_map(s.remove(i)).contains_key(k2) == pairs_map(s).contains_key(k2),
        pairs_map(s).contains_key(k2) ==> pairs_map(s.remove(i))[k2] == pairs_map(s)[k2],
    decreases s.len(),
{
    if i == s.len() - 1 {
        assert(s.remove(i) =~= s.drop_last());
    } else {
        assert(wf_pairs(s.drop_last()));
        assert(s.drop_last()[i] == s[i]);
        lemma_remove_keeps_map(s.drop_last(), i, k, k2);
        assert(s.remove(i).drop_last() =~= s.drop_last().remove(i));
        assert(s.remove(i).last() == s.last());
        assert(s.remove(i).len() > 0);
        assert(pairs_map(s.remove(i)) == pairs_map(s.drop_last().remove(i)).insert(
            s.last().0@,
            s.last().1@,
        ));
        assert(pairs_map(s) == pairs_map(s.drop_last()).insert(s.last().0@, s.last().1@));
    }
}

// ---------------------------------------------------------------------------
// Remote tag listing
// ---------------------------------------------------------------------------

/// One line of a tag listing: the trimmed first tab-separated field is the
/// commit id, the last `/`-separated segment of the trimmed second field is
/// the short tag name.  The entry maps the tag name to the commit id.
pub open spec fn line_entry(line: Seq<char>) -> (Seq<char>, Seq<char>) {
    let parts = split_on(line, '\t');
    let sha = spec_trim(parts[0]);
    let full = spec_trim(parts[1]);
    let segs = split_on(full, '/');
    (segs.last(), sha)
}

/// The lookup table a tag listing stands for; later lines win.
pub open spec fn refs_of_lines(lines: Seq<Seq<char>>) -> Map<Seq<char>, Seq<char>>
    decreases lines.len(),
{
    if lines.len() == 0 {
        Map::<Seq<char>, Seq<char>>::empty()
    } else {
        refs_of_lines(lines.drop_last()).insert(
            line_entry(lines.last()).0,
            line_entry(lines.last()).1,
        )
    }
}

/// The lookup table of a whole captured tag listing.
pub open spec fn spec_parse_refs(s: Seq<char>) -> Map<Seq<char>, Seq<char>> {
    refs_of_lines(spec_lines(s))
}

/// Every line of a usable tag listing has a tab between the commit id and
/// the full ref name.
pub open spec fn lines_have_tabs(s: Seq<char>) -> bool {
    forall|i: int|
        0 <= i < spec_lines(s).len() ==> split_on(#[trigger] spec_lines(s)[i], '\t').len() >= 2
}

/// Builds the tag lookup table from the captured output of listing a
/// remote's tags, one `<commit-id>\t<full-ref>` pair per line; the short
/// tag name (the last path segment) maps to the commit id.
pub fn parse_refs(stdout: &str) -> (refs: Refs)
    requires
        lines_have_tabs(stdout@),
    ensures
        refs.wf(),
        refs@ == spec_parse_refs(stdout@),
{
    let all_lines = lines_of(stdout);
    let mut refs = Refs::new();
    let n = all_lines.len();
    let ghost ls = all_lines.deep_view();
    let mut i: usize = 0;
    while i < n
        invariant
            i <= n,
            n == all_lines.len(),
            ls == all_lines.deep_view(),
            ls == spec_lines(stdout@),
            lines_have_tabs(stdout@),
            refs.wf(),
            refs@ == refs_of_lines(ls.take(i as int)),
        decreases n - i,
    {
        let line = &all_lines[i];
        let parts = split_on_char(line.as_str(), '\t');
        proof {
            assert(ls[i as int] == line@);
            assert(split_on(line@, '\t').len() >= 2);
        }
        let sha = trim_str(parts[0].as_str());
        let full = trim_str(parts[1].as_str());
        let segs = split_on_char(full.as_str(), '/');
        let tag = segs[segs.len() - 1].clone();
        proof {
            assert(parts.deep_view()[0] == parts@[0]@);
            assert(parts.deep_view()[1] == parts@[1]@);
            assert(segs.deep_view().last() == segs@[segs@.len() - 1]@);
            assert(tag@ == line_entry(ls[i as int]).0);
            assert(sha@ == line_entry(ls[i as int]).1);
        }
        refs.insert(tag, sha);
        proof {
            assert(ls.take(i + 1).drop_last() =~= ls.take(i as int));
            assert(ls.take(i + 1).last() == ls[i as int]);
        }
        i += 1;
    }
    proof {
        assert(ls.take(n as int) =~= ls);
    }
    refs
}

/// Looks `version` up among the tags: `v{version}` first, then `version`
/// itself; an exact tag carries its label and commit id, anything else
/// stays an unresolved ref to be dereferenced later.
pub fn find_tag(refs: &Refs, version: &str) -> (t: Tag)
    requires
        refs.wf(),
    ensures
        ({
            let vkey = seq!['v'] + version@;
            match t {
                Tag::Exact { label, sha1 } => {
                    &&& (label@ == vkey || label@ == version@)
                    &&& (refs@.contains_key(vkey) ==> label@ == vkey)
                    &&& refs@.contains_key(label@)
                    &&& sha1@ == refs@[label@]
                },
                Tag::Ref(r) => {
                    &&& !refs@.contains_key(vkey)
                    &&& !refs@.contains_key(version@)
                    &&& r@ == version@
                },
            }
        }),
{
    let vkey = concat_str("v", version);
    proof {
        reveal_strlit("v");
        assert(vkey@ =~= seq!['v'] + version@);
    }
    match refs.get_key_value(vkey.as_str()) {
        Some((k, v)) => Tag::Exact {
            label: String::from_str(k.as_str()),
            sha1: Ref::new(String::from_str(v.as_str())),
        },
        None => match refs.get_key_value(version) {
            Some((k, v)) => Tag::Exact {
                label: String::from_str(k.as_str()),
                sha1: Ref::new(String::from_str(v.as_str())),
            },
            None => Tag::Ref(Ref::new(String::from_str(version))),
        },
    }
}

// ---------------------------------------------------------------------------
// Toolchain binary locations
// ---------------------------------------------------------------------------

/// Where the downloaded, decompressed build tool binary and its compressed
/// asset live, and the URL the asset comes from.
#[derive(Clone, Debug)]
pub struct DownloadPlan {
    pub url: String,
    pub gz: String,
    pub bin: String,
}

/// The file name of the platform build-tool binary.
pub fn cli_name(platform: &str) -> (r: String)
    ensures
        r@ == "tree-sitter-"@ + platform@,
{
    concat_str("tree-sitter-", platform)
}

/// The expected path of the build-tool binary under the build directory.
pub fn cli_path(build_dir: &str, platform: &str) -> (r: String)
    ensures
        r@ == build_dir@ + "/"@ + "tree-sitter-"@ + platform@,
{
    let name = cli_name(platform);
    concat3(build_dir, "/", name.as_str())
}

/// The working directory used to dereference an unresolved toolchain ref.
pub fn toolchain_repo_dir(build_dir: &str) -> (r: String)
    ensures
        r@ == build_dir@ + "/tree-sitter"@,
{
    concat_str(build_dir, "/tree-sitter")
}

/// Where to download the compressed release asset for `label` from, where
/// to put it, and where the decompressed binary goes.  The caller downloads
/// only when the binary is not already present.
pub fn download_plan(build_dir: &str, platform: &str, repo: &str, label: &str) -> (r: DownloadPlan)
    ensures
        r.bin@ == build_dir@ + "/"@ + "tree-sitter-"@ + platform@,
        r.gz@ == r.bin@ + ".gz"@,
        r.url@ == repo@ + "/releases/download/"@ + label@ + "/"@ + "tree-sitter-"@ + platform@
            + ".gz"@,
{
    let name = cli_name(platform);
    let bin = cli_path(build_dir, platform);
    let gz = concat_str(bin.as_str(), ".gz");
    let gz_base = concat_str(name.as_str(), ".gz");
    let mut url = concat3(repo, "/releases/download/", label);
    url.append("/");
    url.append(gz_base.as_str());
    DownloadPlan { url, gz, bin }
}

} // verus!
