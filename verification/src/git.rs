//! Git references, tags, and the fast-update plan.
//!
//! A [`Ref`] is a git reference string: a branch name, a tag name, or a
//! 40-character hexadecimal commit id.  A [`Tag`] is the outcome of looking a
//! version up among a repository's tags: either an exact tag (label plus
//! commit id) or a ref that still has to be dereferenced later.
//!
//! Keeping a local working copy at a requested ref is modelled as a plan: a
//! sequence of [`GitAction`] values computed from what was observed about the
//! directory ([`RepoObservation`]).  The caller performs the actions in
//! order; the decision logic here is what is verified.

use vstd::prelude::*;
use crate::strings::{is_hex_char, hex_char, spec_trim, trim_str, string_eq, str_eq, split_on,
    split_on_char, parses_as_u32, parse_ok_u32, concat_str};

verus! {

// ---------------------------------------------------------------------------
// Refs
// ---------------------------------------------------------------------------

/// A 40-character hexadecimal commit id.
pub open spec fn is_sha1(s: Seq<char>) -> bool {
    s.len() == 40 && forall|i: int| 0 <= i < s.len() ==> is_hex_char(s[i])
}

/// Is `s` a 40-character hexadecimal commit id?
pub fn sha1_like(s: &str) -> (r: bool)
    ensures
        r == is_sha1(s@),
{
    let n = s.unicode_len();
    if n != 40 {
        return false;
    }
    let mut i: usize = 0;
    while i < n
        invariant
            i <= n,
            n == s@.len(),
            forall|j: int| 0 <= j < i ==> is_hex_char(s@[j]),
        decreases n - i,
    {
        if !hex_char(s.get_char(i)) {
            return false;
        }
        i += 1;
    }
    true
}

/// A semantic-version shorthand: does not start with `v`, and every
/// dot-separated component parses as a non-negative integer.
pub open spec fn is_version_shorthand(s: Seq<char>) -> bool {
    &&& !(s.len() > 0 && s[0] == 'v')
    &&& forall|i: int|
        0 <= i < split_on(s, '.').len() ==> parses_as_u32(#[trigger] split_on(s, '.')[i])
}

/// Is `s` a semantic-version shorthand such as `0.22.0`?
pub fn version_shorthand(s: &str) -> (r: bool)
    ensures
        r == is_version_shorthand(s@),
{
    let n = s.unicode_len();
    if n > 0 && s.get_char(0) == 'v' {
        return false;
    }
    let parts = split_on_char(s, '.');
    let mut i: usize = 0;
    while i < parts.len()
        invariant
            i <= parts.len(),
            parts.deep_view() == split_on(s@, '.'),
            !(s@.len() > 0 && s@[0] == 'v'),
            forall|j: int| 0 <= j < i ==> parses_as_u32(#[trigger] split_on(s@, '.')[j]),
        decreases parts.len() - i,
    {
        if !parse_ok_u32(parts[i].as_str()) {
            proof {
                assert(split_on(s@, '.')[i as int] == parts.deep_view()[i as int]);
            }
            return false;
        }
        i += 1;
    }
    true
}

/// The canonical form of a user-supplied version string: a commit id is used
/// verbatim, a semantic-version shorthand gains a leading `v`, and anything
/// else (branch, tag, `HEAD`) is used verbatim.
pub open spec fn spec_resolve_ref(s: Seq<char>) -> Seq<char> {
    if is_sha1(s) {
        s
    } else if is_version_shorthand(s) {
        seq!['v'] + s
    } else {
        s
    }
}

/// Normalizes a user-supplied version string into a canonical git reference.
/// Never fails.
pub fn resolve_git_ref(s: &str) -> (r: Ref)
    ensures
        r@ == spec_resolve_ref(s@),
{
    if sha1_like(s) {
        Ref(String::from_str(s))
    } else if version_shorthand(s) {
        let r = concat_str("v", s);
        proof {
            reveal_strlit("v");
            assert("v"@ =~= seq!['v']);
        }
        Ref(r)
    } else {
        Ref(String::from_str(s))
    }
}


/// A semantic-version shorthand resolves to itself with a leading `v`.
/// (A shorthand that also happens to be a 40-character hexadecimal string,
/// such as a 40-digit run of zeros ending in `1`, counts as a commit id
/// instead and is left verbatim.)
pub proof fn lemma_resolve_version_shorthand(s: Seq<char>)
    requires
        is_version_shorthand(s),
        !is_sha1(s),
    ensures
        spec_resolve_ref(s) == seq!['v'] + s,
{
}

/// A string that is neither a commit id nor a shorthand resolves to
/// itself: branch names, tag names, and `HEAD` are used verbatim.
pub proof fn lemma_resolve_verbatim(s: Seq<char>)
    requires
        !is_sha1(s),
        !is_version_shorthand(s),
    ensures
        spec_resolve_ref(s) == s,
{
}

/// A commit id resolves to itself, and is displayed truncated to its
/// first seven characters.
pub proof fn lemma_resolve_sha1(s: Seq<char>)
    requires
        is_sha1(s),
    ensures
        spec_resolve_ref(s) == s,
        spec_display_ref(s) == s.take(7),
{
}

/// How a ref is shown: a commit id is truncated to its first 7 characters,
/// everything else is shown verbatim.
pub open spec fn spec_display_ref(s: Seq<char>) -> Seq<char> {
    if is_sha1(s) {
        s.take(7)
    } else {
        s
    }
}

/// A git reference: branch name, tag name, or commit id.
#[derive(Clone, Debug)]
pub struct Ref(pub String);

impl View for Ref {
    type V = Seq<char>;

    open spec fn view(&self) -> Seq<char> {
        self.0@
    }
}

impl Ref {
    pub fn new(s: String) -> (r: Ref)
        ensures
            r@ == s@,
    {
        Ref(s)
    }

    pub fn as_str(&self) -> (r: &str)
        ensures
            r@ == self@,
    {
        self.0.as_str()
    }

    /// The displayed form of this ref (commit ids shortened to 7 characters).
    pub fn display_string(&self) -> (r: String)
        ensures
            r@ == spec_display_ref(self@),
    {
        if sha1_like(self.0.as_str()) {
            let head = self.0.as_str().substring_char(0, 7);
            proof {
                assert(head@ =~= self@.take(7));
            }
            String::from_str(head)
        } else {
            String::from_str(self.0.as_str())
        }
    }
}

/// A version looked up among a repository's tags: either a concrete release
/// tag found on the remote, or a ref that could not be matched and must be
/// dereferenced later.
#[derive(Clone, Debug)]
pub enum Tag {
    Exact { label: String, sha1: Ref },
    Ref(Ref),
}

impl Tag {
    /// The git ref this tag stands for: the commit id of an exact tag, or
    /// the unresolved ref itself.
    pub fn git_ref(&self) -> (r: &Ref)
        ensures
            match self {
                Tag::Exact { sha1, .. } => r@ == sha1@,
                Tag::Ref(rf) => r@ == rf@,
            },
    {
        match self {
            Tag::Exact { sha1, .. } => sha1,
            Tag::Ref(r) => r,
        }
    }

    /// The displayed form of this tag: the label of an exact tag, or the
    /// displayed form of the unresolved ref.
    pub fn display_string(&self) -> (r: String)
        ensures
            match self {
                Tag::Exact { label, .. } => r@ == label@,
                Tag::Ref(rf) => r@ == spec_display_ref(rf@),
            },
    {
        match self {
            Tag::Exact { label, .. } => String::from_str(label.as_str()),
            Tag::Ref(r) => r.display_string(),
        }
    }
}

// ---------------------------------------------------------------------------
// The fast-update plan
// ---------------------------------------------------------------------------

/// What was observed about a local working directory before updating it.
/// `remote_url` is the raw output of asking the repository for its origin
/// URL (empty when there is none); `head` is the raw output of resolving
/// `HEAD` (empty when that failed); `valid_git` is whether the directory is
/// a working tree whose `HEAD` resolves.
#[derive(Clone, Debug)]
pub struct RepoObservation {
    pub remote_url: String,
    pub valid_git: bool,
    pub head: String,
}

/// The view of an observation.
pub struct RepoObservationView {
    pub remote_url: Seq<char>,
    pub valid_git: bool,
    pub head: Seq<char>,
}

impl View for RepoObservation {
    type V = RepoObservationView;

    open spec fn view(&self) -> RepoObservationView {
        RepoObservationView {
            remote_url: self.remote_url@,
            valid_git: self.valid_git,
            head: self.head@,
        }
    }
}

/// One git or filesystem action of an update plan, to be performed in the
/// working directory.
#[derive(Clone, Debug)]
pub enum GitAction {
    /// Remove the directory (or stale file) entirely.
    RemovePath,
    /// Create the directory and its parents.
    CreateDir,
    /// `git init`
    Init,
    /// `git remote add origin <repo>`
    AddOrigin { repo: String },
    /// `git fetch origin --depth 1 <ref>` (shallow, exactly the ref)
    Fetch { git_ref: String },
    /// `git reset --hard FETCH_HEAD`
    ResetFetchHead,
    /// `git reset --hard HEAD`
    ResetHard,
    /// `git pull`
    Pull,
    /// `git clone <repo> <dir>`
    CloneRepo { repo: String },
}

/// The view of one plan action.
pub enum GitActionView {
    RemovePath,
    CreateDir,
    Init,
    AddOrigin { repo: Seq<char> },
    Fetch { git_ref: Seq<char> },
    ResetFetchHead,
    ResetHard,
    Pull,
    CloneRepo { repo: Seq<char> },
}

impl View for GitAction {
    type V = GitActionView;

    open spec fn view(&self) -> GitActionView {
        match self {
            GitAction::RemovePath => GitActionView::RemovePath,
            GitAction::CreateDir => GitActionView::CreateDir,
            GitAction::Init => GitActionView::Init,
            GitAction::AddOrigin { repo } => GitActionView::AddOrigin { repo: repo@ },
            GitAction::Fetch { git_ref } => GitActionView::Fetch { git_ref: git_ref@ },
            GitAction::ResetFetchHead => GitActionView::ResetFetchHead,
            GitAction::ResetHard => GitActionView::ResetHard,
            GitAction::Pull => GitActionView::Pull,
            GitAction::CloneRepo { repo } => GitActionView::CloneRepo { repo: repo@ },
        }
    }
}

/// The views of a whole plan.
pub open spec fn plan_view(plan: Seq<GitAction>) -> Seq<GitActionView> {
    plan.map_values(|a: GitAction| a@)
}

/// Does the plan fetch from the network?
pub open spec fn plan_fetches(plan: Seq<GitActionView>) -> bool {
    exists|i: int| 0 <= i < plan.len() && (plan[i] is Fetch || plan[i] is Pull || plan[i] is CloneRepo)
}

/// Shallow fetch of exactly the requested ref, then hard-reset to what was
/// fetched.
pub open spec fn spec_fetch_and_checkout(git_ref: Seq<char>) -> Seq<GitActionView> {
    seq![GitActionView::Fetch { git_ref }, GitActionView::ResetFetchHead]
}

/// Wipe, re-create, `init`, add the origin, then fetch-and-checkout.
pub open spec fn spec_init_fetch_and_checkout(repo: Seq<char>, git_ref: Seq<char>) -> Seq<
    GitActionView,
> {
    seq![
        GitActionView::RemovePath,
        GitActionView::CreateDir,
        GitActionView::Init,
        GitActionView::AddOrigin { repo },
    ] + spec_fetch_and_checkout(git_ref)
}

/// On a valid working copy: nothing when the head already equals the
/// requested ref, otherwise a hard reset followed by fetch-and-checkout.
pub open spec fn spec_reset_head_hard(head: Seq<char>, git_ref: Seq<char>) -> Seq<GitActionView> {
    if git_ref == spec_trim(head) {
        Seq::<GitActionView>::empty()
    } else {
        seq![GitActionView::ResetHard] + spec_fetch_and_checkout(git_ref)
    }
}

/// The fast-update decision procedure: wipe when the origin does not match
/// the requested URL; then either bring a valid working copy to the ref, or
/// initialize the directory from scratch.
pub open spec fn spec_clone_fast(o: RepoObservationView, repo: Seq<char>, git_ref: Seq<char>) -> Seq<
    GitActionView,
> {
    let mismatch = spec_trim(o.remote_url) != repo;
    let pre = if mismatch {
        seq![GitActionView::RemovePath]
    } else {
        Seq::<GitActionView>::empty()
    };
    let valid = o.valid_git && !mismatch;
    if valid {
        pre + spec_reset_head_hard(o.head, git_ref)
    } else {
        pre + spec_init_fetch_and_checkout(repo, git_ref)
    }
}

fn push_fetch_and_checkout(plan: &mut Vec<GitAction>, git_ref: &str)
    ensures
        plan_view(final(plan)@) =~= plan_view(old(plan)@) + spec_fetch_and_checkout(git_ref@),
{
    plan.push(GitAction::Fetch { git_ref: String::from_str(git_ref) });
    plan.push(GitAction::ResetFetchHead);
}

fn push_init_fetch_and_checkout(plan: &mut Vec<GitAction>, repo: &str, git_ref: &str)
    ensures
        plan_view(final(plan)@) =~= plan_view(old(plan)@) + spec_init_fetch_and_checkout(
            repo@,
            git_ref@,
        ),
{
    plan.push(GitAction::RemovePath);
    plan.push(GitAction::CreateDir);
    plan.push(GitAction::Init);
    plan.push(GitAction::AddOrigin { repo: String::from_str(repo) });
    push_fetch_and_checkout(plan, git_ref);
}

/// Computes the fast-update plan for a working directory observed as `o`,
/// targeting `repo` at `git_ref`.  Performing the actions in order brings
/// the directory to a working copy of `repo` checked out at `git_ref`, with
/// a shallow fetch of at most that one ref.
pub fn clone_fast(o: &RepoObservation, repo: &str, git_ref: &str) -> (plan: Vec<GitAction>)
    ensures
        plan_view(plan@) == spec_clone_fast(o@, repo@, git_ref@),
{
    let mut plan: Vec<GitAction> = Vec::new();
    let trimmed_remote = trim_str(o.remote_url.as_str());
    let mismatch = !string_eq(&trimmed_remote, repo);
    if mismatch {
        plan.push(GitAction::RemovePath);
    }
    let valid = o.valid_git && !mismatch;
    if valid {
        let trimmed_head = trim_str(o.head.as_str());
        if !str_eq(git_ref, trimmed_head.as_str()) {
            plan.push(GitAction::ResetHard);
            push_fetch_and_checkout(&mut plan, git_ref);
        }
        proof {
            assert(plan_view(plan@) =~= spec_clone_fast(o@, repo@, git_ref@));
        }
    } else {
        push_init_fetch_and_checkout(&mut plan, repo, git_ref);
        proof {
            assert(plan_view(plan@) =~= spec_clone_fast(o@, repo@, git_ref@));
        }
    }
    plan
}

/// Repeating the update is a no-op: once the working copy is valid, its
/// origin matches, and its head equals the requested ref, the plan is empty,
/// so in particular nothing is fetched again.
pub proof fn lemma_clone_fast_idempotent(o: RepoObservationView, repo: Seq<char>, git_ref: Seq<char>)
    requires
        o.valid_git,
        spec_trim(o.remote_url) == repo,
        spec_trim(o.head) == git_ref,
    ensures
        spec_clone_fast(o, repo, git_ref) == Seq::<GitActionView>::empty(),
        !plan_fetches(spec_clone_fast(o, repo, git_ref)),
{
    assert(spec_clone_fast(o, repo, git_ref) =~= Seq::<GitActionView>::empty());
}

/// The plain clone-or-pull plan: pull when the directory already exists,
/// clone the repository otherwise.
pub open spec fn spec_clone(exists_dir: bool, repo: Seq<char>) -> Seq<GitActionView> {
    if exists_dir {
        seq![GitActionView::Pull]
    } else {
        seq![GitActionView::CloneRepo { repo }]
    }
}

/// Computes the clone-or-pull plan for a full (tag-bearing) working copy.
pub fn clone(exists_dir: bool, repo: &str) -> (plan: Vec<GitAction>)
    ensures
        plan_view(plan@) == spec_clone(exists_dir, repo@),
{
    let mut plan: Vec<GitAction> = Vec::new();
    if exists_dir {
        plan.push(GitAction::Pull);
    } else {
        plan.push(GitAction::CloneRepo { repo: String::from_str(repo) });
    }
    proof {
        assert(plan_view(plan@) =~= spec_clone(exists_dir, repo@));
    }
    plan
}

} // verus!
