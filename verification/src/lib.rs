//! A library that plans and checks the work of building many tree-sitter
//! parsers: resolving version refs, keeping local clones up to date with a
//! shallow fast-update, locating grammar roots inside a repository, driving
//! the per-grammar generate/compile/copy pipeline, and aggregating the
//! outcome of every language into one result.

pub mod args;
pub mod config;
pub mod consts;
pub mod error;
pub mod git;
pub mod languages;
pub mod parser;
pub mod sh;
pub mod strings;
pub mod tree_sitter;

use vstd::prelude::*;
use crate::strings::{dec_of, u64_to_string, concat_str};

verus! {

/// How a duration is shown: under a minute, seconds and zero-padded
/// milliseconds; at a minute or more, the seconds remainder is printed in
/// the minutes place and the whole minutes in the seconds place.
pub open spec fn spec_format_duration(s: nat, ms: nat) -> Seq<char> {
    if s < 60 {
        dec_of(s) + "."@ + (if ms < 10 {
            "0"@ + dec_of(ms)
        } else {
            dec_of(ms)
        }) + "s"@
    } else {
        dec_of(s % 60) + "mn "@ + dec_of(s / 60) + "s"@
    }
}

/// Renders an elapsed duration given its whole seconds and the
/// milliseconds of the fractional part.
pub fn format_duration(total_seconds: u64, subsec_millis: u32) -> (r: String)
    ensures
        r@ == spec_format_duration(total_seconds as nat, subsec_millis as nat),
{
    if total_seconds < 60 {
        let mut r = u64_to_string(total_seconds);
        r.append(".");
        if subsec_millis < 10 {
            r.append("0");
        }
        let ms = u64_to_string(subsec_millis as u64);
        r.append(ms.as_str());
        r.append("s");
        r
    } else {
        let mut r = u64_to_string(total_seconds % 60);
        r.append("mn ");
        let m = u64_to_string(total_seconds / 60);
        r.append(m.as_str());
        r.append("s");
        r
    }
}

/// An absolute form of a path: an already absolute path stands; a relative
/// one is joined onto the working directory.
pub open spec fn spec_canon(dir: Seq<char>, cwd: Seq<char>) -> Seq<char> {
    if dir.len() > 0 && dir[0] == '/' {
        dir
    } else {
        cwd + "/"@ + dir
    }
}

/// Absolutizes `dir` against the working directory `cwd`.
pub fn canon_path(dir: &str, cwd: &str) -> (r: String)
    ensures
        r@ == spec_canon(dir@, cwd@),
{
    let n = dir.unicode_len();
    if n > 0 && dir.get_char(0) == '/' {
        String::from_str(dir)
    } else {
        let mut r = String::from_str(cwd);
        r.append("/");
        r.append(dir);
        r
    }
}

/// How a path is shown relative to the working directory: a path inside
/// the working directory loses that prefix, anything else is shown in its
/// absolute form.
pub open spec fn spec_relative_to_cwd(dir: Seq<char>, cwd: Seq<char>) -> Seq<char> {
    let canon = spec_canon(dir, cwd);
    if canon != cwd && (cwd + "/"@).is_prefix_of(canon) {
        canon.skip(cwd.len() as int + 1)
    } else {
        canon
    }
}

/// Shortens a path for display against the working directory `cwd`.
pub fn relative_to_cwd(dir: &str, cwd: &str) -> (r: String)
    ensures
        r@ == spec_relative_to_cwd(dir@, cwd@),
{
    let canon = canon_path(dir, cwd);
    let cwd_slash = concat_str(cwd, "/");
    if !strings::string_eq(&canon, cwd) && strings::str_starts_with(
        canon.as_str(),
        cwd_slash.as_str(),
    ) {
        let n = canon.as_str().unicode_len();
        let k = cwd_slash.as_str().unicode_len();
        let tail = canon.as_str().substring_char(k, n);
        proof {
            reveal_strlit("/");
            assert(tail@ =~= spec_canon(dir@, cwd@).skip(cwd@.len() as int + 1));
        }
        String::from_str(tail)
    } else {
        canon
    }
}

} // verus!
