//! Exclusion ruleset: which paths of the project directory take no part in
//! fingerprinting and snapshotting.
//!
//! The rules come from the project's ignore file (gitignore syntax) and are
//! matched against files and directories, parent directories included. The
//! version-control metadata directory is always excluded, whatever the rules
//! say.

use vstd::prelude::*;

verus! {

use vstd::utf8::encode_utf8;
use crate::bytes::{bytes_eq, has_prefix, has_prefix_exec, string_bytes};

/// Verdict of the gitignore-syntax matcher built from `lines` on `path`
/// (relative; `is_dir` tells directories from files), parent-directory
/// matches included: `None` when no pattern matched, `Some(true)` when the
/// last matching pattern ignores, `Some(false)` when it whitelists.
pub uninterp spec fn gitignore_verdict(
    lines: Seq<Seq<char>>,
    path: Seq<char>,
    is_dir: bool,
) -> Option<bool>;

/// Relies on ignore's `GitignoreBuilder::{new, add_line, build}` and
/// `Gitignore::matched_path_or_any_parents`: for a fixed list of pattern
/// lines the verdict is a deterministic function of the path and of whether
/// it is a directory. The path must be relative and non-empty:
/// `matched_path_or_any_parents` panics on a path with a root.
#[verifier::external_body]
fn gitignore_match(lines: &Vec<String>, rel_path: &String, is_dir: bool) -> (r: Option<bool>)
    requires
        rel_path@.len() > 0,
        rel_path@[0] != '/',
    ensures
        r == gitignore_verdict(lines.deep_view(), rel_path@, is_dir),
{
    let mut builder = ignore::gitignore::GitignoreBuilder::new("");
    for line in lines.iter() {
        let _ = builder.add_line(None, line);
    }
    match builder.build() {
        Err(_) => None,
        Ok(matcher) => match matcher.matched_path_or_any_parents(rel_path.as_str(), is_dir) {
            ignore::Match::None => None,
            ignore::Match::Ignore(_) => Some(true),
            ignore::Match::Whitelist(_) => Some(false),
        },
    }
}

/// The path names the version-control metadata directory or lies inside it.
pub open spec fn in_metadata_dir(path: Seq<char>) -> bool {
    ||| encode_utf8(path) == encode_utf8(".git"@)
    ||| has_prefix(encode_utf8(path), encode_utf8(".git/"@))
}

/// A path is excluded when it lies in the metadata directory, or when the
/// ruleset's last matching pattern ignores it.
pub open spec fn excluded_spec(lines: Seq<Seq<char>>, path: Seq<char>, is_dir: bool) -> bool {
    ||| in_metadata_dir(path)
    ||| gitignore_verdict(lines, path, is_dir) == Some(true)
}

/// The exclusion ruleset of a project: the lines of its ignore file.
pub struct ExclusionRules {
    pub lines: Vec<String>,
}

impl ExclusionRules {
    /// What this ruleset excludes.
    pub open spec fn excludes(&self, path: Seq<char>, is_dir: bool) -> bool {
        excluded_spec(self.lines.deep_view(), path, is_dir)
    }

    /// Decides whether a relative path is excluded.
    pub fn is_excluded(&self, rel_path: &String, is_dir: bool) -> (r: bool)
        requires
            rel_path@.len() > 0,
            rel_path@[0] != '/',
        ensures
            r == self.excludes(rel_path@, is_dir),
    {
        let path_bytes = string_bytes(rel_path.as_str());
        let meta = string_bytes(".git");
        let meta_prefix = string_bytes(".git/");
        if bytes_eq(&path_bytes, &meta) {
            return true;
        }
        if has_prefix_exec(&path_bytes, &meta_prefix) {
            return true;
        }
        match gitignore_match(&self.lines, rel_path, is_dir) {
            Some(v) => v,
            None => false,
        }
    }
}

/// Law: the metadata directory is excluded whatever the ruleset holds.
pub proof fn lemma_metadata_dir_always_excluded(
    lines: Seq<Seq<char>>,
    path: Seq<char>,
    is_dir: bool,
)
    requires
        in_metadata_dir(path),
    ensures
        excluded_spec(lines, path, is_dir),
{
}

} // verus!
