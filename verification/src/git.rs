//! Shadow repository manager: one private snapshot store per project, kept
//! under the global config directory, staging straight from the user's
//! working directory and pushed over the tunnel transport.
//!
//! The store's on-disk operations (init, stage, commit, push) run through the
//! embedding version-control engine; this module pins down what they are run
//! with: where the store lies, which ref the push targets, what the snapshot
//! commits carry, and the exact remote URL and query the push is sent to.

use vstd::prelude::*;

verus! {

use vstd::string::*;
use crate::query::{qs_escape, qs_escape_spec, QueryError};

/// Handle on the shadow stores of one machine: everything lives under the
/// global config directory.
pub struct RecallGit {
    pub global_config_dir: String,
}

/// The remote URL of a push: the git host, the project's push endpoint, and
/// the query naming the tree hash and the wait flag.
pub open spec fn push_url_spec(git_host: Seq<char>, project_id: Seq<char>, query: Seq<char>) -> Seq<
    char,
> {
    git_host + "/p/"@ + project_id + "/push?"@ + query
}

/// The query of a push: whether the scheduler shall hold the connection
/// until a build starts, and the snapshot's tree hash in hex.
pub open spec fn push_query_spec(wait: bool, tree_hash_hex: Seq<char>) -> Seq<char> {
    "wait="@ + (if wait {
        "true"@
    } else {
        "false"@
    }) + "&tree_hash_hex="@ + qs_escape_spec(tree_hash_hex)
}

impl RecallGit {
    /// Opens the manager rooted at the global config directory.
    pub fn new(global_config_dir: String) -> (g: RecallGit)
        ensures
            g.global_config_dir == global_config_dir,
    {
        RecallGit { global_config_dir }
    }

    /// Where the shadow store of a project lies: in `.gits` under the global
    /// config directory, named by the project id — never inside the user's
    /// own working directory or version control.
    pub fn repo_path(&self, project_id: &str) -> (r: String)
        ensures
            r@ == self.global_config_dir@ + "/.gits/"@ + project_id@,
    {
        let mut out = String::new();
        out.append(self.global_config_dir.as_str());
        out.append("/.gits/");
        out.append(project_id);
        out
    }

    /// The full remote URL a snapshot push is sent to. A tree hash outside
    /// ASCII is refused.
    pub fn push_remote_url(
        &self,
        git_host: &str,
        project_id: &str,
        wait: bool,
        tree_hash_hex: &str,
    ) -> (r: Result<String, QueryError>)
        ensures
            tree_hash_hex.is_ascii() ==> (r matches Ok(u) && u@ == push_url_spec(
                git_host@,
                project_id@,
                push_query_spec(wait, tree_hash_hex@),
            )),
            !tree_hash_hex.is_ascii() ==> r is Err,
    {
        let query = push_query(wait, tree_hash_hex)?;
        let mut out = String::new();
        out.append(git_host);
        out.append("/p/");
        out.append(project_id);
        out.append("/push?");
        out.append(query.as_str());
        Ok(out)
    }
}

/// Builds the push query. A tree hash outside ASCII is refused.
pub fn push_query(wait: bool, tree_hash_hex: &str) -> (r: Result<String, QueryError>)
    ensures
        tree_hash_hex.is_ascii() ==> (r matches Ok(q) && q@ == push_query_spec(
            wait,
            tree_hash_hex@,
        )),
        !tree_hash_hex.is_ascii() ==> r is Err,
{
    let escaped = qs_escape(tree_hash_hex)?;
    let mut out = String::new();
    out.append("wait=");
    if wait {
        out.append("true");
    } else {
        out.append("false");
    }
    out.append("&tree_hash_hex=");
    out.append(escaped.as_str());
    Ok(out)
}

/// The refspec of every shadow push: the snapshot head goes to a dedicated
/// incoming branch, never the remote's primary one, so the receiving side
/// cannot refuse it as currently checked out.
pub fn push_refspec() -> (r: String)
    ensures
        r@ == "+HEAD:refs/heads/incoming"@,
{
    let mut out = String::new();
    out.append("+HEAD:refs/heads/incoming");
    out
}

/// The message of every snapshot commit.
pub fn commit_message() -> (r: String)
    ensures
        r@ == "sync with buildrecall"@,
{
    let mut out = String::new();
    out.append("sync with buildrecall");
    out
}

/// The signature name of every snapshot commit.
pub fn committer_name() -> (r: String)
    ensures
        r@ == "buildrecall"@,
{
    let mut out = String::new();
    out.append("buildrecall");
    out
}

/// The signature address of every snapshot commit.
pub fn committer_email() -> (r: String)
    ensures
        r@ == "bot@buildrecall.com"@,
{
    let mut out = String::new();
    out.append("bot@buildrecall.com");
    out
}

/// The parents of the next snapshot commit: the current head alone when one
/// exists, none for the first commit — the chain is single-parent and
/// append-only.
pub fn commit_parents(head: Option<String>) -> (r: Vec<String>)
    ensures
        match head {
            Some(h) => r.deep_view() == seq![h@],
            None => r.deep_view() == Seq::<Seq<char>>::empty(),
        },
{
    let mut out: Vec<String> = Vec::new();
    proof {
        assert(out.deep_view() =~= Seq::<Seq<char>>::empty());
    }
    match head {
        Some(h) => {
            let ghost hv = h@;
            out.push(h);
            proof {
                assert(out.deep_view() =~= seq![hv]);
            }
            out
        },
        None => out,
    }
}

} // verus!
