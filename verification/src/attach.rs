//! Attaching a working directory to a project: choosing the slug and the new
//! shape of the global config.

use vstd::prelude::*;

verus! {

use crate::global_config::{GlobalConfig, RepoConfig};

/// Arguments of an attach.
pub struct AttachArguments {
    pub slug: Option<String>,
}

/// The slug an attach binds the folder under: the given name, or the
/// folder's own name when none was given.
pub fn choose_slug(args: AttachArguments, folder: String) -> (r: String)
    ensures
        match args.slug {
            Some(s) => r == s,
            None => r == folder,
        },
{
    match args.slug {
        Some(s) => s,
        None => folder,
    }
}

/// The global config after an attach: the new repo entry stands first, the
/// entries already there follow in order, and the connection settings stay.
pub fn attach_repo(config: GlobalConfig, entry: RepoConfig) -> (r: GlobalConfig)
    ensures
        r.connection == config.connection,
        r.repos matches Some(rs) && rs@ == seq![entry] + config.repos_spec(),
{
    let ghost e = entry;
    let GlobalConfig { connection, repos } = config;
    let mut out: Vec<RepoConfig> = Vec::new();
    out.push(entry);
    let mut old_repos = match repos {
        Some(r) => r,
        None => Vec::new(),
    };
    out.append(&mut old_repos);
    proof {
        assert(out@ =~= seq![e] + config.repos_spec());
    }
    GlobalConfig { connection, repos: Some(out) }
}

} // verus!
