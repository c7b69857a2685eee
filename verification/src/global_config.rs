//! Earlier shape of the global configuration, still read by parts of the
//! tool: hosts are stored whole rather than derived from domains, and the
//! file carries the list of attached repositories.

use vstd::prelude::*;

verus! {

use vstd::string::*;
use crate::bytes::str_eq;

/// One attached repository: the project's id, its slug, and the working
/// directory it is bound to.
pub struct RepoConfig {
    pub id: String,
    pub name: String,
    pub path: String,
}

/// A copy of a repo entry.
pub fn clone_repo(r: &RepoConfig) -> (c: RepoConfig)
    ensures
        c == *r,
{
    RepoConfig { id: r.id.clone(), name: r.name.clone(), path: r.path.clone() }
}

/// The connection settings of this config shape.
pub struct ConnectionConfig {
    pub access_token: Option<String>,
    pub control_host: Option<String>,
    pub scheduler_host: Option<String>,
}

/// What this shape of the global config file holds.
pub struct GlobalConfig {
    pub connection: Option<ConnectionConfig>,
    pub repos: Option<Vec<RepoConfig>>,
}

/// The first repo entry at or after `i` whose path is `path`.
pub open spec fn repo_by_path_from(repos: Seq<RepoConfig>, path: Seq<char>, i: int) -> Option<
    RepoConfig,
>
    decreases repos.len() - i when 0 <= i
{
    if i >= repos.len() {
        None
    } else if repos[i].path@ == path {
        Some(repos[i])
    } else {
        repo_by_path_from(repos, path, i + 1)
    }
}

/// The first repo entry at or after `i` whose id is `id`.
pub open spec fn repo_by_id_from(repos: Seq<RepoConfig>, id: Seq<char>, i: int) -> Option<
    RepoConfig,
>
    decreases repos.len() - i when 0 <= i
{
    if i >= repos.len() {
        None
    } else if repos[i].id@ == id {
        Some(repos[i])
    } else {
        repo_by_id_from(repos, id, i + 1)
    }
}

/// The repo entries whose path is not `path`, in order.
pub open spec fn repos_without_path(repos: Seq<RepoConfig>, path: Seq<char>) -> Seq<RepoConfig>
    decreases repos.len(),
{
    if repos.len() == 0 {
        Seq::empty()
    } else {
        let rest = repos_without_path(repos.drop_last(), path);
        if repos.last().path@ == path {
            rest
        } else {
            rest.push(repos.last())
        }
    }
}

impl GlobalConfig {
    /// The repo entries, absent meaning none.
    pub open spec fn repos_spec(self) -> Seq<RepoConfig> {
        match self.repos {
            Some(r) => r@,
            None => Seq::empty(),
        }
    }

    /// The control plane's host URL: the stored one, or the default.
    pub open spec fn control_host_spec(self) -> Seq<char> {
        match self.connection {
            Some(c) => match c.control_host {
                Some(h) => h@,
                None => "https://buildrecall.com"@,
            },
            None => "https://buildrecall.com"@,
        }
    }

    /// The scheduler's host URL: the stored one, or the default.
    pub open spec fn scheduler_host_spec(self) -> Seq<char> {
        match self.connection {
            Some(c) => match c.scheduler_host {
                Some(h) => h@,
                None => "recalls+git://worker.buildrecall.com"@,
            },
            None => "recalls+git://worker.buildrecall.com"@,
        }
    }

    /// The stored access token, when there is one.
    pub open spec fn access_token_spec(self) -> Option<String> {
        match self.connection {
            Some(c) => c.access_token,
            None => None,
        }
    }

    /// The control plane's host URL.
    pub fn control_host(&self) -> (r: String)
        ensures
            r@ == self.control_host_spec(),
    {
        match &self.connection {
            Some(c) => match &c.control_host {
                Some(h) => h.clone(),
                None => default_control_host(),
            },
            None => default_control_host(),
        }
    }

    /// The scheduler's host URL.
    pub fn scheduler_host(&self) -> (r: String)
        ensures
            r@ == self.scheduler_host_spec(),
    {
        match &self.connection {
            Some(c) => match &c.scheduler_host {
                Some(h) => h.clone(),
                None => default_scheduler_host(),
            },
            None => default_scheduler_host(),
        }
    }

    /// The stored access token.
    pub fn access_token(&self) -> (r: Option<String>)
        ensures
            r == self.access_token_spec(),
    {
        match &self.connection {
            Some(c) => match &c.access_token {
                Some(t) => Some(t.clone()),
                None => None,
            },
            None => None,
        }
    }

    /// The attached repo with the given project id, if any: the first match.
    pub fn repo_config_by_id(&self, id: &str) -> (r: Option<RepoConfig>)
        ensures
            r == repo_by_id_from(self.repos_spec(), id@, 0),
    {
        let repos = match &self.repos {
            Some(r) => r,
            None => {
                return None;
            },
        };
        let mut i: usize = 0;
        while i < repos.len()
            invariant
                i <= repos.len(),
                repos@ == self.repos_spec(),
                repo_by_id_from(repos@, id@, 0) == repo_by_id_from(repos@, id@, i as int),
            decreases repos.len() - i,
        {
            if str_eq(repos[i].id.as_str(), id) {
                return Some(clone_repo(&repos[i]));
            }
            i = i + 1;
        }
        None
    }

    /// The attached repo bound to the given working directory, if any: the
    /// first match.
    pub fn repo_config_of_pathbuf(&self, path: &str) -> (r: Option<RepoConfig>)
        ensures
            r == repo_by_path_from(self.repos_spec(), path@, 0),
    {
        let repos = match &self.repos {
            Some(r) => r,
            None => {
                return None;
            },
        };
        let mut i: usize = 0;
        while i < repos.len()
            invariant
                i <= repos.len(),
                repos@ == self.repos_spec(),
                repo_by_path_from(repos@, path@, 0) == repo_by_path_from(repos@, path@, i as int),
            decreases repos.len() - i,
        {
            if str_eq(repos[i].path.as_str(), path) {
                return Some(clone_repo(&repos[i]));
            }
            i = i + 1;
        }
        None
    }
}

/// The config after detaching the working directory at `path`: the repo
/// entries bound to it are dropped, the rest kept in order; a list left empty
/// becomes absent, since the config format refuses empty arrays.
pub fn detach_repos(config: GlobalConfig, path: &String) -> (r: GlobalConfig)
    ensures
        r.connection == config.connection,
        ({
            let kept = repos_without_path(config.repos_spec(), path@);
            match r.repos {
                Some(rs) => rs@ == kept && kept.len() > 0,
                None => kept.len() == 0,
            }
        }),
{
    let GlobalConfig { connection, repos } = config;
    let mut rest = match repos {
        Some(r) => r,
        None => Vec::new(),
    };
    proof {
        assert(repos_without_path(Seq::<RepoConfig>::empty(), path@) =~= Seq::<
            RepoConfig,
        >::empty());
    }
    let mut kept: Vec<RepoConfig> = Vec::new();
    let mut i: usize = 0;
    while i < rest.len()
        invariant
            i <= rest.len(),
            kept@ == repos_without_path(rest@.take(i as int), path@),
        decreases rest.len() - i,
    {
        proof {
            assert(rest@.take(i as int + 1).drop_last() =~= rest@.take(i as int));
            assert(rest@.take(i as int + 1).last() == rest@[i as int]);
        }
        if !str_eq(rest[i].path.as_str(), path.as_str()) {
            kept.push(clone_repo(&rest[i]));
        }
        i = i + 1;
    }
    proof {
        assert(rest@.take(rest@.len() as int) =~= rest@);
    }
    if kept.len() == 0 {
        GlobalConfig { connection, repos: None }
    } else {
        GlobalConfig { connection, repos: Some(kept) }
    }
}

/// The default control plane host of this config shape.
pub fn default_control_host() -> (r: String)
    ensures
        r@ == "https://buildrecall.com"@,
{
    let mut out = String::new();
    out.append("https://buildrecall.com");
    out
}

/// The default scheduler host of this config shape.
pub fn default_scheduler_host() -> (r: String)
    ensures
        r@ == "recalls+git://worker.buildrecall.com"@,
{
    let mut out = String::new();
    out.append("recalls+git://worker.buildrecall.com");
    out
}

} // verus!
