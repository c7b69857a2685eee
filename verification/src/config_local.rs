//! Local configuration: what the project's own config file holds — the
//! project's name and its jobs.

use vstd::prelude::*;

verus! {

/// The project section of the local config file.
pub struct ProjectConfig {
    pub name: Option<String>,
}

/// One job of the local config file. The environment is a list of
/// (name, value) pairs in file order.
pub struct JobConfig {
    pub name: Option<String>,
    pub run: Option<String>,
    pub artifacts: Option<Vec<String>>,
    pub env: Option<Vec<(String, String)>>,
}

/// What the local config file holds.
pub struct LocalConfig {
    pub project: Option<ProjectConfig>,
    pub jobs: Option<Vec<JobConfig>>,
}

/// A copy of an optional string.
fn clone_opt_string(s: &Option<String>) -> (r: Option<String>)
    ensures
        r == *s,
{
    match s {
        Some(v) => Some(v.clone()),
        None => None,
    }
}

/// A copy of a vector of strings.
fn clone_string_vec(v: &Vec<String>) -> (r: Vec<String>)
    ensures
        r@ == v@,
{
    let mut out: Vec<String> = Vec::new();
    let mut i: usize = 0;
    while i < v.len()
        invariant
            i <= v.len(),
            out@ == v@.take(i as int),
        decreases v.len() - i,
    {
        out.push(v[i].clone());
        proof {
            assert(out@ =~= v@.take(i as int + 1));
        }
        i = i + 1;
    }
    proof {
        assert(v@.take(v@.len() as int) =~= v@);
    }
    out
}

/// A copy of an environment list.
fn clone_env(v: &Vec<(String, String)>) -> (r: Vec<(String, String)>)
    ensures
        r@ == v@,
{
    let mut out: Vec<(String, String)> = Vec::new();
    let mut i: usize = 0;
    while i < v.len()
        invariant
            i <= v.len(),
            out@ == v@.take(i as int),
        decreases v.len() - i,
    {
        let pair: &(String, String) = &v[i];
        out.push((pair.0.clone(), pair.1.clone()));
        proof {
            assert(out@ =~= v@.take(i as int + 1));
        }
        i = i + 1;
    }
    proof {
        assert(v@.take(v@.len() as int) =~= v@);
    }
    out
}

/// Two jobs hold the same configuration.
pub open spec fn job_eq(a: JobConfig, b: JobConfig) -> bool {
    &&& a.name == b.name
    &&& a.run == b.run
    &&& match (a.artifacts, b.artifacts) {
        (Some(x), Some(y)) => x@ == y@,
        (None, None) => true,
        _ => false,
    }
    &&& match (a.env, b.env) {
        (Some(x), Some(y)) => x@ == y@,
        (None, None) => true,
        _ => false,
    }
}

/// A copy of a job.
pub fn clone_job(j: &JobConfig) -> (r: JobConfig)
    ensures
        job_eq(r, *j),
{
    JobConfig {
        name: clone_opt_string(&j.name),
        run: clone_opt_string(&j.run),
        artifacts: match &j.artifacts {
            Some(a) => Some(clone_string_vec(a)),
            None => None,
        },
        env: match &j.env {
            Some(e) => Some(clone_env(e)),
            None => None,
        },
    }
}

impl LocalConfig {
    /// The configured jobs; none configured means an empty list.
    pub fn jobs(&self) -> (r: Vec<JobConfig>)
        ensures
            match self.jobs {
                Some(js) => r@.len() == js@.len() && forall|i: int|
                    0 <= i < js@.len() ==> job_eq(#[trigger] r@[i], js@[i]),
                None => r@ == Seq::<JobConfig>::empty(),
            },
    {
        match &self.jobs {
            Some(js) => {
                let mut out: Vec<JobConfig> = Vec::new();
                let mut i: usize = 0;
                while i < js.len()
                    invariant
                        i <= js.len(),
                        out@.len() == i,
                        forall|k: int| 0 <= k < i ==> job_eq(#[trigger] out@[k], js@[k]),
                    decreases js.len() - i,
                {
                    out.push(clone_job(&js[i]));
                    i = i + 1;
                }
                out
            },
            None => {
                let out: Vec<JobConfig> = Vec::new();
                proof {
                    assert(out@ =~= Seq::<JobConfig>::empty());
                }
                out
            },
        }
    }

    /// The project section; a missing one reads as a section with no name.
    pub fn project(&self) -> (r: ProjectConfig)
        ensures
            match self.project {
                Some(p) => r == p,
                None => r == (ProjectConfig { name: None }),
            },
    {
        match &self.project {
            Some(p) => ProjectConfig { name: clone_opt_string(&p.name) },
            None => ProjectConfig { name: None },
        }
    }
}

} // verus!
