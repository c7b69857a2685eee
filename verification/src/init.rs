//! Initialising a project in its own directory: the new shape of the local
//! config.

use vstd::prelude::*;

verus! {

use crate::config_local::{LocalConfig, ProjectConfig};

/// Arguments of an init.
pub struct AttachArguments {
    pub slug: Option<String>,
}

/// The local config after an init: the jobs stay, the project section names
/// the chosen slug.
pub fn set_project_name(config: LocalConfig, slug: String) -> (r: LocalConfig)
    ensures
        r.jobs == config.jobs,
        r.project matches Some(p) && p.name == Some(slug),
{
    let LocalConfig { project: _, jobs } = config;
    LocalConfig { project: Some(ProjectConfig { name: Some(slug) }), jobs }
}

} // verus!
