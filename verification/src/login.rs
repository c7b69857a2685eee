//! Logging in: exchanging the single-use token for a durable one and storing
//! it in the global config.

use vstd::prelude::*;

verus! {

use crate::config_global::{ConnectionConfig, GlobalConfig};

/// Arguments of a login: the single-use, history-safe token from the web.
pub struct Login {
    pub token: Option<String>,
}

/// The global config after a login: the durable access token is stored, and
/// the domains are pinned to what they resolved to before.
pub fn store_login_token(config: &GlobalConfig, token: String) -> (r: GlobalConfig)
    ensures
        r.connection matches Some(c) && {
            &&& c.access_token == Some(token)
            &&& c.control_domain matches Some(d) && d@ == config.control_domain_spec()
            &&& c.scheduler_domain matches Some(d) && d@ == config.scheduler_domain_spec()
        },
{
    let control = config.control_domain();
    let scheduler = config.scheduler_domain();
    GlobalConfig {
        connection: Some(
            ConnectionConfig {
                access_token: Some(token),
                control_domain: Some(control),
                scheduler_domain: Some(scheduler),
            },
        ),
    }
}

} // verus!
