//! Global configuration: what is stored in the user's home directory — the
//! access token and which control plane and scheduler to talk to — and the
//! hosts derived from it.

use vstd::prelude::*;

verus! {

use vstd::string::*;
use crate::bytes::str_eq;

/// The connection settings of the global config file.
pub struct ConnectionConfig {
    pub access_token: Option<String>,
    pub control_domain: Option<String>,
    pub scheduler_domain: Option<String>,
}

/// What the global config file holds.
pub struct GlobalConfig {
    pub connection: Option<ConnectionConfig>,
}

impl GlobalConfig {
    /// The control plane's domain: the configured one, or the default.
    pub open spec fn control_domain_spec(self) -> Seq<char> {
        match self.connection {
            Some(c) => match c.control_domain {
                Some(d) => d@,
                None => "buildrecall.com"@,
            },
            None => "buildrecall.com"@,
        }
    }

    /// The scheduler's domain: the configured one, or the default.
    pub open spec fn scheduler_domain_spec(self) -> Seq<char> {
        match self.connection {
            Some(c) => match c.scheduler_domain {
                Some(d) => d@,
                None => "scheduler.buildrecall.com"@,
            },
            None => "scheduler.buildrecall.com"@,
        }
    }

    /// The control plane's host URL: plain HTTP against the local development
    /// port, HTTPS against anything else.
    pub open spec fn control_host_spec(self) -> Seq<char> {
        if self.control_domain_spec() == "localhost:8080"@ {
            "http://"@ + self.control_domain_spec()
        } else {
            "https://"@ + self.control_domain_spec()
        }
    }

    /// The scheduler's host URL: plain HTTP against the local development
    /// port, HTTPS against anything else.
    pub open spec fn scheduler_host_spec(self) -> Seq<char> {
        if self.scheduler_domain_spec() == "localhost:7980"@ {
            "http://"@ + self.scheduler_domain_spec()
        } else {
            "https://"@ + self.scheduler_domain_spec()
        }
    }

    /// The scheduler's streaming host URL: plain websockets against the local
    /// development port, secure ones against anything else.
    pub open spec fn scheduler_ws_host_spec(self) -> Seq<char> {
        if self.scheduler_domain_spec() == "localhost:7980"@ {
            "ws://"@ + self.scheduler_domain_spec()
        } else {
            "wss://"@ + self.scheduler_domain_spec()
        }
    }

    /// The host URL snapshot pushes go to, under the tunnel transport's
    /// schemes: the plain one against the local development port, the secure
    /// one against anything else.
    pub open spec fn git_host_spec(self) -> Seq<char> {
        if self.scheduler_domain_spec() == "localhost:7980"@ {
            "recall+git://"@ + self.scheduler_domain_spec()
        } else {
            "recalls+git://"@ + self.scheduler_domain_spec()
        }
    }

    /// The access token: the configured one, or the environment's override
    /// (which the caller reads) when the config holds none.
    pub open spec fn access_token_spec(self, env_token: Option<String>) -> Option<String> {
        match self.connection {
            Some(c) => match c.access_token {
                Some(t) => Some(t),
                None => env_token,
            },
            None => env_token,
        }
    }

    /// The control plane's domain.
    pub fn control_domain(&self) -> (r: String)
        ensures
            r@ == self.control_domain_spec(),
    {
        match &self.connection {
            Some(c) => match &c.control_domain {
                Some(d) => d.clone(),
                None => default_control_domain(),
            },
            None => default_control_domain(),
        }
    }

    /// The scheduler's domain.
    pub fn scheduler_domain(&self) -> (r: String)
        ensures
            r@ == self.scheduler_domain_spec(),
    {
        match &self.connection {
            Some(c) => match &c.scheduler_domain {
                Some(d) => d.clone(),
                None => default_scheduler_domain(),
            },
            None => default_scheduler_domain(),
        }
    }

    /// The control plane's host URL.
    pub fn control_host(&self) -> (r: String)
        ensures
            r@ == self.control_host_spec(),
    {
        let domain = self.control_domain();
        let mut out = String::new();
        if str_eq(domain.as_str(), "localhost:8080") {
            out.append("http://");
        } else {
            out.append("https://");
        }
        out.append(domain.as_str());
        out
    }

    /// The scheduler's host URL.
    pub fn scheduler_host(&self) -> (r: String)
        ensures
            r@ == self.scheduler_host_spec(),
    {
        let domain = self.scheduler_domain();
        let mut out = String::new();
        if str_eq(domain.as_str(), "localhost:7980") {
            out.append("http://");
        } else {
            out.append("https://");
        }
        out.append(domain.as_str());
        out
    }

    /// The scheduler's streaming host URL.
    pub fn scheduler_ws_host(&self) -> (r: String)
        ensures
            r@ == self.scheduler_ws_host_spec(),
    {
        let domain = self.scheduler_domain();
        let mut out = String::new();
        if str_eq(domain.as_str(), "localhost:7980") {
            out.append("ws://");
        } else {
            out.append("wss://");
        }
        out.append(domain.as_str());
        out
    }

    /// The host URL snapshot pushes go to.
    pub fn git_host(&self) -> (r: String)
        ensures
            r@ == self.git_host_spec(),
    {
        let domain = self.scheduler_domain();
        let mut out = String::new();
        if str_eq(domain.as_str(), "localhost:7980") {
            out.append("recall+git://");
        } else {
            out.append("recalls+git://");
        }
        out.append(domain.as_str());
        out
    }

    /// The access token, given what the environment's override holds.
    pub fn access_token(&self, env_token: Option<String>) -> (r: Option<String>)
        ensures
            r == self.access_token_spec(env_token),
    {
        match &self.connection {
            Some(c) => match &c.access_token {
                Some(t) => Some(t.clone()),
                None => env_token,
            },
            None => env_token,
        }
    }
}

/// The default control plane domain.
pub fn default_control_domain() -> (r: String)
    ensures
        r@ == "buildrecall.com"@,
{
    let mut out = String::new();
    out.append("buildrecall.com");
    out
}

/// The default scheduler domain.
pub fn default_scheduler_domain() -> (r: String)
    ensures
        r@ == "scheduler.buildrecall.com"@,
{
    let mut out = String::new();
    out.append("scheduler.buildrecall.com");
    out
}

/// The environment variable that may override the access token.
pub fn api_key_env_var() -> (r: String)
    ensures
        r@ == "BUILDRECALL_API_KEY"@,
{
    let mut out = String::new();
    out.append("BUILDRECALL_API_KEY");
    out
}

} // verus!
