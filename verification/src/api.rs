//! Control-plane and scheduler data model: request/response bodies, the
//! error taxonomy shared by every REST call, and the pull event stream.

use vstd::prelude::*;

verus! {

use vstd::string::*;
use vstd::utf8::is_ascii_chars;
use crate::config_global::GlobalConfig;
use crate::query::{qs_escape, qs_escape_spec, QueryError};

/// How a call against the control plane or the scheduler failed.
#[derive(Debug)]
pub enum ApiError {
    /// Authentication was rejected (HTTP 401 at any boundary). Never retried.
    Unauthorized,
    /// The connection itself failed; carries the target host.
    FailedToConnect { host: String },
    /// A response arrived with an unexpected status; carries the attempted
    /// request and the status.
    BadResponse { status: u16, request: String },
}

impl ApiError {
    /// A line describing the failure, as the CLI prints it.
    pub fn describe(&self) -> (r: String)
        ensures
            r@ == match self {
                ApiError::Unauthorized => "unauthorized: the access token was rejected; log in again"@,
                ApiError::FailedToConnect { .. } => "failed to connect to the remote host"@,
                ApiError::BadResponse { .. } => "the request got an unexpected status"@,
            },
    {
        let r = match self {
            ApiError::Unauthorized => "unauthorized: the access token was rejected; log in again",
            ApiError::FailedToConnect { host: _ } => "failed to connect to the remote host",
            ApiError::BadResponse { status: _, request: _ } => "the request got an unexpected status",
        };
        r.to_owned()
    }
}

/// Sorts the status of a REST response into the error taxonomy: 2xx passes,
/// 401 is the distinguished authentication failure, anything else is a bad
/// response carrying the request description.
pub fn check_response_status(status: u16, request: String) -> (r: Result<(), ApiError>)
    ensures
        r is Ok <==> 200 <= status < 300,
        status == 401 ==> r == Err::<(), ApiError>(ApiError::Unauthorized),
        !(200 <= status < 300) && status != 401 ==> r == Err::<(), ApiError>(
            ApiError::BadResponse { status, request },
        ),
{
    if status == 401 {
        Err(ApiError::Unauthorized)
    } else if 200 <= status && status < 300 {
        Ok(())
    } else {
        Err(ApiError::BadResponse { status, request })
    }
}

/// Body of the login call: the single-use token handed out on the web.
pub struct LoginRequestBody {
    pub single_use_token: String,
}

/// Response of the login call: the durable access token to persist.
pub struct LoginRequestResponseBody {
    pub access_token: String,
}

/// A project of the build farm, identified by a server-assigned id (its
/// canonical hyphenated form) and a user-visible slug.
pub struct Project {
    pub id: String,
    pub slug: String,
}

/// Body of the create-project call.
pub struct CreateProjectBody {
    pub slug: String,
}

/// Body of the create-invite call; carries nothing yet.
pub struct CreateInviteBody {}

/// An invite to the org: who it belongs to and the token to hand out.
pub struct OrgInvite {
    pub org_id: String,
    pub token: String,
}

/// A stored secret of a project. The creation time is carried as seconds
/// since the epoch.
pub struct ProjectSecret {
    pub id: String,
    pub created_at: i64,
    pub project_id: String,
    pub created_by: String,
    pub slug: String,
    pub version: i32,
}

/// The terminal payload of a pull: where the artifact lies, if the build is
/// ready, and where its logs lie.
pub struct PullOutput {
    pub artifact_url: Option<String>,
    pub logs_url: String,
}

/// One event of the pull stream: a log line, or the terminal event.
pub enum PullEvent {
    Completed(PullOutput),
    LogLine(String),
}

/// Query parameters of the push operation.
pub struct PushQueryParams {
    pub project_slug: String,
    pub wait: Option<bool>,
    pub tree_hash: String,
    pub job: String,
    pub container: String,
    pub image: String,
}

/// Query parameters of the pull channel.
pub struct PullQueryParams {
    pub project_slug: String,
    pub tree_hash: String,
    pub job: String,
    pub container: String,
    pub image: String,
}

/// The query of the pull channel, fields in wire order, values escaped.
pub open spec fn pull_query_spec(
    slug: Seq<char>,
    tree_hash: Seq<char>,
    job: Seq<char>,
    container: Seq<char>,
    image: Seq<char>,
) -> Seq<char> {
    "project_slug="@ + qs_escape_spec(slug) + "&tree_hash="@ + qs_escape_spec(tree_hash) + "&job="@
        + qs_escape_spec(job) + "&container="@ + qs_escape_spec(container) + "&image="@
        + qs_escape_spec(image)
}

impl PullQueryParams {
    /// Every parameter is ASCII, as the wire format asks.
    pub open spec fn all_ascii(self) -> bool {
        &&& is_ascii_chars(self.project_slug@)
        &&& is_ascii_chars(self.tree_hash@)
        &&& is_ascii_chars(self.job@)
        &&& is_ascii_chars(self.container@)
        &&& is_ascii_chars(self.image@)
    }

    /// Builds the query of the pull channel. Parameters outside ASCII are
    /// refused.
    pub fn to_query(&self) -> (r: Result<String, QueryError>)
        ensures
            self.all_ascii() ==> (r matches Ok(q) && q@ == pull_query_spec(
                self.project_slug@,
                self.tree_hash@,
                self.job@,
                self.container@,
                self.image@,
            )),
            !self.all_ascii() ==> r is Err,
    {
        let slug = qs_escape(self.project_slug.as_str())?;
        let tree_hash = qs_escape(self.tree_hash.as_str())?;
        let job = qs_escape(self.job.as_str())?;
        let container = qs_escape(self.container.as_str())?;
        let image = qs_escape(self.image.as_str())?;
        let mut out = String::new();
        out.append("project_slug=");
        out.append(slug.as_str());
        out.append("&tree_hash=");
        out.append(tree_hash.as_str());
        out.append("&job=");
        out.append(job.as_str());
        out.append("&container=");
        out.append(container.as_str());
        out.append("&image=");
        out.append(image.as_str());
        Ok(out)
    }
}

/// A copy of a project entry.
pub fn clone_project(p: &Project) -> (r: Project)
    ensures
        r == *p,
{
    Project { id: p.id.clone(), slug: p.slug.clone() }
}

/// The first project at or after `i` whose slug is `slug`.
pub open spec fn project_by_slug_from(projects: Seq<Project>, slug: Seq<char>, i: int) -> Option<
    Project,
>
    decreases projects.len() - i when 0 <= i
{
    if i >= projects.len() {
        None
    } else if projects[i].slug@ == slug {
        Some(projects[i])
    } else {
        project_by_slug_from(projects, slug, i + 1)
    }
}

/// The project carrying the given slug, if any: the first match.
pub fn find_project_by_slug(projects: &Vec<Project>, slug: &str) -> (r: Option<Project>)
    ensures
        r == project_by_slug_from(projects@, slug@, 0),
{
    let mut i: usize = 0;
    while i < projects.len()
        invariant
            i <= projects.len(),
            project_by_slug_from(projects@, slug@, 0) == project_by_slug_from(
                projects@,
                slug@,
                i as int,
            ),
        decreases projects.len() - i,
    {
        if crate::bytes::str_eq(projects[i].slug.as_str(), slug) {
            return Some(clone_project(&projects[i]));
        }
        i = i + 1;
    }
    None
}

/// Client of the control plane and the scheduler, configured by the global
/// config.
pub struct ApiClient {
    pub global_config: GlobalConfig,
}

impl ApiClient {
    /// Opens a client over the given config.
    pub fn new(global_config: GlobalConfig) -> (c: ApiClient)
        ensures
            c.global_config == global_config,
    {
        ApiClient { global_config }
    }

    /// The control plane's host URL.
    pub fn get_control_host(&self) -> (r: String)
        ensures
            r@ == self.global_config.control_host_spec(),
    {
        self.global_config.control_host()
    }

    /// The scheduler's host URL.
    pub fn get_scheduler_host(&self) -> (r: String)
        ensures
            r@ == self.global_config.scheduler_host_spec(),
    {
        self.global_config.scheduler_host()
    }

    /// The scheduler's streaming host URL.
    pub fn get_scheduler_ws_host(&self) -> (r: String)
        ensures
            r@ == self.global_config.scheduler_ws_host_spec(),
    {
        self.global_config.scheduler_ws_host()
    }

    /// The bearer token of every authenticated call, given what the
    /// environment's override holds.
    pub fn token(&self, env_token: Option<String>) -> (r: Option<String>)
        ensures
            r == self.global_config.access_token_spec(env_token),
    {
        self.global_config.access_token(env_token)
    }

    /// The URL of the login call.
    pub fn login_url(&self) -> (r: String)
        ensures
            r@ == self.global_config.control_host_spec() + "/v1/cli/login"@,
    {
        let mut out = self.get_control_host();
        out.append("/v1/cli/login");
        out
    }

    /// The URL of the list- and create-project calls.
    pub fn projects_url(&self) -> (r: String)
        ensures
            r@ == self.global_config.control_host_spec() + "/v1/cli/projects"@,
    {
        let mut out = self.get_control_host();
        out.append("/v1/cli/projects");
        out
    }

    /// The URL of the create-invite call.
    pub fn invites_url(&self) -> (r: String)
        ensures
            r@ == self.global_config.control_host_spec() + "/v1/cli/invites"@,
    {
        let mut out = self.get_control_host();
        out.append("/v1/cli/invites");
        out
    }

    /// The URL of the set-secret call of a project.
    pub fn secrets_url(&self, project_slug: &str) -> (r: String)
        ensures
            r@ == self.global_config.control_host_spec() + "/v1/cli/projects/"@ + project_slug@
                + "/secrets"@,
    {
        let mut out = self.get_control_host();
        out.append("/v1/cli/projects/");
        out.append(project_slug);
        out.append("/secrets");
        out
    }

    /// The URL the pull channel is opened against, given its query.
    pub fn pull_channel_url(&self, query: &str) -> (r: String)
        ensures
            r@ == self.global_config.scheduler_ws_host_spec() + "/pull?"@ + query@,
    {
        let mut out = self.get_scheduler_ws_host();
        out.append("/pull?");
        out.append(query);
        out
    }
}

/// A completed pull carries artifacts exactly when the artifact location is
/// present; its absence is the ordinary "not ready" outcome, not an error.
pub fn pull_ready(out: &PullOutput) -> (r: bool)
    ensures
        r == (out.artifact_url is Some),
{
    match &out.artifact_url {
        Some(_) => true,
        None => false,
    }
}

/// What a well-formed prefix of the pull stream amounts to: the log lines
/// strictly before the first terminal event, in stream order, and that
/// event's payload; `None` when no terminal event arrived.
pub open spec fn pull_result(events: Seq<PullEvent>) -> Option<(Seq<Seq<char>>, PullOutput)>
    decreases events.len(),
{
    if events.len() == 0 {
        None
    } else {
        match events[0] {
            PullEvent::Completed(out) => Some((Seq::empty(), out)),
            PullEvent::LogLine(line) => match pull_result(events.drop_first()) {
                None => None,
                Some(p) => Some((seq![line@].add(p.0), p.1)),
            },
        }
    }
}

/// The channel ended before its terminal event: a protocol violation.
#[derive(PartialEq, Eq, Structural, Clone, Copy, Debug)]
pub enum PullStreamError {
    UnexpectedEnd,
}

/// What one pull channel delivered: the forwarded log lines, in order, and
/// the terminal payload.
pub struct PullSummary {
    pub logs: Vec<String>,
    pub output: PullOutput,
}

/// Consumes the events of one pull channel: collects every log line before
/// the first terminal event, in order, and stops at that event. A stream
/// without a terminal event is a protocol violation.
pub fn drain_events(events: Vec<PullEvent>) -> (r: Result<PullSummary, PullStreamError>)
    ensures
        r is Ok <==> pull_result(events@) is Some,
        r matches Ok(s) ==> Some((s.logs.deep_view(), s.output)) == pull_result(events@),
        r is Err ==> r == Err::<PullSummary, PullStreamError>(PullStreamError::UnexpectedEnd),
{
    let ghost whole = events@;
    let mut rest = events;
    let mut logs: Vec<String> = Vec::new();
    proof {
        assert(logs.deep_view() =~= Seq::<Seq<char>>::empty());
        if pull_result(rest@) is Some {
            let p = pull_result(rest@)->Some_0;
            assert(logs.deep_view() + p.0 =~= p.0);
        }
    }
    loop
        invariant
            whole == events@,
            match pull_result(rest@) {
                Some(p) => pull_result(whole) == Some((logs.deep_view() + p.0, p.1)),
                None => pull_result(whole) is None,
            },
        decreases rest.len(),
    {
        if rest.len() == 0 {
            return Err(PullStreamError::UnexpectedEnd);
        }
        let ghost rv = rest@;
        let ghost logs_before = logs.deep_view();
        let e = rest.remove(0);
        proof {
            assert(rest@ =~= rv.drop_first());
        }
        match e {
            PullEvent::Completed(out) => {
                proof {
                    assert(pull_result(rv) == Some((Seq::<Seq<char>>::empty(), out)));
                    assert(logs.deep_view() + Seq::<Seq<char>>::empty() =~= logs.deep_view());
                }
                return Ok(PullSummary { logs, output: out });
            },
            PullEvent::LogLine(line) => {
                let ghost lv = line@;
                logs.push(line);
                proof {
                    assert(logs.deep_view() =~= logs_before.push(lv));
                    match pull_result(rest@) {
                        Some(p) => {
                            assert(pull_result(rv) == Some((seq![lv].add(p.0), p.1)));
                            assert(logs_before + seq![lv].add(p.0) =~= logs_before.push(lv) + p.0);
                        },
                        None => {
                            assert(pull_result(rv) is None);
                        },
                    }
                }
            },
        }
    }
}

/// Incremental consumer of one pull channel, for a caller that forwards each
/// log line as it arrives. Once the terminal event arrived the channel is
/// done and accepts nothing more: a log line can never be delivered after it.
pub struct PullChannel {
    pub logs: Vec<String>,
    pub outcome: Option<PullOutput>,
}

impl PullChannel {
    /// The terminal event arrived.
    pub open spec fn done(self) -> bool {
        self.outcome is Some
    }

    /// Opens a channel: nothing delivered, not done.
    pub fn new() -> (c: PullChannel)
        ensures
            c.logs.deep_view() == Seq::<Seq<char>>::empty(),
            !c.done(),
    {
        let c = PullChannel { logs: Vec::new(), outcome: None };
        proof {
            assert(c.logs.deep_view() =~= Seq::<Seq<char>>::empty());
        }
        c
    }

    /// Feeds the next event of the stream. A log line is appended after all
    /// earlier ones and handed back for forwarding; the terminal event ends
    /// the channel.
    pub fn accept(&mut self, ev: PullEvent) -> (line: Option<String>)
        requires
            !old(self).done(),
        ensures
            match ev {
                PullEvent::LogLine(l) => {
                    &&& final(self).logs.deep_view() == old(self).logs.deep_view().push(l@)
                    &&& final(self).outcome == old(self).outcome
                    &&& !final(self).done()
                    &&& line matches Some(s) && s@ == l@
                },
                PullEvent::Completed(out) => {
                    &&& final(self).logs == old(self).logs
                    &&& final(self).outcome == Some(out)
                    &&& final(self).done()
                    &&& line is None
                },
            },
    {
        match ev {
            PullEvent::LogLine(l) => {
                let ghost before = self.logs.deep_view();
                let copy = l.clone();
                self.logs.push(l);
                proof {
                    assert(self.logs.deep_view() =~= before.push(copy@));
                }
                Some(copy)
            },
            PullEvent::Completed(out) => {
                self.outcome = Some(out);
                None
            },
        }
    }
}

} // verus!
