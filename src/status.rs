//! Status reports and control-API replies built from records and what the
//! engine reports.
use vstd::prelude::*;
use vstd::string::*;
use std::collections::HashMap;
use crate::error::DockyardError;
use crate::models::ProjectState;
use crate::project::{network_label, NetworkMode, ProjectConfig, Timestamp};
use crate::protocol::DeployRequest;
use crate::registry::{project_url, project_url_spec};
use crate::text::{decimal, join3, u16_text};

verus! {

/// A project's status without resource figures: the caller adds memory and
/// CPU figures exactly when `live_stats` holds.
#[derive(Debug, Clone)]
pub struct ProjectSummary {
    pub slug: String,
    pub name: String,
    pub state: ProjectState,
    pub uptime_secs: Option<u64>,
    pub url: Option<String>,
    pub host_port: u16,
    pub container_port: u16,
    pub network_mode: String,
    pub last_deploy: Timestamp,
    /// Whether memory and CPU figures are reported (the container is online).
    pub live_stats: bool,
}

/// Status plus the record fields that the detail view shows.
#[derive(Debug, Clone)]
pub struct ProjectDetail {
    pub summary: ProjectSummary,
    pub repo_url: String,
    pub branch: String,
    pub webhook_secret: String,
}

/// The summary of a record whose container was observed in `state`, with
/// the uptime the engine reported. Uptime and resource figures are left out
/// unless the container is online.
pub open spec fn summary_ok(r: ProjectSummary, rec: ProjectConfig, state: ProjectState, uptime: Option<u64>) -> bool {
    &&& r.slug@ == rec.slug@
    &&& r.name@ == rec.name@
    &&& r.state == state
    &&& r.uptime_secs == (if state == ProjectState::Online {
        uptime
    } else {
        None
    })
    &&& match (r.url, project_url_spec(rec)) {
        (Some(a), Some(b)) => a@ == b,
        (None, None) => true,
        _ => false,
    }
    &&& r.host_port == rec.domain.host_port
    &&& r.container_port == rec.domain.container_port
    &&& r.network_mode@ == network_label(rec.network_mode)
    &&& r.last_deploy == rec.updated_at
    &&& r.live_stats == (state == ProjectState::Online)
}

/// Status of one project.
pub fn summarize(rec: &ProjectConfig, state: ProjectState, uptime: Option<u64>) -> (r: ProjectSummary)
    ensures
        summary_ok(r, *rec, state, uptime),
{
    let online = state == ProjectState::Online;
    ProjectSummary {
        slug: rec.slug.clone(),
        name: rec.name.clone(),
        state,
        uptime_secs: if online {
            uptime
        } else {
            None
        },
        url: project_url(rec),
        host_port: rec.domain.host_port,
        container_port: rec.domain.container_port,
        network_mode: String::from_str(rec.network_mode.label()),
        last_deploy: rec.updated_at,
        live_stats: online,
    }
}

/// Detail view of one project.
pub fn detail_of(rec: &ProjectConfig, state: ProjectState, uptime: Option<u64>) -> (r: ProjectDetail)
    ensures
        summary_ok(r.summary, *rec, state, uptime),
        r.repo_url@ == rec.repo_url@,
        r.branch@ == rec.branch@,
        r.webhook_secret@ == rec.webhook.secret@,
{
    ProjectDetail {
        summary: summarize(rec, state, uptime),
        repo_url: rec.repo_url.clone(),
        branch: rec.branch.clone(),
        webhook_secret: rec.webhook.secret.clone(),
    }
}

/// The deploy request of the command line: public when asked, container
/// port 3000 unless given, no environment.
pub fn deploy_request_from_flags(
    repo_url: String,
    branch: String,
    public: bool,
    domain: Option<String>,
    port: Option<u16>,
) -> (r: DeployRequest)
    ensures
        r.repo_url == repo_url,
        r.branch == branch,
        r.network_mode == (if public {
            NetworkMode::Public
        } else {
            NetworkMode::LocalOnly
        }),
        r.hostname == domain,
        r.container_port == match port {
            Some(p) => p,
            None => 3000u16,
        },
        r.env_vars@.is_empty(),
{
    DeployRequest {
        repo_url,
        branch,
        network_mode: if public {
            NetworkMode::Public
        } else {
            NetworkMode::LocalOnly
        },
        hostname: domain,
        container_port: match port {
            Some(p) => p,
            None => 3000,
        },
        env_vars: HashMap::new(),
    }
}

/// HTTP status of a failed control-API call: 404 for an unknown project,
/// 409 for a slug already taken, 500 otherwise.
pub fn error_status(e: &DockyardError) -> (r: u16)
    ensures
        r == match e {
            DockyardError::ProjectNotFound(_) => 404u16,
            DockyardError::ProjectAlreadyExists(_) => 409u16,
            _ => 500u16,
        },
{
    match e {
        DockyardError::ProjectNotFound(_) => 404,
        DockyardError::ProjectAlreadyExists(_) => 409,
        _ => 500,
    }
}

/// `<port>/tcp`, the engine's key of a container port.
pub fn port_key(container_port: u16) -> (r: String)
    ensures
        r@ == decimal(container_port as nat) + "/tcp"@,
{
    u16_text(container_port).concat("/tcp")
}

/// `<key>=<value>`, one environment entry as the engine takes it.
pub fn env_assignment(key: &str, value: &str) -> (r: String)
    ensures
        r@ == key@ + "="@ + value@,
{
    join3(key, "=", value)
}

/// Confirmation of an accepted rebuild.
pub fn rebuild_started_message(slug: &str) -> (r: String)
    ensures
        r@ == "Rebuild started for '"@ + slug@ + "'"@,
{
    join3("Rebuild started for '", slug, "'")
}

/// Confirmation of a project operation, such as `started` or `deleted`.
pub fn project_done_message(slug: &str, done: &str) -> (r: String)
    ensures
        r@ == "Project '"@ + slug@ + "' "@ + done@,
{
    join3("Project '", slug, "' ").concat(done)
}

} // verus!
