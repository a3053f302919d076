//! Request and response bodies of the control API.
use vstd::prelude::*;
use vstd::string::*;
use std::collections::HashMap;
use crate::project::NetworkMode;

verus! {

/// Ask for a new project.
#[derive(Debug, Clone)]
pub struct DeployRequest {
    pub repo_url: String,
    pub branch: String,
    pub network_mode: NetworkMode,
    pub hostname: Option<String>,
    pub container_port: u16,
    pub env_vars: HashMap<String, String>,
}

/// Partial update of the global configuration: each `Some` field replaces
/// the current value.
#[derive(Debug, Clone)]
pub struct ConfigUpdateRequest {
    pub github_ssh_key_path: Option<String>,
    pub github_api_token: Option<String>,
    pub cloudflare_tunnel_token: Option<String>,
    pub cloudflare_enabled: Option<bool>,
}

/// What a successful deploy reports.
#[derive(Debug, Clone)]
pub struct DeployResponse {
    pub slug: String,
    pub name: String,
    pub url: Option<String>,
    pub webhook_url: String,
    pub host_port: u16,
}

#[derive(Debug, Clone)]
pub struct LogsResponse {
    pub logs: Vec<String>,
}

#[derive(Debug, Clone)]
pub struct HealthResponse {
    pub status: String,
    pub uptime_secs: u64,
    pub project_count: usize,
}

/// The global configuration as shown to clients: the API token is only
/// reported as set or not.
#[derive(Debug, Clone)]
pub struct ConfigResponse {
    pub github_ssh_key_path: Option<String>,
    pub github_api_token_set: bool,
    pub cloudflare_enabled: bool,
    pub cloudflare_tunnel_id: Option<String>,
    pub webhook_port: u16,
    pub socket_path: String,
}

#[derive(Debug, Clone)]
pub struct ErrorResponse {
    pub error: String,
}

#[derive(Debug, Clone)]
pub struct SuccessResponse {
    pub message: String,
}

/// Query of the logs route.
#[derive(Debug, Clone)]
pub struct LogsQuery {
    pub tail: Option<u32>,
}

/// Lines of log returned when the query names no count.
pub fn default_log_tail() -> (r: u32)
    ensures
        r == 100,
{
    100
}

impl LogsQuery {
    /// The number of lines asked for, 100 when the query names none.
    pub fn tail_or_default(&self) -> (r: u32)
        ensures
            r == match self.tail {
                Some(t) => t,
                None => 100,
            },
    {
        match self.tail {
            Some(t) => t,
            None => default_log_tail(),
        }
    }
}

/// Health report of the daemon.
pub fn health_response(uptime_secs: u64, project_count: usize) -> (r: HealthResponse)
    ensures
        r.status@ == "ok"@,
        r.uptime_secs == uptime_secs,
        r.project_count == project_count,
{
    HealthResponse { status: String::from_str("ok"), uptime_secs, project_count }
}

} // verus!
