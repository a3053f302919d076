//! The persisted project record and its derived identifiers.
use vstd::prelude::*;
use vstd::string::*;
use std::collections::HashMap;
use crate::text::{join2, same_text};

verus! {

/// Whether a project is reachable only from the host or from outside.
#[derive(Debug, Clone, Copy, PartialEq, Eq, Structural)]
pub enum NetworkMode {
    LocalOnly,
    Public,
}

pub open spec fn network_label(m: NetworkMode) -> Seq<char> {
    match m {
        NetworkMode::LocalOnly => "Local Only"@,
        NetworkMode::Public => "Public"@,
    }
}

impl NetworkMode {
    /// Display name of the mode.
    pub fn label(&self) -> (r: &'static str)
        ensures
            r@ == network_label(*self),
    {
        match self {
            NetworkMode::LocalOnly => "Local Only",
            NetworkMode::Public => "Public",
        }
    }
}

/// A UTC instant: whole seconds since the Unix epoch and the nanoseconds past them.
#[derive(Debug, Clone, Copy, PartialEq, Eq, Structural)]
pub struct Timestamp {
    pub secs: i64,
    pub nanos: u32,
}

#[derive(Debug, Clone)]
pub struct DomainConfig {
    pub hostname: Option<String>,
    pub container_port: u16,
    pub host_port: u16,
}

#[derive(Debug, Clone)]
pub struct ContainerConfig {
    pub image_name: String,
    pub container_name: String,
    pub dockerfile_path: String,
    pub env_vars: HashMap<String, String>,
}

#[derive(Debug, Clone)]
pub struct WebhookConfig {
    pub secret: String,
    pub github_webhook_id: Option<u64>,
}

/// One project: where its code comes from and how its container runs.
#[derive(Debug, Clone)]
pub struct ProjectConfig {
    /// Stable 128-bit identifier.
    pub id: u128,
    pub name: String,
    /// Unique key of the project.
    pub slug: String,
    pub repo_url: String,
    pub branch: String,
    pub network_mode: NetworkMode,
    pub domain: DomainConfig,
    pub container: ContainerConfig,
    pub webhook: WebhookConfig,
    pub created_at: Timestamp,
    pub updated_at: Timestamp,
    pub enabled: bool,
}

/// `dockyard-<slug>`
pub open spec fn container_name_for(slug: Seq<char>) -> Seq<char> {
    "dockyard-"@ + slug
}

/// `dockyard/<slug>`
pub open spec fn image_name_for(slug: Seq<char>) -> Seq<char> {
    "dockyard/"@ + slug
}

pub open spec fn default_branch_spec() -> Seq<char> {
    "main"@
}

pub open spec fn default_dockerfile_spec() -> Seq<char> {
    "Dockerfile"@
}

/// Two values of an optional string with the same text.
pub open spec fn same_opt_text(a: Option<String>, b: Option<String>) -> bool {
    match (a, b) {
        (Some(x), Some(y)) => x@ == y@,
        (None, None) => true,
        _ => false,
    }
}

/// Copy of an optional string.
pub fn copy_opt_text(a: &Option<String>) -> (r: Option<String>)
    ensures
        same_opt_text(r, *a),
{
    match a {
        Some(x) => Some(x.clone()),
        None => None,
    }
}

/// Relies on `uuid::Uuid::new_v4` (a random identifier) and `Uuid::as_u128`.
#[verifier::external_body]
fn random_id() -> (r: u128) {
    uuid::Uuid::new_v4().as_u128()
}

/// Relies on `chrono::Utc::now`: the current instant, split into
/// `timestamp` and `timestamp_subsec_nanos`.
#[verifier::external_body]
pub(crate) fn utc_now() -> (r: Timestamp) {
    let now = chrono::Utc::now();
    Timestamp { secs: now.timestamp(), nanos: now.timestamp_subsec_nanos() }
}

/// Relies on `uuid::Uuid::new_v4` and its `Display`: a random identifier in
/// hyphenated text.
#[verifier::external_body]
pub fn generate_webhook_secret() -> (r: String) {
    uuid::Uuid::new_v4().to_string()
}

/// Container name of a project.
pub fn container_name_of(slug: &str) -> (r: String)
    ensures
        r@ == container_name_for(slug@),
{
    join2("dockyard-", slug)
}

/// Image name of a project.
pub fn image_name_of(slug: &str) -> (r: String)
    ensures
        r@ == image_name_for(slug@),
{
    join2("dockyard/", slug)
}

/// Branch tracked when none is given.
pub fn default_branch() -> (r: String)
    ensures
        r@ == default_branch_spec(),
{
    String::from_str("main")
}

/// Projects are enabled unless stated otherwise.
pub fn default_enabled() -> (r: bool)
    ensures
        r,
{
    true
}

/// Build recipe name used when none is given.
pub fn default_dockerfile() -> (r: String)
    ensures
        r@ == default_dockerfile_spec(),
{
    String::from_str("Dockerfile")
}

impl ProjectConfig {
    /// Container and image names are those derived from the slug.
    pub open spec fn names_derived(&self) -> bool {
        &&& self.container.container_name@ == container_name_for(self.slug@)
        &&& self.container.image_name@ == image_name_for(self.slug@)
    }

    /// Same field values; the environment compared as a map.
    pub open spec fn same_as(&self, o: &ProjectConfig) -> bool {
        &&& self.id == o.id
        &&& self.name@ == o.name@
        &&& self.slug@ == o.slug@
        &&& self.repo_url@ == o.repo_url@
        &&& self.branch@ == o.branch@
        &&& self.network_mode == o.network_mode
        &&& same_opt_text(self.domain.hostname, o.domain.hostname)
        &&& self.domain.container_port == o.domain.container_port
        &&& self.domain.host_port == o.domain.host_port
        &&& self.container.image_name@ == o.container.image_name@
        &&& self.container.container_name@ == o.container.container_name@
        &&& self.container.dockerfile_path@ == o.container.dockerfile_path@
        &&& self.container.env_vars@ == o.container.env_vars@
        &&& self.webhook.secret@ == o.webhook.secret@
        &&& self.webhook.github_webhook_id == o.webhook.github_webhook_id
        &&& self.created_at == o.created_at
        &&& self.updated_at == o.updated_at
        &&& self.enabled == o.enabled
    }

    /// A record for a new project, with a fresh identifier and webhook
    /// secret, names derived from the slug, the default recipe, no
    /// environment, creation and update times now, and enabled.
    pub fn new(
        name: String,
        slug: String,
        repo_url: String,
        branch: String,
        network_mode: NetworkMode,
        hostname: Option<String>,
        container_port: u16,
        host_port: u16,
    ) -> (r: ProjectConfig)
        ensures
            r.name == name,
            r.slug == slug,
            r.repo_url == repo_url,
            r.branch == branch,
            r.network_mode == network_mode,
            r.domain.hostname == hostname,
            r.domain.container_port == container_port,
            r.domain.host_port == host_port,
            r.names_derived(),
            r.container.dockerfile_path@ == default_dockerfile_spec(),
            r.container.env_vars@.is_empty(),
            r.webhook.github_webhook_id is None,
            r.created_at == r.updated_at,
            r.enabled,
    {
        let now = utc_now();
        let image_name = image_name_of(slug.as_str());
        let container_name = container_name_of(slug.as_str());
        ProjectConfig {
            id: random_id(),
            name,
            slug,
            repo_url,
            branch,
            network_mode,
            domain: DomainConfig { hostname, container_port, host_port },
            container: ContainerConfig {
                image_name,
                container_name,
                dockerfile_path: default_dockerfile(),
                env_vars: HashMap::new(),
            },
            webhook: WebhookConfig { secret: generate_webhook_secret(), github_webhook_id: None },
            created_at: now,
            updated_at: now,
            enabled: default_enabled(),
        }
    }

    /// A copy of the record.
    pub fn snapshot(&self) -> (r: ProjectConfig)
        ensures
            r.same_as(self),
    {
        ProjectConfig {
            id: self.id,
            name: self.name.clone(),
            slug: self.slug.clone(),
            repo_url: self.repo_url.clone(),
            branch: self.branch.clone(),
            network_mode: self.network_mode,
            domain: DomainConfig {
                hostname: copy_opt_text(&self.domain.hostname),
                container_port: self.domain.container_port,
                host_port: self.domain.host_port,
            },
            container: ContainerConfig {
                image_name: self.container.image_name.clone(),
                container_name: self.container.container_name.clone(),
                dockerfile_path: self.container.dockerfile_path.clone(),
                env_vars: self.container.env_vars.clone(),
            },
            webhook: WebhookConfig {
                secret: self.webhook.secret.clone(),
                github_webhook_id: self.webhook.github_webhook_id,
            },
            created_at: self.created_at,
            updated_at: self.updated_at,
            enabled: self.enabled,
        }
    }

    /// Whether the container and image names are those derived from the slug.
    pub fn has_derived_names(&self) -> (r: bool)
        ensures
            r == self.names_derived(),
    {
        let c = container_name_of(self.slug.as_str());
        let i = image_name_of(self.slug.as_str());
        same_text(c.as_str(), self.container.container_name.as_str()) && same_text(
            i.as_str(),
            self.container.image_name.as_str(),
        )
    }
}

} // verus!
