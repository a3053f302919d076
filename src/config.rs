//! The daemon's global configuration, its defaults and its updates.
use vstd::prelude::*;
use vstd::string::*;
use crate::project::{copy_opt_text, same_opt_text};
use crate::protocol::{ConfigResponse, ConfigUpdateRequest};
use crate::text::same_text;

verus! {

#[derive(Debug, Clone)]
pub struct GitHubConfig {
    pub ssh_key_path: Option<String>,
    pub api_token: Option<String>,
}

#[derive(Debug, Clone)]
pub struct CloudflareConfig {
    pub tunnel_token: Option<String>,
    pub tunnel_id: Option<String>,
    pub enabled: bool,
}

#[derive(Debug, Clone)]
pub struct DaemonConfig {
    pub webhook_port: u16,
    pub socket_path: String,
    pub log_level: String,
}

#[derive(Debug, Clone)]
pub struct CaddyConfig {
    pub admin_api: String,
}

#[derive(Debug, Clone)]
pub struct GlobalConfig {
    pub github: GitHubConfig,
    pub cloudflare: CloudflareConfig,
    pub daemon: DaemonConfig,
    pub caddy: CaddyConfig,
}

/// Port of the public webhook listener unless configured.
pub fn default_webhook_port() -> (r: u16)
    ensures
        r == 9876,
{
    9876
}

/// Control socket unless configured.
pub fn default_socket_path() -> (r: String)
    ensures
        r@ == "/var/run/dockyard.sock"@,
{
    crate::paths::socket_path()
}

/// Log level unless configured.
pub fn default_log_level() -> (r: String)
    ensures
        r@ == "info"@,
{
    String::from_str("info")
}

/// Admin address of the reverse proxy unless configured.
pub fn default_caddy_admin() -> (r: String)
    ensures
        r@ == "http://localhost:2019"@,
{
    String::from_str("http://localhost:2019")
}

impl Default for GitHubConfig {
    fn default() -> (r: GitHubConfig)
        ensures
            r.ssh_key_path is None,
            r.api_token is None,
    {
        GitHubConfig { ssh_key_path: None, api_token: None }
    }
}

impl Default for CloudflareConfig {
    fn default() -> (r: CloudflareConfig)
        ensures
            r.tunnel_token is None,
            r.tunnel_id is None,
            !r.enabled,
    {
        CloudflareConfig { tunnel_token: None, tunnel_id: None, enabled: false }
    }
}

impl Default for DaemonConfig {
    fn default() -> (r: DaemonConfig)
        ensures
            r.webhook_port == 9876,
            r.socket_path@ == "/var/run/dockyard.sock"@,
            r.log_level@ == "info"@,
    {
        DaemonConfig {
            webhook_port: default_webhook_port(),
            socket_path: default_socket_path(),
            log_level: default_log_level(),
        }
    }
}

impl Default for CaddyConfig {
    fn default() -> (r: CaddyConfig)
        ensures
            r.admin_api@ == "http://localhost:2019"@,
    {
        CaddyConfig { admin_api: default_caddy_admin() }
    }
}

impl Default for GlobalConfig {
    fn default() -> (r: GlobalConfig)
        ensures
            r.github.ssh_key_path is None,
            r.github.api_token is None,
            r.cloudflare.tunnel_token is None,
            r.cloudflare.tunnel_id is None,
            !r.cloudflare.enabled,
            r.daemon.webhook_port == 9876,
            r.daemon.socket_path@ == "/var/run/dockyard.sock"@,
            r.daemon.log_level@ == "info"@,
            r.caddy.admin_api@ == "http://localhost:2019"@,
    {
        GlobalConfig {
            github: GitHubConfig::default(),
            cloudflare: CloudflareConfig::default(),
            daemon: DaemonConfig::default(),
            caddy: CaddyConfig::default(),
        }
    }
}

/// The update's value where it has one, else the current value.
pub open spec fn merged<T>(current: Option<T>, update: Option<T>) -> Option<T> {
    match update {
        Some(v) => Some(v),
        None => current,
    }
}

impl GlobalConfig {
    /// Replaces each setting the request carries; keeps the others.
    pub fn apply_update(&mut self, req: ConfigUpdateRequest)
        ensures
            final(self).github.ssh_key_path == merged(
                old(self).github.ssh_key_path,
                req.github_ssh_key_path,
            ),
            final(self).github.api_token == merged(old(self).github.api_token, req.github_api_token),
            final(self).cloudflare.tunnel_token == merged(
                old(self).cloudflare.tunnel_token,
                req.cloudflare_tunnel_token,
            ),
            final(self).cloudflare.enabled == match req.cloudflare_enabled {
                Some(e) => e,
                None => old(self).cloudflare.enabled,
            },
            final(self).cloudflare.tunnel_id == old(self).cloudflare.tunnel_id,
            final(self).daemon == old(self).daemon,
            final(self).caddy == old(self).caddy,
    {
        if let Some(path) = req.github_ssh_key_path {
            self.github.ssh_key_path = Some(path);
        }
        if let Some(token) = req.github_api_token {
            self.github.api_token = Some(token);
        }
        if let Some(token) = req.cloudflare_tunnel_token {
            self.cloudflare.tunnel_token = Some(token);
        }
        if let Some(enabled) = req.cloudflare_enabled {
            self.cloudflare.enabled = enabled;
        }
    }

    /// The configuration as shown to clients; the API token only as set or not.
    pub fn info(&self) -> (r: ConfigResponse)
        ensures
            same_opt_text(r.github_ssh_key_path, self.github.ssh_key_path),
            r.github_api_token_set == self.github.api_token is Some,
            r.cloudflare_enabled == self.cloudflare.enabled,
            same_opt_text(r.cloudflare_tunnel_id, self.cloudflare.tunnel_id),
            r.webhook_port == self.daemon.webhook_port,
            r.socket_path@ == self.daemon.socket_path@,
    {
        ConfigResponse {
            github_ssh_key_path: copy_opt_text(&self.github.ssh_key_path),
            github_api_token_set: self.github.api_token.is_some(),
            cloudflare_enabled: self.cloudflare.enabled,
            cloudflare_tunnel_id: copy_opt_text(&self.cloudflare.tunnel_id),
            webhook_port: self.daemon.webhook_port,
            socket_path: self.daemon.socket_path.clone(),
        }
    }
}

/// An update that changes nothing.
pub fn empty_update() -> (r: ConfigUpdateRequest)
    ensures
        r.github_ssh_key_path is None,
        r.github_api_token is None,
        r.cloudflare_tunnel_token is None,
        r.cloudflare_enabled is None,
{
    ConfigUpdateRequest {
        github_ssh_key_path: None,
        github_api_token: None,
        cloudflare_tunnel_token: None,
        cloudflare_enabled: None,
    }
}

/// Keys that `config set` accepts.
pub open spec fn settable_key(key: Seq<char>) -> bool {
    key == "github.ssh_key_path"@ || key == "github.api_token"@ || key
        == "cloudflare.tunnel_token"@ || key == "cloudflare.enabled"@
}

/// The update that `config set <key> <value>` sends, or `None` for an
/// unknown key. `cloudflare.enabled` is on only for the value `true`.
pub fn update_for_key(key: &str, value: String) -> (r: Option<ConfigUpdateRequest>)
    ensures
        r is Some <==> settable_key(key@),
        r matches Some(u) ==> if key@ == "github.ssh_key_path"@ {
            u.github_ssh_key_path == Some(value) && u.github_api_token is None
                && u.cloudflare_tunnel_token is None && u.cloudflare_enabled is None
        } else if key@ == "github.api_token"@ {
            u.github_api_token == Some(value) && u.github_ssh_key_path is None
                && u.cloudflare_tunnel_token is None && u.cloudflare_enabled is None
        } else if key@ == "cloudflare.tunnel_token"@ {
            u.cloudflare_tunnel_token == Some(value) && u.github_ssh_key_path is None
                && u.github_api_token is None && u.cloudflare_enabled is None
        } else {
            u.cloudflare_enabled == Some(value@ == "true"@) && u.github_ssh_key_path is None
                && u.github_api_token is None && u.cloudflare_tunnel_token is None
        },
{
    let mut req = empty_update();
    if same_text(key, "github.ssh_key_path") {
        req.github_ssh_key_path = Some(value);
    } else if same_text(key, "github.api_token") {
        req.github_api_token = Some(value);
    } else if same_text(key, "cloudflare.tunnel_token") {
        req.cloudflare_tunnel_token = Some(value);
    } else if same_text(key, "cloudflare.enabled") {
        req.cloudflare_enabled = Some(same_text(value.as_str(), "true"));
    } else {
        return None;
    }
    Some(req)
}

} // verus!
