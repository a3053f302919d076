//! Fixed locations of the daemon's files, as path text.
use vstd::prelude::*;
use vstd::string::*;
use crate::text::join3;

verus! {

pub open spec fn projects_dir_spec() -> Seq<char> {
    "/var/lib/dockyard/projects"@
}

/// `<projects>/<slug>`
pub open spec fn project_dir_spec(slug: Seq<char>) -> Seq<char> {
    projects_dir_spec() + "/"@ + slug
}

/// Directory of the global configuration.
pub fn config_dir() -> (r: String)
    ensures
        r@ == "/etc/dockyard"@,
{
    String::from_str("/etc/dockyard")
}

/// The global configuration file.
pub fn global_config_path() -> (r: String)
    ensures
        r@ == "/etc/dockyard"@ + "/config.toml"@,
{
    config_dir().concat("/config.toml")
}

/// Root of the daemon's data.
pub fn data_dir() -> (r: String)
    ensures
        r@ == "/var/lib/dockyard"@,
{
    String::from_str("/var/lib/dockyard")
}

/// Directory that holds one directory per project.
pub fn projects_dir() -> (r: String)
    ensures
        r@ == projects_dir_spec(),
{
    String::from_str("/var/lib/dockyard/projects")
}

/// Directory of one project.
pub fn project_dir(slug: &str) -> (r: String)
    ensures
        r@ == project_dir_spec(slug@),
{
    let base = projects_dir();
    join3(base.as_str(), "/", slug)
}

/// The record file of one project.
pub fn project_config_path(slug: &str) -> (r: String)
    ensures
        r@ == project_dir_spec(slug@) + "/project.toml"@,
{
    project_dir(slug).concat("/project.toml")
}

/// The working tree of one project.
pub fn project_repo_dir(slug: &str) -> (r: String)
    ensures
        r@ == project_dir_spec(slug@) + "/repo"@,
{
    project_dir(slug).concat("/repo")
}

/// The log directory of one project.
pub fn project_logs_dir(slug: &str) -> (r: String)
    ensures
        r@ == project_dir_spec(slug@) + "/logs"@,
{
    project_dir(slug).concat("/logs")
}

/// The control socket.
pub fn socket_path() -> (r: String)
    ensures
        r@ == "/var/run/dockyard.sock"@,
{
    String::from_str("/var/run/dockyard.sock")
}

/// The file holding the daemon's process id.
pub fn pid_file_path() -> (r: String)
    ensures
        r@ == "/var/run/dockyard.pid"@,
{
    String::from_str("/var/run/dockyard.pid")
}

} // verus!
