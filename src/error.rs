//! The library's error kinds.
use vstd::prelude::*;
use vstd::string::*;
use crate::text::{decimal, join3, u16_text};

verus! {

/// Every failure the daemon and its clients report.
#[derive(Debug, Clone, PartialEq, Eq)]
pub enum DockyardError {
    /// The container engine failed; holds the engine's message.
    Docker(String),
    Config(String),
    ProjectNotFound(String),
    ProjectAlreadyExists(String),
    Ipc(String),
    DaemonNotRunning,
    BuildFailed(String),
    Git(String),
    Proxy(String),
    Tunnel(String),
    Webhook(String),
    Io(String),
    Serialization(String),
    Http(String),
    PortInUse(u16),
}

/// The human-readable message of each error.
pub open spec fn error_message(e: DockyardError) -> Seq<char> {
    match e {
        DockyardError::Docker(m) => "Docker error: "@ + m@,
        DockyardError::Config(m) => "Configuration error: "@ + m@,
        DockyardError::ProjectNotFound(s) => "Project '"@ + s@ + "' not found"@,
        DockyardError::ProjectAlreadyExists(s) => "Project '"@ + s@ + "' already exists"@,
        DockyardError::Ipc(m) => "IPC error: "@ + m@,
        DockyardError::DaemonNotRunning => "Daemon not running. Start with: sudo dockyard daemon"@,
        DockyardError::BuildFailed(m) => "Build failed: "@ + m@,
        DockyardError::Git(m) => "Git error: "@ + m@,
        DockyardError::Proxy(m) => "Proxy error: "@ + m@,
        DockyardError::Tunnel(m) => "Tunnel error: "@ + m@,
        DockyardError::Webhook(m) => "Webhook error: "@ + m@,
        DockyardError::Io(m) => "IO error: "@ + m@,
        DockyardError::Serialization(m) => "Serialization error: "@ + m@,
        DockyardError::Http(m) => "HTTP error: "@ + m@,
        DockyardError::PortInUse(p) => "Port "@ + decimal(p as nat) + " is already in use"@,
    }
}

impl DockyardError {
    /// The human-readable message of the error.
    pub fn message(&self) -> (r: String)
        ensures
            r@ == error_message(*self),
    {
        match self {
            DockyardError::Docker(m) => String::from_str("Docker error: ").concat(m.as_str()),
            DockyardError::Config(m) => String::from_str("Configuration error: ").concat(
                m.as_str(),
            ),
            DockyardError::ProjectNotFound(s) => join3("Project '", s.as_str(), "' not found"),
            DockyardError::ProjectAlreadyExists(s) => join3(
                "Project '",
                s.as_str(),
                "' already exists",
            ),
            DockyardError::Ipc(m) => String::from_str("IPC error: ").concat(m.as_str()),
            DockyardError::DaemonNotRunning => String::from_str(
                "Daemon not running. Start with: sudo dockyard daemon",
            ),
            DockyardError::BuildFailed(m) => String::from_str("Build failed: ").concat(m.as_str()),
            DockyardError::Git(m) => String::from_str("Git error: ").concat(m.as_str()),
            DockyardError::Proxy(m) => String::from_str("Proxy error: ").concat(m.as_str()),
            DockyardError::Tunnel(m) => String::from_str("Tunnel error: ").concat(m.as_str()),
            DockyardError::Webhook(m) => String::from_str("Webhook error: ").concat(m.as_str()),
            DockyardError::Io(m) => String::from_str("IO error: ").concat(m.as_str()),
            DockyardError::Serialization(m) => String::from_str("Serialization error: ").concat(
                m.as_str(),
            ),
            DockyardError::Http(m) => String::from_str("HTTP error: ").concat(m.as_str()),
            DockyardError::PortInUse(p) => {
                let n = u16_text(*p);
                join3("Port ", n.as_str(), " is already in use")
            },
        }
    }
}

} // verus!
