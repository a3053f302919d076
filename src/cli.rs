//! The command-line surface of the client.
use vstd::prelude::*;

verus! {

/// Parsed command line: a subcommand, or none for the interactive menu.
#[derive(Debug, Clone)]
pub struct Cli {
    pub command: Option<Commands>,
}

#[derive(Debug, Clone)]
pub enum Commands {
    /// Run the daemon.
    Daemon,
    /// Deploy a new project.
    Deploy {
        repo: Option<String>,
        branch: String,
        public: bool,
        domain: Option<String>,
        port: Option<u16>,
    },
    List,
    Status { slug: String },
    Rebuild { slug: String },
    Logs { slug: String, follow: bool, tail: u32 },
    Stop { slug: String },
    Start { slug: String },
    Delete { slug: String },
    Config { action: ConfigAction },
}

#[derive(Debug, Clone)]
pub enum ConfigAction {
    Show,
    /// Set one configuration key.
    SetValue { key: String, value: String },
}

} // verus!
