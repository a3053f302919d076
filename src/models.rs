//! Observed project states and git-host push events.
use vstd::prelude::*;
use crate::text::{same_text, strip_prefix, strip_prefix_spec};

verus! {

/// What the engine reports of a project's container, as the daemon sees it.
#[derive(Debug, Clone, Copy, PartialEq, Eq, Structural)]
pub enum ProjectState {
    Building,
    Starting,
    Online,
    Offline,
    Stopped,
    Error,
    Rebuilding,
}

/// The state that an engine container state string stands for.
pub open spec fn engine_state_spec(s: Option<Seq<char>>) -> ProjectState {
    match s {
        Some(t) => if t == "running"@ {
            ProjectState::Online
        } else if t == "exited"@ {
            ProjectState::Stopped
        } else if t == "created"@ || t == "restarting"@ {
            ProjectState::Starting
        } else {
            ProjectState::Offline
        },
        None => ProjectState::Offline,
    }
}

/// Display name of each state.
pub open spec fn state_label(s: ProjectState) -> Seq<char> {
    match s {
        ProjectState::Building => "Building"@,
        ProjectState::Starting => "Starting"@,
        ProjectState::Online => "Online"@,
        ProjectState::Offline => "Offline"@,
        ProjectState::Stopped => "Stopped"@,
        ProjectState::Error => "Error"@,
        ProjectState::Rebuilding => "Rebuilding"@,
    }
}

impl ProjectState {
    /// Maps the engine's container state (`None` when no container matched):
    /// `running` is Online, `exited` Stopped, `created` and `restarting`
    /// Starting, anything else Offline.
    pub fn from_engine(state: Option<&str>) -> (r: ProjectState)
        ensures
            r == engine_state_spec(
                match state {
                    Some(t) => Some(t@),
                    None => None,
                },
            ),
    {
        match state {
            Some(t) => {
                if same_text(t, "running") {
                    ProjectState::Online
                } else if same_text(t, "exited") {
                    ProjectState::Stopped
                } else if same_text(t, "created") || same_text(t, "restarting") {
                    ProjectState::Starting
                } else {
                    ProjectState::Offline
                }
            },
            None => ProjectState::Offline,
        }
    }

    /// Display name of the state.
    pub fn label(&self) -> (r: &'static str)
        ensures
            r@ == state_label(*self),
    {
        match self {
            ProjectState::Building => "Building",
            ProjectState::Starting => "Starting",
            ProjectState::Online => "Online",
            ProjectState::Offline => "Offline",
            ProjectState::Stopped => "Stopped",
            ProjectState::Error => "Error",
            ProjectState::Rebuilding => "Rebuilding",
        }
    }
}

/// A push notification from the git host.
#[derive(Debug, Clone)]
pub struct GitHubPushEvent {
    /// The pushed ref, such as `refs/heads/main`.
    pub git_ref: String,
    /// Commit id after the push.
    pub after: String,
    pub repository: GitHubRepository,
    pub pusher: GitHubPusher,
}

#[derive(Debug, Clone)]
pub struct GitHubRepository {
    pub full_name: String,
    pub clone_url: String,
    pub ssh_url: String,
}

#[derive(Debug, Clone)]
pub struct GitHubPusher {
    pub name: String,
}

/// The branch named by a ref: what follows `refs/heads/`.
pub open spec fn branch_of_ref(git_ref: Seq<char>) -> Option<Seq<char>> {
    strip_prefix_spec(git_ref, "refs/heads/"@)
}

impl GitHubPushEvent {
    /// The pushed branch, when the ref is a branch head.
    pub fn branch(&self) -> (r: Option<&str>)
        ensures
            r matches Some(b) ==> branch_of_ref(self.git_ref@) == Some(b@),
            r is None ==> branch_of_ref(self.git_ref@) is None,
    {
        strip_prefix(self.git_ref.as_str(), "refs/heads/")
    }
}

} // verus!
