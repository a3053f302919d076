//! Decisions taken on what the container engine reports: container states,
//! the shared network, startup reconciliation, health checks, logs and the
//! build recipe.
use vstd::prelude::*;
use vstd::string::*;
use crate::error::DockyardError;
use crate::models::{engine_state_spec, ProjectState};
use crate::text::same_text;

verus! {

/// Name of the bridge network that joins all project containers.
pub fn shared_network() -> (r: &'static str)
    ensures
        r@ == "dockyard-network"@,
{
    "dockyard-network"
}

pub open spec fn opt_view(s: Option<String>) -> Option<Seq<char>> {
    match s {
        Some(t) => Some(t@),
        None => None,
    }
}

/// Some listed container is in state `running`.
pub open spec fn any_running_spec(states: Seq<Option<String>>) -> bool {
    exists|i: int| 0 <= i < states.len() && opt_view(#[trigger] states[i]) == Some("running"@)
}

/// Whether any of the containers listed under a name is running.
pub fn any_running(states: &Vec<Option<String>>) -> (r: bool)
    ensures
        r == any_running_spec(states@),
{
    let mut i: usize = 0;
    while i < states.len()
        invariant
            i <= states@.len(),
            forall|k: int| 0 <= k < i ==> opt_view(#[trigger] states@[k]) != Some("running"@),
        decreases states@.len() - i,
    {
        if let Some(s) = &states[i] {
            if same_text(s.as_str(), "running") {
                return true;
            }
        }
        i = i + 1;
    }
    false
}

/// The state of a project from the states of the containers listed under
/// its name: the first one decides; none listed is Offline.
pub fn state_of_listed(states: &Vec<Option<String>>) -> (r: ProjectState)
    ensures
        r == if states@.len() == 0 {
            ProjectState::Offline
        } else {
            engine_state_spec(opt_view(states@[0]))
        },
{
    if states.len() == 0 {
        ProjectState::Offline
    } else {
        match &states[0] {
            Some(s) => ProjectState::from_engine(Some(s.as_str())),
            None => ProjectState::from_engine(None),
        }
    }
}

/// Number of networks with this name.
pub open spec fn network_count(names: Seq<Option<String>>, name: Seq<char>) -> nat {
    names.filter(|n: Option<String>| opt_view(n) == Some(name)).len()
}

/// Some network has this name.
pub open spec fn network_present_spec(names: Seq<Option<String>>, name: Seq<char>) -> bool {
    exists|i: int| 0 <= i < names.len() && opt_view(#[trigger] names[i]) == Some(name)
}

/// Whether a network with this name is among those listed.
pub fn network_present(names: &Vec<Option<String>>, name: &str) -> (r: bool)
    ensures
        r == network_present_spec(names@, name@),
{
    let mut i: usize = 0;
    while i < names.len()
        invariant
            i <= names@.len(),
            forall|k: int| 0 <= k < i ==> opt_view(#[trigger] names@[k]) != Some(name@),
        decreases names@.len() - i,
    {
        if let Some(s) = &names[i] {
            if same_text(s.as_str(), name) {
                return true;
            }
        }
        i = i + 1;
    }
    false
}

/// The networks after ensuring one with this name: created only when absent.
pub open spec fn after_ensure(names: Seq<Option<String>>, created: Option<String>, name: Seq<char>) -> Seq<
    Option<String>,
> {
    if network_present_spec(names, name) {
        names
    } else {
        names.push(created)
    }
}

proof fn lemma_count_absent(names: Seq<Option<String>>, name: Seq<char>)
    requires
        !network_present_spec(names, name),
    ensures
        network_count(names, name) == 0,
    decreases names.len(),
{
    reveal(Seq::filter);
    if names.len() > 0 {
        let d = names.drop_last();
        assert(!network_present_spec(d, name)) by {
            if network_present_spec(d, name) {
                let k = choose|k: int| 0 <= k < d.len() && opt_view(#[trigger] d[k]) == Some(name);
                assert(names[k] == d[k]);
            }
        }
        lemma_count_absent(d, name);
        assert(names == d.push(names.last()));
        assert(opt_view(names[names.len() - 1]) != Some(name));
    }
}

/// Ensuring the shared network twice in a row creates it at most once, and
/// afterwards exactly one network has the name (when at most one had it
/// before, as the engine keeps network names unique).
pub proof fn lemma_ensure_network_twice(
    names: Seq<Option<String>>,
    created1: Option<String>,
    created2: Option<String>,
    name: Seq<char>,
)
    requires
        network_count(names, name) <= 1,
        opt_view(created1) == Some(name),
        opt_view(created2) == Some(name),
    ensures
        after_ensure(after_ensure(names, created1, name), created2, name) == after_ensure(
            names,
            created1,
            name,
        ),
        network_count(after_ensure(names, created1, name), name) == 1,
{
    reveal(Seq::filter);
    let once = after_ensure(names, created1, name);
    if network_present_spec(names, name) {
        let k = choose|k: int| 0 <= k < names.len() && opt_view(#[trigger] names[k]) == Some(name);
        let f = |n: Option<String>| opt_view(n) == Some(name);
        broadcast use vstd::seq_lib::group_filter_ensures;
        assert(names.filter(f).contains(names[k]));
        assert(network_count(names, name) >= 1);
    } else {
        lemma_count_absent(names, name);
        assert(once == names.push(created1));
        assert(once.drop_last() == names);
        assert(once[names.len() as int] == created1);
        assert(network_present_spec(once, name));
    }
}

/// What startup does with a project.
#[derive(Debug, Clone, Copy, PartialEq, Eq, Structural)]
pub enum StartupAction {
    /// Disabled: left alone.
    Skip,
    /// Already online.
    Nothing,
    /// Stopped: start the existing container.
    Start,
    /// Anything else: queue a first deploy.
    Deploy,
}

/// Startup reconciliation of one project from its container state.
pub fn startup_action(enabled: bool, state: ProjectState) -> (r: StartupAction)
    ensures
        r == if !enabled {
            StartupAction::Skip
        } else if state == ProjectState::Online {
            StartupAction::Nothing
        } else if state == ProjectState::Stopped {
            StartupAction::Start
        } else {
            StartupAction::Deploy
        },
{
    if !enabled {
        StartupAction::Skip
    } else {
        match state {
            ProjectState::Online => StartupAction::Nothing,
            ProjectState::Stopped => StartupAction::Start,
            _ => StartupAction::Deploy,
        }
    }
}

/// What a health tick does with a project.
#[derive(Debug, Clone, Copy, PartialEq, Eq, Structural)]
pub enum WatchAction {
    /// Disabled: not checked.
    Skip,
    /// Online: nothing to do.
    Nothing,
    /// Stopped: try to start it again.
    Restart,
    /// Transient or absent: only noted.
    Note,
    /// The state query failed: reported, nothing changed.
    ReportError,
}

/// Health reconciliation of one project; `observed` is `None` when the
/// state query failed.
pub fn watch_action(enabled: bool, observed: Option<ProjectState>) -> (r: WatchAction)
    ensures
        r == if !enabled {
            WatchAction::Skip
        } else {
            match observed {
                None => WatchAction::ReportError,
                Some(ProjectState::Online) => WatchAction::Nothing,
                Some(ProjectState::Stopped) => WatchAction::Restart,
                Some(_) => WatchAction::Note,
            }
        },
{
    if !enabled {
        return WatchAction::Skip;
    }
    match observed {
        None => WatchAction::ReportError,
        Some(ProjectState::Online) => WatchAction::Nothing,
        Some(ProjectState::Stopped) => WatchAction::Restart,
        Some(_) => WatchAction::Note,
    }
}

/// Whether reading logs stops: when not following, after `tail` lines.
pub fn logs_complete(collected: usize, tail: u32, follow: bool) -> (r: bool)
    ensures
        r == (!follow && collected >= tail),
{
    !follow && collected >= tail as usize
}

/// Uptime from the seconds elapsed since the container started; a start in
/// the future counts as zero.
pub fn uptime_secs_from(elapsed: i64) -> (r: u64)
    ensures
        r == if elapsed < 0 {
            0
        } else {
            elapsed
        },
{
    if elapsed < 0 {
        0
    } else {
        elapsed as u64
    }
}

/// Build recipe names searched for, in order.
pub fn recipe_candidates() -> (r: Vec<&'static str>)
    ensures
        r@.len() == 3,
        r@[0]@ == "Dockerfile"@,
        r@[1]@ == "dockerfile"@,
        r@[2]@ == "Dockerfile.prod"@,
{
    vec!["Dockerfile", "dockerfile", "Dockerfile.prod"]
}

/// The first candidate recipe that is present (`present[i]` tells whether
/// candidate `i` exists). Fails with `BuildFailed` when none is.
pub fn choose_recipe(present: &Vec<bool>) -> (r: Result<String, DockyardError>)
    requires
        present@.len() == 3,
    ensures
        present@[0] ==> (r matches Ok(s) && s@ == "Dockerfile"@),
        !present@[0] && present@[1] ==> (r matches Ok(s) && s@ == "dockerfile"@),
        !present@[0] && !present@[1] && present@[2] ==> (r matches Ok(s) && s@
            == "Dockerfile.prod"@),
        !present@[0] && !present@[1] && !present@[2] ==> (r matches Err(
            DockyardError::BuildFailed(m),
        ) && m@ == "No Dockerfile found in repository"@),
{
    let names = recipe_candidates();
    let mut i: usize = 0;
    while i < 3
        invariant
            i <= 3,
            names@.len() == 3,
            names@[0]@ == "Dockerfile"@,
            names@[1]@ == "dockerfile"@,
            names@[2]@ == "Dockerfile.prod"@,
            present@.len() == 3,
            forall|k: int| 0 <= k < i ==> !present@[k],
        decreases 3 - i,
    {
        if present[i] {
            return Ok(String::from_str(names[i]));
        }
        i = i + 1;
    }
    Err(DockyardError::BuildFailed(String::from_str("No Dockerfile found in repository")))
}

} // verus!
