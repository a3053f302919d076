//! The deploy and blue-green rebuild procedures as step machines: each
//! machine names the next engine or git step, and the outcome of that step
//! decides the one after it. The caller performs the steps.
use vstd::prelude::*;
use vstd::string::*;
use crate::text::{decimal, join2, u64_text};

verus! {

/// One step for the caller to perform.
#[derive(Debug, Clone)]
pub enum Step {
    /// Shallow single-branch clone of `repo_url` into `dest`.
    Clone { repo_url: String, dest: String, branch: String },
    /// Fast-forward the working tree and read its head commit.
    Pull { repo_dir: String, branch: String },
    /// Locate the build recipe in `repo_dir` and build the image `tag`.
    Build { repo_dir: String, tag: String },
    /// Find a free host port and report it.
    AllocatePort,
    /// Create and start a container serving `image` on `host_port`.
    Start { name: String, image: String, host_port: u16, container_port: u16 },
    /// Wait this many seconds.
    Settle { secs: u64 },
    /// Report whether the container is running.
    CheckRunning { name: String },
    /// Stop the container (failure ignored).
    Stop { name: String },
    /// Force-remove the container (failure ignored).
    RemoveContainer { name: String },
    Rename { from: String, to: String },
    /// Tag image `source` as `repo:tag`.
    Tag { source: String, repo: String, tag: String },
    /// Force-remove the image (failure ignored).
    RemoveImage { name: String },
    /// Set the project's update time and persist its record.
    Persist,
    /// Nothing left to do; `error` says why the procedure failed, if it did.
    Finished { error: Option<String> },
}

/// How the last step went.
#[derive(Debug, Clone)]
pub enum Outcome {
    Done,
    Failed(String),
    Port(u16),
    Running(bool),
}

/// Stages of a first deploy.
#[derive(Debug, Clone, Copy, PartialEq, Eq, Structural)]
pub enum DeployStage {
    Clone,
    Build,
    Start,
    Persist,
    Done,
    Failed,
}

/// Stages of a blue-green rebuild.
#[derive(Debug, Clone, Copy, PartialEq, Eq, Structural)]
pub enum RebuildStage {
    Pull,
    Build,
    AllocatePort,
    StartTemp,
    Settle,
    CheckTemp,
    DiscardTemp,
    DiscardImage,
    StopOld,
    RemoveOld,
    Rename,
    Tag,
    DropBuildTag,
    Persist,
    Done,
    Failed,
}

/// The deploy stage after an outcome: any failure ends the procedure,
/// with no rollback of earlier steps.
pub open spec fn deploy_after(st: DeployStage, o: Outcome) -> DeployStage {
    match st {
        DeployStage::Done | DeployStage::Failed => st,
        _ => if o is Failed {
            DeployStage::Failed
        } else {
            match st {
                DeployStage::Clone => DeployStage::Build,
                DeployStage::Build => DeployStage::Start,
                DeployStage::Start => DeployStage::Persist,
                _ => DeployStage::Done,
            }
        },
    }
}

/// The rebuild stage after an outcome. Steps marked best-effort go on
/// whatever their outcome; a temporary container that is not running after
/// the settling wait is discarded with its image, and the rebuild fails.
pub open spec fn rebuild_after(st: RebuildStage, o: Outcome) -> RebuildStage {
    match st {
        RebuildStage::Pull => if o is Failed {
            RebuildStage::Failed
        } else {
            RebuildStage::Build
        },
        RebuildStage::Build => if o is Failed {
            RebuildStage::Failed
        } else {
            RebuildStage::AllocatePort
        },
        RebuildStage::AllocatePort => if o is Port {
            RebuildStage::StartTemp
        } else {
            RebuildStage::Failed
        },
        RebuildStage::StartTemp => if o is Failed {
            RebuildStage::Failed
        } else {
            RebuildStage::Settle
        },
        RebuildStage::Settle => RebuildStage::CheckTemp,
        RebuildStage::CheckTemp => match o {
            Outcome::Running(true) => RebuildStage::StopOld,
            Outcome::Running(false) => RebuildStage::DiscardTemp,
            _ => RebuildStage::Failed,
        },
        RebuildStage::DiscardTemp => RebuildStage::DiscardImage,
        RebuildStage::DiscardImage => RebuildStage::Failed,
        RebuildStage::StopOld => RebuildStage::RemoveOld,
        RebuildStage::RemoveOld => RebuildStage::Rename,
        RebuildStage::Rename => if o is Failed {
            RebuildStage::Failed
        } else {
            RebuildStage::Tag
        },
        RebuildStage::Tag => if o is Failed {
            RebuildStage::Failed
        } else {
            RebuildStage::DropBuildTag
        },
        RebuildStage::DropBuildTag => RebuildStage::Persist,
        RebuildStage::Persist => RebuildStage::Done,
        RebuildStage::Done => RebuildStage::Done,
        RebuildStage::Failed => RebuildStage::Failed,
    }
}

/// `<image>:latest`
pub open spec fn latest_tag(image: Seq<char>) -> Seq<char> {
    image + ":latest"@
}

/// `<image>:build-<unix seconds>`
pub open spec fn build_tag(image: Seq<char>, secs: u64) -> Seq<char> {
    image + ":build-"@ + decimal(secs as nat)
}

/// `<container>-new`
pub open spec fn temp_name(container: Seq<char>) -> Seq<char> {
    container + "-new"@
}

/// Message of a rebuild whose new container did not stay up.
pub open spec fn not_started_msg() -> Seq<char> {
    "New container failed to start"@
}

fn failure_text(o: &Outcome) -> (r: String)
    ensures
        o matches Outcome::Failed(m) ==> r@ == m@,
{
    match o {
        Outcome::Failed(m) => m.clone(),
        _ => String::from_str("unexpected step outcome"),
    }
}

/// A first deploy of one project: clone, build `<image>:latest`, start the
/// container on the project's port, persist.
pub struct DeployRun {
    pub repo_url: String,
    pub branch: String,
    pub repo_dir: String,
    pub container_name: String,
    pub image_name: String,
    pub host_port: u16,
    pub container_port: u16,
    pub stage: DeployStage,
    pub error: Option<String>,
}

impl DeployRun {
    /// A deploy about to clone.
    pub fn new(
        repo_url: String,
        branch: String,
        repo_dir: String,
        container_name: String,
        image_name: String,
        host_port: u16,
        container_port: u16,
    ) -> (r: DeployRun)
        ensures
            r.stage == DeployStage::Clone,
            r.error is None,
            r.repo_url == repo_url,
            r.branch == branch,
            r.repo_dir == repo_dir,
            r.container_name == container_name,
            r.image_name == image_name,
            r.host_port == host_port,
            r.container_port == container_port,
    {
        DeployRun {
            repo_url,
            branch,
            repo_dir,
            container_name,
            image_name,
            host_port,
            container_port,
            stage: DeployStage::Clone,
            error: None,
        }
    }

    /// The step the current stage asks for.
    pub fn step(&self) -> (r: Step)
        ensures
            self.stage == DeployStage::Clone ==> (r matches Step::Clone { repo_url, dest, branch }
                && repo_url@ == self.repo_url@ && dest@ == self.repo_dir@ && branch@
                == self.branch@),
            self.stage == DeployStage::Build ==> (r matches Step::Build { repo_dir, tag }
                && repo_dir@ == self.repo_dir@ && tag@ == latest_tag(self.image_name@)),
            self.stage == DeployStage::Start ==> (r matches Step::Start {
                name,
                image,
                host_port,
                container_port,
            } && name@ == self.container_name@ && image@ == latest_tag(self.image_name@)
                && host_port == self.host_port && container_port == self.container_port),
            self.stage == DeployStage::Persist ==> r is Persist,
            self.stage == DeployStage::Done ==> r matches Step::Finished { error: None },
            self.stage == DeployStage::Failed ==> r matches Step::Finished { error: Some(_) },
    {
        match self.stage {
            DeployStage::Clone => Step::Clone {
                repo_url: self.repo_url.clone(),
                dest: self.repo_dir.clone(),
                branch: self.branch.clone(),
            },
            DeployStage::Build => Step::Build {
                repo_dir: self.repo_dir.clone(),
                tag: self.image_name.clone().concat(":latest"),
            },
            DeployStage::Start => Step::Start {
                name: self.container_name.clone(),
                image: self.image_name.clone().concat(":latest"),
                host_port: self.host_port,
                container_port: self.container_port,
            },
            DeployStage::Persist => Step::Persist,
            DeployStage::Done => Step::Finished { error: None },
            DeployStage::Failed => Step::Finished {
                error: Some(
                    match &self.error {
                        Some(e) => e.clone(),
                        None => String::from_str("deploy failed"),
                    },
                ),
            },
        }
    }

    /// Moves on by the outcome of the last step.
    pub fn advance(&mut self, o: Outcome)
        ensures
            final(self).stage == deploy_after(old(self).stage, o),
            final(self).repo_url == old(self).repo_url,
            final(self).image_name == old(self).image_name,
            final(self).container_name == old(self).container_name,
            final(self).host_port == old(self).host_port,
            final(self).stage == DeployStage::Failed && old(self).stage != DeployStage::Failed
                ==> (o matches Outcome::Failed(m) && final(self).error matches Some(e) && e@
                == m@),
    {
        match self.stage {
            DeployStage::Done | DeployStage::Failed => {},
            _ => {
                if let Outcome::Failed(_) = &o {
                    self.error = Some(failure_text(&o));
                    self.stage = DeployStage::Failed;
                } else {
                    self.stage = match self.stage {
                        DeployStage::Clone => DeployStage::Build,
                        DeployStage::Build => DeployStage::Start,
                        DeployStage::Start => DeployStage::Persist,
                        _ => DeployStage::Done,
                    };
                }
            },
        }
    }
}

/// A blue-green rebuild of one project: pull, build a timestamped image,
/// start it in a temporary container on a fresh port, wait, and only if it
/// runs replace the old container and retag the image as latest.
pub struct RebuildRun {
    pub branch: String,
    pub repo_dir: String,
    pub container_name: String,
    pub image_name: String,
    pub container_port: u16,
    pub build_tag: String,
    pub temp_container: String,
    pub temp_port: u16,
    pub stage: RebuildStage,
    pub error: Option<String>,
}

impl RebuildRun {
    /// A rebuild about to pull, building the image tag for `unix_secs`.
    pub fn new(
        branch: String,
        repo_dir: String,
        container_name: String,
        image_name: String,
        container_port: u16,
        unix_secs: u64,
    ) -> (r: RebuildRun)
        ensures
            r.stage == RebuildStage::Pull,
            r.error is None,
            r.branch == branch,
            r.repo_dir == repo_dir,
            r.container_name == container_name,
            r.image_name == image_name,
            r.container_port == container_port,
            r.build_tag@ == build_tag(image_name@, unix_secs),
            r.temp_container@ == temp_name(container_name@),
    {
        let secs = u64_text(unix_secs);
        let tag = join2(image_name.as_str(), ":build-").concat(secs.as_str());
        let temp = join2(container_name.as_str(), "-new");
        RebuildRun {
            branch,
            repo_dir,
            container_name,
            image_name,
            container_port,
            build_tag: tag,
            temp_container: temp,
            temp_port: 0,
            stage: RebuildStage::Pull,
            error: None,
        }
    }

    /// The step the current stage asks for.
    pub fn step(&self) -> (r: Step)
        ensures
            self.stage == RebuildStage::Pull ==> (r matches Step::Pull { repo_dir, branch }
                && repo_dir@ == self.repo_dir@ && branch@ == self.branch@),
            self.stage == RebuildStage::Build ==> (r matches Step::Build { repo_dir, tag }
                && repo_dir@ == self.repo_dir@ && tag@ == self.build_tag@),
            self.stage == RebuildStage::AllocatePort ==> r is AllocatePort,
            self.stage == RebuildStage::StartTemp ==> (r matches Step::Start {
                name,
                image,
                host_port,
                container_port,
            } && name@ == self.temp_container@ && image@ == self.build_tag@ && host_port
                == self.temp_port && container_port == self.container_port),
            self.stage == RebuildStage::Settle ==> (r matches Step::Settle { secs } && secs == 3),
            self.stage == RebuildStage::CheckTemp ==> (r matches Step::CheckRunning { name }
                && name@ == self.temp_container@),
            self.stage == RebuildStage::DiscardTemp ==> (r matches Step::RemoveContainer { name }
                && name@ == self.temp_container@),
            self.stage == RebuildStage::DiscardImage ==> (r matches Step::RemoveImage { name }
                && name@ == self.build_tag@),
            self.stage == RebuildStage::StopOld ==> (r matches Step::Stop { name } && name@
                == self.container_name@),
            self.stage == RebuildStage::RemoveOld ==> (r matches Step::RemoveContainer { name }
                && name@ == self.container_name@),
            self.stage == RebuildStage::Rename ==> (r matches Step::Rename { from, to } && from@
                == self.temp_container@ && to@ == self.container_name@),
            self.stage == RebuildStage::Tag ==> (r matches Step::Tag { source, repo, tag }
                && source@ == self.build_tag@ && repo@ == self.image_name@ && tag@ == "latest"@),
            self.stage == RebuildStage::DropBuildTag ==> (r matches Step::RemoveImage { name }
                && name@ == self.build_tag@),
            self.stage == RebuildStage::Persist ==> r is Persist,
            self.stage == RebuildStage::Done ==> r matches Step::Finished { error: None },
            self.stage == RebuildStage::Failed ==> r matches Step::Finished { error: Some(_) },
    {
        match self.stage {
            RebuildStage::Pull => Step::Pull {
                repo_dir: self.repo_dir.clone(),
                branch: self.branch.clone(),
            },
            RebuildStage::Build => Step::Build {
                repo_dir: self.repo_dir.clone(),
                tag: self.build_tag.clone(),
            },
            RebuildStage::AllocatePort => Step::AllocatePort,
            RebuildStage::StartTemp => Step::Start {
                name: self.temp_container.clone(),
                image: self.build_tag.clone(),
                host_port: self.temp_port,
                container_port: self.container_port,
            },
            RebuildStage::Settle => Step::Settle { secs: 3 },
            RebuildStage::CheckTemp => Step::CheckRunning { name: self.temp_container.clone() },
            RebuildStage::DiscardTemp => Step::RemoveContainer {
                name: self.temp_container.clone(),
            },
            RebuildStage::DiscardImage => Step::RemoveImage { name: self.build_tag.clone() },
            RebuildStage::StopOld => Step::Stop { name: self.container_name.clone() },
            RebuildStage::RemoveOld => Step::RemoveContainer { name: self.container_name.clone() },
            RebuildStage::Rename => Step::Rename {
                from: self.temp_container.clone(),
                to: self.container_name.clone(),
            },
            RebuildStage::Tag => Step::Tag {
                source: self.build_tag.clone(),
                repo: self.image_name.clone(),
                tag: String::from_str("latest"),
            },
            RebuildStage::DropBuildTag => Step::RemoveImage { name: self.build_tag.clone() },
            RebuildStage::Persist => Step::Persist,
            RebuildStage::Done => Step::Finished { error: None },
            RebuildStage::Failed => Step::Finished {
                error: Some(
                    match &self.error {
                        Some(e) => e.clone(),
                        None => String::from_str("rebuild failed"),
                    },
                ),
            },
        }
    }

    /// Moves on by the outcome of the last step.
    pub fn advance(&mut self, o: Outcome)
        ensures
            final(self).stage == rebuild_after(old(self).stage, o),
            final(self).branch == old(self).branch,
            final(self).repo_dir == old(self).repo_dir,
            final(self).container_name == old(self).container_name,
            final(self).image_name == old(self).image_name,
            final(self).container_port == old(self).container_port,
            final(self).build_tag == old(self).build_tag,
            final(self).temp_container == old(self).temp_container,
            old(self).stage == RebuildStage::AllocatePort ==> (o matches Outcome::Port(p)
                ==> final(self).temp_port == p),
            old(self).stage != RebuildStage::AllocatePort ==> final(self).temp_port == old(
                self,
            ).temp_port,
            old(self).stage == RebuildStage::DiscardImage ==> (final(self).error matches Some(e)
                && e@ == not_started_msg()),
    {
        let next = match self.stage {
            RebuildStage::Pull => if let Outcome::Failed(_) = &o {
                RebuildStage::Failed
            } else {
                RebuildStage::Build
            },
            RebuildStage::Build => if let Outcome::Failed(_) = &o {
                RebuildStage::Failed
            } else {
                RebuildStage::AllocatePort
            },
            RebuildStage::AllocatePort => if let Outcome::Port(p) = &o {
                self.temp_port = *p;
                RebuildStage::StartTemp
            } else {
                RebuildStage::Failed
            },
            RebuildStage::StartTemp => if let Outcome::Failed(_) = &o {
                RebuildStage::Failed
            } else {
                RebuildStage::Settle
            },
            RebuildStage::Settle => RebuildStage::CheckTemp,
            RebuildStage::CheckTemp => match &o {
                Outcome::Running(true) => RebuildStage::StopOld,
                Outcome::Running(false) => RebuildStage::DiscardTemp,
                _ => RebuildStage::Failed,
            },
            RebuildStage::DiscardTemp => RebuildStage::DiscardImage,
            RebuildStage::DiscardImage => {
                self.error = Some(String::from_str("New container failed to start"));
                RebuildStage::Failed
            },
            RebuildStage::StopOld => RebuildStage::RemoveOld,
            RebuildStage::RemoveOld => RebuildStage::Rename,
            RebuildStage::Rename => if let Outcome::Failed(_) = &o {
                RebuildStage::Failed
            } else {
                RebuildStage::Tag
            },
            RebuildStage::Tag => if let Outcome::Failed(_) = &o {
                RebuildStage::Failed
            } else {
                RebuildStage::DropBuildTag
            },
            RebuildStage::DropBuildTag => RebuildStage::Persist,
            RebuildStage::Persist => RebuildStage::Done,
            RebuildStage::Done => RebuildStage::Done,
            RebuildStage::Failed => RebuildStage::Failed,
        };
        if next == RebuildStage::Failed && self.stage != RebuildStage::Failed && self.stage
            != RebuildStage::DiscardImage {
            self.error = Some(failure_text(&o));
        }
        self.stage = next;
    }
}

/// Stages at which the new container takes the old one's place.
pub open spec fn swaps_in(st: RebuildStage) -> bool {
    st == RebuildStage::StopOld || st == RebuildStage::RemoveOld || st == RebuildStage::Rename
        || st == RebuildStage::Tag || st == RebuildStage::DropBuildTag || st
        == RebuildStage::Persist || st == RebuildStage::Done
}

/// When the temporary container is not running after the wait, the rebuild
/// removes the temporary container, then the temporary image, then fails,
/// whatever those removals report; it never stops, renames or retags
/// anything on the way.
pub proof fn lemma_unhealthy_rebuild_discards(o1: Outcome, o2: Outcome, later: Seq<Outcome>)
    ensures
        rebuild_after(RebuildStage::CheckTemp, Outcome::Running(false)) == RebuildStage::DiscardTemp,
        rebuild_after(RebuildStage::DiscardTemp, o1) == RebuildStage::DiscardImage,
        rebuild_after(RebuildStage::DiscardImage, o2) == RebuildStage::Failed,
        stages_from(RebuildStage::Failed, later) == RebuildStage::Failed,
        !swaps_in(RebuildStage::DiscardTemp) && !swaps_in(RebuildStage::DiscardImage) && !swaps_in(
            RebuildStage::Failed,
        ),
    decreases later.len(),
{
    if later.len() > 0 {
        lemma_unhealthy_rebuild_discards(o1, o2, later.drop_first());
    }
}

/// The stage reached from `st` through a run of outcomes.
pub open spec fn stages_from(st: RebuildStage, os: Seq<Outcome>) -> RebuildStage
    decreases os.len(),
{
    if os.len() == 0 {
        st
    } else {
        stages_from(rebuild_after(st, os[0]), os.drop_first())
    }
}

} // verus!
