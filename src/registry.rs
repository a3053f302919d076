//! The daemon's in-memory project records and the decisions of its
//! synchronous operations.
use vstd::prelude::*;
use vstd::string::*;
use crate::error::DockyardError;
use crate::project::{
    container_name_for, image_name_for, same_opt_text, NetworkMode, ProjectConfig, Timestamp,
};
use crate::protocol::{DeployRequest, DeployResponse};
use crate::scheduler::Job;
use crate::text::{decimal, join2, join3, same_text, u16_text};
use crate::utils::{repo_name, repo_name_spec, slugify, slugify_spec};

verus! {

/// Slugs are unique and every record's names are derived from its slug.
pub open spec fn records_wf(s: Seq<ProjectConfig>) -> bool {
    &&& forall|i: int, j: int|
        0 <= i < s.len() && 0 <= j < s.len() && i != j ==> (#[trigger] s[i]).slug@ != (
        #[trigger] s[j]).slug@
    &&& forall|i: int| 0 <= i < s.len() ==> (#[trigger] s[i]).names_derived()
}

/// Some record has this slug.
pub open spec fn has_slug(s: Seq<ProjectConfig>, slug: Seq<char>) -> bool {
    exists|i: int| 0 <= i < s.len() && (#[trigger] s[i]).slug@ == slug
}

/// The record with this slug.
pub open spec fn lookup(s: Seq<ProjectConfig>, slug: Seq<char>) -> Option<ProjectConfig> {
    if has_slug(s, slug) {
        Some(s[choose|i: int| 0 <= i < s.len() && (#[trigger] s[i]).slug@ == slug])
    } else {
        None
    }
}

/// The records without the one with this slug.
pub open spec fn without_slug(s: Seq<ProjectConfig>, slug: Seq<char>) -> Seq<ProjectConfig> {
    s.filter(|r: ProjectConfig| r.slug@ != slug)
}

/// The slugs of the records, in order.
pub open spec fn slugs_of(s: Seq<ProjectConfig>) -> Seq<Seq<char>> {
    s.map_values(|r: ProjectConfig| r.slug@)
}

/// `http://localhost:<port>`
pub open spec fn local_url(port: u16) -> Seq<char> {
    "http://localhost:"@ + decimal(port as nat)
}

/// Where a project can be reached: its hostname over https when it has
/// one, else localhost when it is local only, else nowhere known.
pub open spec fn project_url_spec(rec: ProjectConfig) -> Option<Seq<char>> {
    match rec.domain.hostname {
        Some(h) => Some("https://"@ + h@),
        None => if rec.network_mode == NetworkMode::LocalOnly {
            Some(local_url(rec.domain.host_port))
        } else {
            None
        },
    }
}

/// `http://YOUR_SERVER:<webhook port>/webhook/<slug>`
pub open spec fn webhook_url_spec(webhook_port: u16, slug: Seq<char>) -> Seq<char> {
    "http://YOUR_SERVER:"@ + decimal(webhook_port as nat) + "/webhook/"@ + slug
}

/// What a deploy reports for the record it created.
pub open spec fn deploy_response_ok(r: DeployResponse, rec: ProjectConfig, webhook_port: u16) -> bool {
    &&& r.slug@ == rec.slug@
    &&& r.name@ == rec.name@
    &&& r.url matches Some(u) && u@ == local_url(rec.domain.host_port)
    &&& r.webhook_url@ == webhook_url_spec(webhook_port, rec.slug@)
    &&& r.host_port == rec.domain.host_port
}

/// The slug a deploy of this repository URL gets.
pub open spec fn deploy_slug(repo_url: Seq<char>) -> Seq<char> {
    slugify_spec(repo_name_spec(repo_url))
}

/// Records of all known projects, keyed by slug.
pub struct Registry {
    records: Vec<ProjectConfig>,
}

impl View for Registry {
    type V = Seq<ProjectConfig>;

    closed spec fn view(&self) -> Seq<ProjectConfig> {
        self.records@
    }
}

impl Registry {
    pub open spec fn wf(&self) -> bool {
        records_wf(self@)
    }

    /// No projects.
    pub fn new() -> (r: Registry)
        ensures
            r.wf(),
            r@ == Seq::<ProjectConfig>::empty(),
    {
        Registry { records: Vec::new() }
    }

    /// Number of projects.
    pub fn project_count(&self) -> (r: usize)
        ensures
            r == self@.len(),
    {
        self.records.len()
    }

    /// Index of the record with this slug.
    pub fn position(&self, slug: &str) -> (r: Option<usize>)
        requires
            self.wf(),
        ensures
            r matches Some(i) ==> i < self@.len() && self@[i as int].slug@ == slug@ && lookup(
                self@,
                slug@,
            ) == Some(self@[i as int]),
            r is None ==> !has_slug(self@, slug@) && lookup(self@, slug@) is None,
    {
        let mut i: usize = 0;
        while i < self.records.len()
            invariant
                self.wf(),
                i <= self@.len(),
                forall|k: int| 0 <= k < i ==> (#[trigger] self@[k]).slug@ != slug@,
            decreases self@.len() - i,
        {
            if same_text(self.records[i].slug.as_str(), slug) {
                proof {
                    assert(self@[i as int].slug@ == slug@);
                    assert(has_slug(self@, slug@));
                    let j = choose|j: int| 0 <= j < self@.len() && (#[trigger] self@[j]).slug@ == slug@;
                }
                return Some(i);
            }
            i = i + 1;
        }
        None
    }

    /// Whether a project has this slug.
    pub fn contains(&self, slug: &str) -> (r: bool)
        requires
            self.wf(),
        ensures
            r == has_slug(self@, slug@),
    {
        self.position(slug).is_some()
    }

    /// The record with this slug.
    pub fn get(&self, slug: &str) -> (r: Option<&ProjectConfig>)
        requires
            self.wf(),
        ensures
            r matches Some(c) ==> lookup(self@, slug@) == Some(*c),
            r is None ==> lookup(self@, slug@) is None,
    {
        match self.position(slug) {
            Some(i) => Some(&self.records[i]),
            None => None,
        }
    }

    /// The records, in order.
    pub fn records(&self) -> (r: &Vec<ProjectConfig>)
        ensures
            r@ == self@,
    {
        &self.records
    }

    /// The slugs of all projects, in order.
    pub fn slugs(&self) -> (r: Vec<String>)
        ensures
            r@.map_values(|s: String| s@) == slugs_of(self@),
    {
        let mut out: Vec<String> = Vec::new();
        let mut i: usize = 0;
        while i < self.records.len()
            invariant
                i <= self@.len(),
                out@.map_values(|s: String| s@) == slugs_of(self@).subrange(0, i as int),
            decreases self@.len() - i,
        {
            out.push(self.records[i].slug.clone());
            proof {
                assert(slugs_of(self@).subrange(0, i + 1) == slugs_of(self@).subrange(
                    0,
                    i as int,
                ).push(self@[i as int].slug@));
                assert(out@.map_values(|s: String| s@) == out@.drop_last().map_values(
                    |s: String| s@,
                ).push(self@[i as int].slug@));
            }
            i = i + 1;
        }
        proof {
            assert(slugs_of(self@).subrange(0, self@.len() as int) == slugs_of(self@));
        }
        out
    }

    /// Adds a record. Fails with `ProjectAlreadyExists` when its slug is
    /// taken, and with `Config` when its names are not derived from its
    /// slug; the records are then unchanged.
    pub fn insert(&mut self, rec: ProjectConfig) -> (r: Result<(), DockyardError>)
        requires
            old(self).wf(),
        ensures
            final(self).wf(),
            has_slug(old(self)@, rec.slug@) ==> (r matches Err(
                DockyardError::ProjectAlreadyExists(s),
            ) && s@ == rec.slug@),
            !has_slug(old(self)@, rec.slug@) && !rec.names_derived() ==> r matches Err(
                DockyardError::Config(_),
            ),
            r is Ok <==> !has_slug(old(self)@, rec.slug@) && rec.names_derived(),
            r is Ok ==> final(self)@ == old(self)@.push(rec),
            r is Err ==> final(self)@ == old(self)@,
    {
        if self.contains(rec.slug.as_str()) {
            return Err(DockyardError::ProjectAlreadyExists(rec.slug.clone()));
        }
        if !rec.has_derived_names() {
            return Err(
                DockyardError::Config(
                    join2("container or image name not derived from slug ", rec.slug.as_str()),
                ),
            );
        }
        let ghost before = self@;
        self.records.push(rec);
        proof {
            assert forall|i: int, j: int|
                0 <= i < self@.len() && 0 <= j < self@.len() && i != j implies #[trigger] self@[i].slug@
                != #[trigger] self@[j].slug@ by {
                if i == before.len() {
                    assert(before[j] == self@[j]);
                } else if j == before.len() {
                    assert(before[i] == self@[i]);
                }
            }
        }
        Ok(())
    }

    /// Removes the record with this slug, if any; answers whether one was there.
    pub fn remove(&mut self, slug: &str) -> (r: bool)
        requires
            old(self).wf(),
        ensures
            final(self).wf(),
            r == has_slug(old(self)@, slug@),
            final(self)@ == without_slug(old(self)@, slug@),
    {
        let ghost before = self@;
        match self.position(slug) {
            Some(i) => {
                self.records.remove(i);
                proof {
                    lemma_filter_skips_one(before, slug@, i as int);
                }
                true
            },
            None => {
                proof {
                    lemma_filter_keeps_all(before, slug@);
                }
                false
            },
        }
    }

    /// Sets the update time of the project with this slug, if any.
    pub fn touch(&mut self, slug: &str, now: Timestamp) -> (r: bool)
        requires
            old(self).wf(),
        ensures
            final(self).wf(),
            r == has_slug(old(self)@, slug@),
            final(self)@.len() == old(self)@.len(),
            forall|i: int|
                0 <= i < old(self)@.len() ==> if old(self)@[i].slug@ == slug@ {
                    (#[trigger] final(self)@[i]) == (ProjectConfig {
                        updated_at: now,
                        ..old(self)@[i]
                    })
                } else {
                    final(self)@[i] == old(self)@[i]
                },
    {
        match self.position(slug) {
            Some(i) => {
                let mut rec = self.records.remove(i);
                rec.updated_at = now;
                self.records.insert(i, rec);
                true
            },
            None => false,
        }
    }

    /// The record for a deploy of `req` on `host_port`: its name is the
    /// repository's, its slug the name's slug. Fails with
    /// `ProjectAlreadyExists` when that slug is taken.
    pub fn prepare_deploy(&self, req: &DeployRequest, host_port: u16) -> (r: Result<
        ProjectConfig,
        DockyardError,
    >)
        requires
            self.wf(),
        ensures
            has_slug(self@, deploy_slug(req.repo_url@)) <==> r is Err,
            r matches Err(e) ==> (e matches DockyardError::ProjectAlreadyExists(s) && s@
                == deploy_slug(req.repo_url@)),
            r matches Ok(c) ==> {
                &&& c.name@ == repo_name_spec(req.repo_url@)
                &&& c.slug@ == deploy_slug(req.repo_url@)
                &&& c.repo_url@ == req.repo_url@
                &&& c.branch@ == req.branch@
                &&& c.network_mode == req.network_mode
                &&& same_opt_text(c.domain.hostname, req.hostname)
                &&& c.domain.container_port == req.container_port
                &&& c.domain.host_port == host_port
                &&& c.names_derived()
                &&& c.enabled
            },
    {
        let name = repo_name(req.repo_url.as_str());
        let slug = slugify(name.as_str());
        if self.contains(slug.as_str()) {
            return Err(DockyardError::ProjectAlreadyExists(slug));
        }
        let hostname = crate::project::copy_opt_text(&req.hostname);
        Ok(
            ProjectConfig::new(
                name,
                slug,
                req.repo_url.clone(),
                req.branch.clone(),
                req.network_mode,
                hostname,
                req.container_port,
                host_port,
            ),
        )
    }

    /// The job that rebuilds a project. Fails with `ProjectNotFound` when no
    /// project has this slug.
    pub fn rebuild_job(&self, slug: &str) -> (r: Result<Job, DockyardError>)
        requires
            self.wf(),
        ensures
            r is Ok <==> has_slug(self@, slug@),
            r matches Ok(j) ==> (j matches Job::Rebuild { slug: s, commit_sha: None } && s@ == slug@),
            r matches Err(e) ==> (e matches DockyardError::ProjectNotFound(s) && s@ == slug@),
    {
        if self.contains(slug) {
            Ok(Job::Rebuild { slug: String::from_str(slug), commit_sha: None })
        } else {
            Err(DockyardError::ProjectNotFound(String::from_str(slug)))
        }
    }

    /// The container of a project, for start, stop and logs. Fails with
    /// `ProjectNotFound` when no project has this slug.
    pub fn container_of(&self, slug: &str) -> (r: Result<String, DockyardError>)
        requires
            self.wf(),
        ensures
            r is Ok <==> has_slug(self@, slug@),
            r matches Ok(c) ==> c@ == container_name_for(slug@),
            r matches Err(e) ==> (e matches DockyardError::ProjectNotFound(s) && s@ == slug@),
    {
        match self.get(slug) {
            Some(c) => {
                proof {
                    let i = choose|i: int| 0 <= i < self@.len() && (#[trigger] self@[i]).slug@ == slug@;
                    assert(self@[i].names_derived());
                }
                Ok(c.container.container_name.clone())
            },
            None => Err(DockyardError::ProjectNotFound(String::from_str(slug))),
        }
    }

    /// Container and image that deleting a project removes. Fails with
    /// `ProjectNotFound` when no project has this slug.
    pub fn delete_targets(&self, slug: &str) -> (r: Result<(String, String), DockyardError>)
        requires
            self.wf(),
        ensures
            r is Ok <==> has_slug(self@, slug@),
            r matches Ok((c, i)) ==> c@ == container_name_for(slug@) && i@ == image_name_for(slug@),
            r matches Err(e) ==> (e matches DockyardError::ProjectNotFound(s) && s@ == slug@),
    {
        match self.get(slug) {
            Some(c) => {
                proof {
                    let i = choose|i: int| 0 <= i < self@.len() && (#[trigger] self@[i]).slug@ == slug@;
                    assert(self@[i].names_derived());
                }
                Ok((c.container.container_name.clone(), c.container.image_name.clone()))
            },
            None => Err(DockyardError::ProjectNotFound(String::from_str(slug))),
        }
    }
}

proof fn lemma_filter_keeps_all(s: Seq<ProjectConfig>, slug: Seq<char>)
    requires
        !has_slug(s, slug),
    ensures
        without_slug(s, slug) == s,
    decreases s.len(),
{
    reveal(Seq::filter);
    if s.len() > 0 {
        assert(!has_slug(s.drop_last(), slug)) by {
            if has_slug(s.drop_last(), slug) {
                let i = choose|i: int| 0 <= i < s.drop_last().len() && (#[trigger] s.drop_last()[i]).slug@ == slug;
                assert(s[i].slug@ == slug);
            }
        }
        lemma_filter_keeps_all(s.drop_last(), slug);
        assert(s.drop_last().push(s.last()) == s);
    }
}

proof fn lemma_filter_skips_one(s: Seq<ProjectConfig>, slug: Seq<char>, i: int)
    requires
        records_wf(s),
        0 <= i < s.len(),
        s[i].slug@ == slug,
    ensures
        without_slug(s, slug) == s.remove(i),
        records_wf(s.remove(i)),
    decreases s.len(),
{
    reveal(Seq::filter);
    let t = s.drop_last();
    if i == s.len() - 1 {
        assert(!has_slug(t, slug)) by {
            if has_slug(t, slug) {
                let j = choose|j: int| 0 <= j < t.len() && (#[trigger] t[j]).slug@ == slug;
                assert(s[j].slug@ == s[i].slug@);
            }
        }
        lemma_filter_keeps_all(t, slug);
        assert(s.remove(i) == t);
    } else {
        assert(records_wf(t)) by {
            assert forall|a: int| 0 <= a < t.len() implies (#[trigger] t[a]).names_derived() by {
                assert(t[a] == s[a]);
            }
            assert forall|a: int, b: int|
                0 <= a < t.len() && 0 <= b < t.len() && a != b implies #[trigger] t[a].slug@
                != #[trigger] t[b].slug@ by {
                assert(t[a] == s[a] && t[b] == s[b]);
            }
        }
        lemma_filter_skips_one(t, slug, i);
        assert(s.last().slug@ != slug);
        assert(s.remove(i) == t.remove(i).push(s.last()));
    }
    let u = s.remove(i);
    assert forall|a: int| 0 <= a < u.len() implies (#[trigger] u[a]).names_derived() by {
        if a < i {
            assert(u[a] == s[a]);
        } else {
            assert(u[a] == s[a + 1]);
        }
    }
    assert forall|a: int, b: int|
        0 <= a < u.len() && 0 <= b < u.len() && a != b implies #[trigger] u[a].slug@
        != #[trigger] u[b].slug@ by {
        let a2 = if a < i { a } else { a + 1 };
        let b2 = if b < i { b } else { b + 1 };
        assert(u[a] == s[a2] && u[b] == s[b2]);
    }
}

/// Every stored record's container is named `dockyard-<slug>` and its
/// image `dockyard/<slug>`.
pub proof fn lemma_stored_names(reg: Registry, i: int)
    requires
        reg.wf(),
        0 <= i < reg@.len(),
    ensures
        reg@[i].container.container_name@ == container_name_for(reg@[i].slug@),
        reg@[i].container.image_name@ == image_name_for(reg@[i].slug@),
{
    assert(reg@[i].names_derived());
}

/// After a deploy has inserted its record, looking up the slug it reported
/// finds a record with that slug and the host port it reported.
pub proof fn lemma_deploy_then_detail(
    before: Seq<ProjectConfig>,
    rec: ProjectConfig,
    resp: DeployResponse,
    webhook_port: u16,
)
    requires
        records_wf(before.push(rec)),
        deploy_response_ok(resp, rec, webhook_port),
    ensures
        lookup(before.push(rec), resp.slug@) matches Some(c) && c.slug@ == resp.slug@
            && c.domain.host_port == resp.host_port,
{
    let s = before.push(rec);
    let n = before.len() as int;
    assert(s[n] == rec);
    assert(has_slug(s, resp.slug@));
    let j = choose|j: int| 0 <= j < s.len() && (#[trigger] s[j]).slug@ == resp.slug@;
    if j != n {
        assert(s[j].slug@ != s[n].slug@);
    }
}

/// After a project is removed, the listed slugs do not include it.
pub proof fn lemma_delete_then_list(s: Seq<ProjectConfig>, slug: Seq<char>)
    ensures
        !slugs_of(without_slug(s, slug)).contains(slug),
{
    let t = without_slug(s, slug);
    if slugs_of(t).contains(slug) {
        let k = choose|k: int| 0 <= k < slugs_of(t).len() && slugs_of(t)[k] == slug;
        assert(t.contains(t[k]));
        broadcast use vstd::seq_lib::group_filter_ensures;
    }
}

/// Where a project can be reached.
pub fn project_url(rec: &ProjectConfig) -> (r: Option<String>)
    ensures
        match (r, project_url_spec(*rec)) {
            (Some(a), Some(b)) => a@ == b,
            (None, None) => true,
            _ => false,
        },
{
    match &rec.domain.hostname {
        Some(h) => Some(join2("https://", h.as_str())),
        None => {
            if rec.network_mode == NetworkMode::LocalOnly {
                let p = u16_text(rec.domain.host_port);
                Some(join2("http://localhost:", p.as_str()))
            } else {
                None
            }
        },
    }
}

/// The response of a deploy that created `rec`, with the webhook address
/// built from the configured webhook port.
pub fn deploy_response(rec: &ProjectConfig, webhook_port: u16) -> (r: DeployResponse)
    ensures
        deploy_response_ok(r, *rec, webhook_port),
{
    let p = u16_text(rec.domain.host_port);
    let w = u16_text(webhook_port);
    let hook = join3("http://YOUR_SERVER:", w.as_str(), "/webhook/").concat(rec.slug.as_str());
    DeployResponse {
        slug: rec.slug.clone(),
        name: rec.name.clone(),
        url: Some(join2("http://localhost:", p.as_str())),
        webhook_url: hook,
        host_port: rec.domain.host_port,
    }
}

} // verus!
