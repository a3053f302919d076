//! Jobs of the build scheduler and its per-project exclusion.
use vstd::prelude::*;
use vstd::string::*;
use crate::text::same_text;

verus! {

/// Work handed to the scheduler.
#[derive(Debug, Clone)]
pub enum Job {
    Deploy { slug: String },
    Rebuild { slug: String, commit_sha: Option<String> },
    Stop { slug: String },
    Delete { slug: String },
}

impl Job {
    /// The project the job is about.
    pub open spec fn slug_spec(&self) -> Seq<char> {
        match self {
            Job::Deploy { slug } => slug@,
            Job::Rebuild { slug, .. } => slug@,
            Job::Stop { slug } => slug@,
            Job::Delete { slug } => slug@,
        }
    }

    /// Deploy and Rebuild build images and hold the project's exclusion.
    pub open spec fn is_build_spec(&self) -> bool {
        self is Deploy || self is Rebuild
    }

    /// The project the job is about.
    pub fn slug(&self) -> (r: &str)
        ensures
            r@ == self.slug_spec(),
    {
        match self {
            Job::Deploy { slug } => slug.as_str(),
            Job::Rebuild { slug, .. } => slug.as_str(),
            Job::Stop { slug } => slug.as_str(),
            Job::Delete { slug } => slug.as_str(),
        }
    }

    /// Whether the job must hold the project's build exclusion.
    pub fn is_build(&self) -> (r: bool)
        ensures
            r == self.is_build_spec(),
    {
        match self {
            Job::Deploy { .. } | Job::Rebuild { .. } => true,
            _ => false,
        }
    }
}

/// Slugs of the projects whose Deploy or Rebuild is running; each at most once.
pub struct BuildSet {
    held: Vec<String>,
}

impl View for BuildSet {
    type V = Seq<Seq<char>>;

    closed spec fn view(&self) -> Seq<Seq<char>> {
        self.held@.map_values(|s: String| s@)
    }
}

impl BuildSet {
    pub open spec fn wf(&self) -> bool {
        self@.no_duplicates()
    }

    /// No build running.
    pub fn new() -> (r: BuildSet)
        ensures
            r.wf(),
            r@ == Seq::<Seq<char>>::empty(),
    {
        let r = BuildSet { held: Vec::new() };
        proof {
            assert(r@ =~= Seq::<Seq<char>>::empty());
        }
        r
    }

    fn index_of(&self, slug: &str) -> (r: Option<usize>)
        ensures
            r matches Some(i) ==> i < self@.len() && self@[i as int] == slug@,
            r is None ==> !self@.contains(slug@),
    {
        let mut i: usize = 0;
        while i < self.held.len()
            invariant
                i <= self@.len(),
                self@.len() == self.held@.len(),
                forall|k: int| 0 <= k < i ==> self@[k] != slug@,
            decreases self@.len() - i,
        {
            if same_text(self.held[i].as_str(), slug) {
                return Some(i);
            }
            i = i + 1;
        }
        None
    }

    /// Whether a build of this project is running.
    pub fn contains(&self, slug: &str) -> (r: bool)
        ensures
            r == self@.contains(slug@),
    {
        self.index_of(slug).is_some()
    }

    /// Checks and marks in one step: succeeds, and marks the project, only
    /// when no build of it is running.
    pub fn try_acquire(&mut self, slug: &str) -> (r: bool)
        requires
            old(self).wf(),
        ensures
            final(self).wf(),
            r == !old(self)@.contains(slug@),
            final(self)@ == if r {
                old(self)@.push(slug@)
            } else {
                old(self)@
            },
    {
        if self.contains(slug) {
            return false;
        }
        let ghost before = self@;
        self.held.push(String::from_str(slug));
        proof {
            assert(self@ =~= before.push(slug@));
            assert forall|a: int, b: int|
                0 <= a < self@.len() && 0 <= b < self@.len() && a != b implies self@[a]
                != self@[b] by {
                if a == before.len() as int {
                    assert(self@[b] == before[b]);
                    assert(before.contains(before[b]));
                } else if b == before.len() as int {
                    assert(self@[a] == before[a]);
                    assert(before.contains(before[a]));
                } else {
                    assert(self@[a] == before[a] && self@[b] == before[b]);
                }
            }
        }
        true
    }

    /// Clears the project's mark.
    pub fn release(&mut self, slug: &str)
        requires
            old(self).wf(),
        ensures
            final(self).wf(),
            !final(self)@.contains(slug@),
            forall|t: Seq<char>| t != slug@ ==> (final(self)@.contains(t) <==> old(self)@.contains(t)),
    {
        match self.index_of(slug) {
            Some(i) => {
                let ghost before = self@;
                self.held.remove(i);
                proof {
                    assert(self@ =~= before.remove(i as int));
                    assert forall|a: int, b: int|
                        0 <= a < self@.len() && 0 <= b < self@.len() && a != b implies self@[a]
                        != self@[b] by {
                        let a2 = if a < i { a } else { a + 1 };
                        let b2 = if b < i { b } else { b + 1 };
                        assert(self@[a] == before[a2] && self@[b] == before[b2]);
                    }
                    assert forall|t: Seq<char>| t != slug@ implies (self@.contains(t)
                        <==> before.contains(t)) by {
                        if before.contains(t) {
                            let k = choose|k: int| 0 <= k < before.len() && before[k] == t;
                            if k < i {
                                assert(self@[k] == t);
                            } else {
                                assert(k != i);
                                assert(self@[k - 1] == t);
                            }
                        }
                    }
                    if self@.contains(slug@) {
                        let k = choose|k: int| 0 <= k < self@.len() && self@[k] == slug@;
                        let k2 = if k < i { k } else { k + 1 };
                        assert(before[k2] == slug@ && k2 != i);
                    }
                }
            },
            None => {},
        }
    }

    /// Whether a picked-up job may run now: Deploy and Rebuild only when no
    /// build of the project is running, and they then mark it; Stop and
    /// Delete always.
    pub fn begin(&mut self, job: &Job) -> (r: bool)
        requires
            old(self).wf(),
        ensures
            final(self).wf(),
            job.is_build_spec() ==> r == !old(self)@.contains(job.slug_spec()) && final(self)@ == if r {
                old(self)@.push(job.slug_spec())
            } else {
                old(self)@
            },
            !job.is_build_spec() ==> r && final(self)@ == old(self)@,
    {
        if job.is_build() {
            self.try_acquire(job.slug())
        } else {
            true
        }
    }

    /// Clears the mark a job set when it began, whether it succeeded or not.
    pub fn finish(&mut self, job: &Job)
        requires
            old(self).wf(),
        ensures
            final(self).wf(),
            job.is_build_spec() ==> !final(self)@.contains(job.slug_spec()),
            !job.is_build_spec() ==> final(self)@ == old(self)@,
    {
        if job.is_build() {
            self.release(job.slug());
        }
    }
}

/// No project is ever marked twice; and while a build of a project holds
/// its mark, a second Deploy or Rebuild of it is refused, so at most one
/// build per project runs at any moment.
pub proof fn lemma_one_build_per_slug(held: Seq<Seq<char>>, slug: Seq<char>)
    requires
        held.no_duplicates(),
    ensures
        held.filter(|t: Seq<char>| t == slug).len() <= 1,
        !held.contains(slug) ==> held.push(slug).no_duplicates() && held.push(slug).contains(
            slug,
        ),
{
    lemma_count_at_most_one(held, slug);
    if !held.contains(slug) {
        let h = held.push(slug);
        assert(h[held.len() as int] == slug);
        assert forall|a: int, b: int| 0 <= a < h.len() && 0 <= b < h.len() && a != b implies h[a]
            != h[b] by {
            if a == held.len() as int {
                assert(h[b] == held[b]);
            } else if b == held.len() as int {
                assert(h[a] == held[a]);
            }
        }
    }
}

proof fn lemma_count_at_most_one(held: Seq<Seq<char>>, slug: Seq<char>)
    requires
        held.no_duplicates(),
    ensures
        held.filter(|t: Seq<char>| t == slug).len() <= 1,
        !held.contains(slug) ==> held.filter(|t: Seq<char>| t == slug).len() == 0,
    decreases held.len(),
{
    reveal(Seq::filter);
    if held.len() > 0 {
        let d = held.drop_last();
        assert(d.no_duplicates()) by {
            assert forall|a: int, b: int| 0 <= a < d.len() && 0 <= b < d.len() && a != b implies d[a]
                != d[b] by {
                assert(d[a] == held[a] && d[b] == held[b]);
            }
        }
        lemma_count_at_most_one(d, slug);
        if held.last() == slug {
            assert(!d.contains(slug)) by {
                if d.contains(slug) {
                    let k = choose|k: int| 0 <= k < d.len() && d[k] == slug;
                    assert(held[k] == held[held.len() - 1]);
                }
            }
        } else {
            if !held.contains(slug) {
                assert(!d.contains(slug)) by {
                    if d.contains(slug) {
                        let k = choose|k: int| 0 <= k < d.len() && d[k] == slug;
                        assert(held[k] == slug);
                    }
                }
            }
        }
        assert(held == d.push(held.last()));
    }
}

} // verus!
