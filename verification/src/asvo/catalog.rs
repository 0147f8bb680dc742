//! The job catalog: one snapshot of the listing, and lookups in it.
//!
//! A snapshot is never changed and never kept: whoever needs the state of a
//! job asks the service again. Within a snapshot the identifiers of jobs
//! are expected to differ; an obsid may have no job, one, or several.

use super::error::{AsvoError, Failure};
use super::types::{
    jobs_of, AsvoJob, AsvoJobID, AsvoJobMap, AsvoJobState, AsvoJobType, AsvoJobVec, Job, JobState,
};
use crate::obsid::Obsid;
use std::collections::BTreeMap;
use vstd::prelude::*;
use vstd::std_specs::btree::*;

verus! {

broadcast use {vstd::std_specs::btree::group_btree_axioms, vstd::laws_cmp::group_laws_cmp};

/// The map from identifiers to jobs that a listing gives: of several jobs
/// with one identifier the last one counts.
pub open spec fn job_map(jobs: Seq<Job>) -> Map<AsvoJobID, Job>
    decreases jobs.len(),
{
    if jobs.len() == 0 {
        Map::<AsvoJobID, Job>::empty()
    } else {
        job_map(jobs.drop_last()).insert(jobs.last().jobid, jobs.last())
    }
}

/// The map of a listing holds exactly the identifiers of the listing, each
/// with a job of that identifier.
pub proof fn lemma_job_map_holds_listing(jobs: Seq<Job>, jobid: AsvoJobID)
    ensures
        job_map(jobs).contains_key(jobid) <==> exists|i: int|
            0 <= i < jobs.len() && (#[trigger] jobs[i]).jobid == jobid,
        job_map(jobs).contains_key(jobid) ==> job_map(jobs)[jobid].jobid == jobid,
    decreases jobs.len(),
{
    if jobs.len() > 0 {
        let before = jobs.drop_last();
        lemma_job_map_holds_listing(before, jobid);
        if job_map(jobs).contains_key(jobid) {
            if jobs.last().jobid == jobid {
                assert(jobs[jobs.len() - 1].jobid == jobid);
            } else {
                let i = choose|i: int| 0 <= i < before.len() && (#[trigger] before[i]).jobid == jobid;
                assert(jobs[i] == before[i]);
            }
        }
        if exists|i: int| 0 <= i < jobs.len() && (#[trigger] jobs[i]).jobid == jobid {
            let i = choose|i: int| 0 <= i < jobs.len() && (#[trigger] jobs[i]).jobid == jobid;
            if i < before.len() {
                assert(before[i] == jobs[i]);
            }
        }
    }
}

impl View for AsvoJobMap {
    type V = Map<AsvoJobID, Job>;

    open spec fn view(&self) -> Map<AsvoJobID, Job> {
        Map::new(|id: AsvoJobID| self.0@.contains_key(id), |id: AsvoJobID| self.0@[id]@)
    }
}

impl AsvoJobMap {
    /// The job with this identifier, if the snapshot has one.
    pub fn get(&self, jobid: AsvoJobID) -> (r: Option<&AsvoJob>)
        ensures
            match r {
                Some(job) => self@.contains_key(jobid) && self@[jobid] == job@,
                None => !self@.contains_key(jobid),
            },
    {
        self.0.get(&jobid)
    }
}

impl AsvoJobVec {
    /// Convert the vector to a map.
    ///
    /// If the situation should arise that your job listing has an ASVO job
    /// ID more than once, only the last of them will be visible in the
    /// output of this method!
    pub fn into_map(self) -> (map: AsvoJobMap)
        ensures
            map@ == job_map(self@),
    {
        let mut tree: BTreeMap<AsvoJobID, AsvoJob> = BTreeMap::new();
        let mut i: usize = 0;
        let ghost all = self@;
        proof {
            assert(all.take(0) =~= Seq::<Job>::empty());
            assert(AsvoJobMap(tree)@ =~= job_map(all.take(0)));
        }
        while i < self.0.len()
            invariant
                i <= self.0.len(),
                all == self@,
                AsvoJobMap(tree)@ == job_map(all.take(i as int)),
            decreases self.0.len() - i,
        {
            let job = self.0[i].clone();
            let ghost before = AsvoJobMap(tree)@;
            proof {
                assert(all.take(i + 1).drop_last() == all.take(i as int));
                assert(all.take(i + 1).last() == job@);
            }
            tree.insert(job.jobid, job);
            proof {
                assert(AsvoJobMap(tree)@ =~= before.insert(job.jobid, job@));
            }
            i += 1;
        }
        proof {
            assert(all.take(self.0.len() as int) == all);
        }
        AsvoJobMap(tree)
    }

    /// The number of jobs in the snapshot.
    pub fn len(&self) -> (n: usize)
        ensures
            n == self@.len(),
    {
        self.0.len()
    }
}

impl From<AsvoJobVec> for AsvoJobMap {
    /// As [`AsvoJobVec::into_map`].
    fn from(job_vec: AsvoJobVec) -> (map: AsvoJobMap)
        ensures
            map@ == job_map(job_vec@),
    {
        job_vec.into_map()
    }
}

impl vstd::std_specs::convert::FromSpecImpl<AsvoJobVec> for AsvoJobMap {
    /// Two maps with the same jobs need not be the same value, so the
    /// conversion is described by the view of its result and not here.
    open spec fn obeys_from_spec() -> bool {
        false
    }

    open spec fn from_spec(v: AsvoJobVec) -> AsvoJobMap {
        arbitrary()
    }
}

/// The jobs of `jobs` that `keep` marks, in order.
pub open spec fn marked(jobs: Seq<Job>, keep: Seq<bool>) -> Seq<Job>
    recommends
        jobs.len() == keep.len(),
    decreases jobs.len(),
{
    if jobs.len() == 0 || keep.len() == 0 {
        Seq::<Job>::empty()
    } else if keep.last() {
        marked(jobs.drop_last(), keep.drop_last()).push(jobs.last())
    } else {
        marked(jobs.drop_last(), keep.drop_last())
    }
}

impl AsvoJobVec {
    /// Filter out any jobs for which `predicate` does not answer `true`.
    /// The jobs that stay keep their order. The predicate is asked once for
    /// each job: `keep` below is what it answered.
    pub fn retain<F: Fn(&AsvoJob) -> bool>(self, predicate: F) -> (kept: AsvoJobVec)
        requires
            forall|job: &AsvoJob| #[trigger] predicate.requires((job,)),
        ensures
            exists|keep: Seq<bool>|
                {
                    &&& keep.len() == self.0.len()
                    &&& forall|i: int|
                        0 <= i < keep.len() ==> predicate.ensures((&self.0@[i],), #[trigger] keep[i])
                    &&& kept@ == marked(self@, keep)
                },
    {
        let mut out: Vec<AsvoJob> = Vec::new();
        let mut i: usize = 0;
        let ghost all = self@;
        let ghost mut keep: Seq<bool> = Seq::<bool>::empty();
        proof {
            assert(all.take(0) =~= Seq::<Job>::empty());
            assert(jobs_of(out@) =~= Seq::<Job>::empty());
        }
        while i < self.0.len()
            invariant
                i <= self.0.len(),
                all == self@,
                keep.len() == i,
                forall|j: int| 0 <= j < i ==> predicate.ensures((&self.0@[j],), #[trigger] keep[j]),
                forall|job: &AsvoJob| #[trigger] predicate.requires((job,)),
                jobs_of(out@) == marked(all.take(i as int), keep),
            decreases self.0.len() - i,
        {
            let stays = predicate(&self.0[i]);
            proof {
                assert(all.take(i + 1).drop_last() == all.take(i as int));
                assert(all.take(i + 1).last() == self.0@[i as int]@);
                assert(keep.push(stays).drop_last() == keep);
            }
            if stays {
                let job = self.0[i].clone();
                proof {
                    assert(jobs_of(out@.push(job)) =~= jobs_of(out@).push(job@));
                }
                out.push(job);
            }
            proof {
                keep = keep.push(stays);
            }
            i += 1;
        }
        proof {
            assert(all.take(self.0.len() as int) == all);
        }
        AsvoJobVec(out)
    }
}

/// By what the jobs of a snapshot are chosen.
pub enum JobFilter {
    /// Jobs with one of these identifiers.
    JobIds(Vec<AsvoJobID>),
    /// Jobs made for one of these obsids.
    Obsids(Vec<Obsid>),
    /// Jobs of one of these types.
    Types(Vec<AsvoJobType>),
    /// Jobs in one of these states; the message of an error does not
    /// matter.
    States(Vec<AsvoJobState>),
}

/// The mathematical form of a [`JobFilter`].
pub enum Filter {
    JobIds(Seq<AsvoJobID>),
    Obsids(Seq<u64>),
    Types(Seq<AsvoJobType>),
    States(Seq<JobState>),
}

/// The mathematical form of a list of states.
pub open spec fn state_views(states: Seq<AsvoJobState>) -> Seq<JobState> {
    Seq::new(states.len(), |i: int| states[i]@)
}

impl View for JobFilter {
    type V = Filter;

    open spec fn view(&self) -> Filter {
        match self {
            JobFilter::JobIds(ids) => Filter::JobIds(ids@),
            JobFilter::Obsids(obsids) => Filter::Obsids(crate::obsid::obsid_numbers(obsids@)),
            JobFilter::Types(types) => Filter::Types(types@),
            JobFilter::States(states) => Filter::States(state_views(states@)),
        }
    }
}

/// Whether one of `states` has the name of `state`.
pub open spec fn any_same_kind(states: Seq<JobState>, state: JobState) -> bool {
    exists|i: int| 0 <= i < states.len() && (#[trigger] states[i]).same_kind(state)
}

impl Filter {
    /// Whether the filter lets a job through.
    pub open spec fn accepts(self, job: Job) -> bool {
        match self {
            Filter::JobIds(ids) => ids.contains(job.jobid),
            Filter::Obsids(obsids) => obsids.contains(job.obsid),
            Filter::Types(types) => types.contains(job.jtype),
            Filter::States(states) => any_same_kind(states, job.state),
        }
    }
}

/// The jobs that a filter lets through, in order.
pub open spec fn accepted(jobs: Seq<Job>, filter: Filter) -> Seq<Job>
    decreases jobs.len(),
{
    if jobs.len() == 0 {
        jobs
    } else if filter.accepts(jobs.last()) {
        accepted(jobs.drop_last(), filter).push(jobs.last())
    } else {
        accepted(jobs.drop_last(), filter)
    }
}

impl JobFilter {
    /// Whether the filter lets a job through.
    pub fn accepts(&self, job: &AsvoJob) -> (yes: bool)
        ensures
            yes == self@.accepts(job@),
    {
        match self {
            JobFilter::JobIds(ids) => {
                let mut i: usize = 0;
                while i < ids.len()
                    invariant
                        i <= ids.len(),
                        self@ == Filter::JobIds(ids@),
                        forall|k: int| 0 <= k < i ==> ids@[k] != job.jobid,
                    decreases ids.len() - i,
                {
                    if ids[i] == job.jobid {
                        assert(ids@[i as int] == job.jobid);
                        return true;
                    }
                    i += 1;
                }
                false
            },
            JobFilter::Obsids(obsids) => {
                let ghost numbers = crate::obsid::obsid_numbers(obsids@);
                let mut i: usize = 0;
                while i < obsids.len()
                    invariant
                        i <= obsids.len(),
                        numbers == crate::obsid::obsid_numbers(obsids@),
                        self@ == Filter::Obsids(numbers),
                        forall|k: int| 0 <= k < i ==> numbers[k] != job.obsid@,
                    decreases obsids.len() - i,
                {
                    if obsids[i].value() == job.obsid.value() {
                        assert(numbers[i as int] == job.obsid@);
                        return true;
                    }
                    i += 1;
                }
                false
            },
            JobFilter::Types(types) => {
                let mut i: usize = 0;
                while i < types.len()
                    invariant
                        i <= types.len(),
                        self@ == Filter::Types(types@),
                        forall|k: int| 0 <= k < i ==> types@[k] != job.jtype,
                    decreases types.len() - i,
                {
                    if types[i] == job.jtype {
                        assert(types@[i as int] == job.jtype);
                        return true;
                    }
                    i += 1;
                }
                false
            },
            JobFilter::States(states) => {
                let ghost views = state_views(states@);
                let mut i: usize = 0;
                while i < states.len()
                    invariant
                        i <= states.len(),
                        views == state_views(states@),
                        self@ == Filter::States(views),
                        forall|k: int| 0 <= k < i ==> !(#[trigger] views[k]).same_kind(job.state@),
                    decreases states.len() - i,
                {
                    if states[i].same_kind(&job.state) {
                        assert(views[i as int].same_kind(job.state@));
                        assert(any_same_kind(views, job@.state));
                        return true;
                    }
                    i += 1;
                }
                false
            },
        }
    }
}

/// The jobs of a snapshot that a filter lets through, in the order of the
/// snapshot.
pub fn select(jobs: &AsvoJobVec, filter: &JobFilter) -> (chosen: AsvoJobVec)
    ensures
        chosen@ == accepted(jobs@, filter@),
{
    let mut out: Vec<AsvoJob> = Vec::new();
    let mut i: usize = 0;
    let ghost all = jobs@;
    proof {
        assert(all.take(0) =~= Seq::<Job>::empty());
        assert(jobs_of(out@) =~= Seq::<Job>::empty());
    }
    while i < jobs.0.len()
        invariant
            i <= jobs.0.len(),
            all == jobs@,
            jobs_of(out@) == accepted(all.take(i as int), filter@),
        decreases jobs.0.len() - i,
    {
        proof {
            assert(all.take(i + 1).drop_last() == all.take(i as int));
            assert(all.take(i + 1).last() == jobs.0@[i as int]@);
        }
        if filter.accepts(&jobs.0[i]) {
            let job = jobs.0[i].clone();
            proof {
                assert(jobs_of(out@.push(job)) =~= jobs_of(out@).push(job@));
            }
            out.push(job);
        }
        i += 1;
    }
    proof {
        assert(all.take(jobs.0.len() as int) == all);
    }
    AsvoJobVec(out)
}

/// The job with the identifier `jobid`: the first of the snapshot that has
/// it.
pub open spec fn job_with_id(jobs: Seq<Job>, jobid: AsvoJobID) -> Result<Job, Failure> {
    let found = accepted(jobs, Filter::JobIds(seq![jobid]));
    if found.len() == 0 {
        Err(Failure::NoAsvoJob(jobid))
    } else {
        Ok(found[0])
    }
}

/// The job made for `obsid`: there must be exactly one, whatever the state
/// of the others.
pub open spec fn job_for_obsid(jobs: Seq<Job>, obsid: u64) -> Result<Job, Failure> {
    let found = accepted(jobs, Filter::Obsids(seq![obsid]));
    if found.len() == 0 {
        Err(Failure::NoObsid(obsid))
    } else if found.len() == 1 {
        Ok(found[0])
    } else {
        Err(Failure::TooManyObsids(obsid))
    }
}

/// The mathematical form of the result of a lookup.
pub open spec fn lookup_result(r: Result<AsvoJob, AsvoError>) -> Result<Job, Failure> {
    match r {
        Ok(job) => Ok(job@),
        Err(e) => Err(e@),
    }
}

/// Looks a job up by its identifier.
pub fn find_job(jobs: &AsvoJobVec, jobid: AsvoJobID) -> (r: Result<AsvoJob, AsvoError>)
    ensures
        lookup_result(r) == job_with_id(jobs@, jobid),
{
    let mut ids: Vec<AsvoJobID> = Vec::new();
    ids.push(jobid);
    assert(ids@ =~= seq![jobid]);
    let found = select(jobs, &JobFilter::JobIds(ids));
    if found.0.len() == 0 {
        Err(AsvoError::NoAsvoJob(jobid))
    } else {
        Ok(found.0[0].clone())
    }
}

/// Looks up the one job that was made for an obsid. No job at all is "not
/// found"; more than one is an ambiguity, and an error, even where only
/// one of them is ready.
pub fn find_job_for_obsid(jobs: &AsvoJobVec, obsid: Obsid) -> (r: Result<AsvoJob, AsvoError>)
    ensures
        lookup_result(r) == job_for_obsid(jobs@, obsid@),
{
    let mut obsids: Vec<Obsid> = Vec::new();
    obsids.push(obsid);
    assert(crate::obsid::obsid_numbers(obsids@) =~= seq![obsid@]);
    let found = select(jobs, &JobFilter::Obsids(obsids));
    if found.0.len() == 0 {
        Err(AsvoError::NoObsid(obsid))
    } else if found.0.len() == 1 {
        Ok(found.0[0].clone())
    } else {
        Err(AsvoError::TooManyObsids(obsid))
    }
}

/// In a snapshot whose identifiers differ, the job found under an
/// identifier is the only one that has it.
pub proof fn lemma_unique_id(jobs: Seq<Job>, jobid: AsvoJobID)
    requires
        forall|i: int, j: int|
            0 <= i < j < jobs.len() ==> (#[trigger] jobs[i]).jobid != (#[trigger] jobs[j]).jobid,
    ensures
        accepted(jobs, Filter::JobIds(seq![jobid])).len() <= 1,
    decreases jobs.len(),
{
    let filter = Filter::JobIds(seq![jobid]);
    if jobs.len() > 0 {
        let before = jobs.drop_last();
        assert forall|i: int, j: int| 0 <= i < j < before.len() implies (#[trigger] before[i]).jobid
            != (#[trigger] before[j]).jobid by {
            assert(before[i] == jobs[i]);
            assert(before[j] == jobs[j]);
        }
        lemma_unique_id(before, jobid);
        if filter.accepts(jobs.last()) {
            assert(seq![jobid][0] == jobid);
            lemma_none_accepted(before, jobid, jobs.len() - 1, jobs);
        }
    }
}

proof fn lemma_none_accepted(before: Seq<Job>, jobid: AsvoJobID, last: int, jobs: Seq<Job>)
    requires
        0 <= before.len() <= last < jobs.len(),
        jobs[last].jobid == jobid,
        forall|i: int| 0 <= i < before.len() ==> before[i] == jobs[i],
        forall|i: int, j: int|
            0 <= i < j < jobs.len() ==> (#[trigger] jobs[i]).jobid != (#[trigger] jobs[j]).jobid,
    ensures
        accepted(before, Filter::JobIds(seq![jobid])).len() == 0,
    decreases before.len(),
{
    if before.len() > 0 {
        lemma_none_accepted(before.drop_last(), jobid, last, jobs);
        let k = before.len() - 1;
        assert(before.last() == jobs[k]);
        assert(jobs[k].jobid != jobs[last].jobid);
        assert forall|i: int| 0 <= i < seq![jobid].len() implies seq![jobid][i]
            != before.last().jobid by {}
    }
}

} // verus!
