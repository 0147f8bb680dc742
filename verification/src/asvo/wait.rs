//! Waiting for jobs: what one look at the job listing tells a caller who
//! waits for a set of jobs to become ready.
//!
//! The caller fetches the listing, hands the snapshot to [`poll`], reports
//! the changes it names, and then does what the cycle says: stop, sleep and
//! look again, or fail. Waiting is for all jobs of the set: the first job,
//! in the order asked, that is unknown or has ended without success fails
//! the wait, however many others are ready.

use super::error::{AsvoError, Failure};
use super::types::{AsvoJob, AsvoJobID, AsvoJobMap, AsvoJobState, Job, JobState};
use crate::obsid::Obsid;
use crate::text::{decimal_digits, push_decimal, push_str};
use std::collections::BTreeMap;
use vstd::prelude::*;
use vstd::std_specs::btree::*;

verus! {

broadcast use {vstd::std_specs::btree::group_btree_axioms, vstd::laws_cmp::group_laws_cmp};

/// How long to wait before the first look, in seconds, so that the service
/// has taken note of what was just submitted.
pub const GRACE_SECONDS: u64 = 1;

/// How long to wait between two looks, in seconds.
pub const POLL_SECONDS: u64 = 60;

/// The state in which each job was last seen.
pub struct SeenStates {
    states: BTreeMap<AsvoJobID, AsvoJobState>,
}

impl View for SeenStates {
    type V = Map<AsvoJobID, JobState>;

    closed spec fn view(&self) -> Map<AsvoJobID, JobState> {
        Map::new(
            |id: AsvoJobID| self.states@.contains_key(id),
            |id: AsvoJobID| self.states@[id]@,
        )
    }
}

impl SeenStates {
    /// Nothing has been seen yet.
    pub fn new() -> (seen: SeenStates)
        ensures
            seen@ == Map::<AsvoJobID, JobState>::empty(),
    {
        let seen = SeenStates { states: BTreeMap::new() };
        assert(seen@ =~= Map::<AsvoJobID, JobState>::empty());
        seen
    }

    /// Notes the state of a job and tells whether it is news: the job was
    /// not seen before, or was last seen in another state.
    pub fn record(&mut self, jobid: AsvoJobID, state: AsvoJobState) -> (news: bool)
        ensures
            final(self)@ == old(self)@.insert(jobid, state@),
            news == !(old(self)@.contains_key(jobid) && old(self)@[jobid] == state@),
    {
        let news = match self.states.get(&jobid) {
            Some(before) => !before.same(&state),
            None => true,
        };
        let ghost old_view = self@;
        self.states.insert(jobid, state);
        assert(self@ =~= old_view.insert(jobid, state@));
        news
    }
}

/// A job that was seen in a state in which it was not seen before.
#[derive(Debug)]
pub struct StateChange {
    pub jobid: AsvoJobID,
    pub obsid: Obsid,
    pub state: AsvoJobState,
}

/// The mathematical form of a [`StateChange`].
pub struct Change {
    pub jobid: AsvoJobID,
    pub obsid: u64,
    pub state: JobState,
}

impl View for StateChange {
    type V = Change;

    open spec fn view(&self) -> Change {
        Change { jobid: self.jobid, obsid: self.obsid@, state: self.state@ }
    }
}

impl Change {
    /// The line that reports the change:
    /// `Job ID <job> (obsid: <obsid>): is <state>`.
    pub open spec fn line(self) -> Seq<char> {
        "Job ID "@ + decimal_digits(self.jobid as nat) + " (obsid: "@ + decimal_digits(
            self.obsid as nat,
        ) + "): is "@ + self.state.name_text()
    }
}

impl StateChange {
    /// The line that reports the change.
    pub fn describe(&self) -> (line: String)
        ensures
            line@ == self@.line(),
    {
        let mut s = String::new();
        push_str(&mut s, "Job ID ");
        push_decimal(&mut s, self.jobid as u64);
        push_str(&mut s, " (obsid: ");
        push_decimal(&mut s, self.obsid.value());
        push_str(&mut s, "): is ");
        let name = self.state.name();
        push_str(&mut s, name.as_str());
        proof {
            assert(s@ =~= self@.line());
        }
        s
    }
}

/// The mathematical form of a list of changes.
pub open spec fn changes_of(list: Seq<StateChange>) -> Seq<Change> {
    Seq::new(list.len(), |i: int| list[i]@)
}

/// What follows one look at the listing.
#[derive(Debug)]
pub enum WaitStep {
    /// Every job is ready.
    Done,
    /// Some job is not ready yet: sleep this many seconds and look again.
    Sleep(u64),
    /// The wait has failed.
    Fail(AsvoError),
}

/// The mathematical form of a [`WaitStep`].
pub enum Step {
    Done,
    Sleep(u64),
    Fail(Failure),
}

impl View for WaitStep {
    type V = Step;

    open spec fn view(&self) -> Step {
        match self {
            WaitStep::Done => Step::Done,
            WaitStep::Sleep(seconds) => Step::Sleep(*seconds),
            WaitStep::Fail(error) => Step::Fail(error@),
        }
    }
}

/// One look at the listing: the changes to report and what to do next.
#[derive(Debug)]
pub struct Cycle {
    pub changes: Vec<StateChange>,
    pub next: WaitStep,
}

/// How a job of the set stands in a snapshot.
pub enum Standing {
    /// It is ready.
    Ready,
    /// It is in some other state that may still lead to ready. Every state
    /// that is not known to be an end counts as this.
    Pending,
    /// It is not in the snapshot, or has ended without success.
    Failed(Failure),
}

/// How the job `jobid` stands in a snapshot.
pub open spec fn standing_of(jobs: Map<AsvoJobID, Job>, jobid: AsvoJobID) -> Standing {
    if !jobs.contains_key(jobid) {
        Standing::Failed(Failure::NoAsvoJob(jobid))
    } else {
        match jobs[jobid].state {
            JobState::Ready => Standing::Ready,
            JobState::Error(message) => Standing::Failed(
                Failure::UpstreamError { jobid, obsid: jobs[jobid].obsid, error: message },
            ),
            JobState::Expired => Standing::Failed(Failure::Expired(jobid)),
            JobState::Cancelled => Standing::Failed(Failure::Cancelled(jobid)),
            _ => Standing::Pending,
        }
    }
}

/// A job stands as failed exactly if the snapshot does not have it or has
/// it in a state that is an end without success; as ready exactly if the
/// snapshot has it ready; and as pending in every other state.
pub proof fn lemma_standing(jobs: Map<AsvoJobID, Job>, jobid: AsvoJobID)
    ensures
        standing_of(jobs, jobid) is Failed <==> !jobs.contains_key(jobid)
            || jobs[jobid].state.is_failure(),
        standing_of(jobs, jobid) is Ready <==> jobs.contains_key(jobid)
            && jobs[jobid].state is Ready,
{
}

/// What a look at the listing comes to, job by job.
pub struct Round {
    /// The changes seen, in the order of the jobs asked for.
    pub changes: Seq<Change>,
    /// The states seen so far.
    pub seen: Map<AsvoJobID, JobState>,
    /// The failure of the first job that failed.
    pub failure: Option<Failure>,
    /// Whether some job is neither ready nor failed.
    pub pending: bool,
}

/// The round over the jobs `ids`, taken in order. The round stops at the
/// first job that fails: neither that job nor those after it are noted or
/// reported.
pub open spec fn round(jobs: Map<AsvoJobID, Job>, ids: Seq<AsvoJobID>, seen: Map<AsvoJobID, JobState>)
    -> Round
    decreases ids.len(),
{
    if ids.len() == 0 {
        Round { changes: Seq::<Change>::empty(), seen, failure: None, pending: false }
    } else {
        let before = round(jobs, ids.drop_last(), seen);
        let jobid = ids.last();
        if before.failure is Some {
            before
        } else {
            match standing_of(jobs, jobid) {
                Standing::Failed(failure) => Round { failure: Some(failure), ..before },
                standing => {
                    let state = jobs[jobid].state;
                    let news = !(before.seen.contains_key(jobid) && before.seen[jobid] == state);
                    Round {
                        changes: if news {
                            before.changes.push(Change { jobid, obsid: jobs[jobid].obsid, state })
                        } else {
                            before.changes
                        },
                        seen: before.seen.insert(jobid, state),
                        failure: None,
                        pending: before.pending || standing is Pending,
                    }
                },
            }
        }
    }
}

/// What to do after a round.
pub open spec fn step_after(r: Round) -> Step {
    match r.failure {
        Some(failure) => Step::Fail(failure),
        None => if r.pending {
            Step::Sleep(POLL_SECONDS)
        } else {
            Step::Done
        },
    }
}

/// Looks at one job of the set.
fn standing(jobs: &AsvoJobMap, jobid: AsvoJobID) -> (r: Result<(&AsvoJob, bool), AsvoError>)
    ensures
        match r {
            Ok((job, ready)) => jobs@.contains_key(jobid) && jobs@[jobid] == job@ && standing_of(
                jobs@,
                jobid,
            ) == if ready {
                Standing::Ready
            } else {
                Standing::Pending
            },
            Err(e) => standing_of(jobs@, jobid) == Standing::Failed(e@),
        },
{
    let job = match jobs.get(jobid) {
        None => {
            return Err(AsvoError::NoAsvoJob(jobid));
        },
        Some(job) => job,
    };
    match &job.state {
        AsvoJobState::Ready => Ok((job, true)),
        AsvoJobState::Error(message) => Err(
            AsvoError::UpstreamError { jobid, obsid: job.obsid, error: message.clone() },
        ),
        AsvoJobState::Expired => Err(AsvoError::Expired(jobid)),
        AsvoJobState::Cancelled => Err(AsvoError::Cancelled(jobid)),
        _ => Ok((job, false)),
    }
}

/// Takes one look at the listing for a caller who waits for the jobs
/// `jobids`. `seen` holds the states in which jobs were seen in earlier
/// cycles and is brought up to date; a job is among the changes only if
/// its state is news. Terminal failures are not retried.
pub fn poll(jobs: &AsvoJobMap, jobids: &[AsvoJobID], seen: &mut SeenStates) -> (cycle: Cycle)
    ensures
        changes_of(cycle.changes@) == round(jobs@, jobids@, old(seen)@).changes,
        final(seen)@ == round(jobs@, jobids@, old(seen)@).seen,
        cycle.next@ == step_after(round(jobs@, jobids@, old(seen)@)),
{
    let ghost start = seen@;
    let ghost ids = jobids@;
    let mut changes: Vec<StateChange> = Vec::new();
    let mut pending = false;
    let mut i: usize = 0;
    proof {
        assert(ids.take(0) =~= Seq::<AsvoJobID>::empty());
        assert(changes_of(changes@) =~= Seq::<Change>::empty());
    }
    while i < jobids.len()
        invariant
            i <= jobids.len(),
            ids == jobids@,
            start == old(seen)@,
            round(jobs@, ids.take(i as int), start) == (Round {
                changes: changes_of(changes@),
                seen: seen@,
                failure: None,
                pending,
            }),
        decreases jobids.len() - i,
    {
        let jobid = jobids[i];
        proof {
            assert(ids.take(i + 1).drop_last() == ids.take(i as int));
            assert(ids.take(i + 1).last() == jobid);
        }
        match standing(jobs, jobid) {
            Err(e) => {
                proof {
                    assert(round(jobs@, ids.take(i + 1), start) == (Round {
                        changes: changes_of(changes@),
                        seen: seen@,
                        failure: Some(e@),
                        pending,
                    }));
                    lemma_round_stops(jobs@, ids, start, i + 1);
                }
                return Cycle { changes, next: WaitStep::Fail(e) };
            },
            Ok((job, ready)) => {
                let news = seen.record(jobid, job.state.clone());
                if news {
                    let change = StateChange { jobid, obsid: job.obsid, state: job.state.clone() };
                    proof {
                        assert(changes_of(changes@.push(change)) =~= changes_of(changes@).push(
                            change@,
                        ));
                    }
                    changes.push(change);
                }
                if !ready {
                    pending = true;
                }
            },
        }
        i += 1;
    }
    proof {
        assert(ids.take(jobids.len() as int) == ids);
    }
    let next = if pending {
        WaitStep::Sleep(POLL_SECONDS)
    } else {
        WaitStep::Done
    };
    Cycle { changes, next }
}

/// Where a wait stands.
#[derive(Clone, Copy, Debug, PartialEq, Eq, Structural)]
pub enum WaitPhase {
    /// Nothing has been done yet.
    NotStarted,
    /// The listing is being looked at, cycle after cycle.
    Running,
    /// Every job was seen ready: the wait is over.
    Succeeded,
    /// A job was unknown or had ended without success: the wait is over.
    Failed,
}

/// The phase after a step.
pub open spec fn phase_after(step: Step) -> WaitPhase {
    match step {
        Step::Done => WaitPhase::Succeeded,
        Step::Sleep(_) => WaitPhase::Running,
        Step::Fail(_) => WaitPhase::Failed,
    }
}

/// One wait for a set of jobs, from its start to its end.
pub struct Waiter {
    jobids: Vec<AsvoJobID>,
    seen: SeenStates,
    phase: WaitPhase,
}

impl Waiter {
    /// The jobs waited for, in the order asked.
    pub closed spec fn ids(&self) -> Seq<AsvoJobID> {
        self.jobids@
    }

    /// The states in which the jobs were last seen.
    pub closed spec fn seen(&self) -> Map<AsvoJobID, JobState> {
        self.seen@
    }

    /// Where the wait stands.
    pub closed spec fn phase_of(&self) -> WaitPhase {
        self.phase
    }

    /// A wait for `jobids` that has not started.
    pub fn new(jobids: Vec<AsvoJobID>) -> (waiter: Waiter)
        ensures
            waiter.ids() == jobids@,
            waiter.seen() == Map::<AsvoJobID, JobState>::empty(),
            waiter.phase_of() == WaitPhase::NotStarted,
    {
        Waiter { jobids, seen: SeenStates::new(), phase: WaitPhase::NotStarted }
    }

    /// Where the wait stands.
    pub fn phase(&self) -> (phase: WaitPhase)
        ensures
            phase == self.phase_of(),
    {
        self.phase
    }

    /// Starts the wait: before the first look at the listing comes a short
    /// sleep, of [`GRACE_SECONDS`].
    pub fn begin(&mut self) -> (step: WaitStep)
        ensures
            step@ == Step::Sleep(GRACE_SECONDS),
            final(self).phase_of() == WaitPhase::Running,
            final(self).ids() == old(self).ids(),
            final(self).seen() == old(self).seen(),
    {
        self.phase = WaitPhase::Running;
        WaitStep::Sleep(GRACE_SECONDS)
    }

    /// Takes one look at the listing, as [`poll`] does, and moves the wait
    /// on: it goes on running while some job is not ready, and is over
    /// when all are ready or one has failed.
    pub fn observe(&mut self, jobs: &AsvoJobMap) -> (cycle: Cycle)
        ensures
            changes_of(cycle.changes@) == round(jobs@, old(self).ids(), old(self).seen()).changes,
            final(self).seen() == round(jobs@, old(self).ids(), old(self).seen()).seen,
            cycle.next@ == step_after(round(jobs@, old(self).ids(), old(self).seen())),
            final(self).phase_of() == phase_after(cycle.next@),
            final(self).ids() == old(self).ids(),
    {
        let cycle = poll(jobs, self.jobids.as_slice(), &mut self.seen);
        self.phase = match &cycle.next {
            WaitStep::Done => WaitPhase::Succeeded,
            WaitStep::Sleep(_) => WaitPhase::Running,
            WaitStep::Fail(_) => WaitPhase::Failed,
        };
        cycle
    }
}

/// A round that has failed on a prefix of the jobs stays as it is.
pub proof fn lemma_round_stops(
    jobs: Map<AsvoJobID, Job>,
    ids: Seq<AsvoJobID>,
    seen: Map<AsvoJobID, JobState>,
    k: int,
)
    requires
        0 <= k <= ids.len(),
        round(jobs, ids.take(k), seen).failure is Some,
    ensures
        round(jobs, ids, seen) == round(jobs, ids.take(k), seen),
    decreases ids.len() - k,
{
    if k == ids.len() {
        assert(ids.take(k) == ids);
    } else {
        assert(ids.take(k + 1).drop_last() == ids.take(k));
        lemma_round_stops(jobs, ids, seen, k + 1);
    }
}

/// A round over a prefix of the jobs that did not fail saw no job fail.
pub proof fn lemma_round_prefix(
    jobs: Map<AsvoJobID, Job>,
    ids: Seq<AsvoJobID>,
    seen: Map<AsvoJobID, JobState>,
)
    ensures
        round(jobs, ids, seen).failure is None <==> forall|j: int|
            0 <= j < ids.len() ==> !(#[trigger] standing_of(jobs, ids[j]) is Failed),
        round(jobs, ids, seen).failure is None ==> (round(jobs, ids, seen).pending <==> exists|
            j: int,
        |
            0 <= j < ids.len() && #[trigger] standing_of(jobs, ids[j]) is Pending),
    decreases ids.len(),
{
    if ids.len() > 0 {
        let before = ids.drop_last();
        lemma_round_prefix(jobs, before, seen);
        assert forall|j: int| 0 <= j < before.len() implies before[j] == ids[j] by {}
        if round(jobs, ids, seen).failure is None {
            assert forall|j: int| 0 <= j < ids.len() implies !(#[trigger] standing_of(
                jobs,
                ids[j],
            ) is Failed) by {
                if j < before.len() {
                    assert(before[j] == ids[j]);
                }
            }
            if round(jobs, ids, seen).pending {
                if round(jobs, before, seen).pending {
                    let j = choose|j: int|
                        0 <= j < before.len() && #[trigger] standing_of(jobs, before[j]) is Pending;
                    assert(before[j] == ids[j]);
                    assert(standing_of(jobs, ids[j]) is Pending);
                } else {
                    assert(standing_of(jobs, ids[ids.len() - 1]) is Pending);
                }
            } else {
                assert forall|j: int| 0 <= j < ids.len() implies !(#[trigger] standing_of(
                    jobs,
                    ids[j],
                ) is Pending) by {
                    if j < before.len() {
                        assert(before[j] == ids[j]);
                    }
                }
            }
        } else {
            if round(jobs, before, seen).failure is Some {
                let j = choose|j: int|
                    0 <= j < before.len() && #[trigger] standing_of(jobs, before[j]) is Failed;
                assert(before[j] == ids[j]);
                assert(standing_of(jobs, ids[j]) is Failed);
            } else {
                assert(standing_of(jobs, ids[ids.len() - 1]) is Failed);
            }
        }
    }
}

/// The readiness of one job never hides the failure of another: if any job
/// of the set is unknown or has ended without success, the wait fails, and
/// it fails with the failure of the first such job in the order asked.
pub proof fn lemma_failure_is_not_masked(
    jobs: Map<AsvoJobID, Job>,
    ids: Seq<AsvoJobID>,
    seen: Map<AsvoJobID, JobState>,
    k: int,
)
    requires
        0 <= k < ids.len(),
        standing_of(jobs, ids[k]) is Failed,
        forall|j: int| 0 <= j < k ==> !(#[trigger] standing_of(jobs, ids[j]) is Failed),
    ensures
        step_after(round(jobs, ids, seen)) == Step::Fail(standing_of(jobs, ids[k])->Failed_0),
{
    let prefix = ids.take(k);
    lemma_round_prefix(jobs, prefix, seen);
    assert forall|j: int| 0 <= j < prefix.len() implies !(#[trigger] standing_of(
        jobs,
        prefix[j],
    ) is Failed) by {
        assert(prefix[j] == ids[j]);
    }
    assert(ids.take(k + 1).drop_last() == prefix);
    assert(ids.take(k + 1).last() == ids[k]);
    lemma_round_stops(jobs, ids, seen, k + 1);
}

/// The wait is over exactly when every job of the set is ready.
pub proof fn lemma_done_means_all_ready(
    jobs: Map<AsvoJobID, Job>,
    ids: Seq<AsvoJobID>,
    seen: Map<AsvoJobID, JobState>,
)
    ensures
        step_after(round(jobs, ids, seen)) is Done <==> forall|j: int|
            0 <= j < ids.len() ==> #[trigger] standing_of(jobs, ids[j]) is Ready,
{
    lemma_round_prefix(jobs, ids, seen);
    if step_after(round(jobs, ids, seen)) is Done {
        assert forall|j: int| 0 <= j < ids.len() implies #[trigger] standing_of(
            jobs,
            ids[j],
        ) is Ready by {
            assert(!(standing_of(jobs, ids[j]) is Failed));
            assert(!(standing_of(jobs, ids[j]) is Pending));
        }
    }
}

} // verus!
