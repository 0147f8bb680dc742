//! Running many downloads side by side, and telling how they went.
//!
//! Each download stands for itself: it resolves to one job, runs on a
//! worker of its own, and ends with an outcome of its own. The outcomes are
//! gathered when all workers are done. A failure is one outcome among the
//! others: it is kept with its place in the batch and reported, and changes
//! nothing for the downloads beside it.

use super::catalog::{find_job, find_job_for_obsid, job_for_obsid, job_with_id, lookup_result};
use super::error::{AsvoError, Failure};
use super::types::{AsvoJob, AsvoJobID, AsvoJobVec, Job};
use crate::obsid::Obsid;
use vstd::prelude::*;

verus! {

/// The number of workers for a limit of `limit` concurrent downloads; zero
/// stands for as many as the machine runs in parallel.
pub fn worker_count(limit: usize, available: usize) -> (workers: usize)
    ensures
        workers == if limit == 0 {
            available
        } else {
            limit
        },
{
    if limit == 0 {
        available
    } else {
        limit
    }
}

/// What is to be downloaded: a job, or the one job of an obsid.
#[derive(Clone, Copy, Debug)]
pub enum Wanted {
    Job(AsvoJobID),
    Obsid(Obsid),
}

/// One download of a batch.
#[derive(Clone, Copy, Debug)]
pub struct Task {
    pub wanted: Wanted,
    /// The place of the download among those of its kind, from 1.
    pub number: usize,
    /// The number of downloads in the batch, of both kinds.
    pub count: usize,
}

/// The mathematical form of what is wanted.
pub enum Want {
    Job(AsvoJobID),
    Obsid(u64),
}

/// The mathematical form of a [`Task`].
pub struct Slot {
    pub wanted: Want,
    pub number: int,
    pub count: int,
}

impl View for Wanted {
    type V = Want;

    open spec fn view(&self) -> Want {
        match self {
            Wanted::Job(id) => Want::Job(*id),
            Wanted::Obsid(o) => Want::Obsid(o@),
        }
    }
}

impl View for Task {
    type V = Slot;

    open spec fn view(&self) -> Slot {
        Slot { wanted: self.wanted@, number: self.number as int, count: self.count as int }
    }
}

/// The tasks for a batch: the jobs first, then the obsids, each kind
/// numbered from 1; every task knows the size of the whole batch.
pub open spec fn batch_of(jobids: Seq<AsvoJobID>, obsids: Seq<u64>) -> Seq<Slot> {
    Seq::new(
        jobids.len() + obsids.len(),
        |i: int|
            if i < jobids.len() {
                Slot {
                    wanted: Want::Job(jobids[i]),
                    number: i + 1,
                    count: (jobids.len() + obsids.len()) as int,
                }
            } else {
                Slot {
                    wanted: Want::Obsid(obsids[i - jobids.len()]),
                    number: i - jobids.len() + 1,
                    count: (jobids.len() + obsids.len()) as int,
                }
            },
    )
}

/// The mathematical form of a list of tasks.
pub open spec fn slots(tasks: Seq<Task>) -> Seq<Slot> {
    Seq::new(tasks.len(), |i: int| tasks[i]@)
}

/// Lays out a batch of downloads.
pub fn plan_batch(jobids: &[AsvoJobID], obsids: &[Obsid]) -> (tasks: Vec<Task>)
    ensures
        slots(tasks@) == batch_of(jobids@, crate::obsid::obsid_numbers(obsids@)),
{
    // First what is wanted, in order: this tells the size of the batch.
    let mut wanted: Vec<Wanted> = Vec::new();
    let mut i: usize = 0;
    while i < jobids.len()
        invariant
            i <= jobids.len(),
            wanted.len() == i,
            forall|k: int| 0 <= k < i ==> (#[trigger] wanted@[k])@ == Want::Job(jobids@[k]),
        decreases jobids.len() - i,
    {
        wanted.push(Wanted::Job(jobids[i]));
        i += 1;
    }
    let mut j: usize = 0;
    while j < obsids.len()
        invariant
            j <= obsids.len(),
            wanted.len() == jobids.len() + j,
            forall|k: int|
                0 <= k < jobids.len() ==> (#[trigger] wanted@[k])@ == Want::Job(jobids@[k]),
            forall|k: int|
                jobids.len() <= k < jobids.len() + j ==> (#[trigger] wanted@[k])@ == Want::Obsid(
                    obsids@[k - jobids.len()]@,
                ),
        decreases obsids.len() - j,
    {
        wanted.push(Wanted::Obsid(obsids[j]));
        j += 1;
    }
    let count: usize = wanted.len();
    let first_obsid: usize = jobids.len();
    let mut tasks: Vec<Task> = Vec::new();
    let mut n: usize = 0;
    while n < count
        invariant
            n <= count == wanted.len(),
            count == jobids.len() + obsids.len(),
            first_obsid == jobids.len(),
            tasks.len() == n,
            forall|k: int|
                0 <= k < n ==> (#[trigger] tasks@[k])@ == (Slot {
                    wanted: wanted@[k]@,
                    number: if k < first_obsid {
                        k + 1
                    } else {
                        k - first_obsid + 1
                    },
                    count: count as int,
                }),
        decreases count - n,
    {
        let number: usize = if n < first_obsid {
            n + 1
        } else {
            n - first_obsid + 1
        };
        tasks.push(Task { wanted: wanted[n], number, count });
        n += 1;
    }
    proof {
        assert(slots(tasks@) =~= batch_of(jobids@, crate::obsid::obsid_numbers(obsids@)));
    }
    tasks
}

/// The job that a download is about, in a snapshot of the listing.
pub open spec fn wanted_job(jobs: Seq<Job>, wanted: Want) -> Result<Job, Failure> {
    match wanted {
        Want::Job(id) => job_with_id(jobs, id),
        Want::Obsid(o) => job_for_obsid(jobs, o),
    }
}

/// Resolves a download to one job of the snapshot.
pub fn resolve(jobs: &AsvoJobVec, wanted: Wanted) -> (r: Result<AsvoJob, AsvoError>)
    ensures
        lookup_result(r) == wanted_job(jobs@, wanted@),
{
    match wanted {
        Wanted::Job(id) => find_job(jobs, id),
        Wanted::Obsid(o) => find_job_for_obsid(jobs, o),
    }
}

/// A download that failed: its place in the batch, from 0, and its error.
#[derive(Debug)]
pub struct FailedDownload {
    pub index: usize,
    pub error: AsvoError,
}

/// How a batch went.
#[derive(Debug)]
pub struct BatchReport {
    /// The number of downloads.
    pub total: usize,
    /// The number of those that succeeded.
    pub succeeded: usize,
    /// Those that failed, in the order of the batch.
    pub failures: Vec<FailedDownload>,
}

/// The mathematical form of the outcomes of a batch.
pub open spec fn outcome_views(outcomes: Seq<Result<(), AsvoError>>) -> Seq<Result<(), Failure>> {
    Seq::new(outcomes.len(), |i: int| super::error::unit_outcome(outcomes[i]))
}

/// The failures among the outcomes, each with its place, in order.
pub open spec fn failures_of(outcomes: Seq<Result<(), Failure>>) -> Seq<(int, Failure)>
    decreases outcomes.len(),
{
    if outcomes.len() == 0 {
        Seq::<(int, Failure)>::empty()
    } else {
        match outcomes.last() {
            Ok(()) => failures_of(outcomes.drop_last()),
            Err(failure) => failures_of(outcomes.drop_last()).push(
                (outcomes.len() - 1, failure),
            ),
        }
    }
}

/// The number of successes among the outcomes.
pub open spec fn successes_of(outcomes: Seq<Result<(), Failure>>) -> nat
    decreases outcomes.len(),
{
    if outcomes.len() == 0 {
        0
    } else {
        match outcomes.last() {
            Ok(()) => successes_of(outcomes.drop_last()) + 1,
            Err(_) => successes_of(outcomes.drop_last()),
        }
    }
}

/// The mathematical form of a list of failed downloads.
pub open spec fn failed_views(failures: Seq<FailedDownload>) -> Seq<(int, Failure)> {
    Seq::new(failures.len(), |i: int| (failures[i].index as int, failures[i].error@))
}

/// Every outcome is a success or a failure, and none is both.
pub proof fn lemma_all_outcomes_counted(outcomes: Seq<Result<(), Failure>>)
    ensures
        successes_of(outcomes) + failures_of(outcomes).len() == outcomes.len(),
    decreases outcomes.len(),
{
    if outcomes.len() > 0 {
        lemma_all_outcomes_counted(outcomes.drop_last());
    }
}

/// A failure is among the failures of its batch, under its own place and
/// with its own error, whatever the outcomes beside it; and the successes
/// beside it are counted as they would be without it.
pub proof fn lemma_failure_is_reported(outcomes: Seq<Result<(), Failure>>, k: int)
    requires
        0 <= k < outcomes.len(),
        outcomes[k] is Err,
    ensures
        failures_of(outcomes).contains((k, outcomes[k]->Err_0)),
    decreases outcomes.len(),
{
    let before = outcomes.drop_last();
    if k == outcomes.len() - 1 {
        let all = failures_of(outcomes);
        assert(all[all.len() - 1] == (k, outcomes[k]->Err_0));
    } else {
        assert(before[k] == outcomes[k]);
        lemma_failure_is_reported(before, k);
        let earlier = failures_of(before);
        let at = choose|i: int| 0 <= i < earlier.len() && earlier[i] == (k, outcomes[k]->Err_0);
        assert(failures_of(outcomes)[at] == earlier[at]);
    }
}

/// Gathers the outcomes of a batch, one for each download and in the order
/// of the batch, into a report.
pub fn report(outcomes: Vec<Result<(), AsvoError>>) -> (r: BatchReport)
    ensures
        r.total == outcomes.len(),
        r.succeeded == successes_of(outcome_views(outcomes@)),
        failed_views(r.failures@) == failures_of(outcome_views(outcomes@)),
        r.succeeded + r.failures.len() == r.total,
{
    let ghost all = outcome_views(outcomes@);
    let total = outcomes.len();
    let mut outcomes = outcomes;
    let mut reversed: Vec<FailedDownload> = Vec::new();
    let mut succeeded: usize = 0;
    let mut n: usize = total;
    proof {
        assert(all.take(total as int) == all);
        assert(failed_views(reversed@).reverse() =~= Seq::<(int, Failure)>::empty());
        assert(failures_of(all) + Seq::<(int, Failure)>::empty() =~= failures_of(all));
    }
    // The outcomes are taken from the end; the failures are put in order
    // afterwards.
    while n > 0
        invariant
            n <= total,
            outcomes.len() == n,
            all.len() == total,
            outcome_views(outcomes@) == all.take(n as int),
            succeeded + reversed.len() == total - n,
            succeeded + successes_of(all.take(n as int)) == successes_of(all),
            failures_of(all) == failures_of(all.take(n as int)) + failed_views(
                reversed@,
            ).reverse(),
        decreases n,
    {
        let ghost shorter = all.take(n as int);
        let outcome = outcomes.pop().unwrap();
        n -= 1;
        proof {
            assert(shorter.drop_last() == all.take(n as int));
            assert(outcome_views(outcomes@) =~= all.take(n as int));
            assert(super::error::unit_outcome(outcome) == shorter.last());
        }
        match outcome {
            Ok(()) => {
                succeeded += 1;
            },
            Err(error) => {
                let ghost before = failed_views(reversed@);
                reversed.push(FailedDownload { index: n, error });
                proof {
                    assert(failed_views(reversed@) =~= before.push((n as int, error@)));
                    assert(failed_views(reversed@).reverse() =~= seq![(n as int, error@)]
                        + before.reverse());
                    assert(failures_of(shorter) == failures_of(all.take(n as int)).push(
                        (n as int, error@),
                    ));
                    assert(failures_of(all.take(n as int)).push((n as int, error@))
                        + before.reverse() =~= failures_of(all.take(n as int)) + (seq![
                        (n as int, error@),
                    ] + before.reverse()));
                }
            },
        }
    }
    proof {
        assert(all.take(0) =~= Seq::<Result<(), Failure>>::empty());
        assert(failures_of(all) =~= failed_views(reversed@).reverse());
        lemma_all_outcomes_counted(all);
    }
    let mut failures: Vec<FailedDownload> = Vec::new();
    let ghost back = failed_views(reversed@);
    let ghost m = reversed.len();
    while reversed.len() > 0
        invariant
            reversed.len() <= m,
            back.len() == m,
            failed_views(reversed@) == back.take(reversed.len() as int),
            failed_views(failures@) == back.skip(reversed.len() as int).reverse(),
        decreases reversed.len(),
    {
        let ghost len = reversed.len();
        let ghost before = failed_views(failures@);
        let ghost earlier = reversed@;
        let failed = reversed.pop().unwrap();
        proof {
            assert(failed_views(earlier)[len - 1] == back.take(len as int)[len - 1]);
            assert(failed == earlier[len - 1]);
            assert(failed_views(reversed@) =~= back.take(reversed.len() as int));
            assert((failed.index as int, failed.error@) == back[len - 1]);
        }
        failures.push(failed);
        proof {
            assert(failed_views(failures@) =~= before.push(back[len - 1]));
            assert(back.skip(len - 1).reverse() =~= back.skip(len as int).reverse().push(
                back[len - 1],
            ));
        }
    }
    proof {
        assert(back.skip(0) =~= back);
    }
    BatchReport { total, succeeded, failures }
}

} // verus!
