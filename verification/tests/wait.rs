use mwa_giant_squid::asvo::error::AsvoError;
use mwa_giant_squid::asvo::types::{AsvoJob, AsvoJobState, AsvoJobType, AsvoJobVec};
use mwa_giant_squid::asvo::wait::{
    poll, SeenStates, WaitPhase, WaitStep, Waiter, GRACE_SECONDS, POLL_SECONDS,
};
use mwa_giant_squid::obsid::Obsid;

fn job(jobid: u32, obsid: u64, state: AsvoJobState) -> AsvoJob {
    AsvoJob {
        obsid: Obsid::validate(obsid).unwrap(),
        jobid,
        jtype: AsvoJobType::DownloadVisibilities,
        state,
        files: None,
    }
}

const A: u32 = 101;
const B: u32 = 102;

fn snapshot(a: AsvoJobState, b: AsvoJobState) -> mwa_giant_squid::AsvoJobMap {
    AsvoJobVec(vec![
        job(A, 1339896408, a),
        job(B, 1290094336, b),
        job(7, 1065880128, AsvoJobState::Expired),
    ])
    .into_map()
}

#[test]
fn the_intervals() {
    assert_eq!(GRACE_SECONDS, 1);
    assert_eq!(POLL_SECONDS, 60);
}

#[test]
fn readiness_of_one_job_does_not_mask_the_failure_of_another() {
    let mut seen = SeenStates::new();
    // First both are queued.
    let first = poll(
        &snapshot(AsvoJobState::Queued, AsvoJobState::Queued),
        &[A, B],
        &mut seen,
    );
    assert!(matches!(first.next, WaitStep::Sleep(60)));
    assert_eq!(first.changes.len(), 2);
    // Then A is ready and B has failed.
    let second = poll(
        &snapshot(AsvoJobState::Ready, AsvoJobState::Error("no room".to_string())),
        &[A, B],
        &mut seen,
    );
    match second.next {
        WaitStep::Fail(AsvoError::UpstreamError {
            jobid,
            obsid,
            error,
        }) => {
            assert_eq!(jobid, B);
            assert_eq!(obsid.value(), 1290094336);
            assert_eq!(error, "no room");
        }
        other => panic!("unexpected: {:?}", other),
    }
    // A's change was seen before the wait failed.
    assert_eq!(second.changes.len(), 1);
    assert_eq!(second.changes[0].jobid, A);
    assert_eq!(second.changes[0].state, AsvoJobState::Ready);
    assert_eq!(
        second.changes[0].describe(),
        "Job ID 101 (obsid: 1339896408): is Ready"
    );
    // In the other order B fails the wait before A is looked at.
    let mut seen = SeenStates::new();
    let other = poll(
        &snapshot(AsvoJobState::Ready, AsvoJobState::Error("no room".to_string())),
        &[B, A],
        &mut seen,
    );
    assert!(matches!(
        other.next,
        WaitStep::Fail(AsvoError::UpstreamError { jobid: B, .. })
    ));
    assert_eq!(other.changes.len(), 0);
}

#[test]
fn all_ready_is_done() {
    let mut seen = SeenStates::new();
    let cycle = poll(
        &snapshot(AsvoJobState::Ready, AsvoJobState::Ready),
        &[A, B],
        &mut seen,
    );
    assert!(matches!(cycle.next, WaitStep::Done));
    assert_eq!(cycle.changes.len(), 2);
    // Waiting for nothing is done at once.
    let cycle = poll(
        &snapshot(AsvoJobState::Queued, AsvoJobState::Queued),
        &[],
        &mut seen,
    );
    assert!(matches!(cycle.next, WaitStep::Done));
    assert_eq!(cycle.changes.len(), 0);
}

#[test]
fn every_other_state_is_not_yet_ready() {
    for state in [
        AsvoJobState::Queued,
        AsvoJobState::WaitCal,
        AsvoJobState::Staging,
        AsvoJobState::Staged,
        AsvoJobState::Downloading,
        AsvoJobState::Preprocessing,
        AsvoJobState::Preparing,
        AsvoJobState::Imaging,
        AsvoJobState::Delivering,
        AsvoJobState::Processing,
    ] {
        let mut seen = SeenStates::new();
        let cycle = poll(&snapshot(AsvoJobState::Ready, state), &[A, B], &mut seen);
        assert!(matches!(cycle.next, WaitStep::Sleep(60)));
    }
}

#[test]
fn terminal_failures() {
    let mut seen = SeenStates::new();
    let cycle = poll(
        &snapshot(AsvoJobState::Expired, AsvoJobState::Ready),
        &[A, B],
        &mut seen,
    );
    assert!(matches!(cycle.next, WaitStep::Fail(AsvoError::Expired(A))));
    let cycle = poll(
        &snapshot(AsvoJobState::Cancelled, AsvoJobState::Ready),
        &[A, B],
        &mut seen,
    );
    assert!(matches!(cycle.next, WaitStep::Fail(AsvoError::Cancelled(A))));
    // The first failure in the order asked decides.
    let cycle = poll(
        &snapshot(AsvoJobState::Cancelled, AsvoJobState::Expired),
        &[B, A],
        &mut seen,
    );
    assert!(matches!(cycle.next, WaitStep::Fail(AsvoError::Expired(B))));
}

#[test]
fn an_unknown_job_fails_the_wait() {
    let mut seen = SeenStates::new();
    let cycle = poll(
        &snapshot(AsvoJobState::Ready, AsvoJobState::Ready),
        &[A, 555, B],
        &mut seen,
    );
    assert!(matches!(cycle.next, WaitStep::Fail(AsvoError::NoAsvoJob(555))));
    assert_eq!(cycle.changes.len(), 1);
}

#[test]
fn only_changes_are_reported() {
    let mut seen = SeenStates::new();
    let queued = snapshot(AsvoJobState::Queued, AsvoJobState::Staging);
    assert_eq!(poll(&queued, &[A, B], &mut seen).changes.len(), 2);
    assert_eq!(poll(&queued, &[A, B], &mut seen).changes.len(), 0);
    let moved = snapshot(AsvoJobState::Queued, AsvoJobState::Delivering);
    let cycle = poll(&moved, &[A, B], &mut seen);
    assert_eq!(cycle.changes.len(), 1);
    assert_eq!(cycle.changes[0].jobid, B);
    assert_eq!(
        cycle.changes[0].describe(),
        "Job ID 102 (obsid: 1290094336): is Delivering"
    );
    // A job asked for twice is reported once.
    let mut seen = SeenStates::new();
    assert_eq!(poll(&queued, &[A, A], &mut seen).changes.len(), 1);
}

#[test]
fn seen_states_tell_news() {
    let mut seen = SeenStates::new();
    assert!(seen.record(1, AsvoJobState::Queued));
    assert!(!seen.record(1, AsvoJobState::Queued));
    assert!(seen.record(2, AsvoJobState::Queued));
    assert!(seen.record(1, AsvoJobState::Ready));
    assert!(seen.record(1, AsvoJobState::Queued));
    assert!(seen.record(3, AsvoJobState::Error("a".to_string())));
    assert!(seen.record(3, AsvoJobState::Error("b".to_string())));
    assert!(!seen.record(3, AsvoJobState::Error("b".to_string())));
}

#[test]
fn a_wait_from_start_to_end() {
    let mut waiter = Waiter::new(vec![A, B]);
    assert_eq!(waiter.phase(), WaitPhase::NotStarted);
    // First comes the short sleep.
    assert!(matches!(waiter.begin(), WaitStep::Sleep(1)));
    assert_eq!(waiter.phase(), WaitPhase::Running);
    let cycle = waiter.observe(&snapshot(AsvoJobState::Queued, AsvoJobState::Staging));
    assert!(matches!(cycle.next, WaitStep::Sleep(60)));
    assert_eq!(cycle.changes.len(), 2);
    assert_eq!(waiter.phase(), WaitPhase::Running);
    let cycle = waiter.observe(&snapshot(AsvoJobState::Ready, AsvoJobState::Staging));
    assert!(matches!(cycle.next, WaitStep::Sleep(60)));
    assert_eq!(cycle.changes.len(), 1);
    let cycle = waiter.observe(&snapshot(AsvoJobState::Ready, AsvoJobState::Ready));
    assert!(matches!(cycle.next, WaitStep::Done));
    assert_eq!(cycle.changes.len(), 1);
    assert_eq!(waiter.phase(), WaitPhase::Succeeded);
}

#[test]
fn a_wait_that_fails() {
    let mut waiter = Waiter::new(vec![A, B]);
    waiter.begin();
    waiter.observe(&snapshot(AsvoJobState::Queued, AsvoJobState::Queued));
    let cycle = waiter.observe(&snapshot(
        AsvoJobState::Ready,
        AsvoJobState::Error("gone".to_string()),
    ));
    assert!(matches!(
        cycle.next,
        WaitStep::Fail(AsvoError::UpstreamError { jobid: B, .. })
    ));
    assert_eq!(waiter.phase(), WaitPhase::Failed);
}
