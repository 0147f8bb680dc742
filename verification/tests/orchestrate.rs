use mwa_giant_squid::asvo::error::AsvoError;
use mwa_giant_squid::asvo::orchestrate::{
    plan_batch, report, resolve, worker_count, Wanted,
};
use mwa_giant_squid::asvo::types::{AsvoJob, AsvoJobState, AsvoJobType, AsvoJobVec};
use mwa_giant_squid::obsid::Obsid;

fn obsid(n: u64) -> Obsid {
    Obsid::validate(n).unwrap()
}

#[test]
fn three_jobs_of_which_the_second_fails() {
    let outcomes = vec![
        Ok(()),
        Err(AsvoError::NoFiles(2)),
        Ok(()),
    ];
    let r = report(outcomes);
    assert_eq!(r.total, 3);
    assert_eq!(r.succeeded, 2);
    assert_eq!(r.failures.len(), 1);
    assert_eq!(r.failures[0].index, 1);
    assert!(matches!(r.failures[0].error, AsvoError::NoFiles(2)));
}

#[test]
fn reports_keep_the_order_of_the_batch() {
    let outcomes = vec![
        Err(AsvoError::NoAsvoJob(10)),
        Ok(()),
        Err(AsvoError::Expired(12)),
        Err(AsvoError::IO("disk".to_string())),
        Ok(()),
    ];
    let r = report(outcomes);
    assert_eq!(r.total, 5);
    assert_eq!(r.succeeded, 2);
    let places: Vec<usize> = r.failures.iter().map(|f| f.index).collect();
    assert_eq!(places, vec![0, 2, 3]);
    assert!(matches!(r.failures[0].error, AsvoError::NoAsvoJob(10)));
    assert!(matches!(r.failures[1].error, AsvoError::Expired(12)));
    assert!(matches!(r.failures[2].error, AsvoError::IO(_)));
}

#[test]
fn reports_of_nothing_and_of_success() {
    let r = report(vec![]);
    assert_eq!((r.total, r.succeeded, r.failures.len()), (0, 0, 0));
    let r = report(vec![Ok(()), Ok(())]);
    assert_eq!((r.total, r.succeeded, r.failures.len()), (2, 2, 0));
}

#[test]
fn workers() {
    assert_eq!(worker_count(4, 16), 4);
    assert_eq!(worker_count(1, 16), 1);
    assert_eq!(worker_count(0, 16), 16);
    assert_eq!(worker_count(32, 16), 32);
}

#[test]
fn batches_are_numbered() {
    let tasks = plan_batch(&[11, 12], &[obsid(1065880128)]);
    assert_eq!(tasks.len(), 3);
    assert!(matches!(tasks[0].wanted, Wanted::Job(11)));
    assert_eq!((tasks[0].number, tasks[0].count), (1, 3));
    assert!(matches!(tasks[1].wanted, Wanted::Job(12)));
    assert_eq!((tasks[1].number, tasks[1].count), (2, 3));
    assert!(matches!(tasks[2].wanted, Wanted::Obsid(o) if o.value() == 1065880128));
    assert_eq!((tasks[2].number, tasks[2].count), (1, 3));
    assert_eq!(plan_batch(&[], &[]).len(), 0);
}

#[test]
fn downloads_resolve_to_one_job() {
    let jobs = AsvoJobVec(vec![
        AsvoJob {
            obsid: obsid(1065880128),
            jobid: 1,
            jtype: AsvoJobType::Conversion,
            state: AsvoJobState::Ready,
            files: None,
        },
        AsvoJob {
            obsid: obsid(1339896408),
            jobid: 2,
            jtype: AsvoJobType::Conversion,
            state: AsvoJobState::Ready,
            files: None,
        },
        AsvoJob {
            obsid: obsid(1339896408),
            jobid: 3,
            jtype: AsvoJobType::Conversion,
            state: AsvoJobState::Queued,
            files: None,
        },
    ]);
    assert_eq!(resolve(&jobs, Wanted::Job(2)).unwrap().jobid, 2);
    assert!(matches!(
        resolve(&jobs, Wanted::Job(9)),
        Err(AsvoError::NoAsvoJob(9))
    ));
    assert_eq!(
        resolve(&jobs, Wanted::Obsid(obsid(1065880128))).unwrap().jobid,
        1
    );
    assert!(matches!(
        resolve(&jobs, Wanted::Obsid(obsid(1339896408))),
        Err(AsvoError::TooManyObsids(_))
    ));
    assert!(matches!(
        resolve(&jobs, Wanted::Obsid(obsid(1000000000))),
        Err(AsvoError::NoObsid(_))
    ));
}
