use mwa_giant_squid::asvo::catalog::{find_job, find_job_for_obsid, select, JobFilter};
use mwa_giant_squid::asvo::error::AsvoError;
use mwa_giant_squid::asvo::types::{
    AsvoJob, AsvoJobMap, AsvoJobState, AsvoJobType, AsvoJobVec,
};
use mwa_giant_squid::obsid::Obsid;

fn obsid(n: u64) -> Obsid {
    Obsid::validate(n).unwrap()
}

fn job(jobid: u32, o: u64, jtype: AsvoJobType, state: AsvoJobState) -> AsvoJob {
    AsvoJob {
        obsid: obsid(o),
        jobid,
        jtype,
        state,
        files: None,
    }
}

fn listing() -> AsvoJobVec {
    AsvoJobVec(vec![
        job(1, 1065880128, AsvoJobType::Conversion, AsvoJobState::Ready),
        job(2, 1065880128, AsvoJobType::DownloadMetadata, AsvoJobState::Queued),
        job(3, 1339896408, AsvoJobType::DownloadVisibilities, AsvoJobState::Ready),
        job(4, 1290094336, AsvoJobType::DownloadVoltage, AsvoJobState::Error("x".to_string())),
        job(5, 1290094337, AsvoJobType::Conversion, AsvoJobState::Staging),
    ])
}

fn ids(jobs: &AsvoJobVec) -> Vec<u32> {
    jobs.0.iter().map(|j| j.jobid).collect()
}

#[test]
fn into_map_keeps_every_job() {
    let map = listing().into_map();
    assert_eq!(map.0.len(), 5);
    for id in 1..=5 {
        assert_eq!(map.get(id).unwrap().jobid, id);
    }
    assert!(map.get(6).is_none());
    assert_eq!(map.get(3).unwrap().obsid, obsid(1339896408));
    assert_eq!(listing().len(), 5);
}

#[test]
fn into_map_last_job_wins() {
    let jobs = AsvoJobVec(vec![
        job(1, 1065880128, AsvoJobType::Conversion, AsvoJobState::Queued),
        job(1, 1065880128, AsvoJobType::Conversion, AsvoJobState::Ready),
    ]);
    let map = jobs.into_map();
    assert_eq!(map.0.len(), 1);
    assert_eq!(map.get(1).unwrap().state, AsvoJobState::Ready);
}

#[test]
fn from_is_into_map() {
    let map = AsvoJobMap::from(listing());
    assert_eq!(map.0.len(), 5);
    assert_eq!(map.get(4).unwrap().jtype, AsvoJobType::DownloadVoltage);
    assert_eq!(AsvoJobMap::from(AsvoJobVec(vec![])).0.len(), 0);
}

#[test]
fn retain_keeps_what_the_predicate_accepts() {
    let wanted = vec![2u32, 4, 9];
    let kept = listing().retain(|j| wanted.contains(&j.jobid));
    assert_eq!(ids(&kept), vec![2, 4]);
    assert_eq!(ids(&listing().retain(|_| true)), vec![1, 2, 3, 4, 5]);
    assert_eq!(ids(&listing().retain(|_| false)), Vec::<u32>::new());
    let ready = listing().retain(|j| j.state == AsvoJobState::Ready);
    assert_eq!(ids(&ready), vec![1, 3]);
}

#[test]
fn select_by_job_id() {
    let jobs = listing();
    assert_eq!(ids(&select(&jobs, &JobFilter::JobIds(vec![5, 1, 42]))), vec![1, 5]);
    assert_eq!(ids(&select(&jobs, &JobFilter::JobIds(vec![]))), Vec::<u32>::new());
}

#[test]
fn select_by_obsid() {
    let jobs = listing();
    assert_eq!(
        ids(&select(&jobs, &JobFilter::Obsids(vec![obsid(1065880128)]))),
        vec![1, 2]
    );
    assert_eq!(
        ids(&select(
            &jobs,
            &JobFilter::Obsids(vec![obsid(1290094337), obsid(1339896408)])
        )),
        vec![3, 5]
    );
}

#[test]
fn select_by_type() {
    let jobs = listing();
    assert_eq!(
        ids(&select(&jobs, &JobFilter::Types(vec![AsvoJobType::Conversion]))),
        vec![1, 5]
    );
    assert_eq!(
        ids(&select(&jobs, &JobFilter::Types(vec![AsvoJobType::CancelJob]))),
        Vec::<u32>::new()
    );
}

#[test]
fn select_by_state() {
    let jobs = listing();
    assert_eq!(
        ids(&select(&jobs, &JobFilter::States(vec![AsvoJobState::Ready]))),
        vec![1, 3]
    );
    // The message of an error does not matter.
    assert_eq!(
        ids(&select(
            &jobs,
            &JobFilter::States(vec![AsvoJobState::Error(String::new()), AsvoJobState::Staging])
        )),
        vec![4, 5]
    );
}

#[test]
fn find_a_job() {
    let jobs = listing();
    assert_eq!(find_job(&jobs, 3).unwrap().obsid, obsid(1339896408));
    assert!(matches!(find_job(&jobs, 6), Err(AsvoError::NoAsvoJob(6))));
    assert!(matches!(
        find_job(&AsvoJobVec(vec![]), 1),
        Err(AsvoError::NoAsvoJob(1))
    ));
}

#[test]
fn find_the_job_of_an_obsid() {
    let jobs = listing();
    assert_eq!(find_job_for_obsid(&jobs, obsid(1339896408)).unwrap().jobid, 3);
    // One job, though not ready: it is the job; its state is looked at
    // when it is downloaded.
    assert_eq!(find_job_for_obsid(&jobs, obsid(1290094336)).unwrap().jobid, 4);
    assert!(matches!(
        find_job_for_obsid(&jobs, obsid(1111111111)),
        Err(AsvoError::NoObsid(o)) if o.value() == 1111111111
    ));
    // Two jobs, of which only one is ready: ambiguous all the same.
    assert!(matches!(
        find_job_for_obsid(&jobs, obsid(1065880128)),
        Err(AsvoError::TooManyObsids(o)) if o.value() == 1065880128
    ));
}
