use mwa_giant_squid::asvo::error::AsvoError;
use mwa_giant_squid::asvo::json::JsonFault;
use mwa_giant_squid::asvo::service::{
    cancel_outcome, cancel_url, check_status, client_version, endpoint, get_asvo_server_address,
    job_from_submission, jobs_from_response,
};

#[test]
fn server_address() {
    assert_eq!(
        get_asvo_server_address(None),
        "https://asvo.mwatelescope.org:443"
    );
    assert_eq!(
        get_asvo_server_address(Some("localhost:8080")),
        "https://localhost:8080"
    );
    assert_eq!(get_asvo_server_address(Some("")), "https://");
}

#[test]
fn urls() {
    let address = get_asvo_server_address(None);
    assert_eq!(
        endpoint(&address, "api_login"),
        "https://asvo.mwatelescope.org:443/api/api_login"
    );
    assert_eq!(
        endpoint(&address, "get_jobs"),
        "https://asvo.mwatelescope.org:443/api/get_jobs"
    );
    assert_eq!(
        cancel_url(&address, 575929),
        "https://asvo.mwatelescope.org:443/api/cancel_job?job_id=575929"
    );
    assert_eq!(cancel_url("h", 0), "h/api/cancel_job?job_id=0");
    assert_eq!(client_version("1.1.0"), "giant-squidv1.1.0");
}

#[test]
fn statuses() {
    assert!(check_status(200, "").is_ok());
    assert!(check_status(204, "").is_ok());
    assert!(check_status(299, "").is_ok());
    for status in [0u16, 100, 199, 300, 302, 401, 404, 500, 65535] {
        match check_status(status, "the body") {
            Err(AsvoError::BadStatus { code, message }) => {
                assert_eq!(code, status);
                assert_eq!(message, "the body");
            }
            other => panic!("unexpected: {:?}", other),
        }
    }
}

#[test]
fn fetch_jobs() {
    let json = "[{\"action\": \"INSERT\", \"table\": \"jobs\", \"row\": {\"job_type\": 1, \"job_state\": 2, \"user_id\": 1065, \"job_params\": {\"delivery\": \"acacia\", \"download_type\": \"vis\", \"job_type\": \"download\", \"obs_id\": \"1339896408\", \"priority\": 1, \"user_pawsey_group\": \"mwaops\"}, \"error_code\": null, \"error_text\": null, \"product\": {\"files\": [{\"type\": \"acacia\", \"url\": \"https://ingest.pawsey.org.au/mwa-asvo/1339896408_575929_vis.tar\", \"size\": 931112960, \"sha1\": \"12b0933ff3985c82a7303d8e57fa7157fe88353e\"}]}, \"id\": 575929}}]";
    let jobs = jobs_from_response(200, json).unwrap();
    assert_eq!(jobs.0.len(), 1);
    assert_eq!(jobs.0[0].jobid, 575929);
    assert_eq!(jobs.0[0].obsid.value(), 1339896408);
    assert_eq!(jobs.0[0].files.as_ref().unwrap()[0].size, 931112960);
    // The status is looked at before the body.
    assert!(matches!(
        jobs_from_response(500, json),
        Err(AsvoError::BadStatus { code: 500, .. })
    ));
    assert!(matches!(
        jobs_from_response(200, "<html>"),
        Err(AsvoError::BadJson(JsonFault::Syntax(_)))
    ));
}

#[test]
fn submissions() {
    assert_eq!(job_from_submission("{\"job_id\": 308874}").unwrap(), Some(308874));
    assert_eq!(
        job_from_submission("{\"error\": \"Job already queued\", \"error_code\": 2, \"job_id\": 5}")
            .unwrap(),
        None
    );
    assert_eq!(
        job_from_submission("{\"error\": \"Observation 1 does not exist\", \"error_code\": 0}")
            .unwrap(),
        None
    );
    assert!(matches!(
        job_from_submission("{\"error\": \"Permission denied\"}"),
        Err(AsvoError::BadRequest { code: 999, message }) if message == "Permission denied"
    ));
    assert!(matches!(
        job_from_submission("{\"error\": \"outage\", \"error_code\": 0}"),
        Err(AsvoError::BadRequest { code: 0, .. })
    ));
    assert!(matches!(
        job_from_submission("oops"),
        Err(AsvoError::BadJson(JsonFault::Syntax(_)))
    ));
    assert!(matches!(
        job_from_submission("{}"),
        Err(AsvoError::BadJson(JsonFault::Layout))
    ));
}

#[test]
fn cancellations() {
    assert_eq!(cancel_outcome(200, 7, "").unwrap(), Some(7));
    assert_eq!(cancel_outcome(400, 7, "not valid").unwrap(), None);
    assert_eq!(cancel_outcome(404, 7, "").unwrap(), None);
    for status in [201u16, 401, 403, 500] {
        match cancel_outcome(status, 7, "why") {
            Err(AsvoError::BadStatus { code, message }) => {
                assert_eq!(code, status);
                assert_eq!(message, "why");
            }
            other => panic!("unexpected: {:?}", other),
        }
    }
}
