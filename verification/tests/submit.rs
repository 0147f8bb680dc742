use mwa_giant_squid::asvo::error::AsvoError;
use mwa_giant_squid::asvo::json::JsonFault;
use mwa_giant_squid::asvo::submit::{
    api_path, decode_response, interpret, interpret_document, layout_at, outcome, read_layout,
    submission_result, AsvoSubmitJobResponse, Layout, SubmissionOutcome, LAYOUTS,
};
use mwa_giant_squid::asvo::types::AsvoJobType;

#[test]
fn interpret_new_job() {
    assert_eq!(
        interpret("{\"job_id\": 308874}").unwrap(),
        SubmissionOutcome::NewJob(308874)
    );
}

#[test]
fn interpret_duplicate_job() {
    let json = "{\"error\": \"Job already queued, processing or complete\", \"error_code\": 2, \"job_id\": 10001822}";
    assert_eq!(
        interpret(json).unwrap(),
        SubmissionOutcome::DuplicateJob(10001822)
    );
}

#[test]
fn interpret_job_id_with_another_error() {
    let json = "{\"error\": \"Something else\", \"error_code\": 3, \"job_id\": 10001822}";
    assert_eq!(
        interpret(json).unwrap(),
        SubmissionOutcome::FatalRejection {
            code: 3,
            message: "Something else".to_string()
        }
    );
}

#[test]
fn interpret_recoverable_rejections() {
    let json = "{\"error_code\": 0, \"error\": \"Unable to submit job. Observation 1234567890 has no files\"}";
    assert_eq!(
        interpret(json).unwrap(),
        SubmissionOutcome::RecoverableRejection(
            "Unable to submit job. Observation 1234567890 has no files".to_string()
        )
    );
    let json = "{\"error_code\": 0, \"error\": \"Observation 1234567890 does not exist\"}";
    assert_eq!(
        interpret(json).unwrap(),
        SubmissionOutcome::RecoverableRejection(
            "Observation 1234567890 does not exist".to_string()
        )
    );
}

#[test]
fn interpret_fatal_rejections() {
    // The right message under another code.
    let json = "{\"error_code\": 1, \"error\": \"Observation 1234567890 does not exist\"}";
    assert_eq!(
        interpret(json).unwrap(),
        SubmissionOutcome::FatalRejection {
            code: 1,
            message: "Observation 1234567890 does not exist".to_string()
        }
    );
    // The right code with another message.
    let json = "{\"error_code\": 0, \"error\": \"Download Type: Expected not None\"}";
    assert_eq!(
        interpret(json).unwrap(),
        SubmissionOutcome::FatalRejection {
            code: 0,
            message: "Download Type: Expected not None".to_string()
        }
    );
    // Half of a pattern is not the pattern.
    let json = "{\"error_code\": 0, \"error\": \"Observation 1234567890 does not exist.\"}";
    assert!(matches!(
        interpret(json).unwrap(),
        SubmissionOutcome::FatalRejection { code: 0, .. }
    ));
    let json = "{\"error_code\": 0, \"error\": \"The Observation 1 does not exist\"}";
    assert!(matches!(
        interpret(json).unwrap(),
        SubmissionOutcome::FatalRejection { code: 0, .. }
    ));
}

#[test]
fn interpret_generic_error() {
    assert_eq!(
        interpret("{\"error\": \"Permission denied\"}").unwrap(),
        SubmissionOutcome::FatalRejection {
            code: 999,
            message: "Permission denied".to_string()
        }
    );
}

#[test]
fn interpret_order_of_layouts() {
    // This answer fits every layout; the one with all three members wins.
    let json = "{\"job_id\": 5, \"error\": \"exists\", \"error_code\": 2}";
    assert_eq!(interpret(json).unwrap(), SubmissionOutcome::DuplicateJob(5));
    let doc: serde_json::Value = serde_json::from_str(json).unwrap();
    assert!(read_layout(&doc, Layout::JobIDWithError).is_some());
    assert!(read_layout(&doc, Layout::JobID).is_some());
    assert!(read_layout(&doc, Layout::ErrorWithCode).is_some());
    assert!(read_layout(&doc, Layout::GenericError).is_some());
    assert_eq!(
        decode_response(&doc),
        Some(AsvoSubmitJobResponse::JobIDWithError {
            error: "exists".to_string(),
            error_code: 2,
            job_id: 5
        })
    );
    // With `job_id` and `error` but no code, `job_id` alone decides.
    let json = "{\"job_id\": 5, \"error\": \"odd\"}";
    assert_eq!(interpret(json).unwrap(), SubmissionOutcome::NewJob(5));
    // A member of the wrong type is as good as absent.
    let json = "{\"job_id\": 5, \"error\": \"odd\", \"error_code\": \"2\"}";
    assert_eq!(interpret(json).unwrap(), SubmissionOutcome::NewJob(5));
    let json = "{\"job_id\": \"5\", \"error\": \"odd\", \"error_code\": 2}";
    assert_eq!(
        interpret(json).unwrap(),
        SubmissionOutcome::FatalRejection {
            code: 2,
            message: "odd".to_string()
        }
    );
    // Members that no layout knows do not matter.
    let json = "{\"job_id\": 5, \"extra\": [1, 2]}";
    assert_eq!(interpret(json).unwrap(), SubmissionOutcome::NewJob(5));
}

#[test]
fn the_order_is_fixed() {
    assert_eq!(LAYOUTS, 4);
    assert_eq!(layout_at(0), Layout::JobIDWithError);
    assert_eq!(layout_at(1), Layout::JobID);
    assert_eq!(layout_at(2), Layout::ErrorWithCode);
    assert_eq!(layout_at(3), Layout::GenericError);
}

#[test]
fn interpret_decode_errors() {
    assert!(matches!(
        interpret("{\"job_id\": "),
        Err(AsvoError::BadJson(JsonFault::Syntax(_)))
    ));
    assert!(matches!(
        interpret("{}"),
        Err(AsvoError::BadJson(JsonFault::Layout))
    ));
    assert!(matches!(
        interpret("[308874]"),
        Err(AsvoError::BadJson(JsonFault::Layout))
    ));
    assert!(matches!(
        interpret("{\"job_id\": -1}"),
        Err(AsvoError::BadJson(JsonFault::Layout))
    ));
    assert!(matches!(
        interpret("{\"job_id\": 4294967296}"),
        Err(AsvoError::BadJson(JsonFault::Layout))
    ));
    assert!(matches!(
        interpret("{\"job_id\": 1.5}"),
        Err(AsvoError::BadJson(JsonFault::Layout))
    ));
    assert!(matches!(
        interpret("{\"error_code\": 0}"),
        Err(AsvoError::BadJson(JsonFault::Layout))
    ));
    let doc: serde_json::Value = serde_json::from_str("{\"error\": null}").unwrap();
    assert!(matches!(
        interpret_document(&doc),
        Err(AsvoError::BadJson(JsonFault::Layout))
    ));
    assert!(matches!(
        AsvoSubmitJobResponse::parse("nonsense"),
        Err(AsvoError::BadJson(JsonFault::Syntax(_)))
    ));
    assert!(matches!(
        AsvoSubmitJobResponse::parse("null"),
        Err(AsvoError::BadJson(JsonFault::Layout))
    ));
}

#[test]
fn interpret_largest_job_id() {
    assert_eq!(
        interpret("{\"job_id\": 4294967295}").unwrap(),
        SubmissionOutcome::NewJob(4294967295)
    );
}

#[test]
fn outcome_of_each_answer() {
    assert_eq!(
        outcome(AsvoSubmitJobResponse::JobID { job_id: 1 }),
        SubmissionOutcome::NewJob(1)
    );
    assert_eq!(
        outcome(AsvoSubmitJobResponse::GenericError {
            error: "e".to_string()
        }),
        SubmissionOutcome::FatalRejection {
            code: 999,
            message: "e".to_string()
        }
    );
}

#[test]
fn what_the_caller_gets() {
    assert_eq!(
        submission_result(SubmissionOutcome::NewJob(7)).unwrap(),
        Some(7)
    );
    assert_eq!(
        submission_result(SubmissionOutcome::DuplicateJob(7)).unwrap(),
        None
    );
    assert_eq!(
        submission_result(SubmissionOutcome::RecoverableRejection("r".to_string())).unwrap(),
        None
    );
    match submission_result(SubmissionOutcome::FatalRejection {
        code: 4,
        message: "m".to_string(),
    }) {
        Err(AsvoError::BadRequest { code, message }) => {
            assert_eq!(code, 4);
            assert_eq!(message, "m");
        }
        other => panic!("unexpected: {:?}", other),
    }
}

#[test]
fn api_paths() {
    assert_eq!(api_path(AsvoJobType::Conversion).unwrap(), "conversion_job");
    assert_eq!(
        api_path(AsvoJobType::DownloadVisibilities).unwrap(),
        "download_vis_job"
    );
    assert_eq!(
        api_path(AsvoJobType::DownloadMetadata).unwrap(),
        "download_vis_job"
    );
    assert_eq!(api_path(AsvoJobType::DownloadVoltage).unwrap(), "voltage_job");
    assert!(matches!(
        api_path(AsvoJobType::CancelJob),
        Err(AsvoError::UnsupportedType(AsvoJobType::CancelJob))
    ));
}
