//! The service's protocol: where requests go and what the status of an
//! answer means.

use super::asvo_serde::{listing_of, listing_result, parse_asvo_json};
use super::error::{unit_outcome, AsvoError, Failure};
use super::json::json_document;
use super::submit::{interpret, interpretation, submission_result, submission_view, submitted};
use super::types::{AsvoJobID, AsvoJobVec};
use crate::text::{copy_str, decimal_digits, opt_str, push_decimal, push_str};
use vstd::prelude::*;

verus! {

/// The host of the service, with its port, where no other is asked for.
pub open spec fn default_host() -> Seq<char> {
    "asvo.mwatelescope.org:443"@
}

/// The address of the service on a host.
pub open spec fn server_address(host: Option<Seq<char>>) -> Seq<char> {
    "https://"@ + match host {
        Some(h) => h,
        None => default_host(),
    }
}

/// The address of the service. `host` is a host other than the usual one,
/// where the user has set one.
pub fn get_asvo_server_address(host: Option<&str>) -> (address: String)
    ensures
        address@ == server_address(opt_str(host)),
{
    let mut address = copy_str("https://");
    match host {
        Some(h) => push_str(&mut address, h),
        None => push_str(&mut address, "asvo.mwatelescope.org:443"),
    }
    address
}

/// The URL of one function of the service's API.
pub open spec fn endpoint_text(address: Seq<char>, function: Seq<char>) -> Seq<char> {
    address + "/api/"@ + function
}

/// The URL of one function of the service's API: `api_login`, `get_jobs`,
/// or what [`super::submit::api_path`] gives.
pub fn endpoint(address: &str, function: &str) -> (url: String)
    ensures
        url@ == endpoint_text(address@, function@),
{
    let mut url = copy_str(address);
    push_str(&mut url, "/api/");
    push_str(&mut url, function);
    url
}

/// The URL that cancels a job.
pub open spec fn cancel_url_text(address: Seq<char>, jobid: AsvoJobID) -> Seq<char> {
    endpoint_text(address, "cancel_job"@) + "?job_id="@ + decimal_digits(jobid as nat)
}

/// The URL that cancels a job.
pub fn cancel_url(address: &str, jobid: AsvoJobID) -> (url: String)
    ensures
        url@ == cancel_url_text(address@, jobid),
{
    let mut url = endpoint(address, "cancel_job");
    push_str(&mut url, "?job_id=");
    push_decimal(&mut url, jobid as u64);
    url
}

/// The name under which this client of the given version logs in.
pub fn client_version(version: &str) -> (name: String)
    ensures
        name@ == "giant-squidv"@ + version@,
{
    let mut name = copy_str("giant-squidv");
    push_str(&mut name, version);
    name
}

/// Whether an HTTP status says that the request succeeded.
pub open spec fn is_success(status: u16) -> bool {
    200 <= status < 300
}

/// What an answer with this status and body comes to where nothing but
/// success is expected.
pub open spec fn status_outcome(status: u16, body: Seq<char>) -> Result<(), Failure> {
    if is_success(status) {
        Ok(())
    } else {
        Err(Failure::BadStatus { code: status, message: body })
    }
}

/// Checks the status of an answer. Any status but success is an error that
/// holds the status and the body.
pub fn check_status(status: u16, body: &str) -> (r: Result<(), AsvoError>)
    ensures
        unit_outcome(r) == status_outcome(status, body@),
{
    if status >= 200 && status < 300 {
        Ok(())
    } else {
        Err(AsvoError::BadStatus { code: status, message: copy_str(body) })
    }
}

/// What the answer to a request for the job listing comes to.
pub open spec fn listing_answer(status: u16, body: Seq<char>) -> Result<
    Seq<super::types::Job>,
    Failure,
> {
    match status_outcome(status, body) {
        Err(failure) => Err(failure),
        Ok(()) => listing_of(json_document(body)),
    }
}

/// Reads the answer to a request for the job listing.
pub fn jobs_from_response(status: u16, body: &str) -> (r: Result<AsvoJobVec, AsvoError>)
    ensures
        listing_result(r) == listing_answer(status, body@),
{
    match check_status(status, body) {
        Err(e) => Err(e),
        Ok(()) => parse_asvo_json(body),
    }
}

/// What the answer to a submission comes to for the caller: the body
/// decides, whatever the status.
pub open spec fn submission_answer(body: Seq<char>) -> Result<Option<AsvoJobID>, Failure> {
    match interpretation(json_document(body)) {
        Err(failure) => Err(failure),
        Ok(outcome) => submitted(outcome),
    }
}

/// Reads the answer to a submission: the identifier of the new job;
/// nothing where no job was created and the caller may go on (the job
/// exists already, or the observation cannot be had); or the error that
/// stops the caller's batch.
pub fn job_from_submission(body: &str) -> (r: Result<Option<AsvoJobID>, AsvoError>)
    ensures
        submission_view(r) == submission_answer(body@),
{
    match interpret(body) {
        Err(e) => Err(e),
        Ok(outcome) => submission_result(outcome),
    }
}

/// What the answer to a cancellation comes to: with status 200 the job is
/// cancelled; with 400 (the request is not valid) or 404 (no such job) it
/// is not, and that is no error; any other status is an error.
pub open spec fn cancellation(status: u16, jobid: AsvoJobID, body: Seq<char>) -> Result<
    Option<AsvoJobID>,
    Failure,
> {
    if status == 200 {
        Ok(Some(jobid))
    } else if status == 400 || status == 404 {
        Ok(None)
    } else {
        Err(Failure::BadStatus { code: status, message: body })
    }
}

/// Reads the answer to a cancellation.
pub fn cancel_outcome(status: u16, jobid: AsvoJobID, body: &str) -> (r: Result<
    Option<AsvoJobID>,
    AsvoError,
>)
    ensures
        submission_view(r) == cancellation(status, jobid, body@),
{
    if status == 200 {
        Ok(Some(jobid))
    } else if status == 400 || status == 404 {
        Ok(None)
    } else {
        Err(AsvoError::BadStatus { code: status, message: copy_str(body) })
    }
}

} // verus!
