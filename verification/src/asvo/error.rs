//! Errors when interfacing with the MWA ASVO.

use super::json::{JsonFault, JsonFaultKind};
use super::types::{AsvoJobID, AsvoJobState, AsvoJobType, JobState};
use crate::obsid::Obsid;
use std::num::ParseIntError;
use vstd::prelude::*;

verus! {

#[derive(Debug)]
#[allow(inconsistent_fields)]
pub enum AsvoError {
    /// The specified delivery argument was wrong.
    InvalidDelivery(String),
    /// The delivery argument in GIANT_SQUID_DELIVERY was wrong.
    InvalidDeliveryEnv(String),
    /// GIANT_SQUID_DELIVERY has invalid unicode.
    InvalidDeliveryEnvUnicode,
    /// The specified delivery format argument was wrong.
    InvalidDeliveryFormat(String),
    /// The delivery format argument in GIANT_SQUID_DELIVERY_FORMAT was wrong.
    InvalidDeliveryFormatEnv(String),
    /// GIANT_SQUID_DELIVERY_FORMAT has invalid unicode.
    InvalidDeliveryFormatEnvUnicode,
    /// User's MWA_ASVO_API_KEY environment variable is not defined.
    MissingAuthKey,
    /// The response had a status code other than "known" http status codes.
    BadStatus { code: u16, message: String },
    /// The response indicates a bad request.
    BadRequest { code: u32, message: String },
    /// Tried to download a job that doesn't exist.
    NoAsvoJob(AsvoJobID),
    /// Tried to download an obsid that doesn't exist.
    NoObsid(Obsid),
    /// Report to the caller that this job has expired.
    Expired(AsvoJobID),
    /// Report to the caller that this job has been cancelled.
    Cancelled(AsvoJobID),
    /// Tried to download an obsid, but it's associated with multiple jobs.
    TooManyObsids(Obsid),
    /// Tried to download a job that wasn't ready.
    NotReady { jobid: AsvoJobID, state: AsvoJobState },
    /// Tried to download a job with an empty file product array.
    NoFiles(AsvoJobID),
    /// Tried to submit a job type that isn't supported.
    UnsupportedType(AsvoJobType),
    /// ASVO SHA1 hash for a file didn't match our hash.
    HashMismatch { jobid: AsvoJobID, file: String, calculated_hash: String, expected_hash: String },
    /// Tried to download a job that has an error against it.
    UpstreamError { jobid: AsvoJobID, obsid: Obsid, error: String },
    /// Failed to decode the JSON from the body of a response.
    BadJson(JsonFault),
    /// A request failed on the network; the text is the HTTP client's
    /// account of it.
    Reqwest(String),
    /// A parse error.
    Parse(ParseIntError),
    /// Job state parsing error.
    InvalidJobState { str: String },
    /// An IO error on the local filesystem; the text is the system's
    /// account of it.
    IO(String),
    /// Job type parsing error.
    InvalidJobType { str: String },
    /// A cloud-delivered file without a usable URL.
    NoUrl { job_id: u32 },
    /// A filesystem-delivered file without a usable path.
    NoPath { job_id: u32 },
    /// A file of a delivery type that is not known.
    InvalidFileType { job_id: u32 },
    /// A cloud-delivered file without the hash of its contents.
    NoHash { job_id: u32 },
}

/// The mathematical form of an [`AsvoError`].
#[allow(inconsistent_fields)]
pub enum Failure {
    InvalidDelivery(Seq<char>),
    InvalidDeliveryEnv(Seq<char>),
    InvalidDeliveryEnvUnicode,
    InvalidDeliveryFormat(Seq<char>),
    InvalidDeliveryFormatEnv(Seq<char>),
    InvalidDeliveryFormatEnvUnicode,
    MissingAuthKey,
    BadStatus { code: u16, message: Seq<char> },
    BadRequest { code: u32, message: Seq<char> },
    NoAsvoJob(AsvoJobID),
    NoObsid(u64),
    Expired(AsvoJobID),
    Cancelled(AsvoJobID),
    TooManyObsids(u64),
    NotReady { jobid: AsvoJobID, state: JobState },
    NoFiles(AsvoJobID),
    UnsupportedType(AsvoJobType),
    HashMismatch {
        jobid: AsvoJobID,
        file: Seq<char>,
        calculated_hash: Seq<char>,
        expected_hash: Seq<char>,
    },
    UpstreamError { jobid: AsvoJobID, obsid: u64, error: Seq<char> },
    BadJson(JsonFaultKind),
    Reqwest(Seq<char>),
    Parse,
    InvalidJobState { str: Seq<char> },
    IO(Seq<char>),
    InvalidJobType { str: Seq<char> },
    NoUrl { job_id: u32 },
    NoPath { job_id: u32 },
    InvalidFileType { job_id: u32 },
    NoHash { job_id: u32 },
}

impl View for AsvoError {
    type V = Failure;

    open spec fn view(&self) -> Failure {
        match self {
            AsvoError::InvalidDelivery(d) => Failure::InvalidDelivery(d@),
            AsvoError::InvalidDeliveryEnv(d) => Failure::InvalidDeliveryEnv(d@),
            AsvoError::InvalidDeliveryEnvUnicode => Failure::InvalidDeliveryEnvUnicode,
            AsvoError::InvalidDeliveryFormat(d) => Failure::InvalidDeliveryFormat(d@),
            AsvoError::InvalidDeliveryFormatEnv(d) => Failure::InvalidDeliveryFormatEnv(d@),
            AsvoError::InvalidDeliveryFormatEnvUnicode => Failure::InvalidDeliveryFormatEnvUnicode,
            AsvoError::MissingAuthKey => Failure::MissingAuthKey,
            AsvoError::BadStatus { code, message } => Failure::BadStatus {
                code: *code,
                message: message@,
            },
            AsvoError::BadRequest { code, message } => Failure::BadRequest {
                code: *code,
                message: message@,
            },
            AsvoError::NoAsvoJob(id) => Failure::NoAsvoJob(*id),
            AsvoError::NoObsid(o) => Failure::NoObsid(o@),
            AsvoError::Expired(id) => Failure::Expired(*id),
            AsvoError::Cancelled(id) => Failure::Cancelled(*id),
            AsvoError::TooManyObsids(o) => Failure::TooManyObsids(o@),
            AsvoError::NotReady { jobid, state } => Failure::NotReady {
                jobid: *jobid,
                state: state@,
            },
            AsvoError::NoFiles(id) => Failure::NoFiles(*id),
            AsvoError::UnsupportedType(t) => Failure::UnsupportedType(*t),
            AsvoError::HashMismatch {
                jobid,
                file,
                calculated_hash,
                expected_hash,
            } => Failure::HashMismatch {
                jobid: *jobid,
                file: file@,
                calculated_hash: calculated_hash@,
                expected_hash: expected_hash@,
            },
            AsvoError::UpstreamError { jobid, obsid, error } => Failure::UpstreamError {
                jobid: *jobid,
                obsid: obsid@,
                error: error@,
            },
            AsvoError::BadJson(fault) => Failure::BadJson(fault@),
            AsvoError::Reqwest(what) => Failure::Reqwest(what@),
            AsvoError::Parse(_) => Failure::Parse,
            AsvoError::InvalidJobState { str } => Failure::InvalidJobState { str: str@ },
            AsvoError::IO(what) => Failure::IO(what@),
            AsvoError::InvalidJobType { str } => Failure::InvalidJobType { str: str@ },
            AsvoError::NoUrl { job_id } => Failure::NoUrl { job_id: *job_id },
            AsvoError::NoPath { job_id } => Failure::NoPath { job_id: *job_id },
            AsvoError::InvalidFileType { job_id } => Failure::InvalidFileType { job_id: *job_id },
            AsvoError::NoHash { job_id } => Failure::NoHash { job_id: *job_id },
        }
    }
}

/// The mathematical form of a result whose success carries nothing.
pub open spec fn unit_outcome(r: Result<(), AsvoError>) -> Result<(), Failure> {
    match r {
        Ok(()) => Ok(()),
        Err(e) => Err(e@),
    }
}

} // verus!
