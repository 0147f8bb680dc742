//! Submitting jobs: reading what the service answers.
//!
//! The answer to a submission is a JSON object in one of four layouts, told
//! apart only by the members they have. The layouts are tried in a fixed
//! order, the one with the most members first, and the first that fits
//! decides.

use super::error::{AsvoError, Failure};
use super::json::{
    field_text, field_u32, json_document, json_of, parse_json, text_field, u32_field, Json,
    JsonFault, JsonFaultKind,
};
use super::types::{AsvoJobID, AsvoJobType};
use crate::text::{ends_with, starts_with};
use serde_json::Value;
use vstd::prelude::*;

verus! {

/// The layouts of an answer to a submission.
#[derive(Clone, Copy, Debug, PartialEq, Eq, Structural)]
pub enum Layout {
    /// `error`, `error_code` and `job_id`.
    JobIDWithError,
    /// `job_id`.
    JobID,
    /// `error_code` and `error`.
    ErrorWithCode,
    /// `error`.
    GenericError,
}

/// The number of layouts.
pub const LAYOUTS: usize = 4;

/// The order in which the layouts are tried. A layout that asks for more
/// members stands before every layout whose members are among its own, so
/// that a general layout never takes an answer that a more specific one
/// fits.
pub open spec fn layout_order() -> Seq<Layout> {
    seq![Layout::JobIDWithError, Layout::JobID, Layout::ErrorWithCode, Layout::GenericError]
}

/// The layout at position `i` of [`layout_order`].
pub fn layout_at(i: usize) -> (layout: Layout)
    requires
        i < LAYOUTS,
    ensures
        layout == layout_order()[i as int],
{
    if i == 0 {
        Layout::JobIDWithError
    } else if i == 1 {
        Layout::JobID
    } else if i == 2 {
        Layout::ErrorWithCode
    } else {
        Layout::GenericError
    }
}

/// A decoded answer to a submission.
#[derive(PartialEq, Eq, Debug)]
pub enum AsvoSubmitJobResponse {
    JobIDWithError { error: String, error_code: u32, job_id: AsvoJobID },
    JobID { job_id: AsvoJobID },
    ErrorWithCode { error_code: u32, error: String },
    GenericError { error: String },
}

/// The mathematical form of an [`AsvoSubmitJobResponse`].
pub enum Answer {
    JobIDWithError { error: Seq<char>, error_code: u32, job_id: AsvoJobID },
    JobID { job_id: AsvoJobID },
    ErrorWithCode { error_code: u32, error: Seq<char> },
    GenericError { error: Seq<char> },
}

impl View for AsvoSubmitJobResponse {
    type V = Answer;

    open spec fn view(&self) -> Answer {
        match self {
            AsvoSubmitJobResponse::JobIDWithError { error, error_code, job_id } => {
                Answer::JobIDWithError { error: error@, error_code: *error_code, job_id: *job_id }
            },
            AsvoSubmitJobResponse::JobID { job_id } => Answer::JobID { job_id: *job_id },
            AsvoSubmitJobResponse::ErrorWithCode { error_code, error } => Answer::ErrorWithCode {
                error_code: *error_code,
                error: error@,
            },
            AsvoSubmitJobResponse::GenericError { error } => Answer::GenericError {
                error: error@,
            },
        }
    }
}

/// The mathematical form of an optional answer.
pub open spec fn optional_answer(r: Option<AsvoSubmitJobResponse>) -> Option<Answer> {
    match r {
        Some(a) => Some(a@),
        None => None,
    }
}

/// The answer that `doc` is when read in one layout: every member of the
/// layout must be there with the right type; other members do not matter.
pub open spec fn read_as(doc: Json, layout: Layout) -> Option<Answer> {
    let error = field_text(doc, "error"@);
    let error_code = field_u32(doc, "error_code"@);
    let job_id = field_u32(doc, "job_id"@);
    match layout {
        Layout::JobIDWithError => if error is Some && error_code is Some && job_id is Some {
            Some(
                Answer::JobIDWithError {
                    error: error->0,
                    error_code: error_code->0,
                    job_id: job_id->0,
                },
            )
        } else {
            None
        },
        Layout::JobID => if job_id is Some {
            Some(Answer::JobID { job_id: job_id->0 })
        } else {
            None
        },
        Layout::ErrorWithCode => if error_code is Some && error is Some {
            Some(Answer::ErrorWithCode { error_code: error_code->0, error: error->0 })
        } else {
            None
        },
        Layout::GenericError => if error is Some {
            Some(Answer::GenericError { error: error->0 })
        } else {
            None
        },
    }
}

/// The answer that `doc` is in the first layout, from position `from` of
/// `order` on, that it fits.
pub open spec fn first_fit(doc: Json, order: Seq<Layout>, from: int) -> Option<Answer>
    decreases order.len() - from,
{
    if from < 0 || from >= order.len() {
        None
    } else {
        match read_as(doc, order[from]) {
            Some(answer) => Some(answer),
            None => first_fit(doc, order, from + 1),
        }
    }
}

/// The answer that a document is.
pub open spec fn answer_of(doc: Json) -> Option<Answer> {
    first_fit(doc, layout_order(), 0)
}

/// Reads a document in one layout.
pub fn read_layout(doc: &Value, layout: Layout) -> (r: Option<AsvoSubmitJobResponse>)
    ensures
        optional_answer(r) == read_as(json_of(*doc), layout),
{
    match layout {
        Layout::JobIDWithError => {
            match (text_field(doc, "error"), u32_field(doc, "error_code"), u32_field(doc, "job_id")) {
                (Some(error), Some(error_code), Some(job_id)) => Some(
                    AsvoSubmitJobResponse::JobIDWithError { error, error_code, job_id },
                ),
                _ => None,
            }
        },
        Layout::JobID => {
            match u32_field(doc, "job_id") {
                Some(job_id) => Some(AsvoSubmitJobResponse::JobID { job_id }),
                None => None,
            }
        },
        Layout::ErrorWithCode => {
            match (u32_field(doc, "error_code"), text_field(doc, "error")) {
                (Some(error_code), Some(error)) => Some(
                    AsvoSubmitJobResponse::ErrorWithCode { error_code, error },
                ),
                _ => None,
            }
        },
        Layout::GenericError => {
            match text_field(doc, "error") {
                Some(error) => Some(AsvoSubmitJobResponse::GenericError { error }),
                None => None,
            }
        },
    }
}

/// Decodes the answer to a submission: tries the layouts in their order and
/// returns the first that fits, or `None` if none does.
pub fn decode_response(doc: &Value) -> (r: Option<AsvoSubmitJobResponse>)
    ensures
        optional_answer(r) == answer_of(json_of(*doc)),
{
    let mut i: usize = 0;
    while i < LAYOUTS
        invariant
            i <= LAYOUTS,
            layout_order().len() == LAYOUTS,
            answer_of(json_of(*doc)) == first_fit(json_of(*doc), layout_order(), i as int),
        decreases LAYOUTS - i,
    {
        match read_layout(doc, layout_at(i)) {
            Some(answer) => {
                return Some(answer);
            },
            None => {},
        }
        i += 1;
    }
    None
}

/// The answer that a parsed document is, or the reason why it is none.
pub open spec fn parsed_answer(doc: Option<Json>) -> Result<Answer, Failure> {
    match doc {
        None => Err(Failure::BadJson(JsonFaultKind::Syntax)),
        Some(json) => match answer_of(json) {
            None => Err(Failure::BadJson(JsonFaultKind::Layout)),
            Some(answer) => Ok(answer),
        },
    }
}

/// The mathematical form of the result of [`AsvoSubmitJobResponse::parse`].
pub open spec fn answer_result(r: Result<AsvoSubmitJobResponse, AsvoError>) -> Result<
    Answer,
    Failure,
> {
    match r {
        Ok(a) => Ok(a@),
        Err(e) => Err(e@),
    }
}

impl AsvoSubmitJobResponse {
    /// Decodes the body of the answer to a submission.
    pub fn parse(raw_json: &str) -> (r: Result<AsvoSubmitJobResponse, AsvoError>)
        ensures
            answer_result(r) == parsed_answer(json_document(raw_json@)),
    {
        match parse_json(raw_json) {
            Err(e) => Err(AsvoError::BadJson(JsonFault::Syntax(e))),
            Ok(doc) => match decode_response(&doc) {
                Some(answer) => Ok(answer),
                None => Err(AsvoError::BadJson(JsonFault::Layout)),
            },
        }
    }
}

/// What a submission came to.
#[derive(PartialEq, Eq, Debug)]
pub enum SubmissionOutcome {
    /// The job was freshly created.
    NewJob(AsvoJobID),
    /// An equivalent job already existed and nothing new was queued. This is
    /// no error.
    DuplicateJob(AsvoJobID),
    /// The request was invalid in a way that lets the caller go on with its
    /// other requests: no job was created.
    RecoverableRejection(String),
    /// Anything else: the caller's batch must stop.
    FatalRejection { code: u32, message: String },
}

/// The mathematical form of a [`SubmissionOutcome`].
pub enum Outcome {
    NewJob(AsvoJobID),
    DuplicateJob(AsvoJobID),
    RecoverableRejection(Seq<char>),
    FatalRejection { code: u32, message: Seq<char> },
}

impl View for SubmissionOutcome {
    type V = Outcome;

    open spec fn view(&self) -> Outcome {
        match self {
            SubmissionOutcome::NewJob(id) => Outcome::NewJob(*id),
            SubmissionOutcome::DuplicateJob(id) => Outcome::DuplicateJob(*id),
            SubmissionOutcome::RecoverableRejection(message) => Outcome::RecoverableRejection(
                message@,
            ),
            SubmissionOutcome::FatalRejection { code, message } => Outcome::FatalRejection {
                code: *code,
                message: message@,
            },
        }
    }
}

/// The error code by which the service says that the job exists already.
pub const DUPLICATE_CODE: u32 = 2;

/// The error code that the service gives to invalid input.
pub const INVALID_INPUT_CODE: u32 = 0;

/// The code under which an error without a code of its own is reported.
pub const GENERIC_CODE: u32 = 999;

/// Whether a message under [`INVALID_INPUT_CODE`] says that no job could be
/// created for this observation, and nothing worse: the observation has no
/// files, or does not exist.
pub open spec fn is_recoverable(message: Seq<char>) -> bool {
    ||| "Unable to submit job. Observation"@.is_prefix_of(message)
    ||| ("Observation "@.is_prefix_of(message) && " does not exist"@.is_suffix_of(message))
}

/// What an answer comes to.
pub open spec fn outcome_of(answer: Answer) -> Outcome {
    match answer {
        Answer::JobIDWithError { error, error_code, job_id } => if error_code == DUPLICATE_CODE {
            Outcome::DuplicateJob(job_id)
        } else {
            Outcome::FatalRejection { code: error_code, message: error }
        },
        Answer::JobID { job_id } => Outcome::NewJob(job_id),
        Answer::ErrorWithCode { error_code, error } => if error_code == INVALID_INPUT_CODE
            && is_recoverable(error) {
            Outcome::RecoverableRejection(error)
        } else {
            Outcome::FatalRejection { code: error_code, message: error }
        },
        Answer::GenericError { error } => Outcome::FatalRejection {
            code: GENERIC_CODE,
            message: error,
        },
    }
}

/// Tells what a decoded answer comes to.
pub fn outcome(answer: AsvoSubmitJobResponse) -> (r: SubmissionOutcome)
    ensures
        r@ == outcome_of(answer@),
{
    match answer {
        AsvoSubmitJobResponse::JobIDWithError { error, error_code, job_id } => {
            if error_code == DUPLICATE_CODE {
                SubmissionOutcome::DuplicateJob(job_id)
            } else {
                SubmissionOutcome::FatalRejection { code: error_code, message: error }
            }
        },
        AsvoSubmitJobResponse::JobID { job_id } => SubmissionOutcome::NewJob(job_id),
        AsvoSubmitJobResponse::ErrorWithCode { error_code, error } => {
            let recoverable = error_code == INVALID_INPUT_CODE && (starts_with(
                error.as_str(),
                "Unable to submit job. Observation",
            ) || (starts_with(error.as_str(), "Observation ") && ends_with(
                error.as_str(),
                " does not exist",
            )));
            if recoverable {
                SubmissionOutcome::RecoverableRejection(error)
            } else {
                SubmissionOutcome::FatalRejection { code: error_code, message: error }
            }
        },
        AsvoSubmitJobResponse::GenericError { error } => SubmissionOutcome::FatalRejection {
            code: GENERIC_CODE,
            message: error,
        },
    }
}

/// What a parsed document comes to as the answer to a submission.
pub open spec fn interpretation(doc: Option<Json>) -> Result<Outcome, Failure> {
    match doc {
        None => Err(Failure::BadJson(JsonFaultKind::Syntax)),
        Some(json) => match answer_of(json) {
            None => Err(Failure::BadJson(JsonFaultKind::Layout)),
            Some(answer) => Ok(outcome_of(answer)),
        },
    }
}

/// The mathematical form of the result of [`interpret`].
pub open spec fn interpreted(r: Result<SubmissionOutcome, AsvoError>) -> Result<
    Outcome,
    Failure,
> {
    match r {
        Ok(o) => Ok(o@),
        Err(e) => Err(e@),
    }
}

/// Interprets a parsed answer to a submission.
pub fn interpret_document(doc: &Value) -> (r: Result<SubmissionOutcome, AsvoError>)
    ensures
        interpreted(r) == interpretation(Some(json_of(*doc))),
{
    match decode_response(doc) {
        Some(answer) => Ok(outcome(answer)),
        None => Err(AsvoError::BadJson(JsonFault::Layout)),
    }
}

/// Interprets the body of the answer to a submission. A body that is not
/// JSON, or that fits none of the layouts, is a decode error: nothing is
/// guessed.
pub fn interpret(raw_json: &str) -> (r: Result<SubmissionOutcome, AsvoError>)
    ensures
        interpreted(r) == interpretation(json_document(raw_json@)),
{
    match parse_json(raw_json) {
        Ok(doc) => interpret_document(&doc),
        Err(e) => Err(AsvoError::BadJson(JsonFault::Syntax(e))),
    }
}

/// What the caller of a submission gets: the new job's identifier, or
/// nothing where no job was created and the batch may go on, or the error
/// that stops the batch.
pub open spec fn submitted(outcome: Outcome) -> Result<Option<AsvoJobID>, Failure> {
    match outcome {
        Outcome::NewJob(id) => Ok(Some(id)),
        Outcome::DuplicateJob(_) => Ok(None),
        Outcome::RecoverableRejection(_) => Ok(None),
        Outcome::FatalRejection { code, message } => Err(Failure::BadRequest { code, message }),
    }
}

/// The mathematical form of the result of a submission.
pub open spec fn submission_view(r: Result<Option<AsvoJobID>, AsvoError>) -> Result<
    Option<AsvoJobID>,
    Failure,
> {
    match r {
        Ok(id) => Ok(id),
        Err(e) => Err(e@),
    }
}

/// Turns the outcome of a submission into what the caller of the
/// submission gets.
pub fn submission_result(outcome: SubmissionOutcome) -> (r: Result<Option<AsvoJobID>, AsvoError>)
    ensures
        submission_view(r) == submitted(outcome@),
{
    match outcome {
        SubmissionOutcome::NewJob(id) => Ok(Some(id)),
        SubmissionOutcome::DuplicateJob(_) => Ok(None),
        SubmissionOutcome::RecoverableRejection(_) => Ok(None),
        SubmissionOutcome::FatalRejection { code, message } => Err(
            AsvoError::BadRequest { code, message },
        ),
    }
}

/// An answer that has all of `error`, `error_code` and `job_id` is read in
/// the layout of those three, also though it fits the layout of `job_id`
/// alone and every other: it is a duplicate under [`DUPLICATE_CODE`] and a
/// fatal rejection under any other code, never a new job.
pub proof fn lemma_specific_layout_wins(doc: Json)
    requires
        field_text(doc, "error"@) is Some,
        field_u32(doc, "error_code"@) is Some,
        field_u32(doc, "job_id"@) is Some,
    ensures
        read_as(doc, Layout::JobID) is Some,
        read_as(doc, Layout::ErrorWithCode) is Some,
        read_as(doc, Layout::GenericError) is Some,
        answer_of(doc) == read_as(doc, Layout::JobIDWithError),
        interpretation(Some(doc)) == Ok::<Outcome, Failure>(
            if field_u32(doc, "error_code"@)->0 == DUPLICATE_CODE {
                Outcome::DuplicateJob(field_u32(doc, "job_id"@)->0)
            } else {
                Outcome::FatalRejection {
                    code: field_u32(doc, "error_code"@)->0,
                    message: field_text(doc, "error"@)->0,
                }
            },
        ),
{
}

/// Each layout, met alone, gives its own outcome.
pub proof fn lemma_each_layout(doc: Json)
    ensures
        field_u32(doc, "job_id"@) is Some && !(field_text(doc, "error"@) is Some && field_u32(
            doc,
            "error_code"@,
        ) is Some) ==> interpretation(Some(doc)) == Ok::<Outcome, Failure>(
            Outcome::NewJob(field_u32(doc, "job_id"@)->0),
        ),
        field_u32(doc, "job_id"@) is None && field_u32(doc, "error_code"@) is Some && field_text(
            doc,
            "error"@,
        ) is Some ==> answer_of(doc) == Some(
            Answer::ErrorWithCode {
                error_code: field_u32(doc, "error_code"@)->0,
                error: field_text(doc, "error"@)->0,
            },
        ),
        field_u32(doc, "job_id"@) is None && field_u32(doc, "error_code"@) is None && field_text(
            doc,
            "error"@,
        ) is Some ==> interpretation(Some(doc)) == Ok::<Outcome, Failure>(
            Outcome::FatalRejection {
                code: GENERIC_CODE,
                message: field_text(doc, "error"@)->0,
            },
        ),
        field_u32(doc, "job_id"@) is None && field_text(doc, "error"@) is None
            ==> interpretation(Some(doc)) == Err::<Outcome, Failure>(
            Failure::BadJson(JsonFaultKind::Layout),
        ),
{
    reveal_with_fuel(first_fit, 5);
}

/// The path of the service that takes submissions of a type of job.
pub open spec fn api_path_of(job_type: AsvoJobType) -> Option<Seq<char>> {
    match job_type {
        AsvoJobType::Conversion => Some("conversion_job"@),
        AsvoJobType::DownloadVisibilities => Some("download_vis_job"@),
        AsvoJobType::DownloadMetadata => Some("download_vis_job"@),
        AsvoJobType::DownloadVoltage => Some("voltage_job"@),
        AsvoJobType::CancelJob => None,
    }
}

/// The path of the service that takes submissions of a type of job. A job
/// that cancels another cannot be submitted.
pub fn api_path(job_type: AsvoJobType) -> (r: Result<&'static str, AsvoError>)
    ensures
        match api_path_of(job_type) {
            Some(path) => (r matches Ok(p) && p@ == path),
            None => (r matches Err(e) && e@ == Failure::UnsupportedType(job_type)),
        },
{
    match job_type {
        AsvoJobType::Conversion => Ok("conversion_job"),
        AsvoJobType::DownloadVisibilities => Ok("download_vis_job"),
        AsvoJobType::DownloadMetadata => Ok("download_vis_job"),
        AsvoJobType::DownloadVoltage => Ok("voltage_job"),
        AsvoJobType::CancelJob => Err(AsvoError::UnsupportedType(job_type)),
    }
}

} // verus!
