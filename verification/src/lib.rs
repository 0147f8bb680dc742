//! An alternative, efficient and easy-to-use interface for the MWA ASVO.
//!
//! The MWA ASVO is a queue: a job is submitted for an observation, is
//! worked on for minutes or hours, and when it is ready its files can be
//! fetched. This library holds what a client of the queue has to decide:
//! how an answer to a submission is read, when a wait for jobs is over, and
//! how a file is transferred so that an interrupted transfer can be taken
//! up again and a damaged one is noticed. It sends no request and touches
//! no file; a program around it does, and hands it what it found.

pub mod asvo;
pub mod helpers;
pub mod obsid;
pub mod text;

pub use asvo::hash::check_file_sha1_hash;
pub use asvo::{
    get_asvo_server_address, AsvoError, AsvoFilesArray, AsvoJob, AsvoJobID, AsvoJobMap,
    AsvoJobState, AsvoJobType, AsvoJobVec, Delivery, DeliveryFormat,
};
pub use helpers::{
    get_job_state_table_style, get_job_type_table_style, parse_jobid_or_obsid,
    parse_jobids_and_obsids_from_file, parse_key_value_pairs, parse_many_jobids_or_obsids,
    Identifiers, ObsidOrJobID, ParseError, Progress,
};
pub use obsid::Obsid;
