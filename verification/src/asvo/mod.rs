//! Code to interface with the MWA ASVO.

pub mod asvo_serde;
pub mod catalog;
pub mod download;
pub mod error;
pub mod form;
pub mod hash;
pub mod json;
pub mod orchestrate;
pub mod retry;
pub mod service;
pub mod submit;
pub mod transfer;
pub mod types;
pub mod wait;

pub use error::AsvoError;
pub use service::get_asvo_server_address;
pub use types::{
    AsvoFilesArray, AsvoJob, AsvoJobID, AsvoJobMap, AsvoJobState, AsvoJobType, AsvoJobVec,
    Delivery, DeliveryFormat,
};
