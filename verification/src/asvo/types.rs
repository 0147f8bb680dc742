//! ASVO data types.

use super::error::{AsvoError, Failure};
use crate::obsid::Obsid;
use crate::text::{
    clone_opt_text, copy_str, opt_str, opt_text, sanitize_identifier, sanitized, str_eq,
};
use std::collections::BTreeMap;
use std::str::FromStr;
use vstd::prelude::*;

verus! {

/// The identifier of a job. A plain number: a newtype would add nothing.
pub type AsvoJobID = u32;

/// All of the available types of ASVO jobs.
#[derive(PartialEq, Eq, Debug, Clone, Copy, Structural)]
pub enum AsvoJobType {
    Conversion,
    DownloadVisibilities,
    DownloadMetadata,
    DownloadVoltage,
    CancelJob,
}

/// Where the files of a job are delivered.
#[derive(Clone, Copy, PartialEq, Eq, Debug, Structural)]
pub enum Delivery {
    /// "The cloud": the files can be downloaded from anywhere through a
    /// signed, time-limited URL.
    Acacia,
    /// The DUG filesystem.
    Dug,
    /// The /scratch filesystem at the Pawsey Supercomputing Centre.
    Scratch,
}

/// How the files of a job are packed.
#[derive(Clone, Copy, PartialEq, Eq, Debug, Structural)]
pub enum DeliveryFormat {
    /// Tar up all files. Only relevant for non-voltage scratch jobs.
    Tar,
}

/// All of the states an ASVO job may be in.
#[derive(PartialEq, Eq, Debug)]
pub enum AsvoJobState {
    Queued,
    WaitCal,
    Staging,
    Staged,
    Downloading,
    Preprocessing,
    Preparing,
    Imaging,
    Delivering,
    Processing,
    Ready,
    Error(String),
    Expired,
    Cancelled,
}

/// The mathematical form of an [`AsvoJobState`].
pub enum JobState {
    Queued,
    WaitCal,
    Staging,
    Staged,
    Downloading,
    Preprocessing,
    Preparing,
    Imaging,
    Delivering,
    Processing,
    Ready,
    Error(Seq<char>),
    Expired,
    Cancelled,
}

impl View for AsvoJobState {
    type V = JobState;

    open spec fn view(&self) -> JobState {
        match self {
            AsvoJobState::Queued => JobState::Queued,
            AsvoJobState::WaitCal => JobState::WaitCal,
            AsvoJobState::Staging => JobState::Staging,
            AsvoJobState::Staged => JobState::Staged,
            AsvoJobState::Downloading => JobState::Downloading,
            AsvoJobState::Preprocessing => JobState::Preprocessing,
            AsvoJobState::Preparing => JobState::Preparing,
            AsvoJobState::Imaging => JobState::Imaging,
            AsvoJobState::Delivering => JobState::Delivering,
            AsvoJobState::Processing => JobState::Processing,
            AsvoJobState::Ready => JobState::Ready,
            AsvoJobState::Error(message) => JobState::Error(message@),
            AsvoJobState::Expired => JobState::Expired,
            AsvoJobState::Cancelled => JobState::Cancelled,
        }
    }
}

impl JobState {
    /// A state from which a job never moves on without having succeeded:
    /// it failed upstream, expired or was cancelled.
    pub open spec fn is_failure(self) -> bool {
        self is Error || self is Expired || self is Cancelled
    }

    /// The two states have the same name; the message of an error is not
    /// compared.
    pub open spec fn same_kind(self, other: JobState) -> bool {
        match (self, other) {
            (JobState::Error(_), JobState::Error(_)) => true,
            (JobState::Error(_), _) => false,
            (_, JobState::Error(_)) => false,
            _ => self == other,
        }
    }
}

impl Clone for AsvoJobState {
    fn clone(&self) -> (r: Self)
        ensures
            r@ == self@,
    {
        match self {
            AsvoJobState::Queued => AsvoJobState::Queued,
            AsvoJobState::WaitCal => AsvoJobState::WaitCal,
            AsvoJobState::Staging => AsvoJobState::Staging,
            AsvoJobState::Staged => AsvoJobState::Staged,
            AsvoJobState::Downloading => AsvoJobState::Downloading,
            AsvoJobState::Preprocessing => AsvoJobState::Preprocessing,
            AsvoJobState::Preparing => AsvoJobState::Preparing,
            AsvoJobState::Imaging => AsvoJobState::Imaging,
            AsvoJobState::Delivering => AsvoJobState::Delivering,
            AsvoJobState::Processing => AsvoJobState::Processing,
            AsvoJobState::Ready => AsvoJobState::Ready,
            AsvoJobState::Error(message) => AsvoJobState::Error(message.clone()),
            AsvoJobState::Expired => AsvoJobState::Expired,
            AsvoJobState::Cancelled => AsvoJobState::Cancelled,
        }
    }
}

impl AsvoJobState {
    /// Whether the two states are equal, messages included.
    pub fn same(&self, other: &AsvoJobState) -> (b: bool)
        ensures
            b == (self@ == other@),
    {
        match (self, other) {
            (AsvoJobState::Queued, AsvoJobState::Queued) => true,
            (AsvoJobState::WaitCal, AsvoJobState::WaitCal) => true,
            (AsvoJobState::Staging, AsvoJobState::Staging) => true,
            (AsvoJobState::Staged, AsvoJobState::Staged) => true,
            (AsvoJobState::Downloading, AsvoJobState::Downloading) => true,
            (AsvoJobState::Preprocessing, AsvoJobState::Preprocessing) => true,
            (AsvoJobState::Preparing, AsvoJobState::Preparing) => true,
            (AsvoJobState::Imaging, AsvoJobState::Imaging) => true,
            (AsvoJobState::Delivering, AsvoJobState::Delivering) => true,
            (AsvoJobState::Processing, AsvoJobState::Processing) => true,
            (AsvoJobState::Ready, AsvoJobState::Ready) => true,
            (AsvoJobState::Error(a), AsvoJobState::Error(b)) => str_eq(a.as_str(), b.as_str()),
            (AsvoJobState::Expired, AsvoJobState::Expired) => true,
            (AsvoJobState::Cancelled, AsvoJobState::Cancelled) => true,
            _ => false,
        }
    }

    /// Whether the two states have the same name, whatever the message of
    /// an error says.
    pub fn same_kind(&self, other: &AsvoJobState) -> (b: bool)
        ensures
            b == self@.same_kind(other@),
    {
        match (self, other) {
            (AsvoJobState::Error(_), AsvoJobState::Error(_)) => true,
            (AsvoJobState::Error(_), _) => false,
            (_, AsvoJobState::Error(_)) => false,
            _ => self.same(other),
        }
    }
}

/// A single file provided by an ASVO job.
#[derive(PartialEq, Eq, Debug)]
pub struct AsvoFilesArray {
    /// How the file is delivered.
    pub delivery: Delivery,
    /// For a cloud delivery, the signed URL. It is valid for a limited time
    /// and is not to be kept beyond the current run.
    pub url: Option<String>,
    /// For a filesystem delivery, the path.
    pub path: Option<String>,
    /// The declared size in bytes.
    pub size: u64,
    /// The SHA-1 of the contents, in hexadecimal.
    pub sha1: Option<String>,
}

/// The mathematical form of an [`AsvoFilesArray`].
pub struct FileEntry {
    pub delivery: Delivery,
    pub url: Option<Seq<char>>,
    pub path: Option<Seq<char>>,
    pub size: u64,
    pub sha1: Option<Seq<char>>,
}

impl View for AsvoFilesArray {
    type V = FileEntry;

    open spec fn view(&self) -> FileEntry {
        FileEntry {
            delivery: self.delivery,
            url: opt_text(self.url),
            path: opt_text(self.path),
            size: self.size,
            sha1: opt_text(self.sha1),
        }
    }
}

impl Clone for AsvoFilesArray {
    fn clone(&self) -> (r: Self)
        ensures
            r@ == self@,
    {
        AsvoFilesArray {
            delivery: self.delivery,
            url: clone_opt_text(&self.url),
            path: clone_opt_text(&self.path),
            size: self.size,
            sha1: clone_opt_text(&self.sha1),
        }
    }
}

/// The mathematical form of a list of files.
pub open spec fn file_entries(files: Seq<AsvoFilesArray>) -> Seq<FileEntry> {
    Seq::new(files.len(), |i: int| files[i]@)
}

/// The mathematical form of an optional list of files.
pub open spec fn opt_file_entries(files: Option<Vec<AsvoFilesArray>>) -> Option<Seq<FileEntry>> {
    match files {
        Some(v) => Some(file_entries(v@)),
        None => None,
    }
}

/// The sizes of the files together.
pub open spec fn sizes_sum(files: Seq<FileEntry>) -> nat
    decreases files.len(),
{
    if files.len() == 0 {
        0
    } else {
        sizes_sum(files.drop_last()) + files.last().size as nat
    }
}

/// The size of all the files together, in bytes; the largest number of 64
/// bits if they are larger than that.
pub fn total_size(files: &Vec<AsvoFilesArray>) -> (total: u64)
    ensures
        total == if sizes_sum(file_entries(files@)) <= u64::MAX {
            sizes_sum(file_entries(files@))
        } else {
            u64::MAX as nat
        },
{
    let ghost all = file_entries(files@);
    let mut total: u64 = 0;
    let mut i: usize = 0;
    proof {
        assert(all.take(0) =~= Seq::<FileEntry>::empty());
    }
    while i < files.len()
        invariant
            i <= files.len(),
            all == file_entries(files@),
            total == if sizes_sum(all.take(i as int)) <= u64::MAX {
                sizes_sum(all.take(i as int))
            } else {
                u64::MAX as nat
            },
        decreases files.len() - i,
    {
        proof {
            assert(all.take(i + 1).drop_last() == all.take(i as int));
            assert(all.take(i + 1).last() == files@[i as int]@);
        }
        total = total.saturating_add(files[i].size);
        i += 1;
    }
    proof {
        assert(all.take(files.len() as int) == all);
    }
    total
}

/// A copy of a list of files.
pub fn clone_files(files: &Vec<AsvoFilesArray>) -> (r: Vec<AsvoFilesArray>)
    ensures
        file_entries(r@) == file_entries(files@),
{
    let mut r: Vec<AsvoFilesArray> = Vec::new();
    let mut i: usize = 0;
    while i < files.len()
        invariant
            i <= files.len(),
            r.len() == i,
            forall|k: int| 0 <= k < i ==> r@[k]@ == files@[k]@,
        decreases files.len() - i,
    {
        r.push(files[i].clone());
        i += 1;
    }
    assert(file_entries(r@) =~= file_entries(files@));
    r
}

/// All of the metadata associated with an ASVO job.
#[derive(PartialEq, Eq, Debug)]
pub struct AsvoJob {
    pub obsid: Obsid,
    pub jobid: AsvoJobID,
    pub jtype: AsvoJobType,
    pub state: AsvoJobState,
    pub files: Option<Vec<AsvoFilesArray>>,
}

/// The mathematical form of an [`AsvoJob`].
pub struct Job {
    pub obsid: u64,
    pub jobid: AsvoJobID,
    pub jtype: AsvoJobType,
    pub state: JobState,
    pub files: Option<Seq<FileEntry>>,
}

impl View for AsvoJob {
    type V = Job;

    open spec fn view(&self) -> Job {
        Job {
            obsid: self.obsid@,
            jobid: self.jobid,
            jtype: self.jtype,
            state: self.state@,
            files: opt_file_entries(self.files),
        }
    }
}

impl Clone for AsvoJob {
    fn clone(&self) -> (r: Self)
        ensures
            r@ == self@,
    {
        let files = match &self.files {
            Some(v) => Some(clone_files(v)),
            None => None,
        };
        AsvoJob {
            obsid: self.obsid,
            jobid: self.jobid,
            jtype: self.jtype,
            state: self.state.clone(),
            files,
        }
    }
}

/// The mathematical form of a list of jobs.
pub open spec fn jobs_of(jobs: Seq<AsvoJob>) -> Seq<Job> {
    Seq::new(jobs.len(), |i: int| jobs[i]@)
}

/// A vector of ASVO jobs: one snapshot of the job listing.
#[derive(Debug)]
pub struct AsvoJobVec(pub Vec<AsvoJob>);

impl View for AsvoJobVec {
    type V = Seq<Job>;

    open spec fn view(&self) -> Seq<Job> {
        jobs_of(self.0@)
    }
}

/// A `BTreeMap` of ASVO job IDs against their jobs. Useful for efficiently
/// isolating specific jobs.
#[derive(Debug)]
pub struct AsvoJobMap(pub BTreeMap<AsvoJobID, AsvoJob>);

/// The type of job that a plain name stands for.
pub open spec fn job_type_named(name: Seq<char>) -> Option<AsvoJobType> {
    if name == "conversion"@ {
        Some(AsvoJobType::Conversion)
    } else if name == "downloadvisibilities"@ {
        Some(AsvoJobType::DownloadVisibilities)
    } else if name == "downloadmetadata"@ {
        Some(AsvoJobType::DownloadMetadata)
    } else if name == "downloadvoltage"@ {
        Some(AsvoJobType::DownloadVoltage)
    } else if name == "canceljob"@ {
        Some(AsvoJobType::CancelJob)
    } else {
        None
    }
}

/// The state that a plain name stands for. An error comes without a
/// message.
pub open spec fn job_state_named(name: Seq<char>) -> Option<JobState> {
    if name == "queued"@ {
        Some(JobState::Queued)
    } else if name == "waitcal"@ {
        Some(JobState::WaitCal)
    } else if name == "staging"@ {
        Some(JobState::Staging)
    } else if name == "staged"@ {
        Some(JobState::Staged)
    } else if name == "downloading"@ {
        Some(JobState::Downloading)
    } else if name == "preprocessing"@ {
        Some(JobState::Preprocessing)
    } else if name == "preparing"@ {
        Some(JobState::Preparing)
    } else if name == "imaging"@ {
        Some(JobState::Imaging)
    } else if name == "delivering"@ {
        Some(JobState::Delivering)
    } else if name == "processing"@ {
        Some(JobState::Processing)
    } else if name == "ready"@ {
        Some(JobState::Ready)
    } else if name == "error"@ {
        Some(JobState::Error(Seq::<char>::empty()))
    } else if name == "expired"@ {
        Some(JobState::Expired)
    } else if name == "cancelled"@ {
        Some(JobState::Cancelled)
    } else {
        None
    }
}

/// What a text typed by the user stands for as a type of job: case,
/// underscores and anything else but letters do not matter.
pub open spec fn read_job_type(s: Seq<char>) -> Result<AsvoJobType, Failure> {
    match job_type_named(sanitized(s)) {
        Some(t) => Ok(t),
        None => Err(Failure::InvalidJobType { str: s }),
    }
}

/// What a text typed by the user stands for as a state of a job.
pub open spec fn read_job_state(s: Seq<char>) -> Result<JobState, Failure> {
    match job_state_named(sanitized(s)) {
        Some(t) => Ok(t),
        None => Err(Failure::InvalidJobState { str: s }),
    }
}

/// The mathematical form of the result of [`AsvoJobType::parse`].
pub open spec fn job_type_outcome(r: Result<AsvoJobType, AsvoError>) -> Result<
    AsvoJobType,
    Failure,
> {
    match r {
        Ok(t) => Ok(t),
        Err(e) => Err(e@),
    }
}

/// The mathematical form of the result of [`AsvoJobState::parse`].
pub open spec fn job_state_outcome(r: Result<AsvoJobState, AsvoError>) -> Result<
    JobState,
    Failure,
> {
    match r {
        Ok(t) => Ok(t@),
        Err(e) => Err(e@),
    }
}

impl AsvoJobType {
    /// Reads a type of job from a text typed by the user.
    pub fn parse(s: &str) -> (r: Result<AsvoJobType, AsvoError>)
        ensures
            job_type_outcome(r) == read_job_type(s@),
    {
        let plain = sanitize_identifier(s);
        let name = plain.as_str();
        if str_eq(name, "conversion") {
            Ok(AsvoJobType::Conversion)
        } else if str_eq(name, "downloadvisibilities") {
            Ok(AsvoJobType::DownloadVisibilities)
        } else if str_eq(name, "downloadmetadata") {
            Ok(AsvoJobType::DownloadMetadata)
        } else if str_eq(name, "downloadvoltage") {
            Ok(AsvoJobType::DownloadVoltage)
        } else if str_eq(name, "canceljob") {
            Ok(AsvoJobType::CancelJob)
        } else {
            Err(AsvoError::InvalidJobType { str: copy_str(s) })
        }
    }

    /// The words for this type of job.
    pub fn name(&self) -> (r: &'static str)
        ensures
            r@ == self.name_text(),
    {
        match self {
            AsvoJobType::Conversion => "Conversion",
            AsvoJobType::DownloadVisibilities => "Download Visibilities",
            AsvoJobType::DownloadMetadata => "Download Metadata",
            AsvoJobType::DownloadVoltage => "Download Voltage",
            AsvoJobType::CancelJob => "Cancel Job",
        }
    }

    /// The words for this type of job.
    pub open spec fn name_text(self) -> Seq<char> {
        match self {
            AsvoJobType::Conversion => "Conversion"@,
            AsvoJobType::DownloadVisibilities => "Download Visibilities"@,
            AsvoJobType::DownloadMetadata => "Download Metadata"@,
            AsvoJobType::DownloadVoltage => "Download Voltage"@,
            AsvoJobType::CancelJob => "Cancel Job"@,
        }
    }
}

impl FromStr for AsvoJobType {
    type Err = AsvoError;

    fn from_str(s: &str) -> (r: Result<AsvoJobType, AsvoError>)
        ensures
            job_type_outcome(r) == read_job_type(s@),
    {
        AsvoJobType::parse(s)
    }
}

impl JobState {
    /// The words for this state; an error shows its message.
    pub open spec fn name_text(self) -> Seq<char> {
        match self {
            JobState::Queued => "Queued"@,
            JobState::WaitCal => "WaitCal"@,
            JobState::Staging => "Staging"@,
            JobState::Staged => "Staged"@,
            JobState::Downloading => "Downloading"@,
            JobState::Preprocessing => "Preprocessing"@,
            JobState::Preparing => "Preparing"@,
            JobState::Imaging => "Imaging"@,
            JobState::Delivering => "Delivering"@,
            JobState::Processing => "Processing"@,
            JobState::Ready => "Ready"@,
            JobState::Error(message) => "Error: "@ + message,
            JobState::Expired => "Expired"@,
            JobState::Cancelled => "Cancelled"@,
        }
    }
}

impl AsvoJobState {
    /// Reads the state of a job from a text typed by the user.
    pub fn parse(s: &str) -> (r: Result<AsvoJobState, AsvoError>)
        ensures
            job_state_outcome(r) == read_job_state(s@),
    {
        let plain = sanitize_identifier(s);
        let name = plain.as_str();
        if str_eq(name, "queued") {
            Ok(AsvoJobState::Queued)
        } else if str_eq(name, "waitcal") {
            Ok(AsvoJobState::WaitCal)
        } else if str_eq(name, "staging") {
            Ok(AsvoJobState::Staging)
        } else if str_eq(name, "staged") {
            Ok(AsvoJobState::Staged)
        } else if str_eq(name, "downloading") {
            Ok(AsvoJobState::Downloading)
        } else if str_eq(name, "preprocessing") {
            Ok(AsvoJobState::Preprocessing)
        } else if str_eq(name, "preparing") {
            Ok(AsvoJobState::Preparing)
        } else if str_eq(name, "imaging") {
            Ok(AsvoJobState::Imaging)
        } else if str_eq(name, "delivering") {
            Ok(AsvoJobState::Delivering)
        } else if str_eq(name, "processing") {
            Ok(AsvoJobState::Processing)
        } else if str_eq(name, "ready") {
            Ok(AsvoJobState::Ready)
        } else if str_eq(name, "error") {
            Ok(AsvoJobState::Error(String::new()))
        } else if str_eq(name, "expired") {
            Ok(AsvoJobState::Expired)
        } else if str_eq(name, "cancelled") {
            Ok(AsvoJobState::Cancelled)
        } else {
            Err(AsvoError::InvalidJobState { str: copy_str(s) })
        }
    }

    /// The words for this state; an error shows its message.
    pub fn name(&self) -> (r: String)
        ensures
            r@ == self@.name_text(),
    {
        match self {
            AsvoJobState::Queued => copy_str("Queued"),
            AsvoJobState::WaitCal => copy_str("WaitCal"),
            AsvoJobState::Staging => copy_str("Staging"),
            AsvoJobState::Staged => copy_str("Staged"),
            AsvoJobState::Downloading => copy_str("Downloading"),
            AsvoJobState::Preprocessing => copy_str("Preprocessing"),
            AsvoJobState::Preparing => copy_str("Preparing"),
            AsvoJobState::Imaging => copy_str("Imaging"),
            AsvoJobState::Delivering => copy_str("Delivering"),
            AsvoJobState::Processing => copy_str("Processing"),
            AsvoJobState::Ready => copy_str("Ready"),
            AsvoJobState::Error(message) => {
                let mut r = copy_str("Error: ");
                crate::text::push_str(&mut r, message.as_str());
                r
            },
            AsvoJobState::Expired => copy_str("Expired"),
            AsvoJobState::Cancelled => copy_str("Cancelled"),
        }
    }
}

impl FromStr for AsvoJobState {
    type Err = AsvoError;

    fn from_str(s: &str) -> (r: Result<AsvoJobState, AsvoError>)
        ensures
            job_state_outcome(r) == read_job_state(s@),
    {
        AsvoJobState::parse(s)
    }
}

impl Delivery {
    /// The name of this delivery, as the service writes it.
    pub open spec fn name_text(self) -> Seq<char> {
        match self {
            Delivery::Acacia => "acacia"@,
            Delivery::Dug => "dug"@,
            Delivery::Scratch => "scratch"@,
        }
    }

    /// The name of this delivery, as the service writes it.
    pub fn name(&self) -> (r: &'static str)
        ensures
            r@ == self.name_text(),
    {
        match self {
            Delivery::Acacia => "acacia",
            Delivery::Dug => "dug",
            Delivery::Scratch => "scratch",
        }
    }
}

impl DeliveryFormat {
    /// The name of this format, as the service writes it.
    pub open spec fn name_text(self) -> Seq<char> {
        match self {
            DeliveryFormat::Tar => "tar"@,
        }
    }

    /// The name of this format, as the service writes it.
    pub fn name(&self) -> (r: &'static str)
        ensures
            r@ == self.name_text(),
    {
        match self {
            DeliveryFormat::Tar => "tar",
        }
    }
}

/// What the environment says under a name.
#[derive(Debug)]
pub enum EnvSetting {
    /// The variable is not set.
    NotPresent,
    /// The variable is set to something that is not valid unicode.
    NotUnicode,
    /// The variable is set to this text.
    Value(String),
}

/// The mathematical form of an [`EnvSetting`].
pub enum Setting {
    NotPresent,
    NotUnicode,
    Value(Seq<char>),
}

impl View for EnvSetting {
    type V = Setting;

    open spec fn view(&self) -> Setting {
        match self {
            EnvSetting::NotPresent => Setting::NotPresent,
            EnvSetting::NotUnicode => Setting::NotUnicode,
            EnvSetting::Value(s) => Setting::Value(s@),
        }
    }
}

/// The delivery that the user may ask for under a name.
pub open spec fn delivery_asked(name: Seq<char>) -> Option<Delivery> {
    if name == "acacia"@ {
        Some(Delivery::Acacia)
    } else if name == "scratch"@ {
        Some(Delivery::Scratch)
    } else {
        None
    }
}

/// The delivery to use: what was asked for on the command line, else what
/// the environment says, else the cloud.
pub open spec fn delivery_choice(d: Option<Seq<char>>, env: Setting) -> Result<Delivery, Failure> {
    match d {
        Some(name) => match delivery_asked(name) {
            Some(delivery) => Ok(delivery),
            None => Err(Failure::InvalidDelivery(name)),
        },
        None => match env {
            Setting::Value(name) => match delivery_asked(name) {
                Some(delivery) => Ok(delivery),
                None => Err(Failure::InvalidDeliveryEnv(name)),
            },
            Setting::NotPresent => Ok(Delivery::Acacia),
            Setting::NotUnicode => Err(Failure::InvalidDeliveryEnvUnicode),
        },
    }
}

/// The format to use: what was asked for on the command line, else what
/// the environment says, else none.
pub open spec fn format_choice(d: Option<Seq<char>>, env: Setting) -> Result<
    Option<DeliveryFormat>,
    Failure,
> {
    match d {
        Some(name) => if name == "tar"@ {
            Ok(Some(DeliveryFormat::Tar))
        } else {
            Err(Failure::InvalidDeliveryFormat(name))
        },
        None => match env {
            Setting::Value(name) => if name == "tar"@ {
                Ok(Some(DeliveryFormat::Tar))
            } else {
                Err(Failure::InvalidDeliveryFormatEnv(name))
            },
            Setting::NotPresent => Ok(None),
            Setting::NotUnicode => Err(Failure::InvalidDeliveryFormatEnvUnicode),
        },
    }
}

/// The mathematical form of the result of [`Delivery::validate`].
pub open spec fn delivery_outcome(r: Result<Delivery, AsvoError>) -> Result<Delivery, Failure> {
    match r {
        Ok(d) => Ok(d),
        Err(e) => Err(e@),
    }
}

/// The mathematical form of the result of [`DeliveryFormat::validate`].
pub open spec fn format_outcome(r: Result<Option<DeliveryFormat>, AsvoError>) -> Result<
    Option<DeliveryFormat>,
    Failure,
> {
    match r {
        Ok(d) => Ok(d),
        Err(e) => Err(e@),
    }
}

fn delivery_from_name(name: &str) -> (r: Option<Delivery>)
    ensures
        r == delivery_asked(name@),
{
    if str_eq(name, "acacia") {
        Some(Delivery::Acacia)
    } else if str_eq(name, "scratch") {
        Some(Delivery::Scratch)
    } else {
        None
    }
}

impl Delivery {
    /// Chooses the delivery. `d` is what the user asked for, `env` what
    /// the environment says under `GIANT_SQUID_DELIVERY`; the environment
    /// is only looked at where the user asked for nothing.
    pub fn validate(d: Option<&str>, env: &EnvSetting) -> (r: Result<Delivery, AsvoError>)
        ensures
            delivery_outcome(r) == delivery_choice(opt_str(d), env@),
    {
        match d {
            Some(name) => match delivery_from_name(name) {
                Some(delivery) => Ok(delivery),
                None => Err(AsvoError::InvalidDelivery(copy_str(name))),
            },
            None => match env {
                EnvSetting::Value(name) => match delivery_from_name(name.as_str()) {
                    Some(delivery) => Ok(delivery),
                    None => Err(AsvoError::InvalidDeliveryEnv(name.clone())),
                },
                EnvSetting::NotPresent => Ok(Delivery::Acacia),
                EnvSetting::NotUnicode => Err(AsvoError::InvalidDeliveryEnvUnicode),
            },
        }
    }
}

impl DeliveryFormat {
    /// Chooses the format of the delivery. `d` is what the user asked for,
    /// `env` what the environment says under
    /// `GIANT_SQUID_DELIVERY_FORMAT`; the environment is only looked at
    /// where the user asked for nothing.
    pub fn validate(d: Option<&str>, env: &EnvSetting) -> (r: Result<
        Option<DeliveryFormat>,
        AsvoError,
    >)
        ensures
            format_outcome(r) == format_choice(opt_str(d), env@),
    {
        match d {
            Some(name) => {
                if str_eq(name, "tar") {
                    Ok(Some(DeliveryFormat::Tar))
                } else {
                    Err(AsvoError::InvalidDeliveryFormat(copy_str(name)))
                }
            },
            None => match env {
                EnvSetting::Value(name) => {
                    if str_eq(name.as_str(), "tar") {
                        Ok(Some(DeliveryFormat::Tar))
                    } else {
                        Err(AsvoError::InvalidDeliveryFormatEnv(name.clone()))
                    }
                },
                EnvSetting::NotPresent => Ok(None),
                EnvSetting::NotUnicode => Err(AsvoError::InvalidDeliveryFormatEnvUnicode),
            },
        }
    }
}

} // verus!
