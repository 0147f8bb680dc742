//! Downloading one job: which files it has and what each of them needs.

use super::error::{AsvoError, Failure};
use super::types::{
    file_entries, AsvoFilesArray, AsvoJob, AsvoJobID, AsvoJobState, Delivery, FileEntry, Job,
};
use crate::text::{
    decimal_digits, drop_empty, fields, lemma_drop_empty_members, opt_text, push_char,
    push_decimal, push_str, split, texts, Separator,
};
use vstd::prelude::*;

verus! {

/// The segments of the path of a URL, each percent-encoded, where the text
/// is a URL that has such a path.
pub uninterp spec fn url_segments(url: Seq<char>) -> Option<Seq<Seq<char>>>;

/// The character sequences of an optional list of strings.
pub open spec fn opt_texts(v: Option<Vec<String>>) -> Option<Seq<Seq<char>>> {
    match v {
        Some(list) => Some(texts(list@)),
        None => None,
    }
}

/// `Url::parse` followed by `Url::path_segments`: the segments of the URL's
/// path, in order. `None` where the text is no URL or the URL cannot be a
/// base. The grammar of URLs is only named here.
#[verifier::external_body]
pub(crate) fn path_segments(url: &str) -> (r: Option<Vec<String>>)
    ensures
        opt_texts(r) == url_segments(url@),
{
    let parsed = reqwest::Url::parse(url).ok()?;
    let segments = parsed.path_segments()?;
    Some(segments.map(|s| s.to_string()).collect())
}

/// The files of a job that may be downloaded: the job must be ready and
/// have at least one file.
pub open spec fn files_of_ready(job: Job) -> Result<Seq<FileEntry>, Failure> {
    if !(job.state is Ready) {
        Err(Failure::NotReady { jobid: job.jobid, state: job.state })
    } else {
        match job.files {
            None => Err(Failure::NoFiles(job.jobid)),
            Some(files) => if files.len() == 0 {
                Err(Failure::NoFiles(job.jobid))
            } else {
                Ok(files)
            },
        }
    }
}

/// The mathematical form of the outcome of [`downloadable_files`].
pub open spec fn files_outcome(r: Result<&Vec<AsvoFilesArray>, AsvoError>) -> Result<
    Seq<FileEntry>,
    Failure,
> {
    match r {
        Ok(files) => Ok(file_entries(files@)),
        Err(e) => Err(e@),
    }
}

/// The files to download for a job. Only a ready job permits transfer; a
/// ready job without files is an error too.
pub fn downloadable_files(job: &AsvoJob) -> (r: Result<&Vec<AsvoFilesArray>, AsvoError>)
    ensures
        files_outcome(r) == files_of_ready(job@),
        r matches Ok(files) ==> job.files == Some(*files),
{
    match &job.state {
        AsvoJobState::Ready => {},
        _ => {
            return Err(AsvoError::NotReady { jobid: job.jobid, state: job.state.clone() });
        },
    }
    match &job.files {
        None => Err(AsvoError::NoFiles(job.jobid)),
        Some(files) => {
            if files.len() == 0 {
                Err(AsvoError::NoFiles(job.jobid))
            } else {
                Ok(files)
            }
        },
    }
}

/// A cloud-delivered file that is ready to be requested.
#[derive(Debug)]
pub struct DownloadTarget {
    /// The signed URL.
    pub url: String,
    /// The name of the file in the destination directory.
    pub file_name: String,
    /// The declared size in bytes.
    pub size: u64,
    /// The expected SHA-1, in hexadecimal.
    pub sha1: String,
}

/// The mathematical form of a [`DownloadTarget`].
pub struct Target {
    pub url: Seq<char>,
    pub file_name: Seq<char>,
    pub size: u64,
    pub sha1: Seq<char>,
}

/// What one file of a job needs.
#[derive(Debug)]
pub enum FileStep {
    /// Request the file from the cloud.
    Download(DownloadTarget),
    /// Move the directory `path`, whose last component is `folder`, into
    /// the destination, if it can be seen from this host.
    Relocate { path: String, folder: String },
    /// The file lies on a filesystem that this host never sees; this is
    /// reported and is no error.
    Unreachable,
}

/// The mathematical form of a [`FileStep`].
pub enum Step {
    Download(Target),
    Relocate { path: Seq<char>, folder: Seq<char> },
    Unreachable,
}

impl View for DownloadTarget {
    type V = Target;

    open spec fn view(&self) -> Target {
        Target { url: self.url@, file_name: self.file_name@, size: self.size, sha1: self.sha1@ }
    }
}

impl View for FileStep {
    type V = Step;

    open spec fn view(&self) -> Step {
        match self {
            FileStep::Download(target) => Step::Download(target@),
            FileStep::Relocate { path, folder } => Step::Relocate {
                path: path@,
                folder: folder@,
            },
            FileStep::Unreachable => Step::Unreachable,
        }
    }
}

/// The last of a list of texts, if there is one and it is not empty.
pub open spec fn last_nonempty(list: Seq<Seq<char>>) -> Option<Seq<char>> {
    if list.len() > 0 && list.last().len() > 0 {
        Some(list.last())
    } else {
        None
    }
}

/// The name under which a file is stored: the last segment of its URL's
/// path, which must not be empty.
pub open spec fn file_name_of(segments: Option<Seq<Seq<char>>>) -> Option<Seq<char>> {
    match segments {
        Some(list) => last_nonempty(list),
        None => None,
    }
}

/// The last component of a path written with `/`: the last stretch between
/// slashes that is not empty.
pub open spec fn folder_of(path: Seq<char>) -> Option<Seq<char>> {
    last_nonempty(drop_empty(fields(path, Separator::Character('/'))))
}

/// What a file needs, given the segments of its URL where it has one.
pub open spec fn step_for(jobid: AsvoJobID, file: FileEntry, segments: Option<Seq<Seq<char>>>)
    -> Result<Step, Failure> {
    match file.delivery {
        Delivery::Acacia => match file.url {
            None => Err(Failure::NoUrl { job_id: jobid }),
            Some(url) => match file_name_of(segments) {
                None => Err(Failure::NoUrl { job_id: jobid }),
                Some(file_name) => match file.sha1 {
                    None => Err(Failure::NoHash { job_id: jobid }),
                    Some(sha1) => Ok(
                        Step::Download(Target { url, file_name, size: file.size, sha1 }),
                    ),
                },
            },
        },
        Delivery::Dug => Ok(Step::Unreachable),
        Delivery::Scratch => match file.path {
            None => Err(Failure::NoPath { job_id: jobid }),
            Some(path) => match folder_of(path) {
                None => Err(Failure::NoPath { job_id: jobid }),
                Some(folder) => Ok(Step::Relocate { path, folder }),
            },
        },
    }
}

/// The mathematical form of the outcome of [`file_step`].
pub open spec fn step_outcome(r: Result<FileStep, AsvoError>) -> Result<Step, Failure> {
    match r {
        Ok(step) => Ok(step@),
        Err(e) => Err(e@),
    }
}

/// The segments that matter for a file: those of its URL, if it has one.
pub open spec fn segments_of(file: FileEntry) -> Option<Seq<Seq<char>>> {
    match file.url {
        Some(url) => url_segments(url),
        None => None,
    }
}

fn last_nonempty_string(list: &Vec<String>) -> (r: Option<String>)
    ensures
        opt_text(r) == last_nonempty(texts(list@)),
{
    let n = list.len();
    if n == 0 {
        return None;
    }
    let last = &list[n - 1];
    assert(texts(list@).last() == last@);
    if last.as_str().unicode_len() > 0 {
        Some(last.clone())
    } else {
        None
    }
}

/// The last component of a path written with `/`.
pub fn folder_name(path: &str) -> (r: Option<String>)
    ensures
        opt_text(r) == folder_of(path@),
{
    let parts = split(path, Separator::Character('/'));
    let ghost all = texts(parts@);
    let mut found: Option<String> = None;
    let mut i: usize = 0;
    proof {
        assert(all.take(0) =~= Seq::<Seq<char>>::empty());
    }
    while i < parts.len()
        invariant
            i <= parts.len(),
            all == texts(parts@),
            opt_text(found) == last_nonempty(drop_empty(all.take(i as int))),
        decreases parts.len() - i,
    {
        proof {
            assert(all.take(i + 1).drop_last() == all.take(i as int));
            assert(all.take(i + 1).last() == parts@[i as int]@);
            lemma_drop_empty_members(all.take(i as int));
        }
        if parts[i].as_str().unicode_len() > 0 {
            found = Some(parts[i].clone());
        }
        i += 1;
    }
    proof {
        assert(all.take(parts.len() as int) == all);
    }
    found
}

/// Decides what a file needs, given the segments of its URL's path.
pub fn file_step_with(jobid: AsvoJobID, file: &AsvoFilesArray, segments: Option<Vec<String>>) -> (r:
    Result<FileStep, AsvoError>)
    ensures
        step_outcome(r) == step_for(jobid, file@, opt_texts(segments)),
{
    match file.delivery {
        Delivery::Acacia => {
            let url = match &file.url {
                None => {
                    return Err(AsvoError::NoUrl { job_id: jobid });
                },
                Some(url) => url,
            };
            let name = match &segments {
                None => None,
                Some(list) => last_nonempty_string(list),
            };
            let file_name = match name {
                None => {
                    return Err(AsvoError::NoUrl { job_id: jobid });
                },
                Some(file_name) => file_name,
            };
            match &file.sha1 {
                None => Err(AsvoError::NoHash { job_id: jobid }),
                Some(sha1) => Ok(
                    FileStep::Download(
                        DownloadTarget {
                            url: url.clone(),
                            file_name,
                            size: file.size,
                            sha1: sha1.clone(),
                        },
                    ),
                ),
            }
        },
        Delivery::Dug => Ok(FileStep::Unreachable),
        Delivery::Scratch => {
            match &file.path {
                None => Err(AsvoError::NoPath { job_id: jobid }),
                Some(path) => match folder_name(path.as_str()) {
                    None => Err(AsvoError::NoPath { job_id: jobid }),
                    Some(folder) => Ok(FileStep::Relocate { path: path.clone(), folder }),
                },
            }
        },
    }
}

/// Decides what a file of a job needs. A cloud-delivered file needs a URL
/// whose path ends in a file name, and a hash; a file on the scratch
/// filesystem needs a path with a last component. Where one of these is
/// missing the manifest itself is at fault, and the error says what is
/// missing.
pub fn file_step(jobid: AsvoJobID, file: &AsvoFilesArray) -> (r: Result<FileStep, AsvoError>)
    ensures
        step_outcome(r) == step_for(jobid, file@, segments_of(file@)),
{
    let segments = match &file.url {
        Some(url) => path_segments(url.as_str()),
        None => None,
    };
    file_step_with(jobid, file, segments)
}

/// What becomes of a directory on a shared filesystem.
#[derive(Clone, Copy, Debug, PartialEq, Eq, Structural)]
pub enum Relocation {
    /// The directory can be seen from this host: move it into the
    /// destination.
    Move,
    /// It cannot: say so and go on. This is no error.
    Report,
}

/// Decides what becomes of a directory, given whether this host sees it.
pub fn relocation(visible: bool) -> (r: Relocation)
    ensures
        r == if visible {
            Relocation::Move
        } else {
            Relocation::Report
        },
{
    if visible {
        Relocation::Move
    } else {
        Relocation::Report
    }
}

/// The words that begin every report about one download:
/// `Job ID <job> (obsid: <obsid>) [<number>/<count>]:`.
pub open spec fn log_prefix_text(jobid: AsvoJobID, obsid: u64, number: u64, count: u64) -> Seq<
    char,
> {
    "Job ID "@ + decimal_digits(jobid as nat) + " (obsid: "@ + decimal_digits(obsid as nat)
        + ") ["@ + decimal_digits(number as nat) + seq!['/'] + decimal_digits(count as nat)
        + "]:"@
}

/// Builds the words that begin every report about one download.
pub fn log_prefix(job: &AsvoJob, number: u64, count: u64) -> (prefix: String)
    ensures
        prefix@ == log_prefix_text(job.jobid, job.obsid@, number, count),
{
    let mut s = String::new();
    push_str(&mut s, "Job ID ");
    push_decimal(&mut s, job.jobid as u64);
    push_str(&mut s, " (obsid: ");
    push_decimal(&mut s, job.obsid.value());
    push_str(&mut s, ") [");
    push_decimal(&mut s, number);
    push_char(&mut s, '/');
    push_decimal(&mut s, count);
    push_str(&mut s, "]:");
    proof {
        assert(s@ =~= log_prefix_text(job.jobid, job.obsid@, number, count));
    }
    s
}

} // verus!
