//! The transfer engine: what to do for one file of a ready job.
//!
//! The engine decides; the caller performs. Nothing in this module touches
//! the disk or the network. The caller says what it found on disk, gets a
//! [`TransferPlan`], carries it out while passing every byte through a
//! [`HashedStream`], and hands the stream back to [`conclude`].

use super::error::{unit_outcome, AsvoError, Failure};
use super::hash::{check_hash, hash_verdict, sha1_hex, HashedStream};
use super::types::AsvoJobID;
use crate::text::{
    decimal_digits, eq_ignore_ascii_case, opt_text, parse_u64, parsed_u64, push_char,
    push_decimal, push_str, same_ignoring_ascii_case, to_chars,
};
use vstd::prelude::*;

verus! {

/// How the files of a job are to be transferred.
#[derive(Clone, Copy, Debug, PartialEq, Eq, Structural)]
pub struct TransferOptions {
    /// Keep the archive as it is, in one file, in place of unpacking it
    /// while it arrives. Only a kept archive can be resumed.
    pub keep_tar: bool,
    /// Never add to, nor replace, a file that is already on disk.
    pub no_resume: bool,
    /// Compare the digest of what was transferred with the manifest's hash.
    pub hash: bool,
}

/// What the engine asks of its caller for one cloud-delivered file.
#[derive(Clone, Copy, Debug, PartialEq, Eq, Structural)]
pub enum TransferPlan {
    /// Request the whole file and unpack the archive into the destination
    /// directory while it arrives.
    Unpack,
    /// Request the bytes from `from` up to, not including, `until`, and put
    /// them at the end of the destination file. With `from` zero the file
    /// is created, or emptied if it exists. With `from` above zero the file
    /// holds `from` bytes already: they pass through the hashed stream
    /// first, the response after them. Where `from` is not below `until`
    /// there is nothing to request, and nothing is requested.
    Fetch { from: u64, until: u64 },
    /// The file on disk has the declared size. Hash it and ask
    /// [`after_existing`] what to do.
    CheckExisting,
    /// A shorter file is on disk and resuming is off: the file is left
    /// alone and the transfer is over, without error.
    SkipPartial,
    /// The file on disk is complete and its hash matches: the transfer is
    /// over.
    AlreadyComplete,
    /// The file on disk has the declared size and another hash, and
    /// resuming is off: the file is left alone and the transfer is over,
    /// without error.
    MismatchLeftAlone,
}

impl TransferPlan {
    /// Whether carrying out the plan sends a request to the service.
    pub open spec fn sends_request(self) -> bool {
        match self {
            TransferPlan::Unpack => true,
            TransferPlan::Fetch { from, until } => from < until,
            _ => false,
        }
    }

    /// The value of the `Range` header of the request, where the plan
    /// sends a request for a part of the file: `bytes=<first>-<last>`, both
    /// ends counted in.
    pub open spec fn range_text(self) -> Option<Seq<char>> {
        match self {
            TransferPlan::Fetch { from, until } => if from < until {
                Some(
                    "bytes="@ + decimal_digits(from as nat) + seq!['-'] + decimal_digits(
                        (until - 1) as nat,
                    ),
                )
            } else {
                None
            },
            _ => None,
        }
    }

    /// The value of the `Range` header of the request, where the plan
    /// sends a request for a part of the file.
    pub fn range_header(&self) -> (r: Option<String>)
        ensures
            opt_text(r) == self.range_text(),
    {
        match self {
            TransferPlan::Fetch { from, until } => {
                if *from < *until {
                    let mut s = String::new();
                    push_str(&mut s, "bytes=");
                    push_decimal(&mut s, *from);
                    push_char(&mut s, '-');
                    push_decimal(&mut s, *until - 1);
                    proof {
                        assert(s@ =~= self.range_text()->0);
                    }
                    Some(s)
                } else {
                    None
                }
            },
            _ => None,
        }
    }

    /// Whether carrying out the plan sends a request to the service.
    pub fn needs_request(&self) -> (yes: bool)
        ensures
            yes == self.sends_request(),
    {
        match self {
            TransferPlan::Unpack => true,
            TransferPlan::Fetch { from, until } => *from < *until,
            _ => false,
        }
    }

    /// Whether the plan ends the transfer without another step.
    pub open spec fn is_final(self) -> bool {
        self is SkipPartial || self is AlreadyComplete || self is MismatchLeftAlone
    }
}

/// The plan for a file of `size` declared bytes, given the length of the
/// destination file where there is one.
pub open spec fn first_plan(options: TransferOptions, existing: Option<u64>, size: u64)
    -> TransferPlan {
    if !options.keep_tar {
        TransferPlan::Unpack
    } else {
        match existing {
            None => TransferPlan::Fetch { from: 0, until: size },
            Some(len) => if len == size {
                TransferPlan::CheckExisting
            } else if options.no_resume && len < size {
                TransferPlan::SkipPartial
            } else {
                TransferPlan::Fetch { from: len, until: size }
            },
        }
    }
}

/// The plan once the file on disk, of the declared size, has been hashed.
pub open spec fn plan_after_existing(options: TransferOptions, size: u64, matches: bool)
    -> TransferPlan {
    if matches {
        TransferPlan::AlreadyComplete
    } else if options.no_resume {
        TransferPlan::MismatchLeftAlone
    } else {
        TransferPlan::Fetch { from: 0, until: size }
    }
}

/// Decides how to start on a file. `existing` is the length of the
/// destination file, or `None` where there is no such file; it is only
/// looked at when the archive is kept.
pub fn plan_transfer(options: TransferOptions, existing: Option<u64>, size: u64) -> (plan:
    TransferPlan)
    ensures
        plan == first_plan(options, existing, size),
{
    if !options.keep_tar {
        return TransferPlan::Unpack;
    }
    match existing {
        None => TransferPlan::Fetch { from: 0, until: size },
        Some(len) => {
            if len == size {
                TransferPlan::CheckExisting
            } else if options.no_resume && len < size {
                TransferPlan::SkipPartial
            } else {
                TransferPlan::Fetch { from: len, until: size }
            }
        },
    }
}

/// Decides how to go on after [`TransferPlan::CheckExisting`]: `on_disk` is
/// the stream through which the whole file on disk has passed.
pub fn after_existing(
    options: TransferOptions,
    size: u64,
    expected_hash: &str,
    on_disk: HashedStream,
) -> (plan: TransferPlan)
    ensures
        plan == plan_after_existing(
            options,
            size,
            same_ignoring_ascii_case(sha1_hex(on_disk@), expected_hash@),
        ),
{
    let computed = on_disk.finish();
    if eq_ignore_ascii_case(computed.as_str(), expected_hash) {
        TransferPlan::AlreadyComplete
    } else if options.no_resume {
        TransferPlan::MismatchLeftAlone
    } else {
        TransferPlan::Fetch { from: 0, until: size }
    }
}

/// What a finished transfer comes to, given all the bytes that passed.
pub open spec fn conclusion(
    options: TransferOptions,
    jobid: AsvoJobID,
    file: Seq<char>,
    expected: Seq<char>,
    bytes: Seq<u8>,
) -> Result<(), Failure> {
    if options.hash {
        hash_verdict(jobid, file, expected, sha1_hex(bytes))
    } else {
        Ok(())
    }
}

/// Ends a transfer that sent a request. `stream` has seen every byte of the
/// response, also those that an archive decoder left unread at the end (and
/// before them, on a resumed file, the bytes that were on disk). With hash
/// checking on, the digest of the stream must agree with the manifest's; if
/// it does not, the file fails with a mismatch. Nothing is ever asked to be
/// deleted.
pub fn conclude(
    options: TransferOptions,
    jobid: AsvoJobID,
    file: &str,
    expected_hash: &str,
    stream: HashedStream,
) -> (r: Result<(), AsvoError>)
    ensures
        unit_outcome(r) == conclusion(options, jobid, file@, expected_hash@, stream@),
{
    if options.hash {
        check_hash(jobid, file, expected_hash, stream.finish())
    } else {
        Ok(())
    }
}

/// The transfer of one cloud-delivered file, from the look at the disk to
/// the verdict.
///
/// The caller begins with what it found on disk and reads the plan. Under
/// [`TransferPlan::CheckExisting`] it lets the whole file on disk pass
/// through [`FileTransfer::absorb`] and calls
/// [`FileTransfer::existing_checked`], which gives the plan that follows.
/// Under [`TransferPlan::Fetch`] and [`TransferPlan::Unpack`] it lets pass
/// what is on disk already (when a file is resumed) and then every byte of
/// the response, also those that an archive decoder left unread. At the end
/// stands [`FileTransfer::finish`].
pub struct FileTransfer {
    options: TransferOptions,
    jobid: AsvoJobID,
    file: String,
    expected_hash: String,
    size: u64,
    plan: TransferPlan,
    stream: HashedStream,
}

impl FileTransfer {
    /// What the caller is asked to do now.
    pub closed spec fn plan_of(&self) -> TransferPlan {
        self.plan
    }

    /// The bytes that have passed since the plan was made.
    pub closed spec fn passed(&self) -> Seq<u8> {
        self.stream@
    }

    /// How the file is to be transferred.
    pub closed spec fn options_of(&self) -> TransferOptions {
        self.options
    }

    /// The job that the file belongs to.
    pub closed spec fn jobid_of(&self) -> AsvoJobID {
        self.jobid
    }

    /// The name under which the file is reported: its URL.
    pub closed spec fn file_of(&self) -> Seq<char> {
        self.file@
    }

    /// The hash that the file is to have, in hexadecimal.
    pub closed spec fn expected_of(&self) -> Seq<char> {
        self.expected_hash@
    }

    /// The declared size of the file in bytes.
    pub closed spec fn size_of(&self) -> u64 {
        self.size
    }

    /// Begins the transfer of the file at `url`, of `size` declared bytes
    /// and with the hash `expected_hash`. `existing` is the length of the
    /// destination file, or `None` where there is no such file.
    pub fn begin(
        options: TransferOptions,
        jobid: AsvoJobID,
        url: &str,
        size: u64,
        expected_hash: &str,
        existing: Option<u64>,
    ) -> (transfer: FileTransfer)
        ensures
            transfer.plan_of() == first_plan(options, existing, size),
            transfer.passed() == Seq::<u8>::empty(),
            transfer.options_of() == options,
            transfer.jobid_of() == jobid,
            transfer.file_of() == url@,
            transfer.expected_of() == expected_hash@,
            transfer.size_of() == size,
    {
        FileTransfer {
            options,
            jobid,
            file: crate::text::copy_str(url),
            expected_hash: crate::text::copy_str(expected_hash),
            size,
            plan: plan_transfer(options, existing, size),
            stream: HashedStream::new(),
        }
    }

    /// What the caller is asked to do now.
    pub fn plan(&self) -> (plan: TransferPlan)
        ensures
            plan == self.plan_of(),
    {
        self.plan
    }

    /// Lets one more chunk of bytes pass. Nothing else changes.
    pub fn absorb(&mut self, chunk: &[u8])
        ensures
            final(self).passed() == old(self).passed() + chunk@,
            final(self).plan_of() == old(self).plan_of(),
            final(self).options_of() == old(self).options_of(),
            final(self).jobid_of() == old(self).jobid_of(),
            final(self).file_of() == old(self).file_of(),
            final(self).expected_of() == old(self).expected_of(),
            final(self).size_of() == old(self).size_of(),
    {
        self.stream.absorb(chunk);
    }

    /// Under [`TransferPlan::CheckExisting`], once the whole file on disk
    /// has passed: makes the plan that follows from its hash and starts
    /// over with the bytes. Under any other plan nothing changes.
    pub fn existing_checked(&mut self)
        ensures
            final(self).options_of() == old(self).options_of(),
            final(self).jobid_of() == old(self).jobid_of(),
            final(self).file_of() == old(self).file_of(),
            final(self).expected_of() == old(self).expected_of(),
            final(self).size_of() == old(self).size_of(),
            old(self).plan_of() is CheckExisting ==> final(self).plan_of() == plan_after_existing(
                old(self).options_of(),
                old(self).size_of(),
                same_ignoring_ascii_case(sha1_hex(old(self).passed()), old(self).expected_of()),
            ) && final(self).passed() == Seq::<u8>::empty(),
            !(old(self).plan_of() is CheckExisting) ==> final(self).plan_of() == old(
                self,
            ).plan_of() && final(self).passed() == old(self).passed(),
    {
        match self.plan {
            TransferPlan::CheckExisting => {
                let mut on_disk = HashedStream::new();
                std::mem::swap(&mut on_disk, &mut self.stream);
                self.plan =
                after_existing(self.options, self.size, self.expected_hash.as_str(), on_disk);
            },
            _ => {},
        }
    }

    /// What the transfer comes to, given its plan and all the bytes that
    /// passed.
    pub open spec fn verdict(&self) -> Result<(), Failure> {
        if self.plan_of().is_final() {
            Ok(())
        } else if self.plan_of() is CheckExisting {
            hash_verdict(
                self.jobid_of(),
                self.file_of(),
                self.expected_of(),
                sha1_hex(self.passed()),
            )
        } else {
            conclusion(
                self.options_of(),
                self.jobid_of(),
                self.file_of(),
                self.expected_of(),
                self.passed(),
            )
        }
    }

    /// Ends the transfer. Where the plan left the file alone there is
    /// nothing to report. Where bytes were transferred and hashes are
    /// checked, the digest of all that passed must be the expected one;
    /// if it is not, the file fails with a mismatch that names the job,
    /// the file and both hashes. A transfer that is ended while the file
    /// on disk is still to be checked is held to the same: success is
    /// never reported for bytes that were to be checked and were not. The
    /// file on disk is left as it is either way.
    pub fn finish(self) -> (r: Result<(), AsvoError>)
        ensures
            unit_outcome(r) == self.verdict(),
    {
        match self.plan {
            TransferPlan::Fetch { .. } | TransferPlan::Unpack => conclude(
                self.options,
                self.jobid,
                self.file.as_str(),
                self.expected_hash.as_str(),
                self.stream,
            ),
            TransferPlan::CheckExisting => check_hash(
                self.jobid,
                self.file.as_str(),
                self.expected_hash.as_str(),
                self.stream.finish(),
            ),
            _ => Ok(()),
        }
    }
}

/// A file that is complete on disk, with the right hash, costs no request:
/// the engine first asks for the file to be hashed and then declares the
/// transfer over. Asking again gives the same answer.
pub proof fn lemma_complete_file_sends_no_request(
    options: TransferOptions,
    size: u64,
    expected: Seq<char>,
    on_disk: Seq<u8>,
)
    requires
        options.keep_tar,
        on_disk.len() == size,
        same_ignoring_ascii_case(sha1_hex(on_disk), expected),
    ensures
        first_plan(options, Some(size), size) == TransferPlan::CheckExisting,
        !first_plan(options, Some(size), size).sends_request(),
        plan_after_existing(
            options,
            size,
            same_ignoring_ascii_case(sha1_hex(on_disk), expected),
        ) == TransferPlan::AlreadyComplete,
        !TransferPlan::AlreadyComplete.sends_request(),
        TransferPlan::AlreadyComplete.is_final(),
{
}

/// Resuming a shorter file asks for exactly the missing bytes, and a
/// response of that many bytes completes the file: what has then passed
/// through the stream is the whole file, it has the declared size, and the
/// transfer succeeds exactly if the hash of the whole file is the
/// manifest's (or hashes are not checked).
pub proof fn lemma_resume_completes(
    options: TransferOptions,
    size: u64,
    jobid: AsvoJobID,
    file: Seq<char>,
    expected: Seq<char>,
    on_disk: Seq<u8>,
    body: Seq<u8>,
)
    requires
        options.keep_tar,
        !options.no_resume,
        on_disk.len() < size,
        body.len() == size - on_disk.len(),
    ensures
        first_plan(options, Some(on_disk.len() as u64), size) == (TransferPlan::Fetch {
            from: on_disk.len() as u64,
            until: size,
        }),
        first_plan(options, Some(on_disk.len() as u64), size).sends_request(),
        (on_disk + body).len() == size,
        conclusion(options, jobid, file, expected, on_disk + body) is Ok <==> (!options.hash
            || same_ignoring_ascii_case(sha1_hex(on_disk + body), expected)),
{
}

/// A mismatch names the job, the file and both hashes.
pub proof fn lemma_mismatch_is_named(
    options: TransferOptions,
    jobid: AsvoJobID,
    file: Seq<char>,
    expected: Seq<char>,
    bytes: Seq<u8>,
)
    requires
        options.hash,
        !same_ignoring_ascii_case(sha1_hex(bytes), expected),
    ensures
        conclusion(options, jobid, file, expected, bytes) == Err::<(), Failure>(
            Failure::HashMismatch {
                jobid,
                file,
                calculated_hash: sha1_hex(bytes),
                expected_hash: expected,
            },
        ),
{
}

/// What to do with one entry of an archive that is being unpacked.
#[derive(Clone, Copy, Debug, PartialEq, Eq, Structural)]
pub enum EntryAction {
    /// The entry stands for the archive's own root: nothing to do.
    Skip,
    /// The entry is a directory: create it unless it is there.
    EnsureDirectory,
    /// The entry is a file: write it, creating the directories above it as
    /// needed.
    WriteFile,
}

/// Whether a path is the archive's name for its own root.
pub open spec fn is_root_entry(path: Seq<char>) -> bool {
    path == seq!['.'] || path == seq!['.', '/']
}

/// The action for the entry stored under `path`.
pub open spec fn entry_action_for(path: Seq<char>) -> EntryAction {
    if is_root_entry(path) {
        EntryAction::Skip
    } else if path.len() > 0 && path.last() == '/' {
        EntryAction::EnsureDirectory
    } else {
        EntryAction::WriteFile
    }
}

/// Decides what to do with the archive entry stored under `path`.
pub fn entry_action(path: &str) -> (action: EntryAction)
    ensures
        action == entry_action_for(path@),
{
    let p = to_chars(path);
    let n = p.len();
    if n == 1 && p[0] == '.' {
        assert(p@ =~= seq!['.']);
        EntryAction::Skip
    } else if n == 2 && p[0] == '.' && p[1] == '/' {
        assert(p@ =~= seq!['.', '/']);
        EntryAction::Skip
    } else if n > 0 && p[n - 1] == '/' {
        EntryAction::EnsureDirectory
    } else {
        EntryAction::WriteFile
    }
}

/// The size of the write buffer when nothing else is asked for, in MiB.
pub const DEFAULT_BUFFER_MIB: u64 = 100;

/// The number of bytes in a MiB.
pub const MIB: u64 = 1024 * 1024;

/// The buffer size in bytes for a size of `mib` MiB: as many bytes as
/// that, or the largest `usize` if there are more.
pub open spec fn buffer_bytes(mib: u64) -> usize {
    if mib * MIB <= usize::MAX {
        (mib * MIB) as usize
    } else {
        usize::MAX
    }
}

/// The size of the write buffer. `setting` is what the user asked for, in
/// MiB, as text; without it the size is [`DEFAULT_BUFFER_MIB`]. A setting
/// that is no unsigned integer is an error.
pub fn buffer_size(setting: Option<&str>) -> (r: Result<usize, AsvoError>)
    ensures
        match setting {
            None => r == Ok::<usize, AsvoError>(buffer_bytes(DEFAULT_BUFFER_MIB)),
            Some(s) => match parsed_u64(s@) {
                Some(mib) => r == Ok::<usize, AsvoError>(buffer_bytes(mib)),
                None => (r matches Err(e) && e@ == Failure::Parse),
            },
        },
{
    let mib: u64 = match setting {
        None => DEFAULT_BUFFER_MIB,
        Some(s) => match parse_u64(s) {
            Ok(n) => n,
            Err(e) => {
                return Err(AsvoError::Parse(e));
            },
        },
    };
    let limit: u64 = if usize::BITS == 32 { 0xffff_ffff } else { u64::MAX };
    match mib.checked_mul(MIB) {
        Some(bytes) => if bytes <= limit {
            Ok(bytes as usize)
        } else {
            Ok(usize::MAX)
        },
        None => Ok(usize::MAX),
    }
}

} // verus!
