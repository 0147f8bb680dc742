//! Small helper utility functions.

use crate::asvo::form::{pairs_map, Parameters};
use crate::asvo::types::{AsvoJobID, AsvoJobState, AsvoJobType, JobState};
use crate::obsid::{is_obsid, obsid_numbers, Obsid};
use crate::text::{
    copy_str, fields, parse_u64, parsed_u64, split, split_whitespace, texts, trim, trimmed,
    words, Separator,
};
use vstd::prelude::*;

verus! {

/// A number given by the user: an obsid or the identifier of a job.
#[derive(Debug, Clone, Copy)]
pub enum ObsidOrJobID {
    /// This is an obsid.
    O(Obsid),
    /// This is a job ID.
    J(AsvoJobID),
}

/// The mathematical form of an [`ObsidOrJobID`].
pub enum Id {
    O(u64),
    J(AsvoJobID),
}

impl View for ObsidOrJobID {
    type V = Id;

    open spec fn view(&self) -> Id {
        match self {
            ObsidOrJobID::O(o) => Id::O(o@),
            ObsidOrJobID::J(j) => Id::J(*j),
        }
    }
}

/// The identifier that a number stands for: with ten digits it is an
/// obsid; any other number is the identifier of a job, of which the low 32
/// bits count.
pub open spec fn id_of(n: u64) -> Id {
    if is_obsid(n) {
        Id::O(n)
    } else {
        Id::J((n % 0x1_0000_0000) as u32)
    }
}

/// The identifier that a text stands for, if it is an unsigned integer.
pub open spec fn read_id(s: Seq<char>) -> Option<Id> {
    match parsed_u64(s) {
        Some(n) => Some(id_of(n)),
        None => None,
    }
}

/// The mathematical form of an optional identifier.
pub open spec fn opt_id(r: Option<ObsidOrJobID>) -> Option<Id> {
    match r {
        Some(id) => Some(id@),
        None => None,
    }
}

/// Reads a job ID or an obsid from a text that holds nothing but digits.
pub fn parse_jobid_or_obsid(s: &str) -> (r: Option<ObsidOrJobID>)
    ensures
        opt_id(r) == read_id(s@),
{
    match parse_u64(s) {
        // We successfully parsed an int.
        Ok(i) => {
            match Obsid::validate(i) {
                // This int is an obsid.
                Ok(o) => Some(ObsidOrJobID::O(o)),
                // This int isn't an obsid; take it as a jobid.
                Err(_) => Some(ObsidOrJobID::J((i % 0x1_0000_0000) as u32)),
            }
        },
        // Could not parse the string as an int; we must fail.
        Err(_) => None,
    }
}

/// Why the user's input could not be read.
#[derive(Debug)]
pub enum ParseError {
    /// A whitespace-delimited string inside a file isn't an integer.
    InsideFile { file: String, text: String },
    /// Invalid number of items when parsing key-value pairs.
    NotKeyValue(String),
    /// An IO error; the text is the system's account of it.
    IO(String),
}

/// The mathematical form of a [`ParseError`].
pub enum ParseFault {
    InsideFile { file: Seq<char>, text: Seq<char> },
    NotKeyValue(Seq<char>),
    IO(Seq<char>),
}

impl View for ParseError {
    type V = ParseFault;

    open spec fn view(&self) -> ParseFault {
        match self {
            ParseError::InsideFile { file, text } => ParseFault::InsideFile {
                file: file@,
                text: text@,
            },
            ParseError::NotKeyValue(pair) => ParseFault::NotKeyValue(pair@),
            ParseError::IO(what) => ParseFault::IO(what@),
        }
    }
}

/// Job IDs and obsids, each in the order in which they were given.
#[derive(Debug)]
pub struct Identifiers {
    pub jobids: Vec<AsvoJobID>,
    pub obsids: Vec<Obsid>,
}

/// The mathematical form of [`Identifiers`].
pub struct IdLists {
    pub jobids: Seq<AsvoJobID>,
    pub obsids: Seq<u64>,
}

impl View for Identifiers {
    type V = IdLists;

    open spec fn view(&self) -> IdLists {
        IdLists { jobids: self.jobids@, obsids: obsid_numbers(self.obsids@) }
    }
}

impl IdLists {
    /// The lists with one more identifier.
    pub open spec fn with(self, id: Id) -> IdLists {
        match id {
            Id::O(o) => IdLists { obsids: self.obsids.push(o), ..self },
            Id::J(j) => IdLists { jobids: self.jobids.push(j), ..self },
        }
    }
}

impl Identifiers {
    /// No identifiers.
    pub fn new() -> (ids: Identifiers)
        ensures
            ids@ == (IdLists { jobids: Seq::<AsvoJobID>::empty(), obsids: Seq::<u64>::empty() }),
    {
        let ids = Identifiers { jobids: Vec::new(), obsids: Vec::new() };
        assert(obsid_numbers(ids.obsids@) =~= Seq::<u64>::empty());
        ids
    }

    /// Adds one identifier to the list it belongs to.
    pub fn push(&mut self, id: ObsidOrJobID)
        ensures
            final(self)@ == old(self)@.with(id@),
    {
        match id {
            ObsidOrJobID::O(o) => {
                proof {
                    assert(obsid_numbers(self.obsids@.push(o)) =~= obsid_numbers(
                        self.obsids@,
                    ).push(o@));
                }
                self.obsids.push(o);
            },
            ObsidOrJobID::J(j) => {
                self.jobids.push(j);
            },
        }
    }
}

/// The lists after the words `ws`, in order, have been added to `start`;
/// or the first word that is no unsigned integer.
pub open spec fn gather(start: IdLists, ws: Seq<Seq<char>>) -> Result<IdLists, Seq<char>>
    decreases ws.len(),
{
    if ws.len() == 0 {
        Ok(start)
    } else {
        match gather(start, ws.drop_last()) {
            Err(word) => Err(word),
            Ok(lists) => match read_id(ws.last()) {
                Some(id) => Ok(lists.with(id)),
                None => Err(ws.last()),
            },
        }
    }
}

/// Once a prefix of the words has failed, the whole list fails the same
/// way.
proof fn lemma_gather_fails(start: IdLists, ws: Seq<Seq<char>>, k: int)
    requires
        0 <= k <= ws.len(),
        gather(start, ws.take(k)) is Err,
    ensures
        gather(start, ws) == gather(start, ws.take(k)),
    decreases ws.len() - k,
{
    if k == ws.len() {
        assert(ws.take(k) == ws);
    } else {
        assert(ws.take(k + 1).drop_last() == ws.take(k));
        lemma_gather_fails(start, ws, k + 1);
    }
}

/// The lists after the words `ws` have been added to `start`, in order and
/// as far as they are unsigned integers: adding stops at the first word
/// that is none.
pub open spec fn gather_while_valid(start: IdLists, ws: Seq<Seq<char>>) -> IdLists
    decreases ws.len(),
{
    if ws.len() == 0 {
        start
    } else {
        match gather(start, ws.drop_last()) {
            Err(_) => gather_while_valid(start, ws.drop_last()),
            Ok(lists) => match read_id(ws.last()) {
                Some(id) => lists.with(id),
                None => lists,
            },
        }
    }
}

/// Once a prefix of the words has failed, nothing is added after it.
proof fn lemma_gather_stops(start: IdLists, ws: Seq<Seq<char>>, k: int)
    requires
        0 <= k <= ws.len(),
        gather(start, ws.take(k)) is Err,
    ensures
        gather_while_valid(start, ws) == gather_while_valid(start, ws.take(k)),
    decreases ws.len() - k,
{
    if k == ws.len() {
        assert(ws.take(k) == ws);
    } else {
        let shorter = ws.drop_last();
        assert(shorter.take(k) == ws.take(k));
        lemma_gather_fails(start, shorter, k);
        lemma_gather_stops(start, shorter, k);
    }
}

/// What reading the text of a file comes to.
pub open spec fn file_outcome(start: IdLists, file: Seq<char>, text: Seq<char>) -> Result<
    IdLists,
    ParseFault,
> {
    match gather(start, words(text)) {
        Ok(lists) => Ok(lists),
        Err(word) => Err(ParseFault::InsideFile { file, text: word }),
    }
}

/// Takes the name of a file and the text read from it: whitespace-delimited
/// job IDs and obsids, which are added to `ids` in their order. The first word that
/// cannot be parsed as either is an error; `ids` then holds what stood
/// before that word.
pub fn parse_jobids_and_obsids_from_file(file: &str, text: &str, ids: &mut Identifiers) -> (r:
    Result<(), ParseError>)
    ensures
        match file_outcome(old(ids)@, file@, text@) {
            Ok(lists) => r is Ok && final(ids)@ == lists,
            Err(fault) => (r matches Err(e) && e@ == fault),
        },
        final(ids)@ == gather_while_valid(old(ids)@, words(text@)),
{
    let parts = split_whitespace(text);
    let ghost ws = texts(parts@);
    let ghost start = ids@;
    let mut i: usize = 0;
    proof {
        assert(ws.take(0) =~= Seq::<Seq<char>>::empty());
    }
    while i < parts.len()
        invariant
            i <= parts.len(),
            ws == texts(parts@),
            ws == words(text@),
            start == old(ids)@,
            gather(start, ws.take(i as int)) == Ok::<IdLists, Seq<char>>(ids@),
        decreases parts.len() - i,
    {
        proof {
            assert(ws.take(i + 1).drop_last() == ws.take(i as int));
            assert(ws.take(i + 1).last() == parts@[i as int]@);
        }
        match parse_jobid_or_obsid(parts[i].as_str()) {
            Some(id) => {
                ids.push(id);
            },
            None => {
                proof {
                    assert(gather(start, ws.take(i + 1)) == Err::<IdLists, Seq<char>>(
                        parts@[i as int]@,
                    ));
                    lemma_gather_fails(start, ws, i + 1);
                    lemma_gather_stops(start, ws, i + 1);
                }
                return Err(
                    ParseError::InsideFile { file: copy_str(file), text: parts[i].clone() },
                );
            },
        }
        i += 1;
    }
    proof {
        assert(ws.take(parts.len() as int) == ws);
    }
    Ok(())
}

/// How far a list of arguments has been read.
#[derive(Clone, Copy, Debug, PartialEq, Eq, Structural)]
pub enum Progress {
    /// Every argument has been read.
    Finished,
    /// The argument at this position is no integer: it names a file, whose
    /// text is to be read with [`parse_jobids_and_obsids_from_file`]
    /// before the arguments after it are taken up.
    NeedsFile(usize),
}

/// The first position from `from` on whose argument is no unsigned
/// integer, or the number of arguments if there is none.
pub open spec fn next_file(args: Seq<Seq<char>>, from: int) -> int
    decreases args.len() - from,
{
    if from < 0 || from >= args.len() {
        args.len() as int
    } else if read_id(args[from]) is None {
        from
    } else {
        next_file(args, from + 1)
    }
}

/// The lists after the arguments at the positions `from` to `to` have been
/// added, all of which are integers.
pub open spec fn gather_range(start: IdLists, args: Seq<Seq<char>>, from: int, to: int) -> IdLists
    decreases to - from,
{
    if from >= to || to > args.len() || from < 0 {
        start
    } else {
        match read_id(args[to - 1]) {
            Some(id) => gather_range(start, args, from, to - 1).with(id),
            None => gather_range(start, args, from, to - 1),
        }
    }
}

/// Parse arguments that are ASVO job IDs, obsids, or names of files that
/// hold job IDs and obsids. The arguments are taken in order from position
/// `from`. An integer of ten digits is an obsid, any other integer a job
/// ID; both are added to `ids`. The first argument that is no integer is
/// taken to name a file: reading stops there and the caller is asked for
/// that file.
pub fn parse_many_jobids_or_obsids(strings: &[String], from: usize, ids: &mut Identifiers) -> (r:
    Progress)
    ensures
        final(ids)@ == gather_range(
            old(ids)@,
            texts(strings@),
            from as int,
            next_file(texts(strings@), from as int),
        ),
        r == if next_file(texts(strings@), from as int) < strings.len() {
            Progress::NeedsFile(next_file(texts(strings@), from as int) as usize)
        } else {
            Progress::Finished
        },
{
    let ghost args = texts(strings@);
    let ghost start = ids@;
    if from >= strings.len() {
        return Progress::Finished;
    }
    let mut i: usize = from;
    while i < strings.len()
        invariant
            from <= i <= strings.len(),
            args == texts(strings@),
            start == old(ids)@,
            next_file(args, from as int) == next_file(args, i as int),
            ids@ == gather_range(start, args, from as int, i as int),
        decreases strings.len() - i,
    {
        proof {
            assert(args[i as int] == strings@[i as int]@);
        }
        match parse_jobid_or_obsid(strings[i].as_str()) {
            Some(id) => {
                ids.push(id);
            },
            None => {
                return Progress::NeedsFile(i);
            },
        }
        i += 1;
    }
    Progress::Finished
}

/// The key and the value that a pair is: it must have exactly one `=`;
/// white space around either side does not count.
pub open spec fn key_value_of(pair: Seq<char>) -> Option<(Seq<char>, Seq<char>)> {
    let items = fields(pair, Separator::Character('='));
    if items.len() == 2 {
        Some((trim(items[0]), trim(items[1])))
    } else {
        None
    }
}

/// The keys and values that the pairs are, or the first pair that is none.
pub open spec fn key_values_of(pairs: Seq<Seq<char>>) -> Result<
    Seq<(Seq<char>, Seq<char>)>,
    Seq<char>,
>
    decreases pairs.len(),
{
    if pairs.len() == 0 {
        Ok(Seq::<(Seq<char>, Seq<char>)>::empty())
    } else {
        match key_values_of(pairs.drop_last()) {
            Err(pair) => Err(pair),
            Ok(before) => match key_value_of(pairs.last()) {
                Some(kv) => Ok(before.push(kv)),
                None => Err(pairs.last()),
            },
        }
    }
}

/// What a text of comma-separated `key=value` pairs stands for: the map
/// from keys to values, a later pair winning over an earlier one with the
/// same key; or an error that names the first pair that is none.
pub open spec fn key_value_map(s: Seq<char>) -> Result<Map<Seq<char>, Seq<char>>, ParseFault> {
    match key_values_of(fields(s, Separator::Character(','))) {
        Ok(list) => Ok(pairs_map(list)),
        Err(pair) => Err(ParseFault::NotKeyValue(pair)),
    }
}

/// Once a prefix of the pairs has failed, the whole list fails the same
/// way.
proof fn lemma_key_values_fail(pairs: Seq<Seq<char>>, k: int)
    requires
        0 <= k <= pairs.len(),
        key_values_of(pairs.take(k)) is Err,
    ensures
        key_values_of(pairs) == key_values_of(pairs.take(k)),
    decreases pairs.len() - k,
{
    if k == pairs.len() {
        assert(pairs.take(k) == pairs);
    } else {
        assert(pairs.take(k + 1).drop_last() == pairs.take(k));
        lemma_key_values_fail(pairs, k + 1);
    }
}

/// The mathematical form of the result of [`parse_key_value_pairs`].
pub open spec fn parameters_result(r: Result<Parameters, ParseError>) -> Result<
    Map<Seq<char>, Seq<char>>,
    ParseFault,
> {
    match r {
        Ok(p) => Ok(p@),
        Err(e) => Err(e@),
    }
}

/// Parse a string of key-value pairs (e.g.
/// "avg_time_res=0.5,avg_freq_res=10") into named parameters.
pub fn parse_key_value_pairs(s: &str) -> (r: Result<Parameters, ParseError>)
    ensures
        parameters_result(r) == key_value_map(s@),
{
    let pairs = split(s, Separator::Character(','));
    let ghost all = texts(pairs@);
    let ghost mut list = Seq::<(Seq<char>, Seq<char>)>::empty();
    let mut map = Parameters::new();
    let mut i: usize = 0;
    proof {
        assert(all.take(0) =~= Seq::<Seq<char>>::empty());
    }
    while i < pairs.len()
        invariant
            i <= pairs.len(),
            all == texts(pairs@),
            all == fields(s@, Separator::Character(',')),
            key_values_of(all.take(i as int)) == Ok::<Seq<(Seq<char>, Seq<char>)>, Seq<char>>(
                list,
            ),
            map@ == pairs_map(list),
        decreases pairs.len() - i,
    {
        proof {
            assert(all.take(i + 1).drop_last() == all.take(i as int));
            assert(all.take(i + 1).last() == pairs@[i as int]@);
        }
        let items = split(pairs[i].as_str(), Separator::Character('='));
        if items.len() != 2 {
            proof {
                assert(texts(items@).len() == items.len());
                assert(key_values_of(all.take(i + 1)) == Err::<
                    Seq<(Seq<char>, Seq<char>)>,
                    Seq<char>,
                >(pairs@[i as int]@));
                lemma_key_values_fail(all, i + 1);
            }
            return Err(ParseError::NotKeyValue(pairs[i].clone()));
        }
        let key = trimmed(items[0].as_str());
        let value = trimmed(items[1].as_str());
        proof {
            assert(texts(items@).len() == 2);
            assert(texts(items@)[0] == items@[0]@);
            assert(texts(items@)[1] == items@[1]@);
            assert(list.push((key@, value@)).drop_last() == list);
        }
        map.insert(key.as_str(), value.as_str());
        proof {
            list = list.push((key@, value@));
        }
        i += 1;
    }
    proof {
        assert(all.take(pairs.len() as int) == all);
    }
    Ok(map)
}

/// The colour in which a type of job is shown in a table.
pub open spec fn job_type_style(job_type: AsvoJobType) -> Seq<char> {
    match job_type {
        AsvoJobType::Conversion => "Fb"@,
        AsvoJobType::DownloadVisibilities => "Fb"@,
        AsvoJobType::DownloadMetadata => "Fy"@,
        AsvoJobType::DownloadVoltage => "Fm"@,
        AsvoJobType::CancelJob => "Fr"@,
    }
}

/// The style of the cell that shows a type of job: its colour, or nothing
/// where colours are off.
pub fn get_job_type_table_style(job_type: AsvoJobType, no_colour: bool) -> (style: String)
    ensures
        style@ == if no_colour {
            Seq::<char>::empty()
        } else {
            job_type_style(job_type)
        },
{
    if no_colour {
        String::new()
    } else {
        copy_str(
            match job_type {
                AsvoJobType::Conversion => "Fb",
                AsvoJobType::DownloadVisibilities => "Fb",
                AsvoJobType::DownloadMetadata => "Fy",
                AsvoJobType::DownloadVoltage => "Fm",
                AsvoJobType::CancelJob => "Fr",
            },
        )
    }
}

/// The colour in which the state of a job is shown in a table: white while
/// it is queued, magenta on its way, green when ready, red when it ended
/// without success.
pub open spec fn job_state_style(state: JobState) -> Seq<char> {
    match state {
        JobState::Queued => "Fw"@,
        JobState::WaitCal => "Fm"@,
        JobState::Staging => "Fm"@,
        JobState::Staged => "Fm"@,
        JobState::Downloading => "Fm"@,
        JobState::Preprocessing => "Fm"@,
        JobState::Preparing => "Fm"@,
        JobState::Imaging => "Fm"@,
        JobState::Delivering => "Fm"@,
        JobState::Processing => "Fm"@,
        JobState::Ready => "Fg"@,
        JobState::Error(_) => "Fr"@,
        JobState::Expired => "Fr"@,
        JobState::Cancelled => "Fr"@,
    }
}

/// The style of the cell that shows the state of a job: its colour, or
/// nothing where colours are off.
pub fn get_job_state_table_style(job_state: AsvoJobState, no_colour: bool) -> (style: String)
    ensures
        style@ == if no_colour {
            Seq::<char>::empty()
        } else {
            job_state_style(job_state@)
        },
{
    if no_colour {
        String::new()
    } else {
        copy_str(
            match job_state {
                AsvoJobState::Queued => "Fw",
                AsvoJobState::WaitCal => "Fm",
                AsvoJobState::Staging => "Fm",
                AsvoJobState::Staged => "Fm",
                AsvoJobState::Downloading => "Fm",
                AsvoJobState::Preprocessing => "Fm",
                AsvoJobState::Preparing => "Fm",
                AsvoJobState::Imaging => "Fm",
                AsvoJobState::Delivering => "Fm",
                AsvoJobState::Processing => "Fm",
                AsvoJobState::Ready => "Fg",
                AsvoJobState::Error(_) => "Fr",
                AsvoJobState::Expired => "Fr",
                AsvoJobState::Cancelled => "Fr",
            },
        )
    }
}

} // verus!
