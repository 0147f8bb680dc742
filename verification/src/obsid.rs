//! Observation identifiers ("obsids").

use crate::text::{parse_u64, parsed_u64, split_whitespace, texts, words};
use std::num::ParseIntError;
use std::str::FromStr;
use vstd::prelude::*;

verus! {

/// The smallest number that is an obsid.
pub const OBSID_MIN: u64 = 1_000_000_000;

/// The first number above the obsids.
pub const OBSID_END: u64 = 10_000_000_000;

/// Whether `n` has exactly ten decimal digits.
pub open spec fn is_obsid(n: u64) -> bool {
    OBSID_MIN <= n < OBSID_END
}

/// An MWA observation ID: a number of exactly ten decimal digits. A value of
/// this type always holds such a number.
#[derive(PartialEq, Eq, Clone, Copy, Debug, Structural)]
pub struct Obsid(u64);

/// Why a number or a text is not an obsid.
#[derive(Debug)]
pub enum ObsidError {
    /// The number does not have ten digits.
    WrongNumDigits(u64),
    /// The text is not an unsigned integer.
    Parse(ParseIntError),
}

/// An [`ObsidError`] without what the integer parser said.
pub enum ObsidFault {
    WrongNumDigits(u64),
    Parse,
}

impl View for ObsidError {
    type V = ObsidFault;

    open spec fn view(&self) -> ObsidFault {
        match self {
            ObsidError::WrongNumDigits(n) => ObsidFault::WrongNumDigits(*n),
            ObsidError::Parse(_) => ObsidFault::Parse,
        }
    }
}

impl View for Obsid {
    type V = u64;

    closed spec fn view(&self) -> u64 {
        self.0
    }
}

/// What a number stands for: itself as an obsid's number, or the reason it
/// is none.
pub open spec fn check_obsid(n: u64) -> Result<u64, ObsidFault> {
    if is_obsid(n) {
        Ok(n)
    } else {
        Err(ObsidFault::WrongNumDigits(n))
    }
}

/// What one word stands for: an obsid's number, or the reason it is none.
pub open spec fn read_obsid(word: Seq<char>) -> Result<u64, ObsidFault> {
    match parsed_u64(word) {
        None => Err(ObsidFault::Parse),
        Some(n) => check_obsid(n),
    }
}

/// The outcome of reading one obsid, as numbers.
pub open spec fn obsid_outcome(r: Result<Obsid, ObsidError>) -> Result<u64, ObsidFault> {
    match r {
        Ok(id) => Ok(id@),
        Err(e) => Err(e@),
    }
}

/// The outcome of reading several obsids, as numbers.
pub open spec fn obsids_outcome(r: Result<Vec<Obsid>, ObsidError>) -> Result<
    Seq<u64>,
    ObsidFault,
> {
    match r {
        Ok(ids) => Ok(obsid_numbers(ids@)),
        Err(e) => Err(e@),
    }
}

/// What a list of words stands for: the numbers of all of them, or the fault
/// of the first word that is no obsid.
pub open spec fn read_obsids(ws: Seq<Seq<char>>) -> Result<Seq<u64>, ObsidFault>
    decreases ws.len(),
{
    if ws.len() == 0 {
        Ok(Seq::<u64>::empty())
    } else {
        match read_obsids(ws.drop_last()) {
            Err(fault) => Err(fault),
            Ok(ids) => match read_obsid(ws.last()) {
                Ok(n) => Ok(ids.push(n)),
                Err(fault) => Err(fault),
            },
        }
    }
}

/// The numbers of a sequence of obsids.
pub open spec fn obsid_numbers(ids: Seq<Obsid>) -> Seq<u64> {
    Seq::new(ids.len(), |i: int| ids[i]@)
}

impl Obsid {
    #[verifier::type_invariant]
    spec fn in_range(self) -> bool {
        is_obsid(self.0)
    }

    /// Two obsids with the same number are the same obsid.
    pub proof fn lemma_same_number(self, other: Obsid)
        requires
            self@ == other@,
        ensures
            self == other,
    {
    }

    /// The number of this obsid.
    pub fn value(&self) -> (n: u64)
        ensures
            n == self@,
            is_obsid(n),
    {
        proof {
            use_type_invariant(self);
        }
        self.0
    }

    /// Given a number, return it as an [`Obsid`] if it has ten digits.
    pub fn validate(o: u64) -> (r: Result<Obsid, ObsidError>)
        ensures
            obsid_outcome(r) == check_obsid(o),
    {
        if o >= OBSID_MIN && o < OBSID_END {
            Ok(Obsid(o))
        } else {
            Err(ObsidError::WrongNumDigits(o))
        }
    }

    /// Reads one obsid from a text that holds nothing but its digits.
    pub fn parse(s: &str) -> (r: Result<Obsid, ObsidError>)
        ensures
            obsid_outcome(r) == read_obsid(s@),
    {
        match parse_u64(s) {
            Ok(n) => Obsid::validate(n),
            Err(e) => Err(ObsidError::Parse(e)),
        }
    }

    /// Convert a string of whitespace-delimited integers to a list of
    /// obsids. The first word that is not an obsid makes the whole call fail
    /// with that word's error.
    pub fn from_string(s: &str) -> (r: Result<Vec<Obsid>, ObsidError>)
        ensures
            obsids_outcome(r) == read_obsids(words(s@)),
    {
        let parts = split_whitespace(s);
        let ghost ws = texts(parts@);
        let mut ids: Vec<Obsid> = Vec::new();
        let mut i: usize = 0;
        proof {
            assert(obsid_numbers(ids@) =~= Seq::<u64>::empty());
            assert(ws.take(0) =~= Seq::<Seq<char>>::empty());
        }
        while i < parts.len()
            invariant
                i <= parts.len(),
                ws == texts(parts@),
                ws == words(s@),
                read_obsids(ws.take(i as int)) == Ok::<Seq<u64>, ObsidFault>(
                    obsid_numbers(ids@),
                ),
            decreases parts.len() - i,
        {
            proof {
                assert(ws.take(i + 1).drop_last() == ws.take(i as int));
                assert(ws.take(i + 1).last() == parts@[i as int]@);
            }
            match Obsid::parse(parts[i].as_str()) {
                Ok(id) => {
                    proof {
                        assert(obsid_numbers(ids@.push(id)) =~= obsid_numbers(ids@).push(id@));
                    }
                    ids.push(id);
                },
                Err(e) => {
                    proof {
                        assert(read_obsids(ws.take(i + 1)) == Err::<Seq<u64>, ObsidFault>(e@));
                        lemma_read_obsids_fails(ws, i + 1);
                    }
                    return Err(e);
                },
            }
            i += 1;
        }
        proof {
            assert(ws.take(parts.len() as int) == ws);
        }
        Ok(ids)
    }
}

/// Once a prefix of the words has failed, the whole list fails the same way.
proof fn lemma_read_obsids_fails(ws: Seq<Seq<char>>, k: int)
    requires
        0 <= k <= ws.len(),
        read_obsids(ws.take(k)) is Err,
    ensures
        read_obsids(ws) == read_obsids(ws.take(k)),
    decreases ws.len() - k,
{
    if k == ws.len() {
        assert(ws.take(k) == ws);
    } else {
        assert(ws.take(k + 1).drop_last() == ws.take(k));
        lemma_read_obsids_fails(ws, k + 1);
    }
}

impl FromStr for Obsid {
    type Err = ObsidError;

    fn from_str(s: &str) -> (r: Result<Obsid, ObsidError>)
        ensures
            obsid_outcome(r) == read_obsid(s@),
    {
        Obsid::parse(s)
    }
}

} // verus!
