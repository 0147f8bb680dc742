//! The retry controller: what to do after one attempt at a file.
//!
//! An attempt either succeeds, fails for good, or fails in a way that may
//! pass. After a failure that may pass, the controller asks an exponential
//! backoff policy how long to wait; when the policy's time is up, the last
//! error is the outcome of the file.

use super::error::{AsvoError, Failure};
use backoff::backoff::Backoff;
use backoff::exponential::ExponentialBackoff;
use backoff::SystemClock;
use std::time::Duration;
use vstd::prelude::*;

verus! {

/// `backoff::exponential::ExponentialBackoff`: a policy whose delays grow
/// from attempt to attempt, with some chance in them, until a time set at
/// its start is up. Nothing of its inside is known here.
#[verifier::external_type_specification]
#[verifier::external_body]
#[verifier::reject_recursive_types(C)]
pub struct ExExponentialBackoff<C>(ExponentialBackoff<C>);

/// `backoff::SystemClock`: the clock of the machine, by which the policy
/// tells its time.
#[verifier::external_type_specification]
#[verifier::external_body]
pub struct ExSystemClock(SystemClock);

/// `ExponentialBackoff::default`: a policy with the crate's default
/// intervals, whose time starts to run at the call. Nothing is claimed of
/// it.
#[verifier::external_body]
pub(crate) fn default_backoff() -> (policy: ExponentialBackoff<SystemClock>) {
    ExponentialBackoff::default()
}

/// `Backoff::next_backoff`: how long to wait before the next attempt, or
/// `None` when the policy's time is up. The answer depends on the clock and
/// on chance, so nothing is claimed of it.
#[verifier::external_body]
pub(crate) fn next_backoff(policy: &mut ExponentialBackoff<SystemClock>) -> (delay: Option<
    Duration,
>) {
    policy.next_backoff()
}

/// Whether another attempt can help.
#[derive(Clone, Copy, Debug, PartialEq, Eq, Structural)]
pub enum Transience {
    /// The failure may pass: the network, the service.
    Transient,
    /// The failure will not pass by itself: the local disk or filesystem.
    Permanent,
}

/// The class of a failure: those of local IO are permanent, all others
/// transient.
pub open spec fn transience_of(failure: Failure) -> Transience {
    if failure is IO {
        Transience::Permanent
    } else {
        Transience::Transient
    }
}

/// Classifies the error of a failed attempt.
pub fn classify(error: &AsvoError) -> (class: Transience)
    ensures
        class == transience_of(error@),
{
    match error {
        AsvoError::IO(_) => Transience::Permanent,
        _ => Transience::Transient,
    }
}

/// What follows an attempt.
#[derive(Debug)]
pub enum RetryStep {
    /// The attempt succeeded: the file is done.
    Done,
    /// Wait this long, then try again.
    Wait(Duration),
    /// Give up: this error is the outcome of the file.
    GiveUp(AsvoError),
}

/// The mathematical form of a [`RetryStep`].
pub enum Retry {
    Done,
    Wait(Duration),
    GiveUp(Failure),
}

impl View for RetryStep {
    type V = Retry;

    open spec fn view(&self) -> Retry {
        match self {
            RetryStep::Done => Retry::Done,
            RetryStep::Wait(delay) => Retry::Wait(*delay),
            RetryStep::GiveUp(error) => Retry::GiveUp(error@),
        }
    }
}

/// What follows an attempt with this outcome, when the policy answers
/// `delay`.
pub open spec fn retry_for(outcome: Result<(), Failure>, delay: Option<Duration>) -> Retry {
    match outcome {
        Ok(()) => Retry::Done,
        Err(failure) => match transience_of(failure) {
            Transience::Permanent => Retry::GiveUp(failure),
            Transience::Transient => match delay {
                Some(d) => Retry::Wait(d),
                None => Retry::GiveUp(failure),
            },
        },
    }
}

/// Decides what follows an attempt, given what the backoff policy answers.
/// A permanent failure is given up at once, whatever the policy says; a
/// transient one is retried as long as the policy gives a delay, and is the
/// file's outcome once it gives none.
pub fn retry_step(outcome: Result<(), AsvoError>, delay: Option<Duration>) -> (step: RetryStep)
    ensures
        step@ == retry_for(super::error::unit_outcome(outcome), delay),
{
    match outcome {
        Ok(()) => RetryStep::Done,
        Err(error) => match classify(&error) {
            Transience::Permanent => RetryStep::GiveUp(error),
            Transience::Transient => match delay {
                Some(d) => RetryStep::Wait(d),
                None => RetryStep::GiveUp(error),
            },
        },
    }
}

/// An exponential backoff policy for the attempts at one file.
pub struct RetryController {
    policy: ExponentialBackoff<SystemClock>,
}

impl RetryController {
    /// A controller with the default policy; its time starts now.
    pub fn new() -> RetryController {
        RetryController { policy: default_backoff() }
    }

    /// Decides what follows an attempt. The policy is consulted only after
    /// a transient failure. Success ends the file; a permanent failure is
    /// given up with its own error; a transient failure leads to a wait or,
    /// when the policy's time is up, is given up with its own error.
    pub fn after_attempt(&mut self, outcome: Result<(), AsvoError>) -> (step: RetryStep)
        ensures
            exists|delay: Option<Duration>|
                step@ == #[trigger] retry_for(super::error::unit_outcome(outcome), delay),
    {
        let transient = match &outcome {
            Ok(()) => false,
            Err(error) => match classify(error) {
                Transience::Permanent => false,
                Transience::Transient => true,
            },
        };
        let delay = if transient {
            next_backoff(&mut self.policy)
        } else {
            None
        };
        retry_step(outcome, delay)
    }
}

} // verus!
