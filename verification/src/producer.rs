//! The result-producer protocol: a value standing for a summary string
//! that may not yet be available, driven step by step to completion.

use vstd::prelude::*;

verus! {

/// The outcome of driving a result-producer one step: either the
/// computation has not finished yet, or it has finished and hands out
/// the summary string.
pub enum SummaryPoll {
    Pending,
    Ready(String),
}

/// A result-producer: a computation that, driven repeatedly, eventually
/// yields a summary string.
///
/// The model is a small state machine. `summary` is the string the
/// producer yields on completion; it never changes once the producer
/// exists. `done` says whether completion has already been reported;
/// once it has, every further drive reports `Ready` again with the same
/// string, so re-driving a completed producer cannot change the value.
/// `fuel` bounds how many more times the producer may report `Pending`,
/// which is what lets a consumer drive it to completion in bounded time.
pub trait SummaryFuture {
    /// The string this producer yields on completion.
    spec fn summary(&self) -> Seq<char>;

    /// Whether this producer has already reported completion.
    spec fn done(&self) -> bool;

    /// An upper bound on how many more times this producer may report
    /// `Pending` before it reports `Ready`.
    spec fn fuel(&self) -> nat;

    /// Drive the producer one step.
    fn poll(&mut self) -> (r: SummaryPoll)
        ensures
            final(self).summary() == old(self).summary(),
            old(self).done() ==> final(self).done(),
            match r {
                SummaryPoll::Ready(s) => s@ == old(self).summary() && final(self).done(),
                SummaryPoll::Pending => !old(self).done() && !final(self).done()
                    && final(self).fuel() < old(self).fuel(),
            },
    ;
}

/// An already-completed producer: it holds the finished summary and
/// reports it on the very first drive. Its fuel is zero, so it can never
/// report `Pending`.
pub struct ReadyFuture {
    value: String,
    reported: bool,
}

impl ReadyFuture {
    /// Wrap an already-computed summary string. The producer starts
    /// undriven and with no fuel at all: it can never report `Pending`.
    pub fn new(value: String) -> (f: ReadyFuture)
        ensures
            f.summary() == value@,
            !f.done(),
            f.fuel() == 0,
    {
        ReadyFuture { value, reported: false }
    }
}

impl SummaryFuture for ReadyFuture {
    closed spec fn summary(&self) -> Seq<char> {
        self.value@
    }

    closed spec fn done(&self) -> bool {
        self.reported
    }

    closed spec fn fuel(&self) -> nat {
        0
    }

    fn poll(&mut self) -> (r: SummaryPoll) {
        self.reported = true;
        SummaryPoll::Ready(self.value.clone())
    }
}

/// Drive a producer until it reports completion and return the summary.
///
/// The producer's contract guarantees that its fuel strictly shrinks on
/// every `Pending`, so the loop terminates.
pub fn drive<F: SummaryFuture>(f: &mut F) -> (s: String)
    ensures
        s@ == old(f).summary(),
        final(f).summary() == old(f).summary(),
        final(f).done(),
{
    loop
        invariant
            f.summary() == old(f).summary(),
        decreases f.fuel(),
    {
        match f.poll() {
            SummaryPoll::Ready(s) => {
                return s;
            },
            SummaryPoll::Pending => {},
        }
    }
}

} // verus!
