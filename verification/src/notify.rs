//! The generic consumer: drive any Summarizable value's producer to
//! completion, then announce the summary through an emission sink,
//! exactly once per call.

use vstd::prelude::*;
use vstd::string::StringExecFns;

use crate::producer::drive;
use crate::summary::Summary;

verus! {

/// The announcement for a summary: `"Breaking news! {summary}"`.
pub open spec fn announcement(summary: Seq<char>) -> Seq<char> {
    "Breaking news! "@ + summary
}

/// An emission sink: the output channel the host environment provides.
/// `emitted` is the history of announced lines, so a contract over it
/// says exactly how many lines a call emits and what they hold.
pub trait Sink {
    /// The lines announced so far, oldest first.
    spec fn emitted(&self) -> Seq<Seq<char>>;

    /// Announce one line: the history grows by exactly that line.
    fn announce(&mut self, line: String)
        ensures
            final(self).emitted() == old(self).emitted().push(line@),
    ;
}

/// A sink that records every announced line in memory.
pub struct VecSink {
    pub lines: Vec<String>,
}

impl VecSink {
    /// A sink with an empty history.
    pub fn new() -> (s: VecSink)
        ensures
            s.emitted() == Seq::<Seq<char>>::empty(),
    {
        VecSink { lines: Vec::new() }
    }
}

impl Sink for VecSink {
    open spec fn emitted(&self) -> Seq<Seq<char>> {
        self.lines.deep_view()
    }

    fn announce(&mut self, line: String) {
        self.lines.push(line);
        proof {
            assert(self.emitted() =~= old(self).emitted().push(line@));
        }
    }
}

/// Summarize `item`, wait for the summary, then announce it.
///
/// Exactly one line is emitted, `"Breaking news! "` followed by the
/// summary, and only after the result-producer has completed.
pub fn notify<T: Summary, S: Sink>(item: &T, sink: &mut S)
    ensures
        final(sink).emitted() == old(sink).emitted().push(announcement(item.summary_spec())),
{
    let mut f = item.summarize();
    let s = drive(&mut f);
    let mut line = String::from_str("Breaking news! ");
    line.append(s.as_str());
    sink.announce(line);
}

} // verus!
