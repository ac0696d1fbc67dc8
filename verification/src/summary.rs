//! The capability contract: a type that can produce a human-readable
//! summary of itself, possibly asynchronously.

use vstd::prelude::*;

use crate::producer::SummaryFuture;

verus! {

/// A type that can summarize itself.
///
/// Each implementing type supplies its own result-producer type, chosen
/// statically: a type whose summary is available at once hands out an
/// already-completed producer, while a type that wants its own
/// suspend/resume logic authors a dedicated producer. The consumer never
/// learns which producer type is in play; it only drives it to
/// completion.
pub trait Summary {
    /// The result-producer type this implementation supplies.
    type SummarizeFuture: SummaryFuture;

    /// The summary string that summarizing `self` yields.
    spec fn summary_spec(&self) -> Seq<char>;

    /// Begin summarizing `self`: hand out a fresh producer that, driven
    /// to completion, yields exactly `self.summary_spec()`.
    fn summarize(&self) -> (f: Self::SummarizeFuture)
        ensures
            f.summary() == self.summary_spec(),
            !f.done(),
    ;
}

} // verus!
