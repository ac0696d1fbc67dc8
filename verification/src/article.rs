//! A news article, summarized by the immediate-result strategy: the
//! summary is formatted eagerly and wrapped in an already-completed
//! producer, so driving it never suspends.

use vstd::pervasive::unreached;
use vstd::prelude::*;
use vstd::string::StringExecFns;

use crate::producer::ReadyFuture;
use crate::producer::SummaryFuture;
use crate::producer::SummaryPoll;
use crate::summary::Summary;

verus! {

pub struct NewsArticle {
    pub headline: String,
    pub location: String,
    pub author: String,
    pub content: String,
}

/// The summary of an article: `"{headline}, by {author} ({location})"`.
pub open spec fn article_summary(
    headline: Seq<char>,
    author: Seq<char>,
    location: Seq<char>,
) -> Seq<char> {
    headline + ", by "@ + author + " ("@ + location + ")"@
}

impl NewsArticle {
    /// Summarizing an article completes on the very first drive: the
    /// producer starts with no fuel, so it can never report `Pending`,
    /// and the one drive yields exactly the formatted summary, with no
    /// incomplete state ever observable.
    pub fn summarize_now(&self) -> (s: String)
        ensures
            s@ == article_summary(self.headline@, self.author@, self.location@),
    {
        let mut f = self.summarize();
        match f.poll() {
            SummaryPoll::Ready(s) => s,
            SummaryPoll::Pending => unreached(),
        }
    }
}

impl Summary for NewsArticle {
    type SummarizeFuture = ReadyFuture;

    open spec fn summary_spec(&self) -> Seq<char> {
        article_summary(self.headline@, self.author@, self.location@)
    }

    fn summarize(&self) -> (f: ReadyFuture)
        ensures
            f.fuel() == 0,
    {
        let mut s = self.headline.clone();
        s.append(", by ");
        s.append(self.author.as_str());
        s.append(" (");
        s.append(self.location.as_str());
        s.append(")");
        ReadyFuture::new(s)
    }
}

} // verus!
