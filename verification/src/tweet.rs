//! A tweet, summarized by a custom result-producer: a dedicated
//! state-holder whose single transition, on the first drive, formats the
//! summary and reports completion. No reachable state ever suspends, but
//! the shape leaves room for suspension without changing the calling
//! convention.

use vstd::pervasive::unreached;
use vstd::prelude::*;
use vstd::string::StringExecFns;

use crate::producer::SummaryFuture;
use crate::producer::SummaryPoll;
use crate::summary::Summary;

verus! {

pub struct Tweet {
    pub username: String,
    pub content: String,
    pub reply: bool,
    pub retweet: bool,
}

/// The summary of a tweet: `"{username}: {content}"`.
pub open spec fn tweet_summary(username: Seq<char>, content: Seq<char>) -> Seq<char> {
    username + ": "@ + content
}

/// The result-producer for `Tweet`. It owns copies of the two fields the
/// summary reads, taken when summarization begins, so the source value
/// is free to go out of scope while the producer is still being driven.
pub struct TweetSummarizeFuture {
    username: String,
    content: String,
    reported: bool,
}

impl SummaryFuture for TweetSummarizeFuture {
    closed spec fn summary(&self) -> Seq<char> {
        tweet_summary(self.username@, self.content@)
    }

    closed spec fn done(&self) -> bool {
        self.reported
    }

    closed spec fn fuel(&self) -> nat {
        0
    }

    fn poll(&mut self) -> (r: SummaryPoll) {
        self.reported = true;
        let mut s = self.username.clone();
        s.append(": ");
        s.append(self.content.as_str());
        SummaryPoll::Ready(s)
    }
}

impl Tweet {
    /// Summarizing a tweet completes on the very first drive: the
    /// producer starts with no fuel, so it can never report `Pending`,
    /// and the one drive yields exactly the formatted summary.
    pub fn summarize_now(&self) -> (s: String)
        ensures
            s@ == tweet_summary(self.username@, self.content@),
    {
        let mut f = self.summarize();
        match f.poll() {
            SummaryPoll::Ready(s) => s,
            SummaryPoll::Pending => unreached(),
        }
    }
}

impl Summary for Tweet {
    type SummarizeFuture = TweetSummarizeFuture;

    open spec fn summary_spec(&self) -> Seq<char> {
        tweet_summary(self.username@, self.content@)
    }

    fn summarize(&self) -> (f: TweetSummarizeFuture)
        ensures
            f.fuel() == 0,
    {
        TweetSummarizeFuture {
            username: self.username.clone(),
            content: self.content.clone(),
            reported: false,
        }
    }
}

} // verus!
