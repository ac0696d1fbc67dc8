//! A minimal capability: "produce a human-readable summary of oneself",
//! supplied asynchronously and differently per concrete type.
//!
//! The asynchronous side is modelled as an explicit poll-until-ready
//! protocol: a result-producer is driven step by step until it reports
//! completion with the summary string. Each implementing type chooses its
//! own producer type statically, so a type that never suspends pays
//! nothing for the generality.

pub mod article;
pub mod notify;
pub mod producer;
pub mod summary;
pub mod tweet;

pub use article::NewsArticle;
pub use notify::Sink;
pub use notify::VecSink;
pub use notify::notify;
pub use producer::ReadyFuture;
pub use producer::SummaryFuture;
pub use producer::SummaryPoll;
pub use producer::drive;
pub use summary::Summary;
pub use tweet::Tweet;
pub use tweet::TweetSummarizeFuture;
