use newsflash::NewsArticle;
use newsflash::ReadyFuture;
use newsflash::Summary;
use newsflash::SummaryFuture;
use newsflash::SummaryPoll;
use newsflash::Tweet;
use newsflash::VecSink;
use newsflash::drive;
use newsflash::notify;

fn penguins_article() -> NewsArticle {
    NewsArticle {
        headline: String::from("Penguins Win"),
        location: String::from("Pittsburgh, PA, USA"),
        author: String::from("Iceburgh"),
        content: String::from(
            "The Pittsburgh Penguins once again are the best hockey team in the NHL.",
        ),
    }
}

fn horse_tweet() -> Tweet {
    Tweet {
        username: String::from("horse_ebooks"),
        content: String::from("of course, as you probably already know, people"),
        reply: false,
        retweet: false,
    }
}

#[test]
fn article_summary_first_drive() {
    let article = penguins_article();
    let mut producer = article.summarize();
    match producer.poll() {
        SummaryPoll::Ready(s) => {
            assert_eq!(s, "Penguins Win, by Iceburgh (Pittsburgh, PA, USA)");
        }
        SummaryPoll::Pending => panic!("immediate producer reported pending"),
    }
}

#[test]
fn tweet_summary_first_drive() {
    let tweet = horse_tweet();
    let mut producer = tweet.summarize();
    match producer.poll() {
        SummaryPoll::Ready(s) => {
            assert_eq!(s, "horse_ebooks: of course, as you probably already know, people");
        }
        SummaryPoll::Pending => panic!("tweet producer reported pending"),
    }
}

#[test]
fn article_driven_to_completion() {
    let article = penguins_article();
    let mut producer = article.summarize();
    let s = drive(&mut producer);
    assert_eq!(s, "Penguins Win, by Iceburgh (Pittsburgh, PA, USA)");
}

#[test]
fn tweet_driven_to_completion() {
    let tweet = horse_tweet();
    let mut producer = tweet.summarize();
    let s = drive(&mut producer);
    assert_eq!(s, "horse_ebooks: of course, as you probably already know, people");
}

#[test]
fn article_summarize_now() {
    let article = penguins_article();
    let s = article.summarize_now();
    assert_eq!(s, "Penguins Win, by Iceburgh (Pittsburgh, PA, USA)");
}

#[test]
fn tweet_summarize_now() {
    let tweet = horse_tweet();
    let s = tweet.summarize_now();
    assert_eq!(s, "horse_ebooks: of course, as you probably already know, people");
}

#[test]
fn tweet_repoll_keeps_value() {
    let tweet = horse_tweet();
    let mut producer = tweet.summarize();
    let first = match producer.poll() {
        SummaryPoll::Ready(s) => s,
        SummaryPoll::Pending => panic!("tweet producer reported pending"),
    };
    let second = match producer.poll() {
        SummaryPoll::Ready(s) => s,
        SummaryPoll::Pending => panic!("completed producer reported pending"),
    };
    assert_eq!(first, second);
    assert_eq!(first, "horse_ebooks: of course, as you probably already know, people");
}

#[test]
fn ready_future_repoll_keeps_value() {
    let mut producer = ReadyFuture::new(String::from("already here"));
    let first = match producer.poll() {
        SummaryPoll::Ready(s) => s,
        SummaryPoll::Pending => panic!("immediate producer reported pending"),
    };
    let second = match producer.poll() {
        SummaryPoll::Ready(s) => s,
        SummaryPoll::Pending => panic!("completed producer reported pending"),
    };
    assert_eq!(first, "already here");
    assert_eq!(second, "already here");
}

#[test]
fn drive_ready_future() {
    let mut producer = ReadyFuture::new(String::from("done"));
    assert_eq!(drive(&mut producer), "done");
}

#[test]
fn notify_emits_exactly_one_line() {
    let article = penguins_article();
    let mut sink = VecSink::new();
    notify(&article, &mut sink);
    assert_eq!(sink.lines.len(), 1);
    assert_eq!(
        sink.lines[0],
        "Breaking news! Penguins Win, by Iceburgh (Pittsburgh, PA, USA)"
    );
}

#[test]
fn notify_tweet() {
    let tweet = horse_tweet();
    let mut sink = VecSink::new();
    notify(&tweet, &mut sink);
    assert_eq!(sink.lines.len(), 1);
    assert_eq!(
        sink.lines[0],
        "Breaking news! horse_ebooks: of course, as you probably already know, people"
    );
}

#[test]
fn notify_twice_appends_in_order() {
    let article = penguins_article();
    let tweet = horse_tweet();
    let mut sink = VecSink::new();
    notify(&article, &mut sink);
    notify(&tweet, &mut sink);
    assert_eq!(sink.lines.len(), 2);
    assert_eq!(
        sink.lines[0],
        "Breaking news! Penguins Win, by Iceburgh (Pittsburgh, PA, USA)"
    );
    assert_eq!(
        sink.lines[1],
        "Breaking news! horse_ebooks: of course, as you probably already know, people"
    );
}

#[test]
fn empty_article_fields() {
    let article = NewsArticle {
        headline: String::new(),
        location: String::new(),
        author: String::new(),
        content: String::new(),
    };
    assert_eq!(article.summarize_now(), ", by  ()");
}

#[test]
fn empty_tweet_fields() {
    let tweet = Tweet {
        username: String::new(),
        content: String::new(),
        reply: true,
        retweet: true,
    };
    assert_eq!(tweet.summarize_now(), ": ");
}
