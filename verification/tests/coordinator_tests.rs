use rssreader::{read_channel, CompletionEvent, Coordinator, Date, FeedAction, FeedError,
    FeedFailure, FetchLatency, RawChannel, RawItem, RssResponse};

fn valid_response(name: &str) -> RssResponse {
    RssResponse {
        channel: RawChannel {
            title: String::from(name),
            items: vec![RawItem {
                title: Some(String::from("entry")),
                pub_date: Some(String::from("Wed, 06 Oct 2021 17:00:53 GMT")),
            }],
        },
        time_to_fetch: FetchLatency { secs: 0, nanos: 0 },
    }
}

#[test]
fn five_tasks_one_failure_four_records() {
    let mut coordinator = Coordinator::new(5, None);
    let mut delivered_records = Vec::new();
    let mut reported = 0;

    for task in 1..=5 {
        assert!(!coordinator.is_done());
        let event = if task == 3 {
            CompletionEvent::TaskFailed(String::from("task 3 failed"))
        } else {
            CompletionEvent::Completed(valid_response("ok feed"))
        };
        match coordinator.step(event) {
            FeedAction::Deliver(record) => delivered_records.push(record),
            FeedAction::Report(_) => reported += 1,
        }
    }

    assert!(coordinator.is_done());
    assert_eq!(delivered_records.len(), 4);
    assert_eq!(reported, 1);
    assert_eq!(coordinator.delivered, 4);
    assert_eq!(coordinator.failed, 1);
}

#[test]
fn invalid_document_is_isolated_from_a_valid_feed() {
    let bad_bytes: Vec<u8> = b"<html><body>not a feed</body></html>".to_vec();
    let bad = read_channel(&bad_bytes, FetchLatency { secs: 0, nanos: 0 });
    assert_eq!(bad.unwrap_err(), FeedError::InvalidDocument);

    let good_bytes: Vec<u8> = b"<rss version=\"2.0\"><channel>\
        <title>dummy channel</title>\
        <item><title>1</title><pubDate>Wed, 06 Oct 2021 17:00:53 GMT</pubDate></item>\
        </channel></rss>"
        .to_vec();
    let good = read_channel(&good_bytes, FetchLatency { secs: 1, nanos: 0 }).unwrap();

    let mut coordinator = Coordinator::new(2, None);
    let first = coordinator.step(CompletionEvent::TaskFailed(String::from(
        "Invalid feed content from http://one.example",
    )));
    assert!(matches!(first, FeedAction::Report(FeedFailure::Task(_))));
    assert!(!coordinator.is_done());

    let second = coordinator.step(CompletionEvent::Completed(good));
    match second {
        FeedAction::Deliver(record) => {
            assert_eq!(record.channel_name, "dummy channel");
            assert_eq!(record.items.len(), 1);
            assert_eq!(record.items[0].title, "1");
            assert_eq!(record.items[0].pub_date, Date::new(2021, 10, 6));
        }
        FeedAction::Report(_) => panic!("the valid feed must be forwarded"),
    }
    assert!(coordinator.is_done());
}

#[test]
fn a_run_with_no_tasks_is_done_at_once() {
    let coordinator = Coordinator::new(0, None);
    assert!(coordinator.is_done());
    assert_eq!(coordinator.delivered, 0);
    assert_eq!(coordinator.failed, 0);
}

#[test]
fn cutoff_is_applied_before_forwarding() {
    let mut coordinator = Coordinator::new(1, Some(Date::new(2021, 1, 1)));
    let response = RssResponse {
        channel: RawChannel {
            title: String::from("c"),
            items: vec![
                RawItem {
                    title: Some(String::from("new")),
                    pub_date: Some(String::from("Wed, 06 Oct 2021 17:00:53 GMT")),
                },
                RawItem {
                    title: Some(String::from("old")),
                    pub_date: Some(String::from("Tue, 06 Oct 2020 17:00:53 GMT")),
                },
            ],
        },
        time_to_fetch: FetchLatency { secs: 0, nanos: 0 },
    };
    match coordinator.step(CompletionEvent::Completed(response)) {
        FeedAction::Deliver(record) => {
            assert_eq!(record.items.len(), 1);
            assert_eq!(record.items[0].title, "new");
        }
        FeedAction::Report(_) => panic!("the feed must be forwarded"),
    }
}

#[test]
fn parse_failure_is_reported_not_forwarded() {
    let mut coordinator = Coordinator::new(1, None);
    let response = RssResponse {
        channel: RawChannel {
            title: String::from("c"),
            items: vec![RawItem {
                title: Some(String::from("bad")),
                pub_date: Some(String::from("06/10/2021")),
            }],
        },
        time_to_fetch: FetchLatency { secs: 0, nanos: 0 },
    };
    match coordinator.step(CompletionEvent::Completed(response)) {
        FeedAction::Report(FeedFailure::Parse(err)) => {
            assert_eq!(err, FeedError::BadDateFormat { pub_date: String::from("06/10/2021") });
        }
        _ => panic!("a bad timestamp must be reported as a parse failure"),
    }
    assert!(coordinator.is_done());
    assert_eq!(coordinator.delivered, 0);
    assert_eq!(coordinator.failed, 1);
}
