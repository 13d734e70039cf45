use rssreader::{transform_feed_channel, Date, FeedChannel, FeedError, FeedItem, FetchLatency,
    RawChannel, RawItem, RssResponse};

fn raw_item(title: Option<&str>, pub_date: Option<&str>) -> RawItem {
    RawItem {
        title: title.map(String::from),
        pub_date: pub_date.map(String::from),
    }
}

#[test]
fn successful_channel_transformation() {
    let expected = FeedChannel {
        channel_name: "dummy channel".to_string(),
        time_to_fetch: FetchLatency { secs: 2, nanos: 0 },
        items: vec![
            FeedItem { title: String::from("1"), pub_date: Date::new(2021, 10, 6) },
            FeedItem { title: String::from("2"), pub_date: Date::new(2020, 10, 6) },
        ],
    };

    let feed_items = vec![
        raw_item(Some("1"), Some("Wed, 06 Oct 2021 17:00:53 GMT")),
        raw_item(Some("2"), Some("Tue, 06 Oct 2020 17:00:53 GMT")),
    ];

    let channel = RawChannel { title: "dummy channel".to_string(), items: feed_items };

    let channel_with_time = RssResponse {
        channel,
        time_to_fetch: FetchLatency { secs: 2, nanos: 0 },
    };

    let actual = transform_feed_channel(channel_with_time).unwrap();

    assert_eq!(expected, actual);
}

#[test]
fn entries_missing_fields_are_dropped() {
    let channel = RawChannel {
        title: String::from("c"),
        items: vec![
            raw_item(Some("a"), Some("Fri, 01 Jan 2021 00:00:00 GMT")),
            raw_item(None, Some("Fri, 01 Jan 2021 00:00:00 GMT")),
            raw_item(Some("b"), Some("Sat, 02 Jan 2021 00:00:00 GMT")),
            raw_item(Some("no date"), None),
            raw_item(Some("c"), Some("Sun, 03 Jan 2021 00:00:00 GMT")),
        ],
    };
    let response = RssResponse { channel, time_to_fetch: FetchLatency { secs: 0, nanos: 0 } };
    let feed = transform_feed_channel(response).unwrap();
    assert_eq!(feed.items.len(), 3);
    let titles: Vec<&str> = feed.items.iter().map(|it| it.title.as_str()).collect();
    assert_eq!(titles, vec!["a", "b", "c"]);
}

#[test]
fn nonconforming_date_fails_the_whole_feed() {
    let channel = RawChannel {
        title: String::from("c"),
        items: vec![
            raw_item(Some("fine"), Some("Fri, 01 Jan 2021 00:00:00 GMT")),
            raw_item(Some("bad"), Some("2021-01-02")),
            raw_item(Some("also fine"), Some("Sun, 03 Jan 2021 00:00:00 GMT")),
        ],
    };
    let response = RssResponse { channel, time_to_fetch: FetchLatency { secs: 0, nanos: 0 } };
    let err = transform_feed_channel(response).unwrap_err();
    assert_eq!(err, FeedError::BadDateFormat { pub_date: String::from("2021-01-02") });
}

#[test]
fn offset_is_resolved_before_taking_the_date() {
    let channel = RawChannel {
        title: String::from("c"),
        items: vec![raw_item(Some("late"), Some("Fri, 01 Jan 2021 23:30:00 -0200"))],
    };
    let response = RssResponse { channel, time_to_fetch: FetchLatency { secs: 0, nanos: 0 } };
    let feed = transform_feed_channel(response).unwrap();
    assert_eq!(feed.items[0].pub_date, Date::new(2021, 1, 1));
}

#[test]
fn empty_channel_normalizes_to_empty_feed() {
    let channel = RawChannel { title: String::from("empty"), items: vec![] };
    let response = RssResponse { channel, time_to_fetch: FetchLatency { secs: 1, nanos: 5 } };
    let feed = transform_feed_channel(response).unwrap();
    assert_eq!(feed.channel_name, "empty");
    assert_eq!(feed.time_to_fetch, FetchLatency { secs: 1, nanos: 5 });
    assert!(feed.items.is_empty());
}
