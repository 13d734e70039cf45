//! The data model of the pipeline: raw feed documents as plain values, and
//! normalized feeds of titled, dated items.

use vstd::prelude::*;

use crate::date::Date;

verus! {

/// Elapsed wall-clock time of a fetch, as whole seconds plus a nanosecond
/// remainder.
#[derive(Clone, Copy, Debug, PartialEq, Eq, Structural, Hash)]
pub struct FetchLatency {
    pub secs: u64,
    pub nanos: u32,
}

/// A normalized feed entry: a title and a publication date, both always
/// present.
#[derive(Clone, Debug, PartialEq)]
pub struct FeedItem {
    pub title: String,
    pub pub_date: Date,
}

/// The mathematical value of a [`FeedItem`].
#[verifier::ext_equal]
pub struct FeedItemView {
    pub title: Seq<char>,
    pub pub_date: Date,
}

impl View for FeedItem {
    type V = FeedItemView;

    open spec fn view(&self) -> FeedItemView {
        FeedItemView { title: self.title@, pub_date: self.pub_date }
    }
}

/// A normalized feed: the channel's name, the latency of its fetch, and its
/// entries in document order.
#[derive(Clone, Debug, PartialEq)]
pub struct FeedChannel {
    pub channel_name: String,
    pub time_to_fetch: FetchLatency,
    pub items: Vec<FeedItem>,
}

/// The mathematical value of a [`FeedChannel`].
#[verifier::ext_equal]
pub struct FeedChannelView {
    pub channel_name: Seq<char>,
    pub time_to_fetch: FetchLatency,
    pub items: Seq<FeedItemView>,
}

impl View for FeedChannel {
    type V = FeedChannelView;

    open spec fn view(&self) -> FeedChannelView {
        FeedChannelView {
            channel_name: self.channel_name@,
            time_to_fetch: self.time_to_fetch,
            items: self.items@.map_values(|it: FeedItem| it@),
        }
    }
}

/// One entry of a feed document as parsed from the wire, before
/// normalization: either field may be missing, and the publication timestamp
/// is still text.
#[derive(Clone, Debug, PartialEq)]
pub struct RawItem {
    pub title: Option<String>,
    pub pub_date: Option<String>,
}

/// The mathematical value of a [`RawItem`].
#[verifier::ext_equal]
pub struct RawItemView {
    pub title: Option<Seq<char>>,
    pub pub_date: Option<Seq<char>>,
}

impl View for RawItem {
    type V = RawItemView;

    open spec fn view(&self) -> RawItemView {
        RawItemView {
            title: match self.title {
                Some(t) => Some(t@),
                None => None,
            },
            pub_date: match self.pub_date {
                Some(d) => Some(d@),
                None => None,
            },
        }
    }
}

/// A feed document as parsed from the wire: the channel's title and its
/// entries in document order.
#[derive(Clone, Debug, PartialEq)]
pub struct RawChannel {
    pub title: String,
    pub items: Vec<RawItem>,
}

/// The mathematical value of a [`RawChannel`].
#[verifier::ext_equal]
pub struct RawChannelView {
    pub title: Seq<char>,
    pub items: Seq<RawItemView>,
}

impl View for RawChannel {
    type V = RawChannelView;

    open spec fn view(&self) -> RawChannelView {
        RawChannelView {
            title: self.title@,
            items: self.items@.map_values(|it: RawItem| it@),
        }
    }
}

/// A fetched feed document together with the latency of its fetch.
#[derive(Clone, Debug, PartialEq)]
pub struct RssResponse {
    pub channel: RawChannel,
    pub time_to_fetch: FetchLatency,
}

/// The mathematical value of an [`RssResponse`].
#[verifier::ext_equal]
pub struct RssResponseView {
    pub channel: RawChannelView,
    pub time_to_fetch: FetchLatency,
}

impl View for RssResponse {
    type V = RssResponseView;

    open spec fn view(&self) -> RssResponseView {
        RssResponseView { channel: self.channel@, time_to_fetch: self.time_to_fetch }
    }
}

} // verus!
