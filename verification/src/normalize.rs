//! Normalization of a raw feed document: entries missing a title or a
//! publication timestamp are dropped silently, and each surviving entry's
//! timestamp is parsed in the textual date-time format the syndication
//! standard mandates. A surviving entry whose timestamp does not conform
//! fails the whole feed.

use vstd::prelude::*;

use chrono::Datelike;

use crate::date::Date;
use crate::feed::{FeedChannel, FeedChannelView, FeedItem, FeedItemView, RawItem, RawItemView,
    RssResponse, RssResponseView};

verus! {

/// The calendar date that the required textual date-time format assigns to a
/// timestamp, or `None` where the timestamp does not conform to the format.
pub uninterp spec fn rfc2822_date_of(s: Seq<char>) -> Option<Date>;

/// Relies on chrono's `DateTime::parse_from_rfc2822`, followed by
/// `date_naive` and the `Datelike` accessors: whether a timestamp conforms
/// to the format, and the calendar date of the offset-resolved instant,
/// depend on the characters of the timestamp alone, and chrono documents the
/// month and day accessors to stay within their calendar ranges.
#[verifier::external_body]
fn parse_rfc2822_date(s: &str) -> (r: Option<Date>)
    ensures
        r == rfc2822_date_of(s@),
        r matches Some(d) ==> d.wf(),
{
    match chrono::DateTime::parse_from_rfc2822(s) {
        Ok(t) => {
            let d = t.date_naive();
            Some(Date { year: d.year(), month: d.month() as u8, day: d.day() as u8 })
        },
        Err(_) => None,
    }
}

/// Why a feed failed between fetch and normalized output.
#[derive(Clone, Debug, PartialEq)]
pub enum FeedError {
    /// The document is not a structurally valid feed.
    InvalidDocument,
    /// A surviving entry's publication timestamp does not conform to the
    /// required textual date-time format; the offending timestamp is kept.
    BadDateFormat { pub_date: String },
}

/// A raw entry carries both required fields, so normalization keeps it.
pub open spec fn has_required_fields(it: RawItemView) -> bool {
    it.title is Some && it.pub_date is Some
}

/// A kept entry's timestamp conforms to the required format.
pub open spec fn item_date_parses(it: RawItemView) -> bool {
    rfc2822_date_of(it.pub_date.unwrap()) is Some
}

/// Every kept entry of the document parses, so normalization succeeds.
pub open spec fn all_dates_parse(items: Seq<RawItemView>) -> bool {
    forall|i: int|
        0 <= i < items.len() ==> (has_required_fields(#[trigger] items[i]) ==> item_date_parses(
            items[i],
        ))
}

/// The normalized form of one kept raw entry.
pub open spec fn normalized_item(it: RawItemView) -> FeedItemView {
    FeedItemView { title: it.title.unwrap(), pub_date: rfc2822_date_of(it.pub_date.unwrap()).unwrap() }
}

/// The normalized entries of a document: the kept entries in document order,
/// each with its timestamp turned into a calendar date.
pub open spec fn normalized_items(items: Seq<RawItemView>) -> Seq<FeedItemView>
    decreases items.len(),
{
    if items.len() == 0 {
        Seq::empty()
    } else {
        let rest = normalized_items(items.drop_last());
        if has_required_fields(items.last()) {
            rest.push(normalized_item(items.last()))
        } else {
            rest
        }
    }
}

/// The entry at `i` is kept and is the first kept entry whose timestamp does
/// not conform to the required format.
pub open spec fn first_bad_item(items: Seq<RawItemView>, i: int) -> bool {
    &&& 0 <= i < items.len()
    &&& has_required_fields(items[i])
    &&& !item_date_parses(items[i])
    &&& forall|j: int|
        0 <= j < i ==> (has_required_fields(#[trigger] items[j]) ==> item_date_parses(items[j]))
}

/// How many entries of a document lack a title or a publication timestamp.
pub open spec fn missing_count(items: Seq<RawItemView>) -> nat
    decreases items.len(),
{
    if items.len() == 0 {
        0
    } else {
        missing_count(items.drop_last()) + if has_required_fields(items.last()) {
            0nat
        } else {
            1nat
        }
    }
}

/// Normalizing a document with `N` raw entries of which `K` lack a title or
/// a timestamp yields exactly `N - K` entries, in the original order.
pub proof fn lemma_normalized_count(items: Seq<RawItemView>)
    ensures
        missing_count(items) <= items.len(),
        normalized_items(items).len() == items.len() - missing_count(items),
    decreases items.len(),
{
    if items.len() > 0 {
        lemma_normalized_count(items.drop_last());
    }
}

/// The normalized feed of a fetched document, defined where every kept
/// entry's timestamp parses.
pub open spec fn normalized_feed(response: RssResponseView) -> FeedChannelView {
    FeedChannelView {
        channel_name: response.channel.title,
        time_to_fetch: response.time_to_fetch,
        items: normalized_items(response.channel.items),
    }
}

/// Normalize a fetched feed document.
///
/// Entries missing a title or a timestamp are dropped silently; the feed
/// succeeds exactly when every kept entry's timestamp conforms to the
/// required format, and then holds the kept entries in document order. The
/// first non-conforming timestamp fails the whole feed.
#[verifier::loop_isolation(false)]
pub fn transform_feed_channel(response: RssResponse) -> (r: Result<FeedChannel, FeedError>)
    ensures
        r is Ok <==> all_dates_parse(response@.channel.items),
        r matches Ok(fc) ==> fc@ == normalized_feed(response@),
        r matches Err(e) ==> (e matches FeedError::BadDateFormat { pub_date } && (exists|i: int|
            first_bad_item(response@.channel.items, i) && pub_date@ == response@.channel.items[i]
                .pub_date.unwrap())),
{
    let ghost raw: Seq<RawItemView> = response@.channel.items;
    let channel = response.channel;
    let time_to_fetch = response.time_to_fetch;
    let items = channel.items;
    let n = items.len();
    let mut out: Vec<FeedItem> = Vec::new();
    let mut i: usize = 0;
    while i < n
        invariant
            i <= n,
            n == items.len(),
            raw == items@.map_values(|it: RawItem| it@),
            out@.map_values(|it: FeedItem| it@) == normalized_items(raw.take(i as int)),
            forall|j: int|
                0 <= j < i ==> (has_required_fields(#[trigger] raw[j]) ==> item_date_parses(
                    raw[j],
                )),
        decreases n - i,
    {
        let it = &items[i];
        if it.title.is_some() && it.pub_date.is_some() {
            let pub_date: &String = it.pub_date.as_ref().unwrap();
            match parse_rfc2822_date(pub_date.as_str()) {
                Some(d) => {
                    let title = it.title.as_ref().unwrap().clone();
                    out.push(FeedItem { title, pub_date: d });
                },
                None => {
                    assert(first_bad_item(raw, i as int));
                    return Err(FeedError::BadDateFormat { pub_date: pub_date.clone() });
                },
            }
        }
        proof {
            assert(raw.take(i + 1).drop_last() =~= raw.take(i as int));
            assert(raw.take(i + 1).last() == raw[i as int]);
            assert(out@.map_values(|it: FeedItem| it@) =~= normalized_items(raw.take(i + 1)));
        }
        i = i + 1;
    }
    proof {
        assert(raw.take(n as int) =~= raw);
    }
    let fc = FeedChannel { channel_name: channel.title, time_to_fetch, items: out };
    proof {
        assert(fc@ =~= normalized_feed(response@));
    }
    Ok(fc)
}

} // verus!
