//! Reading a fetched feed document: the raw bytes of one HTTP response are
//! parsed into a [`RawChannel`], or rejected as a whole.

use vstd::prelude::*;

use crate::feed::{FetchLatency, RawChannel, RawChannelView, RawItem, RssResponse};
use crate::normalize::FeedError;

verus! {

/// The feed document that the syndication parser reads from `bytes`, or
/// `None` where the bytes are not a structurally valid feed document.
pub uninterp spec fn parsed_channel_of(bytes: Seq<u8>) -> Option<RawChannelView>;

/// Relies on rss's `Channel::read_from`: whether bytes parse as a feed
/// document, and the channel title and each entry's title and publication
/// timestamp, depend on the bytes alone.
#[verifier::external_body]
fn parse_channel_bytes(bytes: &Vec<u8>) -> (r: Option<RawChannel>)
    ensures
        r matches Some(c) ==> parsed_channel_of(bytes@) == Some(c@),
        r is None <==> parsed_channel_of(bytes@) is None,
{
    match rss::Channel::read_from(&bytes[..]) {
        Ok(c) => Some(
            RawChannel {
                title: c.title,
                items: c.items.into_iter().map(
                    |it| RawItem { title: it.title, pub_date: it.pub_date },
                ).collect(),
            },
        ),
        Err(_) => None,
    }
}

/// The compute half of a fetch: parse the fetched bytes as a feed document
/// and pair the result with the fetch's latency. A document that does not
/// parse fails as a whole; no partial channel is returned.
pub fn read_channel(bytes: &Vec<u8>, time_to_fetch: FetchLatency) -> (r: Result<
    RssResponse,
    FeedError,
>)
    ensures
        r is Ok <==> parsed_channel_of(bytes@) is Some,
        r matches Ok(resp) ==> Some(resp.channel@) == parsed_channel_of(bytes@)
            && resp.time_to_fetch == time_to_fetch,
        r matches Err(e) ==> e == FeedError::InvalidDocument,
{
    match parse_channel_bytes(bytes) {
        Some(channel) => Ok(RssResponse { channel, time_to_fetch }),
        None => Err(FeedError::InvalidDocument),
    }
}

} // verus!
