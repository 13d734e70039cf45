//! The date filter: keep the entries published on or after a cutoff date,
//! in document order, leaving every other part of the feed unchanged.

use vstd::prelude::*;

use crate::date::Date;
use crate::feed::{FeedChannel, FeedChannelView, FeedItem, FeedItemView};

verus! {

/// The sub-sequence of `items` whose publication date is on or after
/// `cutoff`, in their original relative order.
pub open spec fn filtered_items(cutoff: Date, items: Seq<FeedItemView>) -> Seq<FeedItemView>
    decreases items.len(),
{
    if items.len() == 0 {
        Seq::empty()
    } else {
        let rest = filtered_items(cutoff, items.drop_last());
        if cutoff.spec_le(items.last().pub_date) {
            rest.push(items.last())
        } else {
            rest
        }
    }
}

/// A feed filtered by `cutoff`: the entries on or after the cutoff, every
/// other field unchanged.
pub open spec fn filtered_feed(cutoff: Date, feed: FeedChannelView) -> FeedChannelView {
    FeedChannelView { items: filtered_items(cutoff, feed.items), ..feed }
}

/// Keep the entries of `feed_to_filter` published on or after `date`.
pub fn filter_feed_items_with(date: &Date, feed_to_filter: FeedChannel) -> (r: FeedChannel)
    ensures
        r@ == filtered_feed(*date, feed_to_filter@),
{
    let ghost all: Seq<FeedItemView> = feed_to_filter@.items;
    let channel_name = feed_to_filter.channel_name;
    let time_to_fetch = feed_to_filter.time_to_fetch;
    let items = feed_to_filter.items;
    let n = items.len();
    let mut filtered: Vec<FeedItem> = Vec::new();
    let mut i: usize = 0;
    while i < n
        invariant
            i <= n,
            n == items.len(),
            all == items@.map_values(|it: FeedItem| it@),
            filtered@.map_values(|it: FeedItem| it@) == filtered_items(*date, all.take(i as int)),
        decreases n - i,
    {
        let item = &items[i];
        if date.le(&item.pub_date) {
            filtered.push(FeedItem { title: item.title.clone(), pub_date: item.pub_date });
        }
        proof {
            assert(all.take(i + 1).drop_last() =~= all.take(i as int));
            assert(all.take(i + 1).last() == all[i as int]);
            assert(filtered@.map_values(|it: FeedItem| it@) =~= filtered_items(
                *date,
                all.take(i + 1),
            ));
        }
        i = i + 1;
    }
    proof {
        assert(all.take(n as int) =~= all);
    }
    let r = FeedChannel { channel_name, time_to_fetch, items: filtered };
    proof {
        assert(r@ =~= filtered_feed(*date, feed_to_filter@));
    }
    r
}

/// Every entry the filter keeps is on or after the cutoff.
pub proof fn lemma_filtered_items_pass(cutoff: Date, items: Seq<FeedItemView>)
    ensures
        forall|i: int|
            0 <= i < filtered_items(cutoff, items).len() ==> cutoff.spec_le(
                #[trigger] filtered_items(cutoff, items)[i].pub_date,
            ),
    decreases items.len(),
{
    if items.len() > 0 {
        lemma_filtered_items_pass(cutoff, items.drop_last());
        let rest = filtered_items(cutoff, items.drop_last());
        assert forall|i: int|
            0 <= i < filtered_items(cutoff, items).len() implies cutoff.spec_le(
            filtered_items(cutoff, items)[i].pub_date,
        ) by {
            if i < rest.len() {
                assert(filtered_items(cutoff, items)[i] == rest[i]);
            } else {
                assert(filtered_items(cutoff, items)[i] == items.last());
            }
        }
    }
}

/// Filtering keeps a sequence whose entries all pass the cutoff unchanged.
pub proof fn lemma_filtered_items_all_pass(cutoff: Date, items: Seq<FeedItemView>)
    requires
        forall|i: int| 0 <= i < items.len() ==> cutoff.spec_le(#[trigger] items[i].pub_date),
    ensures
        filtered_items(cutoff, items) == items,
    decreases items.len(),
{
    if items.len() > 0 {
        lemma_filtered_items_all_pass(cutoff, items.drop_last());
        assert(filtered_items(cutoff, items) =~= items);
    } else {
        assert(filtered_items(cutoff, items) =~= items);
    }
}

/// The filter is idempotent: filtering an already filtered feed with the
/// same cutoff changes nothing.
pub proof fn lemma_filter_idempotent(cutoff: Date, feed: FeedChannelView)
    ensures
        filtered_feed(cutoff, filtered_feed(cutoff, feed)) == filtered_feed(cutoff, feed),
{
    lemma_filtered_items_pass(cutoff, feed.items);
    lemma_filtered_items_all_pass(cutoff, filtered_items(cutoff, feed.items));
    assert(filtered_feed(cutoff, filtered_feed(cutoff, feed)) =~= filtered_feed(cutoff, feed));
}

} // verus!
