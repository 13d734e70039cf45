//! Fan-in bookkeeping for one run: each launched task reports exactly one
//! completion, each completion is turned into exactly one action as it
//! arrives, and a failure of one feed never ends the collection early.

use vstd::prelude::*;

use crate::date::Date;
use crate::feed::{FeedChannel, FeedChannelView, RssResponse};
use crate::filter::{filter_feed_items_with, filtered_feed};
use crate::normalize::{all_dates_parse, first_bad_item, normalized_feed, transform_feed_channel,
    FeedError};

verus! {

/// One completion observed by the coordinator: a task's fetched document,
/// or the report that the task failed before producing one.
#[derive(Clone, Debug, PartialEq)]
pub enum CompletionEvent {
    Completed(RssResponse),
    TaskFailed(String),
}

/// Why one feed produced no output record.
#[derive(Clone, Debug, PartialEq)]
pub enum FeedFailure {
    /// The feed's document or a kept entry's timestamp did not parse.
    Parse(FeedError),
    /// The feed's task failed before handing back a document.
    Task(String),
}

/// What the coordinator does with one completion: forward a record to the
/// sink, or report the feed's failure. Either way the run goes on.
#[derive(Clone, Debug, PartialEq)]
pub enum FeedAction {
    Deliver(FeedChannel),
    Report(FeedFailure),
}

/// The cutoff applied at the run level: a feed is filtered only when a
/// cutoff was supplied, and passes through unchanged otherwise.
pub open spec fn applied_cutoff(cutoff: Option<Date>, feed: FeedChannelView) -> FeedChannelView {
    match cutoff {
        Some(d) => filtered_feed(d, feed),
        None => feed,
    }
}

/// The bookkeeping of one run: how many tasks were launched, how many
/// records were forwarded, how many feeds failed, and the run's cutoff.
pub struct Coordinator {
    pub total: usize,
    pub delivered: usize,
    pub failed: usize,
    pub cutoff: Option<Date>,
}

impl Coordinator {
    /// Every forwarded or failed feed stems from a launched task.
    pub open spec fn wf(self) -> bool {
        self.delivered + self.failed <= self.total
    }

    /// How many launched tasks have not reported a completion yet.
    pub open spec fn pending(self) -> int {
        self.total - self.delivered - self.failed
    }

    /// Start a run of `total` launched tasks under an optional cutoff.
    pub fn new(total: usize, cutoff: Option<Date>) -> (c: Coordinator)
        ensures
            c.wf(),
            c.total == total,
            c.delivered == 0,
            c.failed == 0,
            c.cutoff == cutoff,
            c.pending() == total,
    {
        Coordinator { total, delivered: 0, failed: 0, cutoff }
    }

    /// Handle one completion as it arrives: normalize and filter a fetched
    /// document into a record to forward, or report the feed's failure.
    ///
    /// Exactly one task is accounted for per call, a delivery counts exactly
    /// the forwarded records, and a failed feed only adds to the failure
    /// count: the other tasks and the rest of the run are untouched.
    pub fn step(&mut self, event: CompletionEvent) -> (action: FeedAction)
        requires
            old(self).wf(),
            old(self).pending() > 0,
        ensures
            final(self).wf(),
            final(self).total == old(self).total,
            final(self).cutoff == old(self).cutoff,
            final(self).pending() == old(self).pending() - 1,
            action matches FeedAction::Deliver(_) <==> final(self).delivered == old(
                self,
            ).delivered + 1,
            action matches FeedAction::Report(_) <==> final(self).failed == old(self).failed + 1,
            event matches CompletionEvent::Completed(resp) ==> (if all_dates_parse(
                resp@.channel.items,
            ) {
                action matches FeedAction::Deliver(fc) && fc@ == applied_cutoff(
                    old(self).cutoff,
                    normalized_feed(resp@),
                )
            } else {
                action matches FeedAction::Report(f) && (f matches FeedFailure::Parse(e) && (
                e matches FeedError::BadDateFormat { pub_date } && (exists|i: int|
                    first_bad_item(resp@.channel.items, i) && pub_date@ == resp@.channel.items[i]
                        .pub_date.unwrap())))
            }),
            event matches CompletionEvent::TaskFailed(msg) ==> (action matches FeedAction::Report(
                f,
            ) && f == FeedFailure::Task(msg)),
    {
        match event {
            CompletionEvent::Completed(resp) => {
                match transform_feed_channel(resp) {
                    Ok(fc) => {
                        let out = match &self.cutoff {
                            Some(d) => filter_feed_items_with(d, fc),
                            None => fc,
                        };
                        self.delivered = self.delivered + 1;
                        FeedAction::Deliver(out)
                    },
                    Err(e) => {
                        self.failed = self.failed + 1;
                        FeedAction::Report(FeedFailure::Parse(e))
                    },
                }
            },
            CompletionEvent::TaskFailed(msg) => {
                self.failed = self.failed + 1;
                FeedAction::Report(FeedFailure::Task(msg))
            },
        }
    }

    /// The collection loop may end only when every launched task has
    /// reported a completion or a failure.
    pub fn is_done(&self) -> (r: bool)
        requires
            self.wf(),
        ensures
            r == (self.pending() == 0),
    {
        self.delivered + self.failed == self.total
    }
}

} // verus!
