//! A verified core for a concurrent RSS feed reader.
//!
//! The library holds the logic of the pipeline: extracting feed URLs from a
//! line-oriented listing, parsing a fetched feed document, normalizing its
//! entries into titled, dated items, filtering items by a cutoff date, and
//! the fan-in bookkeeping that collects per-feed completions. Network and
//! console I/O live outside the library and hand it plain values.

pub mod coordinator;
pub mod date;
pub mod document;
pub mod feed;
pub mod filter;
pub mod normalize;
pub mod urls;

pub use coordinator::{CompletionEvent, Coordinator, FeedAction, FeedFailure};
pub use date::Date;
pub use document::read_channel;
pub use feed::{FeedChannel, FeedItem, FetchLatency, RawChannel, RawItem, RssResponse};
pub use filter::filter_feed_items_with;
pub use normalize::{transform_feed_channel, FeedError};
pub use urls::extract_feed_urls;
