//! A verified resource-watch (informer) core.
//!
//! The library maintains an eventually consistent local view of a remote,
//! versioned collection of objects exposed through a list+watch API. It
//! establishes an initial snapshot, follows an incremental change stream
//! anchored at the snapshot's version token, recovers from disconnects and
//! from server-side history compaction, and hands the consumer an ordered,
//! at-least-once stream of added/modified/deleted events.
//!
//! All network, async and logging plumbing lives outside the library; the
//! library holds the decision logic: cursor tracking, event classification,
//! failure classification, backoff arithmetic, and the reconciliation state
//! machine that ties them together.

pub mod backoff;
pub mod cursor;
pub mod dispatch;
pub mod event;
pub mod object;
pub mod reconcile;
pub mod session;
pub mod store;
