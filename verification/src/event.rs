//! The event model: raw protocol events, consumer-facing event kinds,
//! stream-close classification, and the error taxonomy.

use vstd::prelude::*;
use crate::object::ResourceObject;

verus! {

/// A raw event as the change stream delivers it. The first three carry an
/// object and the collection version token the server assigned to the
/// change; a progress marker carries a token but no object; an in-band
/// error carries the server's status code and terminates the stream.
pub enum RawEvent {
    Added(ResourceObject, u64),
    Modified(ResourceObject, u64),
    Deleted(ResourceObject, u64),
    Marker(u64),
    Error(u16),
}

/// The consumer-facing classification of a delivered event.
#[derive(Clone, Copy, PartialEq, Eq, Structural, Debug)]
pub enum EventKind {
    Added,
    Modified,
    Deleted,
}

/// Why a change stream ended. `Compacted` means the server has discarded
/// the history behind the resume token, so only a fresh snapshot can
/// restore a correct view; every other reason permits a plain reconnect.
#[derive(Clone, Copy, PartialEq, Eq, Structural, Debug)]
pub enum CloseReason {
    Disconnect,
    IdleTimeout,
    Transport,
    Compacted,
}

/// Why a snapshot call failed. A transport failure is always retried with
/// backoff; a missing collection is a permanent configuration error that
/// stops the loop and is surfaced to the operator.
#[derive(Clone, Copy, PartialEq, Eq, Structural, Debug)]
pub enum SnapshotError {
    Transport,
    NotFound,
}

impl SnapshotError {
    /// Only transport-class snapshot failures are retried.
    pub fn is_retryable(&self) -> (r: bool)
        ensures
            r == (*self is Transport),
    {
        match self {
            SnapshotError::Transport => true,
            SnapshotError::NotFound => false,
        }
    }
}

/// A normalized event as the consumer sees it: which callback to invoke
/// and the object to hand it.
pub struct ChangeEvent {
    pub kind: EventKind,
    pub object: ResourceObject,
}

/// A consumer callback failure, reported by the caller of the dispatcher.
/// It is counted and otherwise isolated from the reconciliation loop.
pub struct DispatchError {
    pub detail: String,
}

/// The server's status code on an in-band stream error that says the
/// resume token can no longer be resolved (history was compacted).
pub const GONE_CODE: u16 = 410;

/// The token a raw event advances the cursor past, if any. Object events
/// and progress markers carry one; an in-band error carries none.
pub open spec fn spec_event_token(ev: RawEvent) -> Option<u64> {
    match ev {
        RawEvent::Added(_, t) => Some(t),
        RawEvent::Modified(_, t) => Some(t),
        RawEvent::Deleted(_, t) => Some(t),
        RawEvent::Marker(t) => Some(t),
        RawEvent::Error(_) => None,
    }
}

/// The consumer-facing payload of a raw event: the kind and the object,
/// present exactly for the three object-carrying variants.
pub open spec fn spec_event_payload(ev: RawEvent) -> Option<ChangeEvent> {
    match ev {
        RawEvent::Added(o, _) => Some(ChangeEvent { kind: EventKind::Added, object: o }),
        RawEvent::Modified(o, _) => Some(ChangeEvent { kind: EventKind::Modified, object: o }),
        RawEvent::Deleted(o, _) => Some(ChangeEvent { kind: EventKind::Deleted, object: o }),
        RawEvent::Marker(_) => None,
        RawEvent::Error(_) => None,
    }
}

} // verus!
