//! The event dispatcher's verified half: normalizing raw protocol events.
//!
//! Every raw event has exactly one disposition: object events are delivered
//! to the consumer, progress markers only advance the cursor, and an
//! in-band error closes the stream with a classified reason. Invoking the
//! consumer callback itself is the caller's (unverified) half; its outcome
//! is reported back to the reconciliation loop, which isolates failures.

use vstd::prelude::*;
use crate::event::{ChangeEvent, CloseReason, EventKind, RawEvent, GONE_CODE};

verus! {

/// What to do with one raw event.
pub enum Disposition {
    /// Hand the event to the consumer callback, then advance the cursor to
    /// the token.
    Deliver { event: ChangeEvent, token: u64 },
    /// Nothing reaches the consumer; the cursor advances to the token.
    Advance { token: u64 },
    /// The stream is over; reconnect or relist according to the reason.
    Close { reason: CloseReason },
}

/// Classification of an in-band stream error: the "gone" status code means
/// the resume token was compacted away; anything else is treated as a
/// transient transport-class failure.
pub open spec fn spec_close_reason(code: u16) -> CloseReason {
    if code == GONE_CODE {
        CloseReason::Compacted
    } else {
        CloseReason::Transport
    }
}

/// The disposition of each raw event.
pub open spec fn spec_classify(ev: RawEvent) -> Disposition {
    match ev {
        RawEvent::Added(o, t) => Disposition::Deliver {
            event: ChangeEvent { kind: EventKind::Added, object: o },
            token: t,
        },
        RawEvent::Modified(o, t) => Disposition::Deliver {
            event: ChangeEvent { kind: EventKind::Modified, object: o },
            token: t,
        },
        RawEvent::Deleted(o, t) => Disposition::Deliver {
            event: ChangeEvent { kind: EventKind::Deleted, object: o },
            token: t,
        },
        RawEvent::Marker(t) => Disposition::Advance { token: t },
        RawEvent::Error(code) => Disposition::Close { reason: spec_close_reason(code) },
    }
}

/// Normalize one raw protocol event. Every event category has a defined
/// disposition; nothing is silently dropped.
pub fn classify_event(ev: RawEvent) -> (d: Disposition)
    ensures
        d == spec_classify(ev),
{
    match ev {
        RawEvent::Added(o, t) => Disposition::Deliver {
            event: ChangeEvent { kind: EventKind::Added, object: o },
            token: t,
        },
        RawEvent::Modified(o, t) => Disposition::Deliver {
            event: ChangeEvent { kind: EventKind::Modified, object: o },
            token: t,
        },
        RawEvent::Deleted(o, t) => Disposition::Deliver {
            event: ChangeEvent { kind: EventKind::Deleted, object: o },
            token: t,
        },
        RawEvent::Marker(t) => Disposition::Advance { token: t },
        RawEvent::Error(code) => Disposition::Close {
            reason: if code == GONE_CODE {
                CloseReason::Compacted
            } else {
                CloseReason::Transport
            },
        },
    }
}

} // verus!
