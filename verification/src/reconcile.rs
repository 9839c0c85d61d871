//! The reconciliation loop as a verified state machine.
//!
//! The loop alternates snapshot-then-stream cycles. The unverified driver
//! performs each returned [`Action`] — the list call, the stream call, the
//! consumer callback, the wait — and reports the outcome back through the
//! `on_*` handlers; every decision in between is made and verified here.
//!
//! The driver's per-cycle protocol:
//! 1. state `Relisting`: call the snapshot; report `on_snapshot_ok` (then
//!    deliver each returned synthetic event, reporting `on_dispatched`
//!    after each) or `on_snapshot_err`.
//! 2. state `Streaming`: open the stream at the action's token; for each
//!    raw event call `on_stream_event`, and when it says `Deliver`, invoke
//!    the consumer callback and report `on_dispatched`; when the stream
//!    ends call `on_stream_closed`.
//! 3. state `Backoff`: wait the action's delay, then call
//!    `on_backoff_elapsed`.
//! 4. `on_cancel` may be called at any point; state `Terminated` ends the
//!    loop.

use vstd::prelude::*;
use crate::backoff;
use crate::backoff::BackoffParams;
use crate::cursor::{spec_advance, Cursor};
use crate::dispatch::{classify_event, Disposition};
use crate::event::{
    spec_event_payload, spec_event_token, ChangeEvent, CloseReason, DispatchError, EventKind,
    RawEvent, SnapshotError,
};
use crate::object::ResourceObject;

verus! {

/// The loop's state. `Terminated` is reached only on explicit cancellation
/// or on a permanently missing collection, never on an ordinary error.
#[derive(Clone, Copy, PartialEq, Eq, Structural, Debug)]
pub enum LoopState {
    Relisting,
    Streaming,
    Backoff,
    Terminated,
}

/// What the driver must do next.
pub enum Action {
    /// Perform a full listing of the collection.
    Snapshot,
    /// Open the change stream anchored right after `since`.
    OpenStream { since: u64 },
    /// Invoke the consumer callback for this event, then report the
    /// outcome through `on_dispatched`.
    Deliver { event: ChangeEvent },
    /// Keep reading the open stream; nothing else to do.
    Continue,
    /// Wait this many milliseconds, then report `on_backoff_elapsed`.
    Wait { delay_ms: u64 },
    /// The collection does not exist: surface the error to the operator
    /// and stop; this is a permanent configuration failure.
    ReportNotFound,
    /// Release the connection and end the loop.
    Stop,
}

/// One watched collection's reconciliation state machine.
pub struct Informer {
    pub state: LoopState,
    /// In `Backoff`: whether the wait must be followed by a relist rather
    /// than a plain reconnect.
    pub relist_after_backoff: bool,
    /// The resume cursor: the last durably processed version token.
    pub cursor: Cursor,
    /// The token of the event currently in the consumer's hands, to be
    /// applied to the cursor only once dispatch has returned.
    pub pending: Option<u64>,
    /// Failures since the last completed delivery; drives the backoff.
    pub consecutive_failures: u64,
    /// Consumer callback failures seen so far; counted, never acted on.
    pub dispatch_failures: u64,
    pub params: BackoffParams,
}

/// A saturating increment.
pub open spec fn spec_incr(n: u64) -> u64 {
    if n < u64::MAX {
        (n + 1) as u64
    } else {
        n
    }
}

impl Informer {
    /// The machine's invariant: valid backoff configuration; a cursor
    /// exists whenever a stream is or will be anchored at it; an event is
    /// in the consumer's hands only while streaming.
    pub open spec fn wf(&self) -> bool {
        &&& self.params.valid()
        &&& (self.state is Streaming ==> self.cursor.value is Some)
        &&& (self.state is Backoff && !self.relist_after_backoff ==> self.cursor.value is Some)
        &&& (self.pending is Some ==> self.state is Streaming)
    }

    /// Whether the machine is committed to a fresh snapshot before any
    /// further streaming: it is relisting now, or waiting out a backoff
    /// that ends in a relist.
    pub open spec fn relist_pending(&self) -> bool {
        self.state is Relisting || (self.state is Backoff && self.relist_after_backoff)
    }
}

/// A successful snapshot seats the cursor at the snapshot's token and moves
/// to streaming; the failure counter is untouched (only deliveries reset
/// it).
pub open spec fn spec_snapshot_ok(m: Informer, token: u64) -> Informer {
    Informer { state: LoopState::Streaming, cursor: (Cursor { value: Some(token) }), ..m }
}

/// A transport-class snapshot failure counts against the machine and backs
/// off into another relist.
pub open spec fn spec_snapshot_failed(m: Informer) -> Informer {
    Informer {
        state: LoopState::Backoff,
        relist_after_backoff: true,
        consecutive_failures: spec_incr(m.consecutive_failures),
        ..m
    }
}

/// A stream close counts as one failure. Past the tolerated threshold the
/// machine backs off first; otherwise it relists at once when the close
/// means the history behind the cursor was compacted, and reconnects at
/// once for every other reason.
pub open spec fn spec_close(m: Informer, reason: CloseReason) -> Informer {
    let f = spec_incr(m.consecutive_failures);
    let relist = reason is Compacted;
    if f > m.params.failure_threshold {
        Informer {
            state: LoopState::Backoff,
            relist_after_backoff: relist,
            consecutive_failures: f,
            ..m
        }
    } else if relist {
        Informer { state: LoopState::Relisting, consecutive_failures: f, ..m }
    } else {
        Informer { state: LoopState::Streaming, consecutive_failures: f, ..m }
    }
}

/// A completed dispatch applies the parked token to the cursor, resets the
/// consecutive-failure counter, and — for a failed callback — bumps the
/// dispatch-failure count. Nothing else depends on the callback's outcome.
pub open spec fn spec_dispatched(m: Informer, ok: bool) -> Informer {
    let c = match m.pending {
        Some(t) => spec_advance(m.cursor.value, t),
        None => m.cursor.value,
    };
    Informer {
        cursor: (Cursor { value: c }),
        pending: None,
        consecutive_failures: 0,
        dispatch_failures: if ok {
            m.dispatch_failures
        } else {
            spec_incr(m.dispatch_failures)
        },
        ..m
    }
}

/// An elapsed backoff resumes where the last failure left off: a relist if
/// one is owed, else a reconnect at the unchanged cursor.
pub open spec fn spec_backoff_elapsed(m: Informer) -> Informer {
    if m.relist_after_backoff {
        Informer { state: LoopState::Relisting, ..m }
    } else {
        Informer { state: LoopState::Streaming, ..m }
    }
}

impl Informer {
    /// A fresh machine: nothing processed yet, about to take its first
    /// snapshot.
    pub fn new(params: BackoffParams) -> (m: Informer)
        requires
            params.valid(),
        ensures
            m.wf(),
            m.state is Relisting,
            m.cursor.value is None,
            m.pending is None,
            m.consecutive_failures == 0,
            m.dispatch_failures == 0,
            m.params == params,
    {
        Informer {
            state: LoopState::Relisting,
            relist_after_backoff: false,
            cursor: Cursor::new(),
            pending: None,
            consecutive_failures: 0,
            dispatch_failures: 0,
            params,
        }
    }

    /// A snapshot succeeded: seat the cursor at its token, move to
    /// streaming, and return one synthetic `Added` event per snapshot
    /// object, in order, for the driver to deliver. Re-delivery of
    /// already-seen objects is expected: a relist means the consumer's
    /// prior view may be arbitrarily stale.
    pub fn on_snapshot_ok(&mut self, objects: Vec<ResourceObject>, token: u64) -> (events: Vec<
        ChangeEvent,
    >)
        requires
            old(self).wf(),
            old(self).state is Relisting,
        ensures
            final(self).wf(),
            *final(self) == spec_snapshot_ok(*old(self), token),
            final(self).state is Streaming,
            final(self).cursor.value == Some(token),
            events@.len() == objects@.len(),
            forall|i: int|
                0 <= i < objects@.len() ==> events@[i] == (ChangeEvent {
                    kind: EventKind::Added,
                    object: objects@[i],
                }),
    {
        self.cursor.seed(token);
        self.state = LoopState::Streaming;
        let ghost orig = objects@;
        let mut rest = objects;
        let mut events: Vec<ChangeEvent> = Vec::new();
        proof {
            assert(rest@ =~= orig.subrange(0, orig.len() as int));
        }
        while rest.len() > 0
            invariant
                events@.len() + rest@.len() == orig.len(),
                rest@ == orig.subrange(events@.len() as int, orig.len() as int),
                forall|i: int|
                    0 <= i < events@.len() ==> events@[i] == (ChangeEvent {
                        kind: EventKind::Added,
                        object: orig[i],
                    }),
            decreases rest@.len(),
        {
            let o = rest.remove(0);
            events.push(ChangeEvent { kind: EventKind::Added, object: o });
            proof {
                assert(rest@ =~= orig.subrange(events@.len() as int, orig.len() as int));
            }
        }
        events
    }

    /// A snapshot failed. A missing collection is permanent: stop and
    /// surface it. A transport failure backs off (the wait grows with the
    /// failure count and is capped) and then relists again.
    pub fn on_snapshot_err(&mut self, err: SnapshotError, jitter_draw: u64) -> (a: Action)
        requires
            old(self).wf(),
            old(self).state is Relisting,
        ensures
            final(self).wf(),
            err is NotFound ==> *final(self) == (Informer {
                state: LoopState::Terminated,
                ..*old(self)
            }) && a is ReportNotFound,
            err is Transport ==> ({
                &&& *final(self) == spec_snapshot_failed(*old(self))
                &&& (a matches Action::Wait { delay_ms } && delay_ms as int == backoff::spec_delay(
                    old(self).params,
                    spec_incr(old(self).consecutive_failures),
                    jitter_draw,
                ))
            }),
    {
        match err {
            SnapshotError::NotFound => {
                self.state = LoopState::Terminated;
                Action::ReportNotFound
            }
            SnapshotError::Transport => {
                let f = if self.consecutive_failures < u64::MAX {
                    self.consecutive_failures + 1
                } else {
                    self.consecutive_failures
                };
                self.consecutive_failures = f;
                self.state = LoopState::Backoff;
                self.relist_after_backoff = true;
                let d = backoff::delay_ms(&self.params, f, jitter_draw);
                Action::Wait { delay_ms: d }
            }
        }
    }

    /// One raw event arrived on the open stream. An object event is handed
    /// to the consumer and its token parked until `on_dispatched`; a
    /// progress marker advances the cursor at once and reaches nobody; an
    /// in-band error ends the stream with its classified reason, exactly
    /// as `on_stream_closed`.
    pub fn on_stream_event(&mut self, ev: RawEvent, jitter_draw: u64) -> (a: Action)
        requires
            old(self).wf(),
            old(self).state is Streaming,
            old(self).pending is None,
        ensures
            final(self).wf(),
            spec_event_payload(ev) is Some ==> ({
                &&& *final(self) == (Informer { pending: spec_event_token(ev), ..*old(self) })
                &&& (a matches Action::Deliver { event } && Some(event) == spec_event_payload(ev))
            }),
            (ev matches RawEvent::Marker(t) ==> ({
                &&& *final(self) == (Informer {
                    cursor: (Cursor { value: spec_advance(old(self).cursor.value, t) }),
                    ..*old(self)
                })
                &&& a is Continue
            })),
            (ev matches RawEvent::Error(code) ==> ({
                let reason = crate::dispatch::spec_close_reason(code);
                &&& *final(self) == spec_close(*old(self), reason)
                &&& close_action_ensures(*old(self), reason, jitter_draw, a)
                &&& (reason is Compacted ==> !(a is OpenStream) && final(self).relist_pending())
            })),
    {
        let d = classify_event(ev);
        match d {
            Disposition::Deliver { event, token } => {
                self.pending = Some(token);
                Action::Deliver { event }
            }
            Disposition::Advance { token } => {
                self.cursor.advance(token);
                Action::Continue
            }
            Disposition::Close { reason } => self.on_stream_closed(reason, jitter_draw),
        }
    }

    /// The stream closed. Every close counts as one failure and requires a
    /// fresh `OpenStream` or `Snapshot` call — never an implicit
    /// resumption. Past the tolerated threshold the machine waits first;
    /// otherwise a compacted history forces an immediate relist, and any
    /// other reason gets an immediate reconnect at the unchanged cursor.
    pub fn on_stream_closed(&mut self, reason: CloseReason, jitter_draw: u64) -> (a: Action)
        requires
            old(self).wf(),
            old(self).state is Streaming,
            old(self).pending is None,
        ensures
            final(self).wf(),
            *final(self) == spec_close(*old(self), reason),
            close_action_ensures(*old(self), reason, jitter_draw, a),
            reason is Compacted ==> !(a is OpenStream) && final(self).relist_pending(),
            final(self).cursor == old(self).cursor,
    {
        let f = if self.consecutive_failures < u64::MAX {
            self.consecutive_failures + 1
        } else {
            self.consecutive_failures
        };
        self.consecutive_failures = f;
        let relist = match reason {
            CloseReason::Compacted => true,
            _ => false,
        };
        if f > self.params.failure_threshold {
            self.state = LoopState::Backoff;
            self.relist_after_backoff = relist;
            let d = backoff::delay_ms(&self.params, f, jitter_draw);
            Action::Wait { delay_ms: d }
        } else if relist {
            self.state = LoopState::Relisting;
            Action::Snapshot
        } else {
            self.state = LoopState::Streaming;
            let since = self.cursor.read().unwrap();
            Action::OpenStream { since }
        }
    }

    /// The consumer callback returned for the event last handed out. Only
    /// now does the parked token reach the cursor — at-least-once across
    /// restarts — and the consecutive-failure counter resets. A callback
    /// failure is counted and otherwise isolated: cursor, state and the
    /// machine's future behaviour are exactly as on success.
    pub fn on_dispatched(&mut self, result: Result<(), DispatchError>)
        requires
            old(self).wf(),
            old(self).state is Streaming,
        ensures
            final(self).wf(),
            *final(self) == spec_dispatched(*old(self), result is Ok),
            final(self).state is Streaming,
            final(self).pending is None,
            final(self).consecutive_failures == 0,
            old(self).cursor.value is Some ==> final(self).cursor.value->0 >= old(
                self,
            ).cursor.value->0,
    {
        match self.pending {
            Some(t) => {
                self.cursor.advance(t);
                self.pending = None;
            }
            None => {},
        }
        self.consecutive_failures = 0;
        match result {
            Ok(_) => {},
            Err(_) => {
                if self.dispatch_failures < u64::MAX {
                    self.dispatch_failures = self.dispatch_failures + 1;
                }
            },
        }
    }

    /// The backoff wait has elapsed: relist if one is owed, else reconnect
    /// at the unchanged cursor.
    pub fn on_backoff_elapsed(&mut self) -> (a: Action)
        requires
            old(self).wf(),
            old(self).state is Backoff,
        ensures
            final(self).wf(),
            *final(self) == spec_backoff_elapsed(*old(self)),
            old(self).relist_after_backoff ==> final(self).state is Relisting && a is Snapshot,
            !old(self).relist_after_backoff ==> final(self).state is Streaming && (a matches
                Action::OpenStream { since } && old(self).cursor.value == Some(since)),
    {
        if self.relist_after_backoff {
            self.state = LoopState::Relisting;
            Action::Snapshot
        } else {
            self.state = LoopState::Streaming;
            let since = self.cursor.read().unwrap();
            Action::OpenStream { since }
        }
    }

    /// Explicit shutdown, from any state: release everything and end.
    pub fn on_cancel(&mut self) -> (a: Action)
        requires
            old(self).wf(),
        ensures
            final(self).wf(),
            *final(self) == (Informer {
                state: LoopState::Terminated,
                pending: None,
                ..*old(self)
            }),
            a is Stop,
    {
        self.state = LoopState::Terminated;
        self.pending = None;
        Action::Stop
    }
}

/// The follow-up action owed after a stream close: a capped, jittered wait
/// past the failure threshold; otherwise an immediate snapshot when the
/// history was compacted, and an immediate reconnect at the old cursor for
/// every other reason.
pub open spec fn close_action_ensures(
    m: Informer,
    reason: CloseReason,
    jitter_draw: u64,
    a: Action,
) -> bool {
    let f = spec_incr(m.consecutive_failures);
    &&& (f > m.params.failure_threshold ==> (a matches Action::Wait { delay_ms } && delay_ms
        as int == backoff::spec_delay(m.params, f, jitter_draw)))
    &&& (f <= m.params.failure_threshold && reason is Compacted ==> a is Snapshot)
    &&& (f <= m.params.failure_threshold && !(reason is Compacted) ==> (a matches
        Action::OpenStream { since } && m.cursor.value == Some(since)))
}

} // verus!
