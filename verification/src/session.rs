//! Delivery guarantees over one continuous streaming session.
//!
//! A session is the sequence of raw events one open stream yielded, in
//! order. Per event, the loop's handlers advance the cursor by the event's
//! token — for object events only after dispatch has returned — and hand
//! every object event to the consumer. The folds below state the cursor
//! position and the dispatch record after any such sequence, and the proof
//! functions establish the session-wide guarantees: the cursor never
//! regresses, it ends at or beyond every processed token, every object
//! event is dispatched at least once, and a failing consumer changes none
//! of it.

use vstd::prelude::*;
use crate::cursor::spec_advance;
use crate::event::{spec_event_payload, spec_event_token, ChangeEvent, CloseReason, RawEvent};
use crate::reconcile::{spec_backoff_elapsed, spec_close, spec_dispatched, Informer};

verus! {

/// Cursor order: `None` (nothing processed) precedes everything; otherwise
/// compare tokens.
pub open spec fn spec_cursor_le(a: Option<u64>, b: Option<u64>) -> bool {
    match a {
        None => true,
        Some(x) => b is Some && x <= b->0,
    }
}

/// The cursor after processing one raw event: advanced by the event's
/// token if it carries one (for object events, via the parked token once
/// dispatch returned), unchanged otherwise.
pub open spec fn spec_session_step(c: Option<u64>, ev: RawEvent) -> Option<u64> {
    match spec_event_token(ev) {
        Some(t) => spec_advance(c, t),
        None => c,
    }
}

/// The cursor after a session that processed `evs` in order, starting
/// from position `c0`.
pub open spec fn spec_session_cursor(c0: Option<u64>, evs: Seq<RawEvent>) -> Option<u64>
    decreases evs.len(),
{
    if evs.len() == 0 {
        c0
    } else {
        spec_session_step(spec_session_cursor(c0, evs.drop_last()), evs.last())
    }
}

/// Everything the session handed to the consumer, in delivery order: the
/// payloads of the object events; markers and errors reach nobody.
pub open spec fn spec_session_dispatched(evs: Seq<RawEvent>) -> Seq<ChangeEvent>
    decreases evs.len(),
{
    if evs.len() == 0 {
        Seq::empty()
    } else {
        let rest = spec_session_dispatched(evs.drop_last());
        match spec_event_payload(evs.last()) {
            Some(e) => rest.push(e),
            None => rest,
        }
    }
}

/// One processed event never moves the cursor backwards.
pub proof fn lemma_step_monotone(c: Option<u64>, ev: RawEvent)
    ensures
        spec_cursor_le(c, spec_session_step(c, ev)),
{
}

/// The cursor order is transitive.
pub proof fn lemma_cursor_le_trans(a: Option<u64>, b: Option<u64>, c: Option<u64>)
    requires
        spec_cursor_le(a, b),
        spec_cursor_le(b, c),
    ensures
        spec_cursor_le(a, c),
{
}

/// Cursor monotonicity: within one continuous streaming session, the
/// cursor observed after each processed event is non-decreasing — for any
/// two prefixes of the session, the longer one's cursor is no earlier.
pub proof fn lemma_cursor_monotone(c0: Option<u64>, evs: Seq<RawEvent>, i: int, j: int)
    requires
        0 <= i <= j <= evs.len(),
    ensures
        spec_cursor_le(spec_session_cursor(c0, evs.take(i)), spec_session_cursor(c0, evs.take(j))),
    decreases j - i,
{
    if i == j {
        lemma_cursor_le_trans(
            spec_session_cursor(c0, evs.take(i)),
            spec_session_cursor(c0, evs.take(i)),
            spec_session_cursor(c0, evs.take(j)),
        );
    } else {
        lemma_cursor_monotone(c0, evs, i, j - 1);
        assert(evs.take(j).drop_last() =~= evs.take(j - 1));
        lemma_step_monotone(spec_session_cursor(c0, evs.take(j - 1)), evs.take(j).last());
        lemma_cursor_le_trans(
            spec_session_cursor(c0, evs.take(i)),
            spec_session_cursor(c0, evs.take(j - 1)),
            spec_session_cursor(c0, evs.take(j)),
        );
    }
}

/// The session's final cursor lies at or beyond every token the session
/// processed.
pub proof fn lemma_session_covers(c0: Option<u64>, evs: Seq<RawEvent>, i: int)
    requires
        0 <= i < evs.len(),
        spec_event_token(evs[i]) is Some,
    ensures
        spec_cursor_le(Some(spec_event_token(evs[i])->0), spec_session_cursor(c0, evs)),
    decreases evs.len(),
{
    let prev = spec_session_cursor(c0, evs.drop_last());
    if i == evs.len() - 1 {
        assert(evs.last() == evs[i]);
    } else {
        lemma_session_covers(c0, evs.drop_last(), i);
        lemma_step_monotone(prev, evs.last());
        lemma_cursor_le_trans(
            Some(spec_event_token(evs[i])->0),
            prev,
            spec_session_cursor(c0, evs),
        );
    }
}

/// At-least-once delivery, never lost: every object event a session
/// processed — in particular every event between the cursor position the
/// session started from and the one it reached — appears in what was
/// handed to the consumer.
pub proof fn lemma_at_least_once(evs: Seq<RawEvent>, i: int)
    requires
        0 <= i < evs.len(),
        spec_event_payload(evs[i]) is Some,
    ensures
        spec_session_dispatched(evs).contains(spec_event_payload(evs[i])->0),
    decreases evs.len(),
{
    let rest = spec_session_dispatched(evs.drop_last());
    if i == evs.len() - 1 {
        assert(spec_session_dispatched(evs)[rest.len() as int] == spec_event_payload(evs[i])->0);
    } else {
        lemma_at_least_once(evs.drop_last(), i);
        let j = choose|j: int|
            0 <= j < rest.len() && rest[j] == spec_event_payload(evs.drop_last()[i])->0;
        assert(spec_session_dispatched(evs)[j] == spec_event_payload(evs[i])->0);
    }
}

/// Delivery preserves arrival order: what the session handed to the
/// consumer is exactly the session's object events, in stream order, with
/// the markers and errors left out. In particular, events for one object
/// reach the consumer in the order the server applied them.
pub proof fn lemma_dispatch_preserves_order(evs: Seq<RawEvent>)
    ensures
        spec_session_dispatched(evs) == evs.filter(
            |e: RawEvent| spec_event_payload(e) is Some,
        ).map_values(|e: RawEvent| spec_event_payload(e)->0),
    decreases evs.len(),
{
    reveal(Seq::filter);
    let pred = |e: RawEvent| spec_event_payload(e) is Some;
    let proj = |e: RawEvent| spec_event_payload(e)->0;
    if evs.len() == 0 {
        assert(spec_session_dispatched(evs) =~= evs.filter(pred).map_values(proj));
    } else {
        lemma_dispatch_preserves_order(evs.drop_last());
        if pred(evs.last()) {
            evs.drop_last().filter(pred).lemma_push_map_commute(proj, evs.last());
            assert(spec_session_dispatched(evs) =~= evs.filter(pred).map_values(proj));
        } else {
            assert(spec_session_dispatched(evs) =~= evs.filter(pred).map_values(proj));
        }
    }
}

/// Isolation: a failing consumer callback is invisible to the loop. After
/// a dispatch report, the cursor, the state, the parked token and the
/// backoff counter are exactly what they would be had the callback
/// succeeded; only the tally of callback failures differs.
pub proof fn lemma_dispatch_isolation(m: Informer)
    ensures
        spec_dispatched(m, false).cursor == spec_dispatched(m, true).cursor,
        spec_dispatched(m, false).state == spec_dispatched(m, true).state,
        spec_dispatched(m, false).pending == spec_dispatched(m, true).pending,
        spec_dispatched(m, false).consecutive_failures == spec_dispatched(
            m,
            true,
        ).consecutive_failures,
        spec_dispatched(m, false).relist_after_backoff == spec_dispatched(
            m,
            true,
        ).relist_after_backoff,
{
}

/// Compaction forces a relist: after a stream close classified as
/// history-compacted, the machine is committed to a fresh snapshot —
/// immediately, or directly after its backoff wait elapses — and in no
/// case does it reconnect with the stale token first.
pub proof fn lemma_compaction_forces_relist(m: Informer)
    ensures
        spec_close(m, CloseReason::Compacted).relist_pending(),
        spec_close(m, CloseReason::Compacted).state is Backoff ==> spec_backoff_elapsed(
            spec_close(m, CloseReason::Compacted),
        ).state is Relisting,
{
}

} // verus!
