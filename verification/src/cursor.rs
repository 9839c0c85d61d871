//! The resume cursor: the most recent collection version token known to be
//! durably processed. Owned by one reconciliation loop; advanced only after
//! the event dispatcher has returned, and never moved backwards within one
//! streaming session. A relist starts a new session and may reseat it.

use vstd::prelude::*;

verus! {

/// What advancing a cursor position by a token yields: the token if it is
/// strictly newer than the position, otherwise the position unchanged.
pub open spec fn spec_advance(c: Option<u64>, t: u64) -> Option<u64> {
    match c {
        None => Some(t),
        Some(v) => if t > v { Some(t) } else { Some(v) },
    }
}

/// The resume cursor. `None` until the first snapshot seeds it.
pub struct Cursor {
    pub value: Option<u64>,
}

impl Cursor {
    /// A cursor that has processed nothing yet.
    pub fn new() -> (c: Cursor)
        ensures
            c.value is None,
    {
        Cursor { value: None }
    }

    /// The last durably processed token, if any.
    pub fn read(&self) -> (r: Option<u64>)
        ensures
            r == self.value,
    {
        self.value
    }

    /// Advance to `t`; a no-op unless `t` is strictly newer. The cursor
    /// never regresses: the new position is at least the old one.
    pub fn advance(&mut self, t: u64)
        ensures
            final(self).value == spec_advance(old(self).value, t),
            final(self).value is Some,
            old(self).value is Some ==> final(self).value->0 >= old(self).value->0,
    {
        match self.value {
            None => {
                self.value = Some(t);
            }
            Some(v) => {
                if t > v {
                    self.value = Some(t);
                }
            }
        }
    }

    /// Seat the cursor at the token of a fresh snapshot. Used only across a
    /// relist boundary, where the previous session's position is obsolete.
    pub fn seed(&mut self, t: u64)
        ensures
            final(self).value == Some(t),
    {
        self.value = Some(t);
    }
}

} // verus!
