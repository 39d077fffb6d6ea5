//! Device session bookkeeping around the raw HID writes: the fixed transport
//! mode, de-duplication against the last successfully applied color, and the
//! monotonically increasing send/error counters.
//!
//! The raw write itself is I/O and stays with the caller. Setting the
//! lightbar is therefore a two-step protocol: `set_lightbar_request` yields
//! the encoded report to write (or nothing when the color is already
//! applied), and `set_lightbar_complete` records how the write went.

use vstd::prelude::*;

use crate::report::{encode, spec_report, Color, TransportMode};

verus! {

/// The state of one device session. The mode is fixed at construction;
/// `last_color` is the last successfully applied color, absent until a write
/// has succeeded; the counters only ever grow and are never reset.
pub struct Session {
    pub mode: TransportMode,
    pub last_color: Option<Color>,
    pub send_count: u64,
    pub error_count: u64,
}

impl Session {
    /// A fresh session: no sends, no errors, and no color applied yet.
    pub open spec fn spec_new(mode: TransportMode) -> Session {
        Session { mode, last_color: None, send_count: 0, error_count: 0 }
    }

    pub fn new(mode: TransportMode) -> (session: Session)
        ensures
            session == Session::spec_new(mode),
    {
        Session { mode, last_color: None, send_count: 0, error_count: 0 }
    }

    /// What a request to show `color` must write: nothing when the color
    /// equals the last successfully applied one, else the encoded report for
    /// this session's mode. While no write has succeeded, nothing counts as
    /// applied, so every request asks for a write.
    pub open spec fn spec_lightbar_request(self, color: Color) -> Option<Seq<u8>> {
        if self.last_color == Some(color) {
            None
        } else {
            Some(spec_report(self.mode, color))
        }
    }

    /// The session state after the write for `color` completed: on success
    /// the color becomes the last applied one and one send is counted; on
    /// failure one error is counted and everything else is untouched.
    pub open spec fn spec_complete(self, color: Color, ok: bool) -> Session {
        if ok {
            Session { last_color: Some(color), send_count: (self.send_count + 1) as u64, ..self }
        } else {
            Session { error_count: (self.error_count + 1) as u64, ..self }
        }
    }

    /// The report that must be written to show `color`, or `None` when
    /// `color` equals the last successfully applied color and the write may
    /// be skipped.
    pub fn set_lightbar_request(&self, color: Color) -> (report: Option<Vec<u8>>)
        ensures
            report is Some <==> self.spec_lightbar_request(color) is Some,
            report is Some ==> report.unwrap()@ == self.spec_lightbar_request(color).unwrap(),
    {
        let already_applied = match self.last_color {
            Some(last) => last == color,
            None => false,
        };
        if already_applied {
            None
        } else {
            Some(encode(self.mode, color))
        }
    }

    /// Record the outcome of the write that `set_lightbar_request` asked
    /// for.
    pub fn set_lightbar_complete(&mut self, color: Color, ok: bool)
        requires
            ok ==> old(self).send_count < u64::MAX,
            !ok ==> old(self).error_count < u64::MAX,
        ensures
            *final(self) == old(self).spec_complete(color, ok),
    {
        if ok {
            self.last_color = Some(color);
            self.send_count = self.send_count + 1;
        } else {
            self.error_count = self.error_count + 1;
        }
    }

    /// A read-only snapshot of the counters: sends first, errors second.
    pub fn get_stats(&self) -> (stats: (u64, u64))
        ensures
            stats.0 == self.send_count,
            stats.1 == self.error_count,
    {
        (self.send_count, self.error_count)
    }
}

/// A fresh session has no successfully applied color, so its first request
/// asks for a write whatever the color — black included.
pub proof fn lemma_fresh_session_always_writes(mode: TransportMode, color: Color)
    ensures
        Session::spec_new(mode).spec_lightbar_request(color) is Some,
{
}

/// De-duplication: once a write of `color` has succeeded, requesting the same
/// color again asks for no write at all, and the success itself counted
/// exactly one send and no error.
pub proof fn lemma_set_color_dedup(session: Session, color: Color)
    requires
        session.send_count < u64::MAX,
    ensures
        ({
            let after = session.spec_complete(color, true);
            &&& after.spec_lightbar_request(color) is None
            &&& after.send_count == session.send_count + 1
            &&& after.error_count == session.error_count
        }),
{
}

/// Error accounting: a failed write counts exactly one error, leaves the send
/// count untouched, and does not move the last applied color — so a request
/// for the same color afterwards still asks for a write instead of being
/// skipped.
pub proof fn lemma_write_error_allows_retry(session: Session, color: Color)
    requires
        session.error_count < u64::MAX,
    ensures
        ({
            let after = session.spec_complete(color, false);
            &&& after.error_count == session.error_count + 1
            &&& after.send_count == session.send_count
            &&& after.last_color == session.last_color
            &&& after.spec_lightbar_request(color) == session.spec_lightbar_request(color)
        }),
{
}

} // verus!
